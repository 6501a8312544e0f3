use dioxus_i18n::config::{I18nConfig, Locale, LocaleResource};
use dioxus_i18n::tag::LanguageTag;

fn tag(text: &str) -> LanguageTag {
    LanguageTag::parse(text).unwrap()
}

#[test]
fn static_resource_gives_its_text() {
    let resource = LocaleResource::Static("hello = Hi!");
    assert_eq!(resource.path(), None);
    assert_eq!(resource.to_string(None), Some("hello = Hi!".to_string()));
}

#[test]
fn static_resource_ignores_what_was_read() {
    let resource = LocaleResource::Static("hello = Hi!");
    assert_eq!(resource.to_string(Some("other = text")), Some("hello = Hi!".to_string()));
}

#[test]
fn path_resource_gives_what_was_read() {
    let resource = LocaleResource::Path("./es-ES.ftl".to_string());
    assert_eq!(resource.path(), Some("./es-ES.ftl"));
    assert_eq!(resource.to_string(Some("hello = Hola!")), Some("hello = Hola!".to_string()));
}

#[test]
fn path_resource_without_text_gives_nothing() {
    let resource = LocaleResource::Path("./missing.ftl".to_string());
    assert_eq!(resource.to_string(None), None);
}

#[test]
fn locale_constructors_keep_tag_and_source() {
    let fixed = Locale::new_static(tag("en-US"), "a = b");
    assert_eq!(fixed.id().as_str(), "en-US");
    assert!(matches!(fixed.resource(), LocaleResource::Static("a = b")));
    let read = Locale::new_dynamic(tag("es-ES"), "./es-ES.ftl".to_string());
    assert_eq!(read.id().as_str(), "es-ES");
    assert_eq!(read.resource().path(), Some("./es-ES.ftl"));
}

#[test]
fn config_lists_the_paths_to_read_in_order() {
    let config = I18nConfig::new(tag("en-US"))
        .with_locale(Locale::new_static(tag("en-US"), "a = b"))
        .with_locale(Locale::new_dynamic(tag("es-ES"), "./es-ES.ftl".to_string()))
        .with_locale(Locale::new_dynamic(tag("fr"), "./fr.ftl".to_string()));
    assert_eq!(
        config.paths(),
        vec![None, Some("./es-ES.ftl".to_string()), Some("./fr.ftl".to_string())]
    );
}

#[test]
fn config_without_locales_has_no_paths() {
    let config = I18nConfig::new(tag("en-US"));
    assert_eq!(config.paths(), Vec::<Option<String>>::new());
}

#[test]
fn config_parts_come_back_as_given() {
    let config = I18nConfig::new(tag("en-US"))
        .with_fallback(tag("es-ES"))
        .with_locale(Locale::new_static(tag("fr"), "a = b"));
    let (selected, fallback, locales) = config.into_parts();
    assert_eq!(selected.as_str(), "en-US");
    assert_eq!(fallback.unwrap().as_str(), "es-ES");
    assert_eq!(locales.len(), 1);
    assert_eq!(locales[0].id().as_str(), "fr");
}
