//! What an engine is built from: the languages on offer and where their
//! catalog texts come from.

use vstd::prelude::*;

use crate::tag::LanguageTag;

verus! {

/// Where the catalog text of one language comes from.
#[derive(Debug)]
pub enum LocaleResource {
    /// Text that is part of the program.
    Static(&'static str),
    /// The path of a file that holds the text.
    Path(String),
}

/// The text that a resource gives, where `read` is what storage returned for
/// its path (`None`: nothing could be read).
pub open spec fn resource_text(resource: LocaleResource, read: Option<Seq<char>>) -> Option<
    Seq<char>,
> {
    match resource {
        LocaleResource::Static(text) => Some(text@),
        LocaleResource::Path(_) => read,
    }
}

impl LocaleResource {
    /// The path that has to be read before [`LocaleResource::to_string`] can
    /// give the text; `None` for text that is part of the program.
    pub fn path(&self) -> (r: Option<&str>)
        ensures
            str_text(r) == path_of(*self),
    {
        match self {
            LocaleResource::Static(_) => None,
            LocaleResource::Path(path) => Some(path.as_str()),
        }
    }

    /// The catalog text. Static text is returned as it is, whatever `read`
    /// holds; a path gives what was read from it, and `None` where the read
    /// failed.
    pub fn to_string(&self, read: Option<&str>) -> (r: Option<String>)
        ensures
            option_text(r) == resource_text(*self, str_text(read)),
    {
        match self {
            LocaleResource::Static(text) => Some((*text).to_owned()),
            LocaleResource::Path(_) => match read {
                Some(text) => Some(text.to_owned()),
                None => None,
            },
        }
    }
}

/// The characters of an optional owned text.
pub open spec fn option_text(text: Option<String>) -> Option<Seq<char>> {
    match text {
        Some(t) => Some(t@),
        None => None,
    }
}

/// The characters of an optional borrowed text.
pub open spec fn str_text(text: Option<&str>) -> Option<Seq<char>> {
    match text {
        Some(t) => Some(t@),
        None => None,
    }
}

/// One language on offer: its tag and the source of its catalog.
#[derive(Debug)]
pub struct Locale {
    id: LanguageTag,
    resource: LocaleResource,
}

impl Locale {
    /// The canonical text of the locale's tag.
    pub closed spec fn tag(&self) -> Seq<char> {
        self.id@
    }

    /// Where the locale's catalog text comes from.
    pub closed spec fn source(&self) -> LocaleResource {
        self.resource
    }

    /// A locale whose catalog text is part of the program.
    pub fn new_static(id: LanguageTag, str: &'static str) -> (r: Locale)
        ensures
            r.tag() == id@,
            r.source() == LocaleResource::Static(str),
    {
        Locale { id, resource: LocaleResource::Static(str) }
    }

    /// A locale whose catalog text is read from `path` when the engine is built.
    pub fn new_dynamic(id: LanguageTag, path: String) -> (r: Locale)
        ensures
            r.tag() == id@,
            r.source() == LocaleResource::Path(path),
    {
        Locale { id, resource: LocaleResource::Path(path) }
    }

    /// The locale's tag.
    pub fn id(&self) -> (r: &LanguageTag)
        ensures
            r@ == self.tag(),
    {
        &self.id
    }

    /// The source of the locale's catalog text.
    pub fn resource(&self) -> (r: &LocaleResource)
        ensures
            *r == self.source(),
    {
        &self.resource
    }
}

/// The selected language, an optional fallback, and the locales in the order
/// in which they were registered.
#[derive(Debug)]
pub struct I18nConfig {
    id: LanguageTag,
    fallback: Option<LanguageTag>,
    locales: Vec<Locale>,
}

/// The characters of an optional tag.
pub open spec fn option_tag(tag: Option<LanguageTag>) -> Option<Seq<char>> {
    match tag {
        Some(t) => Some(t@),
        None => None,
    }
}

impl I18nConfig {
    /// The canonical text of the language selected at the start.
    pub closed spec fn selected(&self) -> Seq<char> {
        self.id@
    }

    /// The canonical text of the fallback language, if one is set.
    pub closed spec fn fallback(&self) -> Option<Seq<char>> {
        option_tag(self.fallback)
    }

    /// The registered locales, first registered first.
    pub closed spec fn locales(&self) -> Seq<Locale> {
        self.locales@
    }

    /// A configuration that selects `id`, with no fallback and no locale.
    pub fn new(id: LanguageTag) -> (r: I18nConfig)
        ensures
            r.selected() == id@,
            r.fallback() is None,
            r.locales().len() == 0,
    {
        I18nConfig { id, fallback: None, locales: Vec::new() }
    }

    /// Sets the fallback language.
    pub fn with_fallback(self, fallback: LanguageTag) -> (r: I18nConfig)
        ensures
            r.selected() == self.selected(),
            r.fallback() == Some(fallback@),
            r.locales() == self.locales(),
    {
        let mut config = self;
        config.fallback = Some(fallback);
        config
    }

    /// Registers one more locale, after those already there.
    pub fn with_locale(self, locale: Locale) -> (r: I18nConfig)
        ensures
            r.selected() == self.selected(),
            r.fallback() == self.fallback(),
            r.locales() == self.locales().push(locale),
    {
        let mut config = self;
        config.locales.push(locale);
        config
    }

    /// Takes the configuration apart: the selected language, the fallback
    /// and the locales.
    pub fn into_parts(self) -> (r: (LanguageTag, Option<LanguageTag>, Vec<Locale>))
        ensures
            r.0@ == self.selected(),
            option_tag(r.1) == self.fallback(),
            r.2@ == self.locales(),
    {
        (self.id, self.fallback, self.locales)
    }

    /// For each locale in order, the path that has to be read for it, and
    /// `None` for a locale whose text is part of the program.
    pub fn paths(&self) -> (r: Vec<Option<String>>)
        ensures
            r@.len() == self.locales().len(),
            forall|i: int|
                0 <= i < r@.len() ==> option_text(#[trigger] r@[i]) == path_of(
                    self.locales()[i].source(),
                ),
    {
        let mut paths: Vec<Option<String>> = Vec::new();
        let mut i: usize = 0;
        while i < self.locales.len()
            invariant
                i <= self.locales.len(),
                paths@.len() == i,
                forall|j: int|
                    0 <= j < i ==> option_text(#[trigger] paths@[j]) == path_of(
                        self.locales@[j].resource,
                    ),
            decreases self.locales.len() - i,
        {
            let path = match self.locales[i].resource.path() {
                Some(p) => Some(p.to_owned()),
                None => None,
            };
            paths.push(path);
            i += 1;
        }
        paths
    }
}

/// The path that a resource is read from, if it is read at all.
pub open spec fn path_of(resource: LocaleResource) -> Option<Seq<char>> {
    match resource {
        LocaleResource::Static(_) => None,
        LocaleResource::Path(path) => Some(path@),
    }
}

} // verus!
