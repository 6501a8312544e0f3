//! The translation engine: a store of bundles, the selected language and the
//! fallback language, and lookup among them.

use vstd::prelude::*;

use crate::args::{ArgView, MessageArgs};
use crate::catalog::{
    lookup_view, rejection_of, MessageBundle, Rejection, TranslateError, Translation,
};
use crate::config::{option_tag, option_text, resource_text, I18nConfig, Locale};
use crate::tag::LanguageTag;

verus! {

/// What a text and its warnings, or an error, stand for.
pub type Outcome = Result<(Seq<char>, Seq<Seq<char>>), TranslateError>;

/// Whether bundle `i` of `store` is the first one whose tag is `tag`.
pub open spec fn first_for(store: Seq<MessageBundle>, tag: Seq<char>, i: int) -> bool {
    &&& 0 <= i < store.len()
    &&& store[i].tag() == tag
    &&& forall|j: int| 0 <= j < i ==> (#[trigger] store[j]).tag() != tag
}

/// The position of the bundle that answers for `tag`: the first one with
/// exactly that tag, and `None` where no bundle has it.
pub open spec fn resolve_in(store: Seq<MessageBundle>, tag: Seq<char>) -> Option<int> {
    if exists|i: int| first_for(store, tag, i) {
        Some(choose|i: int| first_for(store, tag, i))
    } else {
        None
    }
}

/// The position of the bundle that serves a request: the one for the selected
/// language, else the one for the fallback language if a fallback is set.
pub open spec fn serving_in(
    store: Seq<MessageBundle>,
    selected: Seq<char>,
    fallback: Option<Seq<char>>,
) -> Option<int> {
    match resolve_in(store, selected) {
        Some(i) => Some(i),
        None => match fallback {
            Some(tag) => resolve_in(store, tag),
            None => None,
        },
    }
}

/// What a request for message `id` gives: the serving bundle's answer, and
/// the identifier itself, without warnings, where no bundle serves.
pub open spec fn lookup_in(
    store: Seq<MessageBundle>,
    selected: Seq<char>,
    fallback: Option<Seq<char>>,
    id: Seq<char>,
    args: Map<Seq<char>, ArgView>,
) -> Outcome {
    match serving_in(store, selected, fallback) {
        Some(i) => store[i].outcome(id, args),
        None => Ok((id, Seq::empty())),
    }
}

/// The text of an outcome, without its warnings.
pub open spec fn text_of(outcome: Outcome) -> Result<Seq<char>, TranslateError> {
    match outcome {
        Ok(rendered) => Ok(rendered.0),
        Err(error) => Err(error),
    }
}

/// What a returned text, or error, stands for.
pub open spec fn text_view(r: Result<String, TranslateError>) -> Result<Seq<char>, TranslateError> {
    match r {
        Ok(text) => Ok(text@),
        Err(error) => Err(error),
    }
}

/// The mapping that optional arguments stand for: none are no arguments.
pub open spec fn args_view(args: Option<&MessageArgs>) -> Map<Seq<char>, ArgView> {
    match args {
        Some(a) => a@,
        None => Map::empty(),
    }
}

/// At most one bundle answers for a tag.
pub proof fn lemma_first_for_unique(store: Seq<MessageBundle>, tag: Seq<char>, i: int, j: int)
    requires
        first_for(store, tag, i),
        first_for(store, tag, j),
    ensures
        i == j,
{
    if i < j {
        assert(store[i].tag() != tag);
    } else if j < i {
        assert(store[j].tag() != tag);
    }
}

/// `resolve_in` finds the first bundle for a tag.
pub proof fn lemma_resolve_in(store: Seq<MessageBundle>, tag: Seq<char>, i: int)
    requires
        first_for(store, tag, i),
    ensures
        resolve_in(store, tag) == Some(i),
{
    let chosen = choose|k: int| first_for(store, tag, k);
    lemma_first_for_unique(store, tag, i, chosen);
}

/// `resolve_in` finds nothing where no bundle has the tag.
pub proof fn lemma_resolve_none(store: Seq<MessageBundle>, tag: Seq<char>)
    requires
        forall|i: int| 0 <= i < store.len() ==> (#[trigger] store[i]).tag() != tag,
    ensures
        resolve_in(store, tag) is None,
{
}

/// Why an engine could not be built.
#[derive(Debug, Clone, Copy, PartialEq, Eq, Structural)]
pub enum InitError {
    /// The catalog text of the locale at this position could not be read.
    ResourceLoadError { index: usize },
    /// The catalog text of the locale at this position was read but is
    /// refused, for the reason given.
    ResourceParseError { index: usize, rejection: Rejection },
}

/// What storage returned for the locale at position `i`: nothing where the
/// read failed, where nothing was read, or where `loaded` is too short.
pub open spec fn read_at(loaded: Seq<Option<String>>, i: int) -> Option<Seq<char>> {
    if 0 <= i < loaded.len() {
        option_text(loaded[i])
    } else {
        None
    }
}

/// The catalog text of the locale at position `i`, if it could be had.
pub open spec fn text_at(locales: Seq<Locale>, loaded: Seq<Option<String>>, i: int) -> Option<
    Seq<char>,
> {
    resource_text(locales[i].source(), read_at(loaded, i))
}

/// What is wrong with the locale at position `i`, if anything.
pub open spec fn failure_at(locales: Seq<Locale>, loaded: Seq<Option<String>>, i: int) -> Option<
    InitError,
> {
    match text_at(locales, loaded, i) {
        None => Some(InitError::ResourceLoadError { index: i as usize }),
        Some(text) => match rejection_of(text) {
            None => None,
            Some(rejection) => Some(InitError::ResourceParseError { index: i as usize, rejection }),
        },
    }
}

/// Whether `bundle` is the locale at position `i`, compiled.
pub open spec fn compiled_from(
    bundle: MessageBundle,
    locales: Seq<Locale>,
    loaded: Seq<Option<String>>,
    i: int,
) -> bool {
    &&& bundle.tag() == locales[i].tag()
    &&& bundle.locale() == locales[i].tag()
    &&& !bundle.isolating()
    &&& text_at(locales, loaded, i) == Some(bundle.source())
}

/// Whether the bundles of `engine` are the locales, compiled one by one in
/// the order in which they were registered.
pub open spec fn built_from(engine: I18n, locales: Seq<Locale>, loaded: Seq<Option<String>>) -> bool {
    &&& engine.store().len() == locales.len()
    &&& forall|i: int|
        0 <= i < locales.len() ==> compiled_from(#[trigger] engine.store()[i], locales, loaded, i)
}

/// Builds the engine: compiles the catalog of each locale of `config`, in
/// order, into one bundle. `loaded[i]` is what storage returned for the path
/// of locale `i` (see [`I18nConfig::paths`]); it is not looked at for a locale
/// whose text is part of the program.
///
/// Nothing is built unless every locale can be: the error names the first
/// locale whose text could not be read or is refused.
pub fn use_init_i18n(config: I18nConfig, loaded: Vec<Option<String>>) -> (r: Result<
    I18n,
    InitError,
>)
    ensures
        match r {
            Ok(engine) => {
                &&& engine.selected() == config.selected()
                &&& engine.fallback() == config.fallback()
                &&& built_from(engine, config.locales(), loaded@)
                &&& forall|i: int|
                    0 <= i < config.locales().len() ==> #[trigger] failure_at(
                        config.locales(),
                        loaded@,
                        i,
                    ) is None
            },
            Err(error) => exists|i: int|
                {
                    &&& 0 <= i < config.locales().len()
                    &&& #[trigger] failure_at(config.locales(), loaded@, i) == Some(error)
                    &&& forall|j: int|
                        0 <= j < i ==> #[trigger] failure_at(config.locales(), loaded@, j) is None
                },
        },
{
    let ghost wanted = config.locales();
    let (selected, fallback, locales) = config.into_parts();
    let mut bundles: Vec<MessageBundle> = Vec::new();
    let mut i: usize = 0;
    while i < locales.len()
        invariant
            locales@ == wanted,
            wanted == config.locales(),
            i <= locales.len(),
            bundles@.len() == i,
            forall|j: int| 0 <= j < i ==> #[trigger] failure_at(wanted, loaded@, j) is None,
            forall|j: int| 0 <= j < i ==> compiled_from(#[trigger] bundles@[j], wanted, loaded@, j),
        decreases locales.len() - i,
    {
        let locale = &locales[i];
        let read = if i < loaded.len() {
            match &loaded[i] {
                Some(text) => Some(text.as_str()),
                None => None,
            }
        } else {
            None
        };
        let text = match locale.resource().to_string(read) {
            Some(text) => text,
            None => {
                return Err(InitError::ResourceLoadError { index: i });
            },
        };
        let bundle = match MessageBundle::compile(locale.id().clone(), text) {
            Ok(bundle) => bundle,
            Err(rejection) => {
                return Err(InitError::ResourceParseError { index: i, rejection });
            },
        };
        assert(failure_at(wanted, loaded@, i as int) is None);
        bundles.push(bundle);
        i += 1;
    }
    Ok(I18n { selected, fallback, bundles })
}

/// The engine: which language is selected, which one stands in for it, and
/// the bundles to choose from. The bundles never change after the engine is
/// built; the two languages may be set any number of times.
pub struct I18n {
    selected: LanguageTag,
    fallback: Option<LanguageTag>,
    bundles: Vec<MessageBundle>,
}

impl I18n {
    /// The canonical text of the selected language.
    pub closed spec fn selected(&self) -> Seq<char> {
        self.selected@
    }

    /// The canonical text of the fallback language, if one is set.
    pub closed spec fn fallback(&self) -> Option<Seq<char>> {
        option_tag(self.fallback)
    }

    /// The bundles, first registered first.
    pub closed spec fn store(&self) -> Seq<MessageBundle> {
        self.bundles@
    }

    /// What a request for message `id` with `args` gives in this state.
    pub open spec fn lookup(&self, id: Seq<char>, args: Map<Seq<char>, ArgView>) -> Outcome {
        lookup_in(self.store(), self.selected(), self.fallback(), id, args)
    }

    /// The position of the first bundle whose tag is exactly `tag`.
    fn position(&self, tag: &LanguageTag) -> (r: Option<usize>)
        ensures
            match r {
                Some(i) => resolve_in(self.store(), tag@) == Some(i as int) && i < self.store().len(),
                None => resolve_in(self.store(), tag@) is None,
            },
    {
        let mut i: usize = 0;
        while i < self.bundles.len()
            invariant
                i <= self.bundles.len(),
                forall|j: int| 0 <= j < i ==> (#[trigger] self.bundles@[j]).tag() != tag@,
            decreases self.bundles.len() - i,
        {
            if self.bundles[i].serves(tag) {
                proof {
                    lemma_resolve_in(self.bundles@, tag@, i as int);
                }
                return Some(i);
            }
            i += 1;
        }
        proof {
            lemma_resolve_none(self.bundles@, tag@);
        }
        None
    }

    /// The bundle that answers for `tag`: the first registered one with
    /// exactly that tag. A bundle for `en` does not answer for `en-US`.
    pub fn resolve(&self, tag: &LanguageTag) -> (r: Option<&MessageBundle>)
        ensures
            match r {
                Some(bundle) => resolve_in(self.store(), tag@) matches Some(i) && *bundle
                    == self.store()[i],
                None => resolve_in(self.store(), tag@) is None,
            },
    {
        match self.position(tag) {
            Some(i) => Some(&self.bundles[i]),
            None => None,
        }
    }

    /// The bundle that serves requests in this state: the one for the
    /// selected language, else the one for the fallback language.
    pub fn serving(&self) -> (r: Option<&MessageBundle>)
        ensures
            match r {
                Some(bundle) => serving_in(self.store(), self.selected(), self.fallback())
                    matches Some(i) && *bundle == self.store()[i],
                None => serving_in(self.store(), self.selected(), self.fallback()) is None,
            },
    {
        match self.resolve(&self.selected) {
            Some(bundle) => Some(bundle),
            None => match &self.fallback {
                Some(tag) => self.resolve(tag),
                None => None,
            },
        }
    }

    /// Formats message `msg` with `args` and reports what went wrong on the
    /// way. Where no bundle serves, the result is `msg` itself, without
    /// warnings: a missing catalog degrades, a missing message is an error.
    pub fn translate_with_warnings(&self, msg: &str, args: Option<&MessageArgs>) -> (r: Result<
        Translation,
        TranslateError,
    >)
        ensures
            lookup_view(r) == self.lookup(msg@, args_view(args)),
    {
        match self.serving() {
            Some(bundle) => match args {
                Some(given) => bundle.format(msg, given),
                None => {
                    let empty = MessageArgs::new();
                    bundle.format(msg, &empty)
                },
            },
            None => {
                let translation = Translation { text: msg.to_owned(), warnings: Vec::new() };
                assert(translation.warnings.deep_view() =~= Seq::<Seq<char>>::empty());
                Ok(translation)
            },
        }
    }

    /// Formats message `msg` with `args`. The text is that of
    /// [`I18n::translate_with_warnings`]; the warnings are dropped.
    pub fn translate_with_args(&self, msg: &str, args: Option<&MessageArgs>) -> (r: Result<
        String,
        TranslateError,
    >)
        ensures
            text_view(r) == text_of(self.lookup(msg@, args_view(args))),
    {
        match self.translate_with_warnings(msg, args) {
            Ok(translation) => Ok(translation.text),
            Err(error) => Err(error),
        }
    }

    /// Formats message `msg` without arguments.
    pub fn translate(&self, msg: &str) -> (r: Result<String, TranslateError>)
        ensures
            text_view(r) == text_of(self.lookup(msg@, Map::empty())),
    {
        self.translate_with_args(msg, None)
    }

    /// The selected language.
    pub fn language(&self) -> (r: LanguageTag)
        ensures
            r@ == self.selected(),
    {
        self.selected.clone()
    }

    /// The fallback language.
    pub fn fallback_language(&self) -> (r: Option<LanguageTag>)
        ensures
            option_tag(r) == self.fallback(),
    {
        match &self.fallback {
            Some(tag) => Some(tag.clone()),
            None => None,
        }
    }

    /// Selects `id`, whether or not a bundle answers for it.
    pub fn set_language(&mut self, id: LanguageTag)
        ensures
            final(self).selected() == id@,
            final(self).fallback() == old(self).fallback(),
            final(self).store() == old(self).store(),
    {
        self.selected = id;
    }

    /// Makes `id` the fallback, whether or not a bundle answers for it.
    pub fn set_fallback_language(&mut self, id: LanguageTag)
        ensures
            final(self).selected() == old(self).selected(),
            final(self).fallback() == Some(id@),
            final(self).store() == old(self).store(),
    {
        self.fallback = Some(id);
    }
}

} // verus!
