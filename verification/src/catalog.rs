//! Compiled message catalogs.
//!
//! A catalog is a `fluent` bundle: it parses the catalog text, keeps the
//! message table and formats patterns. This module states what the rest of the
//! library relies on from it, and wraps one catalog with its language tag as a
//! [`MessageBundle`].

use fluent::{FluentArgs, FluentBundle, FluentResource};
use vstd::prelude::*;

use crate::args::{ArgValue, ArgView, MessageArgs};
use crate::guard::{is_tame, tame};
use crate::tag::{langid_canonical, LanguageTag};

verus! {

/// `fluent::bundle::FluentBundle`: the messages of one locale, compiled.
/// Nothing inside it is visible here; the names and wrappers below say what
/// is relied on.
#[verifier::external_type_specification]
#[verifier::external_body]
#[verifier::reject_recursive_types(R)]
#[verifier::reject_recursive_types(M)]
pub struct ExFluentBundle<R, M>(fluent::bundle::FluentBundle<R, M>);

/// `fluent::FluentResource`: a parsed catalog text, which a bundle owns.
#[verifier::external_type_specification]
#[verifier::external_body]
pub struct ExFluentResource(FluentResource);

/// `intl_memoizer::IntlLangMemoizer`: the cache of formatters that a bundle
/// keeps for its locale.
#[verifier::external_type_specification]
#[verifier::external_body]
pub struct ExIntlLangMemoizer(intl_memoizer::IntlLangMemoizer);

/// A compiled catalog: a `fluent` bundle that owns its resources.
pub type Catalog = FluentBundle<FluentResource>;

/// The canonical text of the language that a catalog was made for.
pub uninterp spec fn catalog_locale(catalog: Catalog) -> Seq<char>;

/// Whether a catalog wraps each formatted placeable in directional isolation
/// marks.
pub uninterp spec fn catalog_isolating(catalog: Catalog) -> bool;

/// The catalog texts that a catalog holds, in the order in which they were added.
pub uninterp spec fn catalog_sources(catalog: Catalog) -> Seq<Seq<char>>;

/// The message table that `fluent` reads from a catalog text: each message
/// identifier that a bundle made from this text alone answers, with whether
/// that message carries a displayable value.
pub uninterp spec fn ftl_table(source: Seq<char>) -> Map<Seq<char>, bool>;

/// Whether `fluent` parses a catalog text as a resource, without an error.
pub uninterp spec fn ftl_parses(source: Seq<char>) -> bool;

/// Whether `fluent` adds the resource parsed from a catalog text to an empty
/// bundle without finding an identifier that the text defines twice.
pub uninterp spec fn ftl_distinct(source: Seq<char>) -> bool;

/// What `fluent` makes of the value of message `id` under `args`, in a
/// bundle made for `locale` from the text `source` alone, with or without
/// isolation marks: the text, and a description of each problem it met on
/// the way.
pub uninterp spec fn ftl_format(
    locale: Seq<char>,
    isolating: bool,
    source: Seq<char>,
    id: Seq<char>,
    args: Map<Seq<char>, ArgView>,
) -> (Seq<char>, Seq<Seq<char>>);

/// Why a catalog text was not compiled.
#[derive(Debug, Clone, Copy, PartialEq, Eq, Structural)]
pub enum Rejection {
    /// `fluent` can abort on the text: see [`crate::guard`].
    Unsupported,
    /// The text does not parse as a catalog.
    Unparsable,
    /// The text defines an identifier twice.
    Conflicting,
}

/// Why a catalog text is not compiled, and `None` where it is.
pub open spec fn rejection_of(source: Seq<char>) -> Option<Rejection> {
    if !tame(source) {
        Some(Rejection::Unsupported)
    } else if !ftl_parses(source) {
        Some(Rejection::Unparsable)
    } else if !ftl_distinct(source) {
        Some(Rejection::Conflicting)
    } else {
        None
    }
}

/// Makes a catalog from one text: calls `FluentBundle::new` with the one
/// locale `tag`, `FluentBundle::set_use_isolating`, `FluentResource::try_new`
/// on `source` and, where that parses, `FluentBundle::add_resource`.
///
/// Trusted: `Unparsable` comes back exactly where `try_new` reports an error,
/// `Conflicting` exactly where `add_resource` does; otherwise the bundle is
/// made for that locale, isolates as asked and holds exactly that text. `tag`
/// is parsed back into a `LanguageIdentifier`; `requires` says that it is the
/// canonical text of one, so that identifier is written as `tag` again. The
/// parser aborts on a unicode escape that is cut short before a character of
/// several bytes, and it descends once for each placeable or call that is
/// open inside another; `requires` leaves out the first and bounds the second
/// by [`crate::guard::MAX_DEPTH`].
#[verifier::external_body]
fn make_catalog(tag: &str, isolating: bool, source: String) -> (r: Result<Catalog, Rejection>)
    requires
        langid_canonical(tag@) == Some(tag@),
        tame(source@),
    ensures
        match r {
            Ok(catalog) => {
                &&& ftl_parses(source@)
                &&& ftl_distinct(source@)
                &&& catalog_locale(catalog) == tag@
                &&& catalog_isolating(catalog) == isolating
                &&& catalog_sources(catalog) == seq![source@]
            },
            Err(rejection) => {
                ||| rejection == Rejection::Unparsable && !ftl_parses(source@)
                ||| rejection == Rejection::Conflicting && ftl_parses(source@) && !ftl_distinct(
                    source@,
                )
            },
        },
{
    let mut catalog = FluentBundle::new(vec![tag.parse().expect("a canonical language tag")]);
    catalog.set_use_isolating(isolating);
    let resource = match FluentResource::try_new(source) {
        Ok(resource) => resource,
        Err(_) => return Err(Rejection::Unparsable),
    };
    match catalog.add_resource(resource) {
        Ok(()) => Ok(catalog),
        Err(_) => Err(Rejection::Conflicting),
    }
}

/// Calls `FluentBundle::has_message`.
///
/// Trusted: for a catalog that holds one text, it answers whether `id` is in
/// the message table of that text.
#[verifier::external_body]
fn has_message(catalog: &Catalog, id: &str) -> (r: bool)
    requires
        catalog_sources(*catalog).len() == 1,
    ensures
        r == ftl_table(catalog_sources(*catalog)[0]).contains_key(id@),
{
    catalog.has_message(id)
}

/// Calls `FluentBundle::get_message` and `FluentMessage::value` for the
/// pattern of `id`, then `FluentBundle::format_pattern` with `args` copied
/// into a `FluentArgs`, and describes each `FluentError` by its `Display`.
///
/// Trusted: there is a result exactly when `id` is a message with a value in
/// the table of the catalog's one text, and it is the named function of the
/// catalog's locale, whether it isolates, that text, the identifier and the
/// mapping that `args` stands for. `format_pattern` gives up after a hundred
/// placeables and then writes the name of the placeable it was in, which
/// aborts where that holds nothing but another placeable or selects on a
/// literal; a number literal with twenty digits or more after the dot, where
/// it is selected on or handed to a term, can overflow the plural operands;
/// and the formatter descends once for each placeable or call that is open
/// inside another, in each of at most a hundred messages that refer to one
/// another. `requires` leaves out every catalog in which the hundred-and-first
/// placeable can be met inside such a placeable, or which holds such a
/// literal, or which nests deeper than [`crate::guard::MAX_DEPTH`].
#[verifier::external_body]
fn format_message(catalog: &Catalog, id: &str, args: &MessageArgs) -> (r: Option<(String, Vec<String>)>)
    requires
        args.wf(),
        catalog_sources(*catalog).len() == 1,
        tame(catalog_sources(*catalog)[0]),
    ensures
        match r {
            Some(out) => {
                &&& ftl_table(catalog_sources(*catalog)[0]).contains_key(id@)
                &&& ftl_table(catalog_sources(*catalog)[0])[id@]
                &&& (out.0@, out.1.deep_view()) == ftl_format(
                    catalog_locale(*catalog),
                    catalog_isolating(*catalog),
                    catalog_sources(*catalog)[0],
                    id@,
                    args@,
                )
            },
            None => !(ftl_table(catalog_sources(*catalog)[0]).contains_key(id@) && ftl_table(
                catalog_sources(*catalog)[0],
            )[id@]),
        },
{
    let mut fluent_args = FluentArgs::new();
    for arg in args.entries.iter() {
        match &arg.value {
            ArgValue::Text(text) => fluent_args.set(arg.name.as_str(), text.as_str()),
            ArgValue::Number(number) => fluent_args.set(arg.name.as_str(), *number),
        }
    }
    let pattern = catalog.get_message(id)?.value()?;
    let mut errors = vec![];
    let text = catalog.format_pattern(pattern, Some(&fluent_args), &mut errors).into_owned();
    Some((text, errors.iter().map(|e| e.to_string()).collect()))
}

/// Why a lookup in a catalog gave no text.
#[derive(Debug, Clone, Copy, PartialEq, Eq, Structural)]
pub enum TranslateError {
    /// The catalog that serves the request has no message of that identifier.
    MessageNotFound,
    /// The message exists but has attributes only, and no value to display.
    PatternMissing,
}

/// A formatted message.
#[derive(Debug)]
pub struct Translation {
    /// The text to display.
    pub text: String,
    /// What went wrong while formatting, such as a variable without a value.
    /// The text is the best that could be made all the same.
    pub warnings: Vec<String>,
}

impl View for Translation {
    type V = (Seq<char>, Seq<Seq<char>>);

    open spec fn view(&self) -> (Seq<char>, Seq<Seq<char>>) {
        (self.text@, self.warnings.deep_view())
    }
}

/// What the result of a lookup stands for: the text with its warnings, or the error.
pub open spec fn lookup_view(r: Result<Translation, TranslateError>) -> Result<
    (Seq<char>, Seq<Seq<char>>),
    TranslateError,
> {
    match r {
        Ok(translation) => Ok(translation@),
        Err(error) => Err(error),
    }
}

/// What a catalog's answers amount to: `known` is whether it has the message,
/// `rendered` is what it made of the message's value, if the message has one.
pub open spec fn settled(known: bool, rendered: Option<(Seq<char>, Seq<Seq<char>>)>) -> Result<
    (Seq<char>, Seq<Seq<char>>),
    TranslateError,
> {
    if !known {
        Err(TranslateError::MessageNotFound)
    } else {
        match rendered {
            Some(rendering) => Ok(rendering),
            None => Err(TranslateError::PatternMissing),
        }
    }
}

/// What was formatted, as characters.
pub open spec fn rendered_view(formatted: Option<(String, Vec<String>)>) -> Option<
    (Seq<char>, Seq<Seq<char>>),
> {
    match formatted {
        Some(out) => Some((out.0@, out.1.deep_view())),
        None => None,
    }
}

/// Turns a catalog's answers into the result of a lookup: a message that the
/// catalog does not have is an error, and so is one without a value;
/// otherwise the formatted text is the result, warnings and all.
pub fn settle(known: bool, formatted: Option<(String, Vec<String>)>) -> (r: Result<
    Translation,
    TranslateError,
>)
    ensures
        lookup_view(r) == settled(known, rendered_view(formatted)),
{
    if !known {
        return Err(TranslateError::MessageNotFound);
    }
    match formatted {
        Some((text, warnings)) => Ok(Translation { text, warnings }),
        None => Err(TranslateError::PatternMissing),
    }
}

/// One language tag with its compiled catalog.
pub struct MessageBundle {
    tag: LanguageTag,
    catalog: Catalog,
}

impl MessageBundle {
    #[verifier::type_invariant]
    spec fn well_made(&self) -> bool {
        &&& catalog_locale(self.catalog) == self.tag@
        &&& !catalog_isolating(self.catalog)
        &&& catalog_sources(self.catalog).len() == 1
        &&& tame(catalog_sources(self.catalog)[0])
    }

    /// The canonical text of the bundle's language tag.
    pub closed spec fn tag(&self) -> Seq<char> {
        self.tag@
    }

    /// The canonical text of the language whose plural rules and formatters
    /// the catalog uses. It is the bundle's tag: see [`MessageBundle::language`].
    pub closed spec fn locale(&self) -> Seq<char> {
        catalog_locale(self.catalog)
    }

    /// Whether formatted placeables are wrapped in directional isolation
    /// marks. No bundle does: see [`MessageBundle::language`].
    pub closed spec fn isolating(&self) -> bool {
        catalog_isolating(self.catalog)
    }

    /// The catalog text that the bundle was compiled from.
    pub closed spec fn source(&self) -> Seq<char> {
        catalog_sources(self.catalog)[0]
    }

    /// The message table: each identifier, with whether it has a value.
    pub open spec fn entries(&self) -> Map<Seq<char>, bool> {
        ftl_table(self.source())
    }

    /// The formatted value of message `id` under `args`, with its warnings.
    pub open spec fn rendering(&self, id: Seq<char>, args: Map<Seq<char>, ArgView>) -> (
        Seq<char>,
        Seq<Seq<char>>,
    ) {
        ftl_format(self.locale(), self.isolating(), self.source(), id, args)
    }

    /// What a lookup of `id` in this bundle gives.
    pub open spec fn outcome(&self, id: Seq<char>, args: Map<Seq<char>, ArgView>) -> Result<
        (Seq<char>, Seq<Seq<char>>),
        TranslateError,
    > {
        if !self.entries().contains_key(id) {
            Err(TranslateError::MessageNotFound)
        } else if !self.entries()[id] {
            Err(TranslateError::PatternMissing)
        } else {
            Ok(self.rendering(id, args))
        }
    }

    /// Compiles `source` into a bundle for `tag`. Placeables are written
    /// without directional isolation marks, so that an argument appears in the
    /// text exactly as it was given.
    ///
    /// A text is refused where `fluent` can abort on it (see
    /// [`crate::guard`]), where it does not parse, and where it defines an
    /// identifier twice, in this order.
    pub fn compile(tag: LanguageTag, source: String) -> (r: Result<MessageBundle, Rejection>)
        ensures
            match r {
                Ok(bundle) => {
                    &&& rejection_of(source@) is None
                    &&& bundle.tag() == tag@
                    &&& bundle.locale() == tag@
                    &&& !bundle.isolating()
                    &&& bundle.source() == source@
                },
                Err(rejection) => rejection_of(source@) == Some(rejection),
            },
    {
        if !is_tame(source.as_str()) {
            return Err(Rejection::Unsupported);
        }
        match make_catalog(tag.as_str(), false, source) {
            Ok(catalog) => Ok(MessageBundle { tag, catalog }),
            Err(rejection) => Err(rejection),
        }
    }

    /// The bundle's language tag, which is also the language that its
    /// catalog formats for. Every bundle formats without isolation marks.
    pub fn language(&self) -> (tag: &LanguageTag)
        ensures
            tag@ == self.tag(),
            tag@ == self.locale(),
            !self.isolating(),
    {
        proof {
            use_type_invariant(self);
        }
        &self.tag
    }

    /// Whether the bundle answers for `tag`. Tags match exactly: a bundle for
    /// `en` does not answer for `en-US`.
    pub fn serves(&self, tag: &LanguageTag) -> (r: bool)
        ensures
            r == (self.tag() == tag@),
    {
        self.tag == *tag
    }

    /// Whether the bundle has a message `id`.
    pub fn has_message(&self, id: &str) -> (r: bool)
        ensures
            r == self.entries().contains_key(id@),
    {
        proof {
            use_type_invariant(self);
        }
        has_message(&self.catalog, id)
    }

    /// Formats message `id` with `args`.
    pub fn format(&self, id: &str, args: &MessageArgs) -> (r: Result<Translation, TranslateError>)
        ensures
            lookup_view(r) == self.outcome(id@, args@),
    {
        proof {
            use_type_invariant(args);
            use_type_invariant(self);
        }
        let known = has_message(&self.catalog, id);
        let formatted = if known {
            format_message(&self.catalog, id, args)
        } else {
            None
        };
        settle(known, formatted)
    }
}

} // verus!
