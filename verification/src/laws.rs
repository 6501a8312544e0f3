//! What holds of every engine, whatever its bundles and languages.

use vstd::prelude::*;

use crate::args::ArgView;
use crate::catalog::TranslateError;
use crate::config::Locale;
use crate::engine::{
    built_from, first_for, lemma_resolve_in, lemma_resolve_none, lookup_in, text_at, I18n,
};

verus! {

/// Whether no bundle of the engine has the tag `tag`.
pub open spec fn unregistered(engine: I18n, tag: Seq<char>) -> bool {
    forall|i: int| 0 <= i < engine.store().len() ==> (#[trigger] engine.store()[i]).tag() != tag
}

/// Where the selected language has a bundle, the first registered bundle of
/// that language answers every request, whatever the fallback is.
pub proof fn law_selected_bundle_answers(
    engine: I18n,
    i: int,
    id: Seq<char>,
    args: Map<Seq<char>, ArgView>,
)
    requires
        first_for(engine.store(), engine.selected(), i),
    ensures
        engine.lookup(id, args) == engine.store()[i].outcome(id, args),
{
    lemma_resolve_in(engine.store(), engine.selected(), i);
}

/// Selecting the tag of a registered bundle and asking, without arguments,
/// for a message that the bundle holds with a value gives exactly what that
/// bundle's catalog formats for it.
///
/// The bundle has to be the first registered one for its tag: a bundle
/// registered later under the same tag is never asked.
pub proof fn law_registered_message_is_formatted(engine: I18n, i: int, id: Seq<char>)
    requires
        first_for(engine.store(), engine.selected(), i),
        engine.store()[i].entries().contains_key(id),
        engine.store()[i].entries()[id],
    ensures
        engine.lookup(id, Map::empty()) == Ok::<_, TranslateError>(
            engine.store()[i].rendering(id, Map::empty()),
        ),
{
    law_selected_bundle_answers(engine, i, id, Map::empty());
}

/// In an engine built from registered locales, selecting the tag of a locale
/// makes the bundle compiled from that locale's catalog text answer every
/// request.
///
/// The locale has to be the first registered one with its tag: a locale
/// registered later under the same tag is compiled and never asked.
pub proof fn law_registered_locale_answers(
    engine: I18n,
    locales: Seq<Locale>,
    loaded: Seq<Option<String>>,
    i: int,
    id: Seq<char>,
    args: Map<Seq<char>, ArgView>,
)
    requires
        built_from(engine, locales, loaded),
        0 <= i < locales.len(),
        engine.selected() == locales[i].tag(),
        forall|j: int| 0 <= j < i ==> (#[trigger] locales[j]).tag() != locales[i].tag(),
    ensures
        engine.lookup(id, args) == engine.store()[i].outcome(id, args),
        text_at(locales, loaded, i) == Some(engine.store()[i].source()),
{
    let store = engine.store();
    assert forall|j: int| 0 <= j < i implies (#[trigger] store[j]).tag() != engine.selected() by {
        assert(locales[j].tag() != locales[i].tag());
    }
    assert(first_for(store, engine.selected(), i));
    law_selected_bundle_answers(engine, i, id, args);
}

/// Where neither the selected language has a bundle nor a fallback is set,
/// every request gives the message identifier back unchanged.
pub proof fn law_no_bundle_gives_identifier(
    engine: I18n,
    id: Seq<char>,
    args: Map<Seq<char>, ArgView>,
)
    requires
        unregistered(engine, engine.selected()),
        engine.fallback() is None,
    ensures
        engine.lookup(id, args) == Ok::<_, TranslateError>(
            (id, Seq::<Seq<char>>::empty()),
        ),
{
    lemma_resolve_none(engine.store(), engine.selected());
}

/// Where the selected language has no bundle and the fallback language has
/// one, the first registered bundle of the fallback language answers.
pub proof fn law_fallback_bundle_answers(
    engine: I18n,
    i: int,
    id: Seq<char>,
    args: Map<Seq<char>, ArgView>,
)
    requires
        unregistered(engine, engine.selected()),
        engine.fallback() matches Some(tag) && first_for(engine.store(), tag, i),
    ensures
        engine.lookup(id, args) == engine.store()[i].outcome(id, args),
{
    lemma_resolve_none(engine.store(), engine.selected());
    lemma_resolve_in(engine.store(), engine.fallback()->Some_0, i);
}

/// Where neither the selected nor the fallback language has a bundle, every
/// request gives the message identifier back unchanged.
pub proof fn law_unserved_fallback_gives_identifier(
    engine: I18n,
    id: Seq<char>,
    args: Map<Seq<char>, ArgView>,
)
    requires
        unregistered(engine, engine.selected()),
        engine.fallback() matches Some(tag) && unregistered(engine, tag),
    ensures
        engine.lookup(id, args) == Ok::<_, TranslateError>(
            (id, Seq::<Seq<char>>::empty()),
        ),
{
    lemma_resolve_none(engine.store(), engine.selected());
    lemma_resolve_none(engine.store(), engine.fallback()->Some_0);
}

/// A request is answered from the bundles, the selected language and the
/// fallback language alone: two engines that agree on these give the same
/// answer to the same request, so asking again gives the same answer again.
pub proof fn law_same_state_same_answer(
    first: I18n,
    second: I18n,
    id: Seq<char>,
    args: Map<Seq<char>, ArgView>,
)
    requires
        first.store() == second.store(),
        first.selected() == second.selected(),
        first.fallback() == second.fallback(),
    ensures
        first.lookup(id, args) == second.lookup(id, args),
{
}

/// After the selected language is set, the very next request is answered
/// for the new language: the language selected before plays no part.
pub proof fn law_selection_takes_effect(
    before: I18n,
    after: I18n,
    tag: Seq<char>,
    id: Seq<char>,
    args: Map<Seq<char>, ArgView>,
)
    requires
        after.selected() == tag,
        after.fallback() == before.fallback(),
        after.store() == before.store(),
    ensures
        after.lookup(id, args) == lookup_in(before.store(), tag, before.fallback(), id, args),
{
}

} // verus!
