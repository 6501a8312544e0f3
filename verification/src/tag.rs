//! Language tags, compared by their canonical text.

use vstd::prelude::*;

verus! {

/// The canonical text that `unic_langid` gives for a tag, or `None` where it
/// rejects the text as no well-formed language identifier.
pub uninterp spec fn langid_canonical(text: Seq<char>) -> Option<Seq<char>>;

/// Calls `unic_langid::canonicalize`, which parses `text` as a language
/// identifier and writes it back with normalized case and `-` separators.
///
/// Trusted: the result is the named canonical form of `text`. Nothing is
/// claimed of reading a canonical form back.
#[verifier::external_body]
fn canonicalize(text: &str) -> (r: Option<String>)
    ensures
        match r {
            Some(c) => langid_canonical(text@) == Some(c@),
            None => langid_canonical(text@) is None,
        },
{
    unic_langid::canonicalize(text).ok()
}

/// Why a text was not accepted as a language tag.
#[derive(Debug, Clone, Copy, PartialEq, Eq, Structural)]
pub enum TagError {
    /// The text is not a well-formed language identifier.
    Malformed,
    /// The text is a well-formed identifier, but its canonical form reads
    /// back as another one, so it cannot stand for the identifier. This
    /// happens where sorting the variants brings one of four letters to the
    /// place where a script is looked for: `en-zzzzz-aaaa` is written as
    /// `en-aaaa-zzzzz`, which reads as the script `Aaaa`.
    Unstable,
}

/// What reading `text` as a tag gives: the canonical form where that form
/// reads back as itself, and else the reason why there is no tag.
pub open spec fn tag_of_text(text: Seq<char>) -> Result<Seq<char>, TagError> {
    match langid_canonical(text) {
        None => Err(TagError::Malformed),
        Some(canonical) => if langid_canonical(canonical) == Some(canonical) {
            Ok(canonical)
        } else {
            Err(TagError::Unstable)
        },
    }
}

/// An identifier for a language and region, such as `en-US`.
///
/// A tag is immutable and is only ever compared for equality. It holds the
/// canonical spelling of the identifier, so `en-us`, `en_US` and `en-US` are
/// the same tag.
#[derive(Debug)]
pub struct LanguageTag {
    text: String,
}

impl View for LanguageTag {
    type V = Seq<char>;

    /// The canonical text of the tag.
    closed spec fn view(&self) -> Seq<char> {
        self.text@
    }
}

impl LanguageTag {
    #[verifier::type_invariant]
    spec fn is_canonical(&self) -> bool {
        langid_canonical(self.text@) == Some(self.text@)
    }

    /// Reads a tag from text, in any case and with `-` or `_` between subtags.
    /// The canonical form is read once more, and the text is refused where
    /// that does not give the same form again.
    pub fn parse(text: &str) -> (r: Result<LanguageTag, TagError>)
        ensures
            match r {
                Ok(tag) => tag_of_text(text@) == Ok::<_, TagError>(tag@),
                Err(error) => tag_of_text(text@) == Err::<Seq<char>, _>(error),
            },
    {
        let canonical = match canonicalize(text) {
            Some(canonical) => canonical,
            None => {
                return Err(TagError::Malformed);
            },
        };
        match canonicalize(canonical.as_str()) {
            Some(again) => {
                if again == canonical {
                    Ok(LanguageTag { text: canonical })
                } else {
                    Err(TagError::Unstable)
                }
            },
            None => Err(TagError::Unstable),
        }
    }

    /// The canonical text of the tag. Reading it back gives the same tag.
    pub fn as_str(&self) -> (s: &str)
        ensures
            s@ == self@,
            tag_of_text(s@) == Ok::<_, TagError>(s@),
    {
        proof {
            use_type_invariant(self);
        }
        self.text.as_str()
    }
}

impl PartialEq for LanguageTag {
    /// Two tags are equal where they name the same language identifier.
    fn eq(&self, other: &LanguageTag) -> (r: bool) {
        self.text == other.text
    }
}

impl vstd::std_specs::cmp::PartialEqSpecImpl for LanguageTag {
    open spec fn obeys_eq_spec() -> bool {
        true
    }

    open spec fn eq_spec(&self, other: &LanguageTag) -> bool {
        self@ == other@
    }
}

impl Eq for LanguageTag {

}

impl Clone for LanguageTag {
    fn clone(&self) -> (r: LanguageTag)
        ensures
            r@ == self@,
    {
        proof {
            use_type_invariant(self);
        }
        LanguageTag { text: self.text.clone() }
    }
}

} // verus!
