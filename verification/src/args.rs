//! Arguments for parameterized messages.

use vstd::prelude::*;

verus! {

/// A scalar handed to a message: text or a whole number. A number is
/// formatted as `fluent` formats numbers, which is exact up to 2^53.
#[derive(Debug, PartialEq, Eq)]
pub enum ArgValue {
    Text(String),
    Number(i64),
}

/// What an [`ArgValue`] stands for.
pub ghost enum ArgView {
    Text(Seq<char>),
    Number(int),
}

impl View for ArgValue {
    type V = ArgView;

    open spec fn view(&self) -> ArgView {
        match self {
            ArgValue::Text(t) => ArgView::Text(t@),
            ArgValue::Number(n) => ArgView::Number(*n as int),
        }
    }
}

impl ArgValue {
    /// A text value with the characters of `text`.
    pub fn text(text: &str) -> (r: ArgValue)
        ensures
            r@ == ArgView::Text(text@),
    {
        ArgValue::Text(text.to_owned())
    }
}

impl Clone for ArgValue {
    fn clone(&self) -> (r: ArgValue)
        ensures
            r@ == self@,
    {
        match self {
            ArgValue::Text(t) => ArgValue::Text(t.clone()),
            ArgValue::Number(n) => ArgValue::Number(*n),
        }
    }
}

/// One named argument.
#[derive(Debug)]
pub(crate) struct Arg {
    pub(crate) name: String,
    pub(crate) value: ArgValue,
}

/// Whether `i` is a position in `entries` that holds the argument `name`.
spec fn names_at(entries: Seq<Arg>, name: Seq<char>, i: int) -> bool {
    0 <= i < entries.len() && entries[i].name@ == name
}

/// The mapping that a list of arguments with pairwise distinct names stands for.
spec fn args_map(entries: Seq<Arg>) -> Map<Seq<char>, ArgView> {
    Map::new(
        |name: Seq<char>| exists|i: int| names_at(entries, name, i),
        |name: Seq<char>| entries[choose|i: int| names_at(entries, name, i)].value@,
    )
}

/// No two entries carry the same name.
spec fn distinct_names(entries: Seq<Arg>) -> bool {
    forall|i: int, j: int|
        0 <= i < entries.len() && 0 <= j < entries.len() && i != j
            ==> entries[i].name@ != entries[j].name@
}

/// A mapping from parameter names to values, built for one call.
#[derive(Debug)]
pub struct MessageArgs {
    pub(crate) entries: Vec<Arg>,
}

impl View for MessageArgs {
    type V = Map<Seq<char>, ArgView>;

    closed spec fn view(&self) -> Map<Seq<char>, ArgView> {
        args_map(self.entries@)
    }
}

impl MessageArgs {
    /// No name is bound twice.
    #[verifier::type_invariant]
    pub closed spec fn wf(&self) -> bool {
        distinct_names(self.entries@)
    }

    /// No arguments.
    pub fn new() -> (r: MessageArgs)
        ensures
            r@ == Map::<Seq<char>, ArgView>::empty(),
    {
        MessageArgs { entries: Vec::new() }
    }

    /// The position of the entry named `name`, if there is one.
    fn position(&self, name: &str) -> (r: Option<usize>)
        ensures
            match r {
                Some(i) => names_at(self.entries@, name@, i as int),
                None => forall|i: int| !names_at(self.entries@, name@, i),
            },
    {
        let wanted = name.to_owned();
        let mut i: usize = 0;
        while i < self.entries.len()
            invariant
                wanted@ == name@,
                i <= self.entries.len(),
                forall|j: int| 0 <= j < i ==> self.entries@[j].name@ != name@,
            decreases self.entries.len() - i,
        {
            if self.entries[i].name == wanted {
                return Some(i);
            }
            i += 1;
        }
        None
    }

    /// Binds `name` to `value`, replacing an earlier binding of the same name.
    pub fn set(&mut self, name: &str, value: ArgValue)
        ensures
            final(self)@ == old(self)@.insert(name@, value@),
    {
        proof {
            use_type_invariant(&*self);
        }
        let found = self.position(name);
        let ghost before = self.entries@;
        let ghost bound = value@;
        let mut entries: Vec<Arg> = Vec::new();
        std::mem::swap(&mut self.entries, &mut entries);
        match found {
            Some(i) => {
                entries[i].value = value;
                proof {
                    // Every name stays where it was; only the value at `i` differs.
                    let after = entries@;
                    assert forall|key: Seq<char>, k: int| names_at(after, key, k) == names_at(before, key, k) by {}
                    assert(args_map(after) =~= args_map(before).insert(name@, bound));
                }
            },
            None => {
                entries.push(Arg { name: name.to_owned(), value });
                proof {
                    // The new name sits at the end, and nowhere before it.
                    let after = entries@;
                    let last = before.len() as int;
                    assert(names_at(after, name@, last));
                    assert forall|key: Seq<char>, k: int| names_at(before, key, k) implies names_at(after, key, k) by {}
                    assert forall|key: Seq<char>, k: int| names_at(after, key, k) && k != last implies names_at(before, key, k) by {}
                    assert(args_map(after) =~= args_map(before).insert(name@, bound));
                    assert forall|a: int, b: int|
                        0 <= a < after.len() && 0 <= b < after.len() && a != b
                        implies after[a].name@ != after[b].name@ by {
                        if a == last {
                            assert(!names_at(before, name@, b));
                        } else if b == last {
                            assert(!names_at(before, name@, a));
                        }
                    }
                }
            },
        }
        self.entries = entries;
    }

    /// The value bound to `name`.
    pub fn get(&self, name: &str) -> (r: Option<&ArgValue>)
        ensures
            match r {
                Some(v) => self@.contains_key(name@) && self@[name@] == v@,
                None => !self@.contains_key(name@),
            },
    {
        proof {
            use_type_invariant(self);
        }
        match self.position(name) {
            Some(i) => {
                Some(&self.entries[i].value)
            },
            None => None,
        }
    }
}

} // verus!
