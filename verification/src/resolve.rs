//! Picks one value out of many localized alternatives, by an ordered list of
//! preferred region or language codes.

use vstd::prelude::*;
use crate::text::{opt_text, texts};

verus! {

/// A value that is tagged with the region or language it is meant for.
pub trait Localized {
    /// The region or language code of the entry.
    spec fn code(&self) -> Seq<char>;

    /// The text of the entry.
    spec fn value(&self) -> Seq<char>;

    /// Whether the entry is tagged with `code`.
    fn has_code(&self, code: &str) -> (r: bool)
        ensures
            r == (self.code() == code@),
    ;

    /// A copy of the entry's text.
    fn value_text(&self) -> (r: String)
        ensures
            r@ == self.value(),
    ;
}

/// The text of the first entry tagged with `code`.
pub open spec fn keyed<T: Localized>(entries: Seq<T>, code: Seq<char>) -> Option<Seq<char>>
    decreases entries.len(),
{
    if entries.len() == 0 {
        None
    } else if entries[0].code() == code {
        Some(entries[0].value())
    } else {
        keyed(entries.drop_first(), code)
    }
}

/// The text keyed by the first code of `prefs` that tags any entry.
pub open spec fn resolved<T: Localized>(entries: Seq<T>, prefs: Seq<Seq<char>>) -> Option<
    Seq<char>,
>
    decreases prefs.len(),
{
    if prefs.len() == 0 {
        None
    } else {
        match keyed(entries, prefs[0]) {
            Some(v) => Some(v),
            None => resolved(entries, prefs.drop_first()),
        }
    }
}

/// [`keyed`] finds the leftmost entry that carries the code, and finds none
/// only where no entry carries it.
pub proof fn lemma_keyed<T: Localized>(entries: Seq<T>, code: Seq<char>)
    ensures
        match keyed(entries, code) {
            Some(v) => exists|i: int|
                #![trigger entries[i]]
                0 <= i < entries.len() && entries[i].code() == code && entries[i].value() == v
                    && forall|j: int| 0 <= j < i ==> entries[j].code() != code,
            None => forall|i: int| 0 <= i < entries.len() ==> entries[i].code() != code,
        },
    decreases entries.len(),
{
    if entries.len() == 0 {
    } else if entries[0].code() == code {
        assert(entries[0].value() == keyed(entries, code).unwrap());
    } else {
        let rest = entries.drop_first();
        lemma_keyed(rest, code);
        assert forall|i: int| 0 <= i < rest.len() implies rest[i] == entries[i + 1] by {}
        match keyed(rest, code) {
            Some(v) => {
                let i = choose|i: int|
                    #![trigger rest[i]]
                    0 <= i < rest.len() && rest[i].code() == code && rest[i].value() == v
                        && forall|j: int| 0 <= j < i ==> rest[j].code() != code;
                assert(entries[i + 1].code() == code);
                assert forall|j: int| 0 <= j < i + 1 implies entries[j].code() != code by {
                    if j > 0 {
                        assert(rest[j - 1] == entries[j]);
                    }
                }
            },
            None => {
                assert forall|i: int| 0 <= i < entries.len() implies entries[i].code()
                    != code by {
                    if i > 0 {
                        assert(rest[i - 1] == entries[i]);
                    }
                }
            },
        }
    }
}

/// The resolved value is the one keyed by the first preference that is
/// present among the entries; nothing is resolved only where no preference
/// is present.
pub proof fn lemma_resolved<T: Localized>(entries: Seq<T>, prefs: Seq<Seq<char>>)
    ensures
        match resolved(entries, prefs) {
            Some(v) => exists|k: int|
                #![trigger prefs[k]]
                0 <= k < prefs.len() && keyed(entries, prefs[k]) == Some(v) && forall|j: int|
                    0 <= j < k ==> keyed(entries, #[trigger] prefs[j]) is None,
            None => forall|k: int|
                0 <= k < prefs.len() ==> keyed(entries, #[trigger] prefs[k]) is None,
        },
    decreases prefs.len(),
{
    if prefs.len() == 0 {
    } else if keyed(entries, prefs[0]) is Some {
        assert(keyed(entries, prefs[0]) == resolved(entries, prefs));
    } else {
        let rest = prefs.drop_first();
        lemma_resolved(entries, rest);
        assert forall|k: int| 0 <= k < rest.len() implies rest[k] == prefs[k + 1] by {}
        match resolved(entries, rest) {
            Some(v) => {
                let k = choose|k: int|
                    #![trigger rest[k]]
                    0 <= k < rest.len() && keyed(entries, rest[k]) == Some(v) && forall|j: int|
                        0 <= j < k ==> keyed(entries, #[trigger] rest[j]) is None;
                assert(keyed(entries, prefs[k + 1]) == Some(v));
                assert forall|j: int| 0 <= j < k + 1 implies keyed(
                    entries,
                    #[trigger] prefs[j],
                ) is None by {
                    if j > 0 {
                        assert(rest[j - 1] == prefs[j]);
                    }
                }
            },
            None => {
                assert forall|k: int| 0 <= k < prefs.len() implies keyed(
                    entries,
                    #[trigger] prefs[k],
                ) is None by {
                    if k > 0 {
                        assert(rest[k - 1] == prefs[k]);
                    }
                }
            },
        }
    }
}

/// Resolving over two preference lists in a row is resolving over the first
/// and, where that finds nothing, over the second.
pub proof fn lemma_resolved_concat<T: Localized>(
    entries: Seq<T>,
    first: Seq<Seq<char>>,
    second: Seq<Seq<char>>,
)
    ensures
        resolved(entries, first + second) == match resolved(entries, first) {
            Some(v) => Some(v),
            None => resolved(entries, second),
        },
    decreases first.len(),
{
    if first.len() == 0 {
        assert(first + second == second);
    } else {
        assert((first + second).drop_first() == first.drop_first() + second);
        assert((first + second)[0] == first[0]);
        lemma_resolved_concat(entries, first.drop_first(), second);
    }
}

/// The text of the first entry tagged with `code`.
pub fn lookup<T: Localized>(entries: &Vec<T>, code: &str) -> (r: Option<String>)
    ensures
        opt_text(r) == keyed(entries@, code@),
{
    let mut i: usize = 0;
    assert(entries@.skip(0) == entries@);
    while i < entries.len()
        invariant
            i <= entries.len(),
            keyed(entries@, code@) == keyed(entries@.skip(i as int), code@),
        decreases entries.len() - i,
    {
        if entries[i].has_code(code) {
            return Some(entries[i].value_text());
        }
        assert(entries@.skip(i as int).drop_first() == entries@.skip(i + 1));
        i += 1;
    }
    None
}

/// The text keyed by the first code of `prefs` that tags any entry.
pub fn resolve<T: Localized>(entries: &Vec<T>, prefs: &Vec<String>) -> (r: Option<String>)
    ensures
        opt_text(r) == resolved(entries@, texts(prefs@)),
{
    let mut i: usize = 0;
    assert(texts(prefs@).skip(0) == texts(prefs@));
    while i < prefs.len()
        invariant
            i <= prefs.len(),
            resolved(entries@, texts(prefs@)) == resolved(
                entries@,
                texts(prefs@).skip(i as int),
            ),
        decreases prefs.len() - i,
    {
        let found = lookup(entries, prefs[i].as_str());
        if found.is_some() {
            return found;
        }
        assert(texts(prefs@).skip(i as int).drop_first() == texts(prefs@).skip(i + 1));
        i += 1;
    }
    None
}

} // verus!
