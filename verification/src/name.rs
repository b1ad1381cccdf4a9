//! Turns a free-form game title into a name that is safe in a package
//! manager's namespace.

use vstd::prelude::*;
use crate::text::{ascii_lower, chars_of, is_ascii, lowercase, lowercase_text, text_of};

verus! {

/// Whether `c` is dropped from a title: a parenthesis, a space, a comma, an
/// apostrophe, an exclamation mark, a percent sign, a caret, a semicolon, a
/// dollar sign or a square bracket.
pub open spec fn is_dropped(c: char) -> bool {
    c == '(' || c == ')' || c == ' ' || c == ',' || c == '\'' || c == '!' || c == '%' || c == '^'
        || c == ';' || c == '$' || c == '[' || c == ']'
}

/// What one character of a title becomes: nothing where it is dropped,
/// `and` for an ampersand, a hyphen for a tilde or an equals sign, and
/// itself otherwise.
pub open spec fn piece(c: char) -> Seq<char> {
    if is_dropped(c) {
        Seq::<char>::empty()
    } else if c == '&' {
        seq!['a', 'n', 'd']
    } else if c == '~' || c == '=' {
        seq!['-']
    } else {
        seq![c]
    }
}

/// The title with each character replaced by its [`piece`].
pub open spec fn squeezed(s: Seq<char>) -> Seq<char>
    decreases s.len(),
{
    if s.len() == 0 {
        Seq::<char>::empty()
    } else {
        squeezed(s.drop_last()) + piece(s.last())
    }
}

/// The package-safe form of a title: squeezed, then put in lowercase.
pub open spec fn normalized(s: Seq<char>) -> Seq<char> {
    lowercase(squeezed(s))
}

/// Whether `c` is an ASCII letter or digit.
pub open spec fn is_alphanumeric(c: char) -> bool {
    ('a' <= c && c <= 'z') || ('A' <= c && c <= 'Z') || ('0' <= c && c <= '9')
}

/// Whether squeezing leaves every character of `s` as it is.
pub open spec fn is_plain(s: Seq<char>) -> bool {
    forall|i: int| 0 <= i < s.len() ==> piece(#[trigger] s[i]) == seq![s[i]]
}

proof fn lemma_squeezed_plain(s: Seq<char>)
    ensures
        is_plain(squeezed(s)),
        is_ascii(s) ==> is_ascii(squeezed(s)),
    decreases s.len(),
{
    if s.len() > 0 {
        lemma_squeezed_plain(s.drop_last());
        let head = squeezed(s.drop_last());
        let tail = piece(s.last());
        assert(is_plain(tail)) by {
            assert forall|i: int| 0 <= i < tail.len() implies piece(#[trigger] tail[i]) == seq![
                tail[i],
            ] by {}
        }
        assert forall|i: int| 0 <= i < (head + tail).len() implies piece(
            #[trigger] (head + tail)[i],
        ) == seq![(head + tail)[i]] by {
            if i < head.len() {
                assert((head + tail)[i] == head[i]);
            } else {
                assert((head + tail)[i] == tail[i - head.len()]);
            }
        }
        if is_ascii(s) {
            assert(is_ascii(s.drop_last())) by {
                assert forall|i: int| 0 <= i < s.drop_last().len() implies (
                #[trigger] s.drop_last()[i]) <= '\u{7f}' by {
                    assert(s.drop_last()[i] == s[i]);
                }
            }
            assert(s.last() == s[s.len() - 1]);
            assert forall|i: int| 0 <= i < (head + tail).len() implies (#[trigger] (head
                + tail)[i]) <= '\u{7f}' by {
                if i < head.len() {
                    assert((head + tail)[i] == head[i]);
                } else {
                    assert((head + tail)[i] == tail[i - head.len()]);
                }
            }
        }
    }
}

proof fn lemma_plain_squeezed(s: Seq<char>)
    requires
        is_plain(s),
    ensures
        squeezed(s) == s,
    decreases s.len(),
{
    if s.len() > 0 {
        assert(is_plain(s.drop_last())) by {
            assert forall|i: int| 0 <= i < s.drop_last().len() implies piece(
                #[trigger] s.drop_last()[i],
            ) == seq![s.drop_last()[i]] by {
                assert(s.drop_last()[i] == s[i]);
            }
        }
        lemma_plain_squeezed(s.drop_last());
        assert(s.last() == s[s.len() - 1]);
        assert(s.drop_last() + seq![s.last()] == s);
    }
}

proof fn lemma_lower_plain(s: Seq<char>)
    requires
        is_ascii(s),
        is_plain(s),
    ensures
        is_ascii(lowercase(s)),
        is_plain(lowercase(s)),
        lowercase(lowercase(s)) == lowercase(s),
        lowercase(s).len() == s.len(),
{
    let t = s.map_values(|c: char| ascii_lower(c));
    assert forall|i: int| 0 <= i < t.len() implies (#[trigger] t[i]) <= '\u{7f}' && piece(t[i])
        == seq![t[i]] && ascii_lower(t[i]) == t[i] by {
        assert(s[i] <= '\u{7f}');
        assert(piece(s[i]) == seq![s[i]]);
        assert(piece(s[i])[0] == s[i]);
    }
    assert(t.map_values(|c: char| ascii_lower(c)) == t);
}

/// Normalizing is idempotent on ASCII titles: a normalized name is its own
/// normal form.
pub proof fn lemma_normalize_idempotent(s: Seq<char>)
    requires
        is_ascii(s),
    ensures
        normalized(normalized(s)) == normalized(s),
{
    lemma_squeezed_plain(s);
    lemma_lower_plain(squeezed(s));
    lemma_plain_squeezed(normalized(s));
}

proof fn lemma_squeezed_keeps(s: Seq<char>, at: int)
    requires
        0 <= at < s.len(),
        is_alphanumeric(s[at]),
    ensures
        squeezed(s).len() > 0,
    decreases s.len(),
{
    if at == s.len() - 1 {
        assert(piece(s.last()) == seq![s.last()]);
    } else {
        assert(s.drop_last()[at] == s[at]);
        lemma_squeezed_keeps(s.drop_last(), at);
    }
}

/// An ASCII title that holds a letter or a digit does not normalize to the
/// empty name.
pub proof fn lemma_normalize_not_empty(s: Seq<char>, at: int)
    requires
        is_ascii(s),
        0 <= at < s.len(),
        is_alphanumeric(s[at]),
    ensures
        normalized(s).len() > 0,
{
    lemma_squeezed_keeps(s, at);
    lemma_squeezed_plain(s);
    lemma_lower_plain(squeezed(s));
}

/// A normalized ASCII name holds none of the dropped characters, no
/// ampersand, tilde or equals sign, and no capital letter.
pub proof fn lemma_normalize_clean(s: Seq<char>)
    requires
        is_ascii(s),
    ensures
        forall|i: int|
            0 <= i < normalized(s).len() ==> {
                let c = #[trigger] normalized(s)[i];
                !is_dropped(c) && c != '&' && c != '~' && c != '=' && !('A' <= c && c <= 'Z')
            },
{
    lemma_squeezed_plain(s);
    lemma_lower_plain(squeezed(s));
    let n = normalized(s);
    let q = squeezed(s);
    assert forall|i: int| 0 <= i < n.len() implies {
        let c = #[trigger] n[i];
        !is_dropped(c) && c != '&' && c != '~' && c != '=' && !('A' <= c && c <= 'Z')
    } by {
        assert(piece(n[i]) == seq![n[i]]);
        assert(piece(n[i]).len() == 1);
        assert(piece(n[i])[0] == n[i]);
        assert(n[i] == ascii_lower(q[i]));
    }
}

fn is_dropped_char(c: char) -> (r: bool)
    ensures
        r == is_dropped(c),
{
    c == '(' || c == ')' || c == ' ' || c == ',' || c == '\'' || c == '!' || c == '%' || c == '^'
        || c == ';' || c == '$' || c == '[' || c == ']'
}

/// The package-safe form of `title`.
pub fn normalize(title: &str) -> (r: String)
    ensures
        r@ == normalized(title@),
{
    let chars = chars_of(title);
    let mut out: Vec<char> = Vec::new();
    let mut i: usize = 0;
    assert(chars@.take(0) == Seq::<char>::empty());
    while i < chars.len()
        invariant
            i <= chars.len(),
            out@ == squeezed(chars@.take(i as int)),
        decreases chars.len() - i,
    {
        let c = chars[i];
        assert(chars@.take(i + 1).drop_last() == chars@.take(i as int));
        let ghost before = out@;
        if is_dropped_char(c) {
            assert(out@ == before + piece(c));
        } else if c == '&' {
            out.push('a');
            out.push('n');
            out.push('d');
            assert(out@ == before + piece(c));
        } else if c == '~' || c == '=' {
            out.push('-');
            assert(out@ == before + piece(c));
        } else {
            out.push(c);
            assert(out@ == before + piece(c));
        }
        i += 1;
    }
    assert(chars@.take(chars.len() as int) == chars@);
    let squeezed = text_of(&out);
    lowercase_text(squeezed.as_str())
}

} // verus!
