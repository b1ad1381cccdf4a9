//! Text primitives shared by the resolvers and the manifest builder.
//!
//! Every contract speaks of a string through its view, a `Seq<char>`.

use vstd::prelude::*;
use vstd::string::*;

verus! {

/// `String::push` of std: the character is appended at the end.
#[verifier::external_body]
fn push_char(s: &mut String, c: char)
    ensures
        final(s)@ == old(s)@.push(c),
{
    s.push(c)
}

/// The characters of `s`, in order.
pub fn chars_of(s: &str) -> (v: Vec<char>)
    ensures
        v@ == s@,
{
    let mut v: Vec<char> = Vec::new();
    for c in it: s.chars()
        invariant
            v@ == it.seq().take(it.index() as int),
            it.seq() == s@,
    {
        v.push(c);
    }
    v
}

/// The string made of `chars`, in order.
pub fn text_of(chars: &Vec<char>) -> (s: String)
    ensures
        s@ == chars@,
{
    let mut s = String::new();
    let mut i: usize = 0;
    while i < chars.len()
        invariant
            i <= chars.len(),
            s@ == chars@.take(i as int),
        decreases chars.len() - i,
    {
        push_char(&mut s, chars[i]);
        i += 1;
    }
    s
}

/// Whether two strings hold the same characters.
pub fn same_text(a: &str, b: &str) -> (r: bool)
    ensures
        r == (a@ == b@),
{
    let x = chars_of(a);
    let y = chars_of(b);
    if x.len() != y.len() {
        return false;
    }
    let mut i: usize = 0;
    while i < x.len()
        invariant
            i <= x.len(),
            x.len() == y.len(),
            x@ == a@,
            y@ == b@,
            x@.take(i as int) == y@.take(i as int),
        decreases x.len() - i,
    {
        if x[i] != y[i] {
            return false;
        }
        assert(x@.take(i + 1) == x@.take(i as int).push(x@[i as int]));
        assert(y@.take(i + 1) == y@.take(i as int).push(y@[i as int]));
        i += 1;
    }
    assert(x@ == x@.take(x.len() as int));
    assert(y@ == y@.take(y.len() as int));
    true
}

/// The views of the strings of `v`, in order.
pub open spec fn texts(v: Seq<String>) -> Seq<Seq<char>> {
    v.map_values(|s: String| s@)
}

/// The view of an optional string.
pub open spec fn opt_text(o: Option<String>) -> Option<Seq<char>> {
    match o {
        Some(s) => Some(s@),
        None => None,
    }
}

/// Appends a copy of `line` to `v`.
pub fn push_line(v: &mut Vec<String>, line: &str)
    ensures
        texts(final(v)@) == texts(old(v)@).push(line@),
{
    v.push(line.to_string());
}

/// Appends to `v` the line made of `a`, `b` and `c`.
pub fn push_line3(v: &mut Vec<String>, a: &str, b: &str, c: &str)
    ensures
        texts(final(v)@) == texts(old(v)@).push(a@ + b@ + c@),
{
    let mut s = String::new();
    s.append(a);
    s.append(b);
    s.append(c);
    v.push(s);
    assert(texts(v@) == texts(old(v)@).push(a@ + b@ + c@));
}

/// Appends to `v` the line made of `a`, `b`, `c`, `d` and `e`.
pub fn push_line5(v: &mut Vec<String>, a: &str, b: &str, c: &str, d: &str, e: &str)
    ensures
        texts(final(v)@) == texts(old(v)@).push(a@ + b@ + c@ + d@ + e@),
{
    let mut s = String::new();
    s.append(a);
    s.append(b);
    s.append(c);
    s.append(d);
    s.append(e);
    v.push(s);
    assert(texts(v@) == texts(old(v)@).push(a@ + b@ + c@ + d@ + e@));
}

/// `a` followed by `b`.
pub fn join(a: &str, b: &str) -> (r: String)
    ensures
        r@ == a@ + b@,
{
    let mut r = String::new();
    r.append(a);
    r.append(b);
    r
}

/// The decimal digit that stands for `d`.
pub open spec fn digit(d: nat) -> char
    recommends
        d < 10,
{
    if d == 0 {
        '0'
    } else if d == 1 {
        '1'
    } else if d == 2 {
        '2'
    } else if d == 3 {
        '3'
    } else if d == 4 {
        '4'
    } else if d == 5 {
        '5'
    } else if d == 6 {
        '6'
    } else if d == 7 {
        '7'
    } else if d == 8 {
        '8'
    } else {
        '9'
    }
}

/// `n` written in base ten, without sign or leading zeros.
pub open spec fn decimal(n: nat) -> Seq<char>
    decreases n,
{
    if n < 10 {
        seq![digit(n)]
    } else {
        decimal(n / 10).push(digit(n % 10))
    }
}

fn digit_char(d: u32) -> (c: char)
    requires
        d < 10,
    ensures
        c == digit(d as nat),
{
    if d == 0 {
        '0'
    } else if d == 1 {
        '1'
    } else if d == 2 {
        '2'
    } else if d == 3 {
        '3'
    } else if d == 4 {
        '4'
    } else if d == 5 {
        '5'
    } else if d == 6 {
        '6'
    } else if d == 7 {
        '7'
    } else if d == 8 {
        '8'
    } else {
        '9'
    }
}

/// Appends `n` in base ten to `out`.
pub fn push_decimal(out: &mut String, n: u32)
    ensures
        final(out)@ == old(out)@ + decimal(n as nat),
    decreases n,
{
    if n >= 10 {
        push_decimal(out, n / 10);
    }
    push_char(out, digit_char(n % 10));
}

/// `n` in base ten.
pub fn decimal_text(n: u32) -> (r: String)
    ensures
        r@ == decimal(n as nat),
{
    let mut r = String::new();
    push_decimal(&mut r, n);
    r
}

/// The views of the string slices of `v`, in order.
pub open spec fn strs(v: Seq<&str>) -> Seq<Seq<char>> {
    v.map_values(|s: &str| s@)
}

/// Owned copies of the string slices of `v`, in order.
pub fn owned(v: &Vec<&str>) -> (r: Vec<String>)
    ensures
        texts(r@) == strs(v@),
{
    let mut r: Vec<String> = Vec::new();
    let mut i: usize = 0;
    while i < v.len()
        invariant
            i <= v.len(),
            texts(r@) == strs(v@).take(i as int),
        decreases v.len() - i,
    {
        push_line(&mut r, v[i]);
        assert(strs(v@).take(i + 1) == strs(v@).take(i as int).push(v@[i as int]@));
        i += 1;
    }
    assert(strs(v@).take(v.len() as int) == strs(v@));
    r
}

/// The pieces of `s` between occurrences of `sep`: one piece more than `s`
/// holds separators, so the empty text has the one piece that is empty.
pub open spec fn split(s: Seq<char>, sep: char) -> Seq<Seq<char>>
    decreases s.len(),
{
    if s.len() == 0 {
        seq![Seq::<char>::empty()]
    } else {
        let before = split(s.drop_last(), sep);
        if s.last() == sep {
            before.push(Seq::<char>::empty())
        } else {
            before.drop_last().push(before.last().push(s.last()))
        }
    }
}

/// Splits `s` at every `sep`.
pub fn split_text(s: &str, sep: char) -> (r: Vec<String>)
    ensures
        texts(r@) == split(s@, sep),
{
    let chars = chars_of(s);
    let mut done: Vec<String> = Vec::new();
    let mut piece = String::new();
    let mut i: usize = 0;
    assert(chars@.take(0) == Seq::<char>::empty());
    assert(texts(done@).push(piece@) == split(chars@.take(0), sep));
    while i < chars.len()
        invariant
            i <= chars.len(),
            chars@ == s@,
            texts(done@).push(piece@) == split(chars@.take(i as int), sep),
        decreases chars.len() - i,
    {
        let c = chars[i];
        let ghost before = split(chars@.take(i as int), sep);
        assert(chars@.take(i + 1).drop_last() == chars@.take(i as int));
        assert(chars@.take(i + 1).last() == c);
        assert(before.drop_last() == texts(done@));
        assert(before.last() == piece@);
        if c == sep {
            let ghost old_done = done@;
            done.push(piece);
            assert(texts(done@) == texts(old_done).push(piece@));
            piece = String::new();
        } else {
            push_char(&mut piece, c);
        }
        i += 1;
    }
    assert(chars@.take(chars.len() as int) == chars@);
    let ghost old_done = done@;
    done.push(piece);
    assert(texts(done@) == texts(old_done).push(piece@));
    done
}

/// What follows the first occurrence of `marker` in `s`, if there is one.
pub open spec fn tail_after(s: Seq<char>, marker: Seq<char>) -> Option<Seq<char>>
    decreases s.len(),
{
    if marker.is_prefix_of(s) {
        Some(s.skip(marker.len() as int))
    } else if s.len() == 0 {
        None
    } else {
        tail_after(s.drop_first(), marker)
    }
}

/// Whether `marker` stands in `s` at position `at`.
pub open spec fn occurs_at(s: Seq<char>, marker: Seq<char>, at: int) -> bool {
    0 <= at && at + marker.len() <= s.len() && s.subrange(at, at + marker.len()) == marker
}

/// [`tail_after`] cuts at the leftmost occurrence of the marker, and is
/// `None` exactly when the marker occurs nowhere.
pub proof fn lemma_tail_after(s: Seq<char>, marker: Seq<char>)
    ensures
        match tail_after(s, marker) {
            Some(t) => exists|at: int|
                #![trigger occurs_at(s, marker, at)]
                occurs_at(s, marker, at) && t == s.skip(at + marker.len()) && forall|j: int|
                    0 <= j < at ==> !occurs_at(s, marker, j),
            None => forall|j: int| !occurs_at(s, marker, j),
        },
    decreases s.len(),
{
    if marker.is_prefix_of(s) {
        assert(s.subrange(0, marker.len() as int) == marker);
        assert(occurs_at(s, marker, 0));
    } else if s.len() == 0 {
        assert forall|j: int| !occurs_at(s, marker, j) by {
            if occurs_at(s, marker, j) {
                assert(marker.len() == 0);
                assert(marker.is_prefix_of(s));
            }
        }
    } else {
        let rest = s.drop_first();
        lemma_tail_after(rest, marker);
        assert forall|j: int| occurs_at(s, marker, j + 1) == occurs_at(rest, marker, j) by {
            if 0 <= j && j + marker.len() <= rest.len() {
                assert(s.subrange(j + 1, j + 1 + marker.len()) == rest.subrange(
                    j,
                    j + marker.len(),
                ));
            }
        }
        assert(!occurs_at(s, marker, 0)) by {
            if occurs_at(s, marker, 0) {
                assert(s.subrange(0, marker.len() as int) == marker);
                assert(marker.is_prefix_of(s));
            }
        }
        match tail_after(rest, marker) {
            Some(t) => {
                let at = choose|at: int|
                    #![trigger occurs_at(rest, marker, at)]
                    occurs_at(rest, marker, at) && t == rest.skip(at + marker.len())
                        && forall|j: int| 0 <= j < at ==> !occurs_at(rest, marker, j);
                assert(occurs_at(s, marker, at + 1));
                assert(rest.skip(at + marker.len()) == s.skip(at + 1 + marker.len()));
                assert forall|j: int| 0 <= j < at + 1 implies !occurs_at(s, marker, j) by {
                    if j > 0 {
                        assert(occurs_at(s, marker, (j - 1) + 1) == occurs_at(rest, marker, j - 1));
                    }
                }
            },
            None => {
                assert forall|j: int| !occurs_at(s, marker, j) by {
                    if j != 0 {
                        assert(occurs_at(s, marker, (j - 1) + 1) == occurs_at(rest, marker, j - 1));
                    }
                }
            },
        }
    }
}

fn starts_at(s: &Vec<char>, at: usize, marker: &Vec<char>) -> (r: bool)
    requires
        at <= s.len(),
    ensures
        r == marker@.is_prefix_of(s@.skip(at as int)),
{
    if marker.len() > s.len() - at {
        return false;
    }
    let mut k: usize = 0;
    while k < marker.len()
        invariant
            k <= marker.len(),
            at <= s.len(),
            marker.len() <= s.len() - at,
            forall|j: int| 0 <= j < k ==> marker@[j] == s@[at + j],
        decreases marker.len() - k,
    {
        if marker[k] != s[at + k] {
            assert(s@.skip(at as int)[k as int] == s@[at + k]);
            return false;
        }
        k += 1;
    }
    assert(marker@ =~= s@.skip(at as int).subrange(0, marker@.len() as int));
    true
}

/// What follows the first occurrence of `marker` in `s`, if there is one.
pub fn tail_after_text(s: &str, marker: &str) -> (r: Option<String>)
    ensures
        opt_text(r) == tail_after(s@, marker@),
{
    let chars = chars_of(s);
    let mark = chars_of(marker);
    let mut i: usize = 0;
    assert(chars@.skip(0) == chars@);
    loop
        invariant
            i <= chars.len(),
            chars@ == s@,
            mark@ == marker@,
            tail_after(s@, marker@) == tail_after(chars@.skip(i as int), mark@),
        decreases chars.len() - i,
    {
        if starts_at(&chars, i, &mark) {
            let mut r = String::new();
            let mut k: usize = i + mark.len();
            let ghost from = k as int;
            assert(chars@.skip(i as int).skip(mark@.len() as int) == chars@.skip(from));
            while k < chars.len()
                invariant
                    0 <= from <= k <= chars.len(),
                    r@ == chars@.subrange(from, k as int),
                decreases chars.len() - k,
            {
                push_char(&mut r, chars[k]);
                assert(chars@.subrange(from, k + 1) == chars@.subrange(from, k as int).push(
                    chars@[k as int],
                ));
                k += 1;
            }
            assert(chars@.subrange(from, chars.len() as int) == chars@.skip(from));
            return Some(r);
        }
        if i == chars.len() {
            return None;
        }
        assert(chars@.skip(i as int).drop_first() == chars@.skip(i + 1));
        i += 1;
    }
}

/// `s` with the occurrences of `pattern` replaced by `with`, found from the
/// left and not overlapping; an empty pattern replaces nothing.
pub open spec fn replaced(s: Seq<char>, pattern: Seq<char>, with: Seq<char>) -> Seq<char>
    decreases s.len(),
{
    if pattern.len() == 0 || s.len() == 0 {
        s
    } else if pattern.is_prefix_of(s) {
        with + replaced(s.skip(pattern.len() as int), pattern, with)
    } else {
        seq![s[0]] + replaced(s.drop_first(), pattern, with)
    }
}

/// Replaces the occurrences of `pattern` in `s` by `with`.
pub fn replace_all(s: &str, pattern: &str, with: &str) -> (r: String)
    ensures
        r@ == replaced(s@, pattern@, with@),
{
    let chars = chars_of(s);
    let pat = chars_of(pattern);
    if pat.len() == 0 {
        return s.to_string();
    }
    let mut r = String::new();
    let mut i: usize = 0;
    assert(chars@.skip(0) == chars@);
    assert(r@ + replaced(chars@.skip(0), pat@, with@) == replaced(chars@, pat@, with@));
    while i < chars.len()
        invariant
            i <= chars.len(),
            pat@.len() > 0,
            r@ + replaced(chars@.skip(i as int), pat@, with@) == replaced(chars@, pat@, with@),
        decreases chars.len() - i,
    {
        let ghost rest = chars@.skip(i as int);
        let ghost before = r@;
        if starts_at(&chars, i, &pat) {
            r.append(with);
            assert(rest.skip(pat@.len() as int) == chars@.skip(i + pat@.len()));
            assert(before + (with@ + replaced(rest.skip(pat@.len() as int), pat@, with@)) == (before
                + with@) + replaced(rest.skip(pat@.len() as int), pat@, with@));
            i += pat.len();
        } else {
            push_char(&mut r, chars[i]);
            assert(rest.drop_first() == chars@.skip(i + 1));
            assert(rest[0] == chars@[i as int]);
            assert(before + (seq![rest[0]] + replaced(rest.drop_first(), pat@, with@)) == before.push(
                rest[0],
            ) + replaced(rest.drop_first(), pat@, with@));
            i += 1;
        }
    }
    assert(chars@.skip(chars.len() as int) == Seq::<char>::empty());
    assert(r@ + Seq::<char>::empty() == r@);
    r
}

/// Whether every character of `s` is an ASCII character.
pub open spec fn is_ascii(s: Seq<char>) -> bool {
    forall|i: int| 0 <= i < s.len() ==> (#[trigger] s[i]) <= '\u{7f}'
}

/// The lowercase form of an ASCII character: a capital letter becomes the
/// small one, everything else stays.
pub open spec fn ascii_lower(c: char) -> char {
    if 'A' <= c && c <= 'Z' {
        ((c as u32) + 32) as char
    } else {
        c
    }
}

/// The result of `str::to_lowercase` of std on `s`: its lowercase form by
/// the case mappings of Unicode.
pub uninterp spec fn unicode_lowercase(s: Seq<char>) -> Seq<char>;

/// The lowercase form of `s`: character by character for ASCII text, and by
/// the Unicode rules, [`unicode_lowercase`], for any other.
pub open spec fn lowercase(s: Seq<char>) -> Seq<char> {
    if is_ascii(s) {
        s.map_values(|c: char| ascii_lower(c))
    } else {
        unicode_lowercase(s)
    }
}

/// `str::to_lowercase` of std. The result is named [`unicode_lowercase`];
/// on ASCII text it is stated in full: the capital letters `A` to `Z` become
/// small, and every other character stays as it is.
#[verifier::external_body]
fn to_lowercase(s: &str) -> (r: String)
    ensures
        r@ == unicode_lowercase(s@),
        is_ascii(s@) ==> r@ == s@.map_values(|c: char| ascii_lower(c)),
{
    s.to_lowercase()
}

/// The lowercase form of `s`.
pub fn lowercase_text(s: &str) -> (r: String)
    ensures
        r@ == lowercase(s@),
{
    to_lowercase(s)
}

} // verus!
