//! Character-level text operations behind the naming rules: capitalisation,
//! substring search and replacement, and splitting at a separator.
//!
//! Every operation is specified over `Seq<char>`, the view of a string.

use vstd::prelude::*;
use vstd::string::*;

verus! {

/// The ASCII upper-case form of a character; characters outside `a..=z` are unchanged.
pub open spec fn ascii_upper(c: char) -> char {
    if 'a' <= c && c <= 'z' {
        ((c as u8) - 32) as char
    } else {
        c
    }
}

/// `s` with its first character in ASCII upper case.
pub open spec fn capitalized(s: Seq<char>) -> Seq<char> {
    if s.len() == 0 {
        s
    } else {
        s.update(0, ascii_upper(s[0]))
    }
}

/// `pat` occurs in `s` starting at index `i`.
pub open spec fn matches_at(s: Seq<char>, i: int, pat: Seq<char>) -> bool {
    &&& 0 <= i
    &&& i + pat.len() <= s.len()
    &&& s.subrange(i, i + pat.len()) == pat
}

/// `pat` occurs somewhere in `s`. The empty pattern occurs in every string.
pub open spec fn occurs_in(s: Seq<char>, pat: Seq<char>) -> bool {
    exists|i: int| matches_at(s, i, pat)
}

/// `s` with every occurrence of `from` replaced by `to`, scanning from the left and
/// never re-reading replaced text. An empty `from` matches before every character
/// and at the end.
pub open spec fn replaced(s: Seq<char>, from: Seq<char>, to: Seq<char>) -> Seq<char>
    decreases s.len(),
{
    if from.len() == 0 {
        if s.len() == 0 {
            to
        } else {
            to + seq![s[0]] + replaced(s.skip(1), from, to)
        }
    } else if s.len() < from.len() {
        s
    } else if matches_at(s, 0, from) {
        to + replaced(s.skip(from.len() as int), from, to)
    } else {
        seq![s[0]] + replaced(s.skip(1), from, to)
    }
}

/// The index of the first `c` in `s`, or `s.len()` when `s` holds none.
pub open spec fn first_index(s: Seq<char>, c: char) -> int
    decreases s.len(),
{
    if s.len() == 0 {
        0
    } else if s[0] == c {
        0
    } else {
        1 + first_index(s.skip(1), c)
    }
}

/// `s` split at every `sep`, each piece capitalised, the pieces joined with nothing
/// between them.
pub open spec fn capitalized_pieces(s: Seq<char>, sep: char) -> Seq<char>
    decreases s.len(),
{
    let k = first_index(s, sep);
    if 0 <= k < s.len() {
        capitalized(s.take(k)) + capitalized_pieces(s.skip(k + 1), sep)
    } else {
        capitalized(s)
    }
}

/// `first_index` is the least index that holds `c`.
pub proof fn lemma_first_index(s: Seq<char>, c: char)
    ensures
        0 <= first_index(s, c) <= s.len(),
        forall|j: int| 0 <= j < first_index(s, c) ==> s[j] != c,
        first_index(s, c) < s.len() ==> s[first_index(s, c)] == c,
        first_index(s, c) < s.len() <==> s.contains(c),
    decreases s.len(),
{
    if s.len() == 0 {
    } else if s[0] == c {
    } else {
        let t = s.skip(1);
        lemma_first_index(t, c);
        let k = first_index(t, c);
        assert forall|j: int| 0 <= j < 1 + k implies s[j] != c by {
            if j > 0 {
                assert(t[j - 1] == s[j]);
            }
        }
        if k < t.len() {
            assert(t[k] == s[k + 1]);
        }
        if s.contains(c) {
            let j = choose|j: int| 0 <= j < s.len() && s[j] == c;
            assert(t[j - 1] == c);
        }
    }
}

/// An index that holds the first `c`, or the length when there is none, is `first_index`.
pub proof fn lemma_first_index_is(s: Seq<char>, c: char, k: int)
    requires
        0 <= k <= s.len(),
        forall|j: int| 0 <= j < k ==> s[j] != c,
        k < s.len() ==> s[k] == c,
    ensures
        first_index(s, c) == k,
{
    lemma_first_index(s, c);
}

/// The ASCII upper-case form of a character.
pub fn to_ascii_upper(c: char) -> (r: char)
    ensures
        r == ascii_upper(c),
{
    if 'a' <= c && c <= 'z' {
        let b: u8 = c as u8;
        (b - 32) as char
    } else {
        c
    }
}

/// `String::push` of the standard library. It is taken on trust, not proved,
/// that the text afterwards is the text before with `c` at its end.
#[verifier::external_body]
fn push_char(s: &mut String, c: char)
    ensures
        final(s)@ == old(s)@.push(c),
{
    s.push(c)
}

/// The characters of `s`, in order.
pub fn chars_of(s: &str) -> (v: Vec<char>)
    ensures
        v@ == s@,
{
    let mut v: Vec<char> = Vec::new();
    for c in it: s.chars()
        invariant
            v@ == it.seq().take(it.index() as int),
    {
        v.push(c);
    }
    v
}

/// The string made of the characters of `v`, in order.
pub fn string_of(v: &Vec<char>) -> (s: String)
    ensures
        s@ == v@,
{
    let mut s = String::new();
    let mut i: usize = 0;
    while i < v.len()
        invariant
            i <= v.len(),
            s@ == v@.take(i as int),
        decreases v.len() - i,
    {
        push_char(&mut s, v[i]);
        i += 1;
    }
    s
}

/// Whether `pat` occurs in `s` at index `i`.
pub fn chars_match_at(s: &Vec<char>, i: usize, pat: &Vec<char>) -> (r: bool)
    ensures
        r == matches_at(s@, i as int, pat@),
{
    if pat.len() > s.len() || i > s.len() - pat.len() {
        return false;
    }
    let mut j: usize = 0;
    while j < pat.len()
        invariant
            j <= pat.len(),
            i + pat.len() <= s.len(),
            forall|k: int| 0 <= k < j ==> s@[i + k] == pat@[k],
        decreases pat.len() - j,
    {
        if s[i + j] != pat[j] {
            assert(s@.subrange(i as int, i + pat.len())[j as int] == s@[i + j]);
            return false;
        }
        j += 1;
    }
    assert(s@.subrange(i as int, i + pat.len()) =~= pat@);
    true
}

/// Whether `pat` occurs in `s`.
pub fn chars_contain(s: &Vec<char>, pat: &Vec<char>) -> (r: bool)
    ensures
        r == occurs_in(s@, pat@),
{
    if pat.len() > s.len() {
        return false;
    }
    let last: usize = s.len() - pat.len();
    let mut i: usize = 0;
    while i < last
        invariant
            last == s.len() - pat.len(),
            i <= last,
            forall|k: int| 0 <= k < i ==> !matches_at(s@, k, pat@),
        decreases last - i,
    {
        if chars_match_at(s, i, pat) {
            return true;
        }
        i += 1;
    }
    chars_match_at(s, last, pat)
}

/// The index of the first `c` at or after `start`, or the length when there is none.
pub fn chars_find(s: &Vec<char>, start: usize, c: char) -> (k: usize)
    requires
        start <= s.len(),
    ensures
        k == start + first_index(s@.skip(start as int), c),
        start <= k <= s.len(),
{
    let mut k: usize = start;
    while k < s.len() && s[k] != c
        invariant
            start <= k <= s.len(),
            forall|j: int| start <= j < k ==> s@[j] != c,
        decreases s.len() - k,
    {
        k += 1;
    }
    proof {
        lemma_first_index_is(s@.skip(start as int), c, k - start);
    }
    k
}

fn append_chars(out: &mut Vec<char>, src: &Vec<char>, from: usize, to: usize)
    requires
        from <= to <= src.len(),
    ensures
        final(out)@ == old(out)@ + src@.subrange(from as int, to as int),
{
    let mut i: usize = from;
    while i < to
        invariant
            from <= i <= to <= src.len(),
            out@ == old(out)@ + src@.subrange(from as int, i as int),
        decreases to - i,
    {
        out.push(src[i]);
        i += 1;
    }
}

/// Replaces every occurrence of `from` in `s` by `to`.
pub fn chars_replace(s: &Vec<char>, from: &Vec<char>, to: &Vec<char>) -> (out: Vec<char>)
    ensures
        out@ == replaced(s@, from@, to@),
{
    let mut out: Vec<char> = Vec::new();
    let mut i: usize = 0;
    assert(s@.skip(0) == s@);
    assert(out@ + replaced(s@, from@, to@) == replaced(s@, from@, to@));
    while i < s.len() && s.len() - i >= from.len()
        invariant
            i <= s.len(),
            out@ + replaced(s@.skip(i as int), from@, to@) == replaced(s@, from@, to@),
        decreases s.len() - i,
    {
        let ghost rest = s@.skip(i as int);
        let ghost before = out@;
        if from.len() == 0 {
            append_chars(&mut out, to, 0, to.len());
            out.push(s[i]);
            proof {
                assert(rest.skip(1) == s@.skip(i + 1));
                assert(to@.subrange(0, to@.len() as int) == to@);
                assert(out@ == before + (to@ + seq![rest[0]]));
            }
            i += 1;
        } else if chars_match_at(s, i, from) {
            append_chars(&mut out, to, 0, to.len());
            proof {
                assert(rest.subrange(0, from@.len() as int) == s@.subrange(
                    i as int,
                    i + from@.len(),
                ));
                assert(rest.skip(from@.len() as int) == s@.skip(i + from@.len()));
                assert(to@.subrange(0, to@.len() as int) == to@);
            }
            i += from.len();
        } else {
            out.push(s[i]);
            proof {
                assert(rest.subrange(0, from@.len() as int) == s@.subrange(
                    i as int,
                    i + from@.len(),
                ));
                assert(rest.skip(1) == s@.skip(i + 1));
                assert(out@ == before + seq![rest[0]]);
            }
            i += 1;
        }
    }
    if from.len() == 0 {
        append_chars(&mut out, to, 0, to.len());
        assert(to@.subrange(0, to@.len() as int) == to@);
    } else {
        append_chars(&mut out, s, i, s.len());
        assert(s@.subrange(i as int, s@.len() as int) == s@.skip(i as int));
    }
    out
}

/// Splits `s` at every `sep`, capitalises each piece and joins the pieces.
pub fn chars_capitalize_pieces(s: &Vec<char>, sep: char) -> (out: Vec<char>)
    ensures
        out@ == capitalized_pieces(s@, sep),
{
    let mut out: Vec<char> = Vec::new();
    let mut i: usize = 0;
    assert(s@.skip(0) == s@);
    assert(out@ + capitalized_pieces(s@, sep) == capitalized_pieces(s@, sep));
    loop
        invariant_except_break
            i <= s.len(),
            out@ + capitalized_pieces(s@.skip(i as int), sep) == capitalized_pieces(s@, sep),
        ensures
            out@ == capitalized_pieces(s@, sep),
        decreases s.len() - i,
    {
        let ghost rest = s@.skip(i as int);
        let ghost before = out@;
        let k: usize = chars_find(s, i, sep);
        if k > i {
            out.push(to_ascii_upper(s[i]));
            append_chars(&mut out, s, i + 1, k);
        }
        proof {
            let piece = rest.take(k - i);
            assert(piece == s@.subrange(i as int, k as int));
            if k > i {
                assert(capitalized(piece) == seq![ascii_upper(s@[i as int])] + s@.subrange(
                    i + 1,
                    k as int,
                ));
            }
            assert(out@ == before + capitalized(piece));
            if k == s.len() {
                assert(piece == rest);
            } else {
                assert(rest.skip(k - i + 1) == s@.skip(k + 1));
            }
        }
        if k == s.len() {
            break ;
        }
        i = k + 1;
    }
    out
}

/// Capitalisation and conditional replacement on owned strings.
pub trait StringUtils: Sized + View<V = Seq<char>> {
    /// Puts the first character in ASCII upper case, in place.
    fn first_uppercase(&mut self)
        ensures
            final(self)@ == capitalized(old(self)@),
    ;

    /// The same text with its first character in ASCII upper case.
    fn first_uppercased(self) -> (r: Self)
        ensures
            r@ == capitalized(self@),
    ;

    /// Replaces every occurrence of `from` by `to` when `predicate` says so, and
    /// returns the text unchanged otherwise.
    fn replace_if<F>(self, from: &str, to: &str, predicate: F) -> (r: String) where
        F: FnOnce() -> bool,

        requires
            predicate.requires(()),
        ensures
            (predicate.ensures((), true) && r@ == replaced(self@, from@, to@)) || (
            predicate.ensures((), false) && r@ == self@),
    ;
}

impl StringUtils for String {
    fn first_uppercase(&mut self) {
        let mut v = chars_of(self.as_str());
        if v.len() > 0 {
            let c = to_ascii_upper(v[0]);
            v.set(0, c);
        }
        *self = string_of(&v);
    }

    fn first_uppercased(self) -> (r: Self) {
        let mut v = chars_of(self.as_str());
        if v.len() > 0 {
            let c = to_ascii_upper(v[0]);
            v.set(0, c);
        }
        string_of(&v)
    }

    fn replace_if<F>(self, from: &str, to: &str, predicate: F) -> (r: String) where
        F: FnOnce() -> bool,
     {
        if predicate() {
            replace_all(self.as_str(), from, to)
        } else {
            self
        }
    }
}

/// `s` with every occurrence of `from` replaced by `to`.
pub fn replace_all(s: &str, from: &str, to: &str) -> (r: String)
    ensures
        r@ == replaced(s@, from@, to@),
{
    let out = chars_replace(&chars_of(s), &chars_of(from), &chars_of(to));
    string_of(&out)
}

/// Whether `pat` occurs in `s`.
pub fn contains(s: &str, pat: &str) -> (r: bool)
    ensures
        r == occurs_in(s@, pat@),
{
    chars_contain(&chars_of(s), &chars_of(pat))
}

} // verus!
