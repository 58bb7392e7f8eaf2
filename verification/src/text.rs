//! Text helpers that the runtime builds its strings with.

use vstd::prelude::*;

verus! {

broadcast use vstd::string::group_string_axioms;

/// The characters of a text, in order.
pub fn chars_of(s: &str) -> (v: Vec<char>)
    ensures
        v@ == s@,
{
    let mut v: Vec<char> = Vec::new();
    for c in it: s.chars()
        invariant
            it.seq() == s@,
            v@ == it.seq().take(it.index()),
    {
        v.push(c);
    }
    v
}

/// `String::push`: appends one character.
#[verifier::external_body]
pub fn string_push(s: &mut String, c: char)
    ensures
        final(s)@ == old(s)@.push(c),
{
    s.push(c)
}

/// What `str::to_uppercase` returns for a text: the Unicode upper case of
/// each character, some of which take more than one character.
pub uninterp spec fn uppercase(s: Seq<char>) -> Seq<char>;

/// `str::to_uppercase`.
#[verifier::external_body]
pub fn to_uppercase(s: &str) -> (u: String)
    ensures
        u@ == uppercase(s@),
{
    s.to_uppercase()
}

/// A string with the given characters.
pub fn string_from_chars(v: &[char]) -> (s: String)
    ensures
        s@ == v@,
{
    let mut s = String::new();
    let mut i: usize = 0;
    while i < v.len()
        invariant
            i <= v@.len(),
            s@ == v@.take(i as int),
        decreases v@.len() - i,
    {
        string_push(&mut s, v[i]);
        assert(v@.take(i + 1) == v@.take(i as int).push(v@[i as int]));
        i += 1;
    }
    assert(v@.take(v@.len() as int) == v@);
    s
}

/// `s` with every `from` turned into `to`.
pub open spec fn replace_char(s: Seq<char>, from: char, to: char) -> Seq<char> {
    s.map_values(|c: char| if c == from { to } else { c })
}

/// `str::replace` with a one-character pattern and a one-character
/// replacement.
pub fn replace_char_in(s: &str, from: char, to: char) -> (r: String)
    ensures
        r@ == replace_char(s@, from, to),
{
    let cs = chars_of(s);
    let mut r = String::new();
    let mut i: usize = 0;
    while i < cs.len()
        invariant
            cs@ == s@,
            i <= cs@.len(),
            r@ == replace_char(cs@.take(i as int), from, to),
        decreases cs@.len() - i,
    {
        let c = cs[i];
        string_push(&mut r, if c == from { to } else { c });
        assert(replace_char(cs@.take(i + 1), from, to) == replace_char(cs@.take(i as int), from, to).push(
            if c == from { to } else { c },
        ));
        i += 1;
    }
    assert(cs@.take(cs@.len() as int) == cs@);
    r
}

/// The characters `a` and `b` stand at `i` and `i + 1` of `s`.
pub open spec fn pair_at(s: Seq<char>, i: int, a: char, b: char) -> bool {
    0 <= i && i + 1 < s.len() && s[i] == a && s[i + 1] == b
}

/// Where the two-character separator `ab` first stands in `s`, if anywhere.
pub open spec fn first_pair(s: Seq<char>, a: char, b: char) -> Option<int> {
    if exists|i: int| pair_at(s, i, a, b) {
        Some(choose|i: int| pair_at(s, i, a, b) && forall|j: int| 0 <= j < i ==> !pair_at(s, j, a, b))
    } else {
        None
    }
}

/// What `str::split_once` returns for a two-character separator `ab`: the
/// text before its first occurrence and the text after it.
pub open spec fn split_once_pair(s: Seq<char>, a: char, b: char) -> Option<(Seq<char>, Seq<char>)> {
    match first_pair(s, a, b) {
        Some(i) => Some((s.take(i), s.skip(i + 2))),
        None => None,
    }
}

/// An occurrence of a pattern that has an earliest one.
proof fn lemma_first_pair(s: Seq<char>, a: char, b: char, k: int)
    requires
        pair_at(s, k, a, b),
        forall|j: int| 0 <= j < k ==> !pair_at(s, j, a, b),
    ensures
        first_pair(s, a, b) == Some(k),
{
    let i = choose|i: int| pair_at(s, i, a, b) && forall|j: int| 0 <= j < i ==> !pair_at(s, j, a, b);
    assert(pair_at(s, i, a, b) && forall|j: int| 0 <= j < i ==> !pair_at(s, j, a, b));
    if i < k {
        assert(!pair_at(s, i, a, b));
    } else if k < i {
        assert(!pair_at(s, k, a, b));
    }
}

/// `str::split_once` with a two-character separator `ab`.
pub fn split_once_at_pair(s: &str, a: char, b: char) -> (r: Option<(String, String)>)
    ensures
        match r {
            Some((x, y)) => split_once_pair(s@, a, b) == Some((x@, y@)),
            None => split_once_pair(s@, a, b) is None,
        },
{
    let cs = chars_of(s);
    let n = cs.len();
    let last: usize = if n == 0 { 0 } else { n - 1 };
    let mut i: usize = 0;
    while i < last
        invariant
            cs@ == s@,
            n == cs@.len(),
            last == (if n == 0 { 0 } else { n - 1 }),
            i <= last,
            forall|j: int| 0 <= j < i ==> !pair_at(s@, j, a, b),
        decreases last - i,
    {
        if cs[i] == a && cs[i + 1] == b {
            proof { lemma_first_pair(s@, a, b, i as int); }
            let before = string_from_chars(cs.as_slice().split_at(i).0);
            let after = string_from_chars(cs.as_slice().split_at(i + 2).1);
            assert(cs@.subrange(0, i as int) == s@.take(i as int));
            assert(cs@.subrange(i + 2, n as int) == s@.skip(i + 2));
            return Some((before, after));
        }
        i += 1;
    }
    assert forall|j: int| pair_at(s@, j, a, b) implies false by {
        assert(0 <= j < i);
    }
    None
}

} // verus!
