//! Searching and slicing of character sequences.
//!
//! Text is modelled as `Seq<char>`; positions count characters. The
//! executable functions work on `&[char]` and are specified by the spec
//! functions of the same module.

use vstd::prelude::*;

verus! {

/// `pat` stands in `s` at position `i`.
pub open spec fn occurs_at(s: Seq<char>, pat: Seq<char>, i: int) -> bool {
    &&& 0 <= i
    &&& i + pat.len() <= s.len()
    &&& s.subrange(i, i + pat.len()) == pat
}

/// `pat` stands somewhere in `s`.
pub open spec fn occurs(s: Seq<char>, pat: Seq<char>) -> bool {
    exists|i: int| occurs_at(s, pat, i)
}

/// `i` is the first position at or after `from` at which `pat` stands in `s`.
pub open spec fn is_first_occurrence(s: Seq<char>, pat: Seq<char>, from: int, i: int) -> bool {
    &&& from <= i
    &&& occurs_at(s, pat, i)
    &&& forall|j: int| from <= j < i ==> !occurs_at(s, pat, j)
}

/// The first position at or after `from` at which `pat` stands in `s`, if
/// there is one.
pub open spec fn first_occurrence(s: Seq<char>, pat: Seq<char>, from: int) -> Option<int> {
    if exists|i: int| is_first_occurrence(s, pat, from, i) {
        Some(choose|i: int| is_first_occurrence(s, pat, from, i))
    } else {
        None
    }
}

/// `i` is the last position at which `pat` stands in `s`.
pub open spec fn is_last_occurrence(s: Seq<char>, pat: Seq<char>, i: int) -> bool {
    &&& occurs_at(s, pat, i)
    &&& forall|j: int| i < j ==> !occurs_at(s, pat, j)
}

/// The last position at which `pat` stands in `s`, if there is one.
pub open spec fn last_occurrence(s: Seq<char>, pat: Seq<char>) -> Option<int> {
    if exists|i: int| is_last_occurrence(s, pat, i) {
        Some(choose|i: int| is_last_occurrence(s, pat, i))
    } else {
        None
    }
}

/// `s` with every `from` replaced by `to`.
pub open spec fn replaced(s: Seq<char>, from: char, to: char) -> Seq<char> {
    Seq::new(
        s.len(),
        |i: int|
            if s[i] == from {
                to
            } else {
                s[i]
            },
    )
}

/// A one-character pattern stands exactly where that character stands.
pub proof fn lemma_occurs_at_char(s: Seq<char>, pat: Seq<char>, c: char, i: int)
    requires
        pat == seq![c],
    ensures
        occurs_at(s, pat, i) <==> 0 <= i < s.len() && s[i] == c,
{
    if 0 <= i < s.len() {
        if s[i] == c {
            assert(s.subrange(i, i + 1) =~= pat);
        } else {
            assert(s.subrange(i, i + 1)[0] == s[i]);
        }
    }
}

/// A first occurrence is the only one: it is what `first_occurrence` yields.
pub proof fn lemma_first_occurrence_is(s: Seq<char>, pat: Seq<char>, from: int, i: int)
    requires
        is_first_occurrence(s, pat, from, i),
    ensures
        first_occurrence(s, pat, from) == Some(i),
{
    let c = choose|k: int| is_first_occurrence(s, pat, from, k);
    assert(is_first_occurrence(s, pat, from, c));
    if c < i {
        assert(!occurs_at(s, pat, c));
    } else if i < c {
        assert(!occurs_at(s, pat, i));
    }
}

/// Whatever `first_occurrence` yields is a first occurrence.
pub proof fn lemma_first_occurrence_some(s: Seq<char>, pat: Seq<char>, from: int)
    requires
        first_occurrence(s, pat, from) is Some,
    ensures
        is_first_occurrence(s, pat, from, first_occurrence(s, pat, from)->0),
{
}

/// Below an occurrence at or after `from` there is a first one.
pub proof fn lemma_first_occurrence_exists(s: Seq<char>, pat: Seq<char>, from: int, i: int)
    requires
        from <= i,
        occurs_at(s, pat, i),
    ensures
        first_occurrence(s, pat, from) is Some,
        first_occurrence(s, pat, from)->0 <= i,
    decreases i - from,
{
    if exists|j: int| from <= j < i && occurs_at(s, pat, j) {
        let j = choose|j: int| from <= j < i && occurs_at(s, pat, j);
        lemma_first_occurrence_exists(s, pat, from, j);
    } else {
        assert(is_first_occurrence(s, pat, from, i));
        lemma_first_occurrence_is(s, pat, from, i);
    }
}

/// There is no first occurrence exactly when `pat` stands nowhere at or
/// after `from`.
pub proof fn lemma_first_occurrence_none(s: Seq<char>, pat: Seq<char>, from: int)
    ensures
        first_occurrence(s, pat, from) is None <==> forall|j: int|
            from <= j ==> !occurs_at(s, pat, j),
{
    if first_occurrence(s, pat, from) is None {
        assert forall|j: int| from <= j implies !occurs_at(s, pat, j) by {
            if occurs_at(s, pat, j) {
                lemma_first_occurrence_exists(s, pat, from, j);
            }
        }
    } else {
        lemma_first_occurrence_some(s, pat, from);
    }
}

/// `pat` stands somewhere in `s` exactly when it has a first occurrence.
pub proof fn lemma_occurs_iff_first(s: Seq<char>, pat: Seq<char>)
    ensures
        occurs(s, pat) <==> first_occurrence(s, pat, 0) is Some,
{
    lemma_first_occurrence_none(s, pat, 0);
    if first_occurrence(s, pat, 0) is Some {
        lemma_first_occurrence_some(s, pat, 0);
    }
}

/// A last occurrence is the only one: it is what `last_occurrence` yields.
pub proof fn lemma_last_occurrence_is(s: Seq<char>, pat: Seq<char>, i: int)
    requires
        is_last_occurrence(s, pat, i),
    ensures
        last_occurrence(s, pat) == Some(i),
{
    let c = choose|k: int| is_last_occurrence(s, pat, k);
    assert(is_last_occurrence(s, pat, c));
    if c < i {
        assert(!occurs_at(s, pat, i));
    } else if i < c {
        assert(!occurs_at(s, pat, c));
    }
}

/// Above an occurrence there is a last one.
pub proof fn lemma_last_occurrence_exists(s: Seq<char>, pat: Seq<char>, i: int)
    requires
        occurs_at(s, pat, i),
    ensures
        last_occurrence(s, pat) is Some,
        last_occurrence(s, pat)->0 >= i,
    decreases s.len() - i,
{
    if exists|j: int| i < j && occurs_at(s, pat, j) {
        let j = choose|j: int| i < j && occurs_at(s, pat, j);
        lemma_last_occurrence_exists(s, pat, j);
    } else {
        assert(is_last_occurrence(s, pat, i));
        lemma_last_occurrence_is(s, pat, i);
    }
}

/// There is no last occurrence exactly when `pat` stands nowhere in `s`.
pub proof fn lemma_last_occurrence_none(s: Seq<char>, pat: Seq<char>)
    ensures
        last_occurrence(s, pat) is None <==> !occurs(s, pat),
{
    if occurs(s, pat) {
        let i = choose|i: int| occurs_at(s, pat, i);
        lemma_last_occurrence_exists(s, pat, i);
    }
}

/// Whether `pat` stands in `s` at position `i`.
pub fn matches_at(s: &[char], pat: &[char], i: usize) -> (found: bool)
    ensures
        found == occurs_at(s@, pat@, i as int),
{
    let n = pat.len();
    if n > s.len() || i > s.len() - n {
        return false;
    }
    let mut k: usize = 0;
    while k < n
        invariant
            n == pat@.len(),
            i + n <= s@.len() <= usize::MAX,
            k <= n,
            forall|j: int| 0 <= j < k ==> s@[i + j] == pat@[j],
        decreases n - k,
    {
        if s[i + k] != pat[k] {
            assert(s@.subrange(i as int, i + n)[k as int] != pat@[k as int]);
            return false;
        }
        k += 1;
    }
    assert(s@.subrange(i as int, i + n) =~= pat@);
    true
}

/// The first position at or after `from` at which `pat` stands in `s`.
pub fn find_from(s: &[char], pat: &str, from: usize) -> (found: Option<usize>)
    ensures
        first_occurrence(s@, pat@, from as int) == match found {
            Some(i) => Some(i as int),
            None => None,
        },
        found matches Some(i) ==> is_first_occurrence(s@, pat@, from as int, i as int),
{
    let p = to_chars(pat);
    let mut i: usize = from;
    while i < s.len()
        invariant
            p@ == pat@,
            from <= i,
            forall|j: int| from <= j < i ==> !occurs_at(s@, pat@, j),
        decreases s.len() - i,
    {
        if matches_at(s, p.as_slice(), i) {
            proof {
                lemma_first_occurrence_is(s@, pat@, from as int, i as int);
            }
            return Some(i);
        }
        i += 1;
    }
    if i == s.len() && p.len() == 0 {
        assert(s@.subrange(i as int, i as int) =~= pat@);
        proof {
            lemma_first_occurrence_is(s@, pat@, from as int, i as int);
        }
        return Some(i);
    }
    proof {
        lemma_first_occurrence_none(s@, pat@, from as int);
    }
    None
}

/// The first position at which `pat` stands in `s`.
pub fn find(s: &[char], pat: &str) -> (found: Option<usize>)
    ensures
        first_occurrence(s@, pat@, 0) == match found {
            Some(i) => Some(i as int),
            None => None,
        },
        found matches Some(i) ==> is_first_occurrence(s@, pat@, 0, i as int),
        found is Some <==> occurs(s@, pat@),
{
    proof {
        lemma_occurs_iff_first(s@, pat@);
    }
    find_from(s, pat, 0)
}

/// The last position at which `pat` stands in `s`.
pub fn rfind(s: &[char], pat: &str) -> (found: Option<usize>)
    ensures
        last_occurrence(s@, pat@) == match found {
            Some(i) => Some(i as int),
            None => None,
        },
        found matches Some(i) ==> is_last_occurrence(s@, pat@, i as int),
{
    let p = to_chars(pat);
    let mut i: usize = s.len();
    loop
        invariant
            p@ == pat@,
            i <= s.len(),
            forall|j: int| i < j ==> !occurs_at(s@, pat@, j),
        decreases i,
    {
        if matches_at(s, p.as_slice(), i) {
            proof {
                lemma_last_occurrence_is(s@, pat@, i as int);
            }
            return Some(i);
        }
        if i == 0 {
            proof {
                lemma_last_occurrence_none(s@, pat@);
            }
            return None;
        }
        i -= 1;
    }
}

/// Whether `pat` stands somewhere in `s`.
pub fn contains(s: &[char], pat: &str) -> (found: bool)
    ensures
        found == occurs(s@, pat@),
{
    find(s, pat).is_some()
}

/// Whether `s` begins with `pat`.
pub fn starts_with(s: &[char], pat: &str) -> (found: bool)
    ensures
        found == occurs_at(s@, pat@, 0),
{
    let p = to_chars(pat);
    matches_at(s, p.as_slice(), 0)
}

/// Whether `s` holds exactly the characters of `pat`.
pub fn equal(s: &[char], pat: &str) -> (same: bool)
    ensures
        same == (s@ == pat@),
{
    let p = to_chars(pat);
    if s.len() != p.len() {
        return false;
    }
    assert(s@.subrange(0, s@.len() as int) =~= s@);
    matches_at(s, p.as_slice(), 0)
}

/// A copy of `s` with every `from` replaced by `to`.
pub fn replace(s: &[char], from: char, to: char) -> (out: Vec<char>)
    ensures
        out@ == replaced(s@, from, to),
{
    let mut out: Vec<char> = Vec::new();
    let mut i: usize = 0;
    while i < s.len()
        invariant
            i <= s.len(),
            out@.len() == i,
            forall|j: int| 0 <= j < i ==> out@[j] == replaced(s@, from, to)[j],
        decreases s.len() - i,
    {
        if s[i] == from {
            out.push(to);
        } else {
            out.push(s[i]);
        }
        i += 1;
    }
    assert(out@ =~= replaced(s@, from, to));
    out
}

/// The characters of `s`, in order.
pub fn to_chars(s: &str) -> (chars: Vec<char>)
    ensures
        chars@ == s@,
{
    let mut chars: Vec<char> = Vec::new();
    for c in it: s.chars()
        invariant
            it.seq() == s@,
            chars@ == it.seq().take(it.index() as int),
    {
        chars.push(c);
    }
    chars
}

/// `String::push` appends the one character to the end of the string and
/// leaves what stood there before it unchanged.
pub assume_specification[ String::push ](s: &mut String, ch: char)
    ensures
        final(s)@ == old(s)@.push(ch),
;

/// Appends the characters of `chars` to `out`.
pub fn append_chars(out: &mut String, chars: &[char])
    ensures
        final(out)@ == old(out)@ + chars@,
{
    let mut i: usize = 0;
    while i < chars.len()
        invariant
            i <= chars.len(),
            out@ == old(out)@ + chars@.take(i as int),
        decreases chars.len() - i,
    {
        out.push(chars[i]);
        i += 1;
        assert(chars@.take(i as int) =~= chars@.take(i - 1).push(chars@[i - 1]));
    }
    assert(chars@.take(i as int) =~= chars@);
}

/// The string that holds the characters of `chars`, in order.
pub fn from_chars(chars: &[char]) -> (s: String)
    ensures
        s@ == chars@,
{
    let mut s = String::new();
    append_chars(&mut s, chars);
    s
}

} // verus!
