//! Character-level views of header text: fields split at a separator, and
//! trimming of white space, with scanning functions over `&str` that compute
//! them.

use vstd::prelude::*;
use vstd::string::StrSliceExecFns;

verus! {

/// Whether `c` has the Unicode `White_Space` property, as `char::is_whitespace`
/// and `str::trim` use it.
pub open spec fn is_white_space(c: char) -> bool {
    let u = c as u32;
    (0x09 <= u && u <= 0x0d) || u == 0x20 || u == 0x85 || u == 0xa0 || u == 0x1680
        || (0x2000 <= u && u <= 0x200a) || u == 0x2028 || u == 0x2029 || u == 0x202f
        || u == 0x205f || u == 0x3000
}

/// The index of the first `c` in `s`, or the length of `s` where there is none.
pub open spec fn first_index(s: Seq<char>, c: char) -> nat
    decreases s.len(),
{
    if s.len() == 0 {
        0
    } else if s[0] == c {
        0
    } else {
        1 + first_index(s.drop_first(), c)
    }
}

/// `s` without its leading white space.
pub open spec fn trim_start(s: Seq<char>) -> Seq<char>
    decreases s.len(),
{
    if s.len() > 0 && is_white_space(s[0]) {
        trim_start(s.drop_first())
    } else {
        s
    }
}

/// `s` without its trailing white space.
pub open spec fn trim_end(s: Seq<char>) -> Seq<char>
    decreases s.len(),
{
    if s.len() > 0 && is_white_space(s.last()) {
        trim_end(s.drop_last())
    } else {
        s
    }
}

/// `s` without leading and trailing white space.
pub open spec fn trim(s: Seq<char>) -> Seq<char> {
    trim_end(trim_start(s))
}

/// The first of the fields that `sep` separates in `s`.
pub open spec fn first_field(s: Seq<char>, sep: char) -> Seq<char> {
    s.subrange(0, first_index(s, sep) as int)
}

/// The second of the fields that `sep` separates in `s`, if `s` holds `sep`.
pub open spec fn second_field(s: Seq<char>, sep: char) -> Option<Seq<char>> {
    let i = first_index(s, sep);
    if i < s.len() {
        Some(first_field(s.subrange(i + 1 as int, s.len() as int), sep))
    } else {
        None
    }
}

/// `first_index` is the position of the first occurrence.
pub proof fn lemma_first_index(s: Seq<char>, c: char, k: int)
    requires
        0 <= k <= s.len(),
        forall|j: int| 0 <= j < k ==> s[j] != c,
        k == s.len() || s[k] == c,
    ensures
        first_index(s, c) == k,
    decreases k,
{
    if k > 0 {
        lemma_first_index(s.drop_first(), c, k - 1);
    }
}

/// `trim_start` drops exactly the white space before the first other character.
pub proof fn lemma_trim_start(s: Seq<char>, a: int)
    requires
        0 <= a <= s.len(),
        forall|j: int| 0 <= j < a ==> is_white_space(#[trigger] s[j]),
        a == s.len() || !is_white_space(s[a]),
    ensures
        trim_start(s) == s.subrange(a, s.len() as int),
    decreases a,
{
    if a > 0 {
        lemma_trim_start(s.drop_first(), a - 1);
        assert(s.drop_first().subrange(a - 1, s.len() - 1) =~= s.subrange(a, s.len() as int));
    } else {
        assert(s.subrange(0, s.len() as int) =~= s);
    }
}

/// `trim_end` drops exactly the white space after the last other character.
pub proof fn lemma_trim_end(s: Seq<char>, b: int)
    requires
        0 <= b <= s.len(),
        forall|j: int| b <= j < s.len() ==> is_white_space(#[trigger] s[j]),
        b == 0 || !is_white_space(s[b - 1]),
    ensures
        trim_end(s) == s.subrange(0, b),
    decreases s.len() - b,
{
    if b < s.len() {
        lemma_trim_end(s.drop_last(), b);
        assert(s.drop_last().subrange(0, b) =~= s.subrange(0, b));
    } else {
        assert(s.subrange(0, s.len() as int) =~= s);
    }
}

/// Whether `c` is white space.
pub fn is_white_space_char(c: char) -> (r: bool)
    ensures
        r == is_white_space(c),
{
    let u = c as u32;
    (0x09 <= u && u <= 0x0d) || u == 0x20 || u == 0x85 || u == 0xa0 || u == 0x1680
        || (0x2000 <= u && u <= 0x200a) || u == 0x2028 || u == 0x2029 || u == 0x202f
        || u == 0x205f || u == 0x3000
}

/// The position of the first `c` in `s` between `from` and `to`, or `to`.
pub fn find_char(s: &str, c: char, from: usize, to: usize) -> (k: usize)
    requires
        from <= to <= s@.len(),
    ensures
        from <= k <= to,
        k == from + first_index(s@.subrange(from as int, to as int), c),
{
    let mut k = from;
    while k < to
        invariant
            from <= k <= to <= s@.len(),
            forall|j: int| from <= j < k ==> s@[j] != c,
        ensures
            from <= k <= to,
            forall|j: int| from <= j < k ==> s@[j] != c,
            k == to || s@[k as int] == c,
        decreases to - k,
    {
        if s.get_char(k) == c {
            break;
        }
        k = k + 1;
    }
    proof {
        lemma_first_index(s@.subrange(from as int, to as int), c, k - from);
    }
    k
}

/// The position after the white space that starts `s` between `from` and `to`.
pub fn skip_leading_white_space(s: &str, from: usize, to: usize) -> (a: usize)
    requires
        from <= to <= s@.len(),
    ensures
        from <= a <= to,
        trim_start(s@.subrange(from as int, to as int)) == s@.subrange(a as int, to as int),
{
    let mut a = from;
    while a < to
        invariant
            from <= a <= to <= s@.len(),
            forall|j: int| from <= j < a ==> is_white_space(#[trigger] s@[j]),
        ensures
            from <= a <= to,
            forall|j: int| from <= j < a ==> is_white_space(#[trigger] s@[j]),
            a == to || !is_white_space(s@[a as int]),
        decreases to - a,
    {
        if !is_white_space_char(s.get_char(a)) {
            break;
        }
        a = a + 1;
    }
    proof {
        let t = s@.subrange(from as int, to as int);
        assert forall|j: int| 0 <= j < a - from implies is_white_space(#[trigger] t[j]) by {
            assert(t[j] == s@[from + j]);
        }
        lemma_trim_start(t, a - from);
        assert(t.subrange(a - from, t.len() as int) =~= s@.subrange(a as int, to as int));
    }
    a
}

/// The position before the white space that ends `s` between `from` and `to`.
pub fn skip_trailing_white_space(s: &str, from: usize, to: usize) -> (b: usize)
    requires
        from <= to <= s@.len(),
    ensures
        from <= b <= to,
        trim_end(s@.subrange(from as int, to as int)) == s@.subrange(from as int, b as int),
{
    let mut b = to;
    while b > from
        invariant
            from <= b <= to <= s@.len(),
            forall|j: int| b <= j < to ==> is_white_space(#[trigger] s@[j]),
        ensures
            from <= b <= to,
            forall|j: int| b <= j < to ==> is_white_space(#[trigger] s@[j]),
            b == from || !is_white_space(s@[b - 1]),
        decreases b - from,
    {
        if !is_white_space_char(s.get_char(b - 1)) {
            break;
        }
        b = b - 1;
    }
    proof {
        let t = s@.subrange(from as int, to as int);
        assert forall|j: int| b - from <= j < t.len() implies is_white_space(#[trigger] t[j]) by {
            assert(t[j] == s@[from + j]);
        }
        lemma_trim_end(t, b - from);
        assert(t.subrange(0, b - from) =~= s@.subrange(from as int, b as int));
    }
    b
}

/// Whether the characters of `s` between `from` and `to` are those of `word`.
pub fn matches_word(s: &str, from: usize, to: usize, word: &str) -> (r: bool)
    requires
        from <= to <= s@.len(),
    ensures
        r == (s@.subrange(from as int, to as int) == word@),
{
    let n = word.unicode_len();
    if to - from != n {
        proof {
            assert(s@.subrange(from as int, to as int).len() != word@.len());
        }
        return false;
    }
    let mut i: usize = 0;
    while i < n
        invariant
            n == word@.len(),
            to - from == n,
            from <= to <= s@.len(),
            i <= n,
            forall|j: int| 0 <= j < i ==> s@[from + j] == word@[j],
        decreases n - i,
    {
        if s.get_char(from + i) != word.get_char(i) {
            proof {
                assert(s@.subrange(from as int, to as int)[i as int] != word@[i as int]);
            }
            return false;
        }
        i = i + 1;
    }
    assert(s@.subrange(from as int, to as int) =~= word@);
    true
}

} // verus!
