//! Character-level helpers on strings: whitespace, prefixes and trimming.

use vstd::prelude::*;

verus! {

/// Whether `c` is one of the Unicode code points with the `White_Space`
/// property.
pub open spec fn is_whitespace(c: char) -> bool {
    let n = c as u32;
    ||| 0x0009 <= n <= 0x000D
    ||| n == 0x0020
    ||| n == 0x0085
    ||| n == 0x00A0
    ||| n == 0x1680
    ||| 0x2000 <= n <= 0x200A
    ||| n == 0x2028
    ||| n == 0x2029
    ||| n == 0x202F
    ||| n == 0x205F
    ||| n == 0x3000
}

/// Tests a character for the `White_Space` property.
pub fn char_is_whitespace(c: char) -> (b: bool)
    ensures
        b == is_whitespace(c),
{
    let n: u32 = c as u32;
    (0x0009 <= n && n <= 0x000D) || n == 0x0020 || n == 0x0085 || n == 0x00A0 || n == 0x1680
        || (0x2000 <= n && n <= 0x200A) || n == 0x2028 || n == 0x2029 || n == 0x202F
        || n == 0x205F || n == 0x3000
}

/// The characters of a string, in order.
pub fn chars_of(s: &str) -> (v: Vec<char>)
    ensures
        v@ == s@,
{
    broadcast use vstd::string::group_string_axioms;

    let mut v: Vec<char> = Vec::new();
    let chars = s.chars();
    for c in it: chars
        invariant
            it.seq() == s@,
            v@ == it.seq().take(it.index()),
    {
        v.push(c);
    }
    v
}

/// `s` without its leading whitespace.
pub open spec fn trim_start(s: Seq<char>) -> Seq<char>
    decreases s.len(),
{
    if s.len() > 0 && is_whitespace(s[0]) {
        trim_start(s.drop_first())
    } else {
        s
    }
}

/// `s` without its trailing whitespace.
pub open spec fn trim_end(s: Seq<char>) -> Seq<char>
    decreases s.len(),
{
    if s.len() > 0 && is_whitespace(s.last()) {
        trim_end(s.drop_last())
    } else {
        s
    }
}

/// `s` without the whitespace that surrounds it.
pub open spec fn trimmed(s: Seq<char>) -> Seq<char> {
    trim_end(trim_start(s))
}

/// How many characters of whitespace `s` begins with.
pub open spec fn leading_whitespace(s: Seq<char>) -> nat
    decreases s.len(),
{
    if s.len() > 0 && is_whitespace(s[0]) {
        1 + leading_whitespace(s.drop_first())
    } else {
        0
    }
}

/// How many characters of whitespace `s` ends with.
pub open spec fn trailing_whitespace(s: Seq<char>) -> nat
    decreases s.len(),
{
    if s.len() > 0 && is_whitespace(s.last()) {
        1 + trailing_whitespace(s.drop_last())
    } else {
        0
    }
}

/// Trimming at the start drops the whitespace that `s` begins with, all of
/// it and nothing else.
pub proof fn lemma_trim_start_drops_leading_whitespace(s: Seq<char>)
    ensures
        leading_whitespace(s) <= s.len(),
        trim_start(s) == s.skip(leading_whitespace(s) as int),
        forall|k: int| 0 <= k < leading_whitespace(s) ==> is_whitespace(s[k]),
        leading_whitespace(s) < s.len() ==> !is_whitespace(s[leading_whitespace(s) as int]),
    decreases s.len(),
{
    if s.len() > 0 && is_whitespace(s[0]) {
        let rest = s.drop_first();
        lemma_trim_start_drops_leading_whitespace(rest);
        assert(rest.skip(leading_whitespace(rest) as int) == s.skip(leading_whitespace(s) as int));
        assert forall|k: int| 0 <= k < leading_whitespace(s) implies is_whitespace(s[k]) by {
            if k > 0 {
                assert(s[k] == rest[k - 1]);
            }
        }
    } else {
        assert(s.skip(0) == s);
    }
}

/// Trimming at the end drops the whitespace that `s` ends with, all of it
/// and nothing else.
pub proof fn lemma_trim_end_drops_trailing_whitespace(s: Seq<char>)
    ensures
        trailing_whitespace(s) <= s.len(),
        trim_end(s) == s.take(s.len() - trailing_whitespace(s)),
        forall|k: int| s.len() - trailing_whitespace(s) <= k < s.len() ==> is_whitespace(s[k]),
        trailing_whitespace(s) < s.len() ==> !is_whitespace(
            s[s.len() - trailing_whitespace(s) - 1],
        ),
    decreases s.len(),
{
    if s.len() > 0 && is_whitespace(s.last()) {
        let rest = s.drop_last();
        lemma_trim_end_drops_trailing_whitespace(rest);
        assert(rest.take(rest.len() - trailing_whitespace(rest)) == s.take(
            s.len() - trailing_whitespace(s),
        ));
        assert forall|k: int| s.len() - trailing_whitespace(s) <= k < s.len() implies is_whitespace(
            s[k],
        ) by {
            if k < rest.len() {
                assert(s[k] == rest[k]);
            }
        }
    } else {
        assert(s.take(s.len() as int) == s);
    }
}

/// The trimmed form of `s` is the stretch of `s` from its first character
/// that is no whitespace to its last one: it neither begins nor ends with
/// whitespace, and only whitespace was dropped on either side.
pub proof fn lemma_trimmed_is_the_core(s: Seq<char>)
    ensures
        exists|i: int, j: int|
            {
                &&& 0 <= i <= j <= s.len()
                &&& #[trigger] s.subrange(i, j) == trimmed(s)
                &&& forall|k: int| 0 <= k < i ==> is_whitespace(s[k])
                &&& forall|k: int| j <= k < s.len() ==> is_whitespace(s[k])
                &&& i < j ==> !is_whitespace(s[i]) && !is_whitespace(s[j - 1])
            },
        trimmed(s).len() > 0 ==> !is_whitespace(trimmed(s).first()) && !is_whitespace(
            trimmed(s).last(),
        ),
{
    let i = leading_whitespace(s) as int;
    lemma_trim_start_drops_leading_whitespace(s);
    let rest = s.skip(i);
    lemma_trim_end_drops_trailing_whitespace(rest);
    let j = s.len() - trailing_whitespace(rest);
    assert(s.subrange(i, j) == rest.take(rest.len() - trailing_whitespace(rest)));
    assert forall|k: int| j <= k < s.len() implies is_whitespace(s[k]) by {
        assert(s[k] == rest[k - i]);
    }
    if i < j {
        assert(s[j - 1] == rest[j - 1 - i]);
        assert(s[i] == rest[0]);
    }
}

/// Whether `s` begins with `prefix`.
pub fn starts_with(s: &Vec<char>, prefix: &Vec<char>) -> (b: bool)
    ensures
        b == prefix@.is_prefix_of(s@),
{
    if prefix.len() > s.len() {
        return false;
    }
    let mut i: usize = 0;
    while i < prefix.len()
        invariant
            i <= prefix.len() <= s.len(),
            prefix@.take(i as int) == s@.take(i as int),
        decreases prefix.len() - i,
    {
        if prefix[i] != s[i] {
            return false;
        }
        i += 1;
    }
    true
}

/// Finds where the trimmed form of `v` past its first `from` characters lies
/// within `v`: from the first character that is no whitespace to the last
/// one. Where there is none, the bounds are both the length of `v`.
pub fn trim_bounds(v: &Vec<char>, from: usize) -> (bounds: (usize, usize))
    requires
        from <= v.len(),
    ensures
        from <= bounds.0 <= bounds.1 <= v.len(),
        v@.subrange(bounds.0 as int, bounds.1 as int) == trimmed(v@.skip(from as int)),
        forall|k: int| from <= k < bounds.0 ==> is_whitespace(v@[k]),
        forall|k: int| bounds.1 <= k < v.len() ==> is_whitespace(v@[k]),
        bounds.0 < bounds.1 ==> !is_whitespace(v@[bounds.0 as int]) && !is_whitespace(
            v@[bounds.1 - 1],
        ),
        bounds.0 == bounds.1 ==> bounds.0 == v.len(),
{
    let n = v.len();
    let mut start: usize = from;
    while start < n && char_is_whitespace(v[start])
        invariant
            n == v.len(),
            from <= start <= n,
            trim_start(v@.skip(from as int)) == trim_start(v@.skip(start as int)),
            forall|k: int| from <= k < start ==> is_whitespace(v@[k]),
        decreases n - start,
    {
        assert(v@.skip(start as int).drop_first() == v@.skip(start + 1));
        start += 1;
    }
    let mut end: usize = n;
    while end > start && char_is_whitespace(v[end - 1])
        invariant
            n == v.len(),
            start <= end <= n,
            start < n ==> !is_whitespace(v@[start as int]),
            trimmed(v@.skip(from as int)) == trim_end(v@.subrange(start as int, end as int)),
            forall|k: int| end <= k < n ==> is_whitespace(v@[k]),
        decreases end - start,
    {
        assert(v@.subrange(start as int, end as int).drop_last() == v@.subrange(
            start as int,
            end - 1,
        ));
        end -= 1;
    }
    (start, end)
}

} // verus!
