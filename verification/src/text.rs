//! Text as sequences of characters: white space, trimming and counting.

use vstd::prelude::*;

verus! {

/// Whether `c` has the Unicode property White_Space.
pub open spec fn is_white_space(c: char) -> bool {
    let u = c as u32;
    (0x09 <= u <= 0x0D) || u == 0x20 || u == 0x85 || u == 0xA0 || u == 0x1680 || (0x2000 <= u
        <= 0x200A) || u == 0x2028 || u == 0x2029 || u == 0x202F || u == 0x205F || u == 0x3000
}

/// Executable form of [`is_white_space`].
pub fn is_white_space_char(c: char) -> (b: bool)
    ensures
        b == is_white_space(c),
{
    let u: u32 = c as u32;
    (0x09 <= u && u <= 0x0D) || u == 0x20 || u == 0x85 || u == 0xA0 || u == 0x1680 || (0x2000 <= u
        && u <= 0x200A) || u == 0x2028 || u == 0x2029 || u == 0x202F || u == 0x205F || u == 0x3000
}

/// `s` without its leading white space.
pub open spec fn trim_start(s: Seq<char>) -> Seq<char>
    decreases s.len(),
{
    if s.len() > 0 && is_white_space(s.first()) {
        trim_start(s.drop_first())
    } else {
        s
    }
}

/// `s` without its trailing white space.
pub open spec fn trim_end(s: Seq<char>) -> Seq<char>
    decreases s.len(),
{
    if s.len() > 0 && is_white_space(s.last()) {
        trim_end(s.drop_last())
    } else {
        s
    }
}

/// `s` without its leading and trailing white space.
pub open spec fn trimmed(s: Seq<char>) -> Seq<char> {
    trim_end(trim_start(s))
}

/// Leading white space of `s` ends at `a`: everything before `a` is white
/// space and the character at `a`, if there is one, is not.
pub proof fn lemma_trim_start_is_skip(s: Seq<char>, a: int)
    requires
        0 <= a <= s.len(),
        forall|j: int| 0 <= j < a ==> is_white_space(#[trigger] s[j]),
        a < s.len() ==> !is_white_space(s[a]),
    ensures
        trim_start(s) == s.skip(a),
    decreases a,
{
    if a == 0 {
        assert(s.skip(0) =~= s);
    } else {
        let rest = s.drop_first();
        assert forall|j: int| 0 <= j < a - 1 implies is_white_space(#[trigger] rest[j]) by {
            assert(rest[j] == s[j + 1]);
        }
        lemma_trim_start_is_skip(rest, a - 1);
        assert(rest.skip(a - 1) =~= s.skip(a));
    }
}

/// Trailing white space of `s` begins at `b`: everything from `b` on is
/// white space and the character before `b`, if there is one, is not.
pub proof fn lemma_trim_end_is_take(s: Seq<char>, b: int)
    requires
        0 <= b <= s.len(),
        forall|j: int| b <= j < s.len() ==> is_white_space(#[trigger] s[j]),
        0 < b ==> !is_white_space(s[b - 1]),
    ensures
        trim_end(s) == s.take(b),
    decreases s.len() - b,
{
    if b == s.len() {
        assert(s.take(b) =~= s);
    } else {
        let rest = s.drop_last();
        lemma_trim_end_is_take(rest, b);
        assert(rest.take(b) =~= s.take(b));
    }
}

/// Removes leading and trailing white space from `text`.
pub fn trim(text: &str) -> (out: &str)
    ensures
        out@ == trimmed(text@),
{
    let n: usize = text.unicode_len();
    // `start` is the first character that is not white space, `end` is one
    // past the last such character; both stay 0 while none has been seen.
    let mut start: usize = 0;
    let mut end: usize = 0;
    let mut i: usize = 0;
    for c in it: text.chars()
        invariant
            it.seq() == text@,
            n == text@.len(),
            i == it.index(),
            start <= end <= i,
            end == 0 ==> start == 0 && forall|j: int| 0 <= j < i ==> is_white_space(
                #[trigger] text@[j],
            ),
            end > 0 ==> start < end && !is_white_space(text@[start as int]) && !is_white_space(
                text@[end - 1],
            ),
            end > 0 ==> forall|j: int| 0 <= j < start ==> is_white_space(#[trigger] text@[j]),
            end > 0 ==> forall|j: int| end <= j < i ==> is_white_space(#[trigger] text@[j]),
    {
        if !is_white_space_char(c) {
            if end == 0 {
                start = i;
            }
            end = i + 1;
        }
        i = i + 1;
    }
    proof {
        let s = text@;
        if end == 0 {
            lemma_trim_start_is_skip(s, s.len() as int);
            assert(s.skip(s.len() as int) =~= Seq::<char>::empty());
            assert(s.subrange(0, 0) =~= Seq::<char>::empty());
        } else {
            lemma_trim_start_is_skip(s, start as int);
            let t = s.skip(start as int);
            assert forall|j: int| end - start <= j < t.len() implies is_white_space(
                #[trigger] t[j],
            ) by {
                assert(t[j] == s[j + start]);
            }
            assert(t[end - start - 1] == s[end - 1]);
            lemma_trim_end_is_take(t, end - start);
            assert(t.take(end - start) =~= s.subrange(start as int, end as int));
        }
    }
    text.substring_char(start, end)
}

/// The number of occurrences of `c` in `s`.
pub open spec fn count_of(s: Seq<char>, c: char) -> nat
    decreases s.len(),
{
    if s.len() == 0 {
        0
    } else {
        count_of(s.drop_last(), c) + if s.last() == c {
            1nat
        } else {
            0nat
        }
    }
}

/// Occurrences in a concatenation are those in its two parts.
pub proof fn lemma_count_of_concat(a: Seq<char>, b: Seq<char>, c: char)
    ensures
        count_of(a + b, c) == count_of(a, c) + count_of(b, c),
    decreases b.len(),
{
    if b.len() == 0 {
        assert(a + b =~= a);
    } else {
        lemma_count_of_concat(a, b.drop_last(), c);
        assert((a + b).drop_last() =~= a + b.drop_last());
        assert((a + b).last() == b.last());
    }
}

/// A text has no occurrence of `c` exactly when it does not hold `c`.
pub proof fn lemma_count_of_none(s: Seq<char>, c: char)
    ensures
        count_of(s, c) == 0 <==> !s.contains(c),
    decreases s.len(),
{
    if s.len() > 0 {
        let head = s.drop_last();
        lemma_count_of_none(head, c);
        if s.contains(c) {
            let j = choose|j: int| 0 <= j < s.len() && s[j] == c;
            if j < s.len() - 1 {
                assert(head[j] == c);
            }
        } else {
            assert forall|j: int| 0 <= j < head.len() implies head[j] != c by {
                assert(head[j] == s[j]);
            }
        }
    }
}

} // verus!
