//! Verse references: the three-part `book.chapter.verse` value of a verse
//! marker, and the record prefix written for it.

use crate::text::count_of;
use vstd::prelude::*;
use vstd::string::StringExecFns;

verus! {

/// The components of `s` between occurrences of `sep`.
///
/// The empty text has one empty component. A separator closes the current
/// component and opens a new, empty one; any other character extends the
/// last component. So `n` separators always give `n + 1` components, some
/// of which may be empty ([`lemma_split_len`]); no component holds the
/// separator, and joined with it they give `s` back
/// ([`lemma_split_joins_back`]).
pub open spec fn split_on(s: Seq<char>, sep: char) -> Seq<Seq<char>>
    decreases s.len(),
{
    if s.len() == 0 {
        seq![Seq::<char>::empty()]
    } else {
        let before = split_on(s.drop_last(), sep);
        if s.last() == sep {
            before.push(Seq::<char>::empty())
        } else {
            before.drop_last().push(before.last().push(s.last()))
        }
    }
}

/// Splitting gives one component more than there are separators.
pub proof fn lemma_split_len(s: Seq<char>, sep: char)
    ensures
        split_on(s, sep).len() == count_of(s, sep) + 1,
    decreases s.len(),
{
    if s.len() > 0 {
        lemma_split_len(s.drop_last(), sep);
    }
}

/// The texts of `parts` in order, with `sep` between each two.
pub open spec fn join_with(parts: Seq<Seq<char>>, sep: char) -> Seq<char>
    decreases parts.len(),
{
    if parts.len() == 0 {
        Seq::<char>::empty()
    } else if parts.len() == 1 {
        parts[0]
    } else {
        join_with(parts.drop_last(), sep).push(sep) + parts.last()
    }
}

/// Splitting loses nothing: joining the components restores the text, and
/// no component holds the separator.
pub proof fn lemma_split_joins_back(s: Seq<char>, sep: char)
    ensures
        join_with(split_on(s, sep), sep) == s,
        forall|k: int, j: int|
            0 <= k < split_on(s, sep).len() && 0 <= j < split_on(s, sep)[k].len()
                ==> #[trigger] split_on(s, sep)[k][j] != sep,
    decreases s.len(),
{
    lemma_split_len(s, sep);
    if s.len() == 0 {
        assert(join_with(split_on(s, sep), sep) =~= s);
    } else {
        let head = s.drop_last();
        let before = split_on(head, sep);
        lemma_split_joins_back(head, sep);
        lemma_split_len(head, sep);
        assert(head.push(s.last()) =~= s);
        if s.last() == sep {
            let parts = before.push(Seq::<char>::empty());
            assert(parts.drop_last() =~= before);
            assert(join_with(parts, sep) == join_with(before, sep).push(sep) + parts.last());
            assert(join_with(parts, sep) =~= s);
        } else {
            let last = before.last().push(s.last());
            let parts = before.drop_last().push(last);
            assert(parts.drop_last() =~= before.drop_last());
            assert(parts.last() == last);
            if before.len() == 1 {
                assert(join_with(before, sep) == before[0]);
                assert(join_with(parts, sep) == parts[0]);
            } else {
                assert(join_with(before, sep) == join_with(before.drop_last(), sep).push(sep)
                    + before.last());
                assert(join_with(parts, sep) == join_with(before.drop_last(), sep).push(sep)
                    + last);
            }
            assert(join_with(parts, sep) =~= s);
        }
    }
}

/// The record prefix for a reference of three components: each component
/// followed by a tab.
pub open spec fn record_prefix(parts: Seq<Seq<char>>) -> Seq<char>
    recommends
        parts.len() == 3,
{
    parts[0] + seq!['\t'] + parts[1] + seq!['\t'] + parts[2] + seq!['\t']
}

/// A verse reference: book, chapter and verse, as they stand in the marker.
#[derive(Debug, Clone, PartialEq, Eq)]
pub struct VerseReference {
    pub book: String,
    pub chapter: String,
    pub verse: String,
}

impl VerseReference {
    /// The three components in order.
    pub open spec fn components(&self) -> Seq<Seq<char>> {
        seq![self.book@, self.chapter@, self.verse@]
    }

    /// Reads a reference from the value of a verse marker. The value is
    /// split on `.`; it is a reference exactly when that gives three
    /// components, each of which may be empty.
    pub fn parse(value: &str) -> (reference: Option<VerseReference>)
        ensures
            match reference {
                Some(r) => split_on(value@, '.') == r.components(),
                None => split_on(value@, '.').len() != 3,
            },
    {
        let n: usize = value.unicode_len();
        let ghost s = value@;
        // Positions of the first and the second separator, and the number
        // of separators seen.
        let mut first: usize = 0;
        let mut second: usize = 0;
        let mut seen: usize = 0;
        let mut i: usize = 0;
        assert(s.take(0) =~= Seq::<char>::empty());
        for c in it: value.chars()
            invariant
                it.seq() == s,
                s == value@,
                n == s.len(),
                i == it.index(),
                seen <= i,
                split_on(s.take(i as int), '.').len() == seen + 1,
                seen == 0 ==> split_on(s.take(i as int), '.') == seq![s.take(i as int)],
                seen >= 1 ==> first < i,
                seen == 1 ==> split_on(s.take(i as int), '.') == seq![
                    s.subrange(0, first as int),
                    s.subrange(first + 1, i as int),
                ],
                seen >= 2 ==> first < second < i,
                seen == 2 ==> split_on(s.take(i as int), '.') == seq![
                    s.subrange(0, first as int),
                    s.subrange(first + 1, second as int),
                    s.subrange(second + 1, i as int),
                ],
        {
            proof {
                let next = s.take(i + 1);
                assert(next.drop_last() =~= s.take(i as int));
                assert(next.last() == c);
                let before = split_on(s.take(i as int), '.');
                if c != '.' {
                    if seen == 0 {
                        assert(before.drop_last().push(before.last().push(c)) =~~= seq![next]);
                    } else if seen == 1 {
                        assert(before.drop_last().push(before.last().push(c)) =~~= seq![
                            s.subrange(0, first as int),
                            s.subrange(first + 1, i + 1),
                        ]);
                    } else if seen == 2 {
                        assert(before.drop_last().push(before.last().push(c)) =~~= seq![
                            s.subrange(0, first as int),
                            s.subrange(first + 1, second as int),
                            s.subrange(second + 1, i + 1),
                        ]);
                    }
                } else {
                    if seen == 0 {
                        assert(before.push(Seq::<char>::empty()) =~~= seq![
                            s.subrange(0, i as int),
                            s.subrange(i + 1, i + 1),
                        ]);
                    } else if seen == 1 {
                        assert(before.push(Seq::<char>::empty()) =~~= seq![
                            s.subrange(0, first as int),
                            s.subrange(first + 1, i as int),
                            s.subrange(i + 1, i + 1),
                        ]);
                    }
                }
            }
            if c == '.' {
                if seen == 0 {
                    first = i;
                } else if seen == 1 {
                    second = i;
                }
                seen = seen + 1;
            }
            i = i + 1;
        }
        assert(s.take(n as int) =~= s);
        if seen != 2 {
            return None;
        }
        let book = String::from_str(value.substring_char(0, first));
        let chapter = String::from_str(value.substring_char(first + 1, second));
        let verse = String::from_str(value.substring_char(second + 1, n));
        Some(VerseReference { book, chapter, verse })
    }

    /// The record prefix of this reference: book, chapter and verse, each
    /// followed by a tab.
    pub fn prefix(&self) -> (out: String)
        ensures
            out@ == record_prefix(self.components()),
    {
        proof {
            reveal_strlit("\t");
        }
        let out = String::from_str(self.book.as_str()).concat("\t").concat(
            self.chapter.as_str(),
        ).concat("\t").concat(self.verse.as_str()).concat("\t");
        assert("\t"@ =~= seq!['\t']);
        out
    }
}

} // verus!
