//! The allow-list of targets: a comma-separated list of prefixes, of which a
//! message's target has to begin with at least one.

use vstd::prelude::*;
use crate::text::starts_with;

verus! {

/// The pieces into which the commas of `text` cut it, from left to right.
/// There is always at least one piece, and a piece may be empty: a text
/// without commas is its own single piece, and every comma ends one piece and
/// begins the next.
pub open spec fn segments(text: Seq<char>) -> Seq<Seq<char>>
    decreases text.len(),
{
    if text.len() == 0 {
        seq![Seq::<char>::empty()]
    } else {
        let before = segments(text.drop_last());
        if text.last() == ',' {
            before.push(Seq::<char>::empty())
        } else {
            before.drop_last().push(before.last().push(text.last()))
        }
    }
}

/// The pieces written one after another with a comma between neighbours.
pub open spec fn joined(pieces: Seq<Seq<char>>) -> Seq<char>
    decreases pieces.len(),
{
    if pieces.len() == 0 {
        Seq::<char>::empty()
    } else if pieces.len() == 1 {
        pieces[0]
    } else {
        joined(pieces.drop_last()).push(',') + pieces.last()
    }
}

/// Whether no piece holds a comma.
pub open spec fn comma_free(pieces: Seq<Seq<char>>) -> bool {
    forall|i: int, j: int|
        0 <= i < pieces.len() && 0 <= j < pieces[i].len() ==> #[trigger] pieces[i][j] != ','
}

/// Whether `target` begins with at least one of `prefixes`.
pub open spec fn any_prefix_of(prefixes: Seq<Seq<char>>, target: Seq<char>) -> bool {
    exists|i: int| 0 <= i < prefixes.len() && #[trigger] prefixes[i].is_prefix_of(target)
}

/// The prefixes of an allow-list, ready to be held against targets.
pub struct AllowList {
    prefixes: Vec<Vec<char>>,
}

impl View for AllowList {
    type V = Seq<Seq<char>>;

    /// The prefixes, in the order in which the list names them.
    closed spec fn view(&self) -> Seq<Seq<char>> {
        self.prefixes@.map_values(|prefix: Vec<char>| prefix@)
    }
}

impl AllowList {
    /// Reads a comma-separated list of prefixes.
    pub fn parse(list: &str) -> (allowed: AllowList)
        ensures
            allowed@ == segments(list@),
    {
        let mut prefixes: Vec<Vec<char>> = Vec::new();
        let mut current: Vec<char> = Vec::new();
        for c in it: list.chars()
            invariant
                it.seq() == list@,
                prefixes@.map_values(|prefix: Vec<char>| prefix@).push(current@) == segments(
                    list@.take(it.index() as int),
                ),
        {
            let ghost seen = list@.take(it.index() as int);
            let ghost done = prefixes@.map_values(|prefix: Vec<char>| prefix@);
            let ghost piece = current@;
            proof {
                let longer = list@.take(it.index() + 1);
                assert(longer.drop_last() =~= seen);
                assert(longer.last() == c);
                assert(done.push(piece).drop_last() =~= done);
            }
            if c == ',' {
                prefixes.push(current);
                current = Vec::new();
                assert(prefixes@.map_values(|prefix: Vec<char>| prefix@) =~= done.push(piece));
            } else {
                current.push(c);
            }
        }
        proof {
            assert(list@.take(list@.len() as int) =~= list@);
        }
        prefixes.push(current);
        AllowList { prefixes }
    }

    /// Whether the list lets a message of this target through: whether the
    /// target begins with one of the prefixes.
    pub fn admits(&self, target: &str) -> (found: bool)
        ensures
            found == any_prefix_of(self@, target@),
    {
        let mut i: usize = 0;
        while i < self.prefixes.len()
            invariant
                i <= self.prefixes.len(),
                forall|j: int| 0 <= j < i ==> !(#[trigger] self@[j]).is_prefix_of(target@),
            decreases self.prefixes.len() - i,
        {
            if starts_with(target, self.prefixes[i].as_slice()) {
                assert(self@[i as int].is_prefix_of(target@));
                return true;
            }
            i += 1;
        }
        false
    }
}

/// Cutting a text at its commas yields at least one piece, and no piece holds
/// a comma.
pub proof fn lemma_segments_comma_free(text: Seq<char>)
    ensures
        segments(text).len() >= 1,
        comma_free(segments(text)),
    decreases text.len(),
{
    if text.len() > 0 {
        lemma_segments_comma_free(text.drop_last());
    }
}

/// Joining the pieces of a text with commas gives the text back.
pub proof fn lemma_joined_segments(text: Seq<char>)
    ensures
        joined(segments(text)) == text,
    decreases text.len(),
{
    if text.len() > 0 {
        let shorter = text.drop_last();
        let before = segments(shorter);
        lemma_segments_comma_free(shorter);
        lemma_joined_segments(shorter);
        if text.last() == ',' {
            let after = before.push(Seq::<char>::empty());
            assert(after.drop_last() == before);
            assert(joined(after) == joined(before).push(',') + Seq::<char>::empty());
            assert(joined(after) == text);
        } else {
            let grown = before.last().push(text.last());
            let after = before.drop_last().push(grown);
            if before.len() == 1 {
                assert(joined(after) == text);
            } else {
                assert(after.drop_last() == before.drop_last());
                assert(joined(after) == joined(before.drop_last()).push(',') + grown);
                assert(joined(before) == joined(before.drop_last()).push(',') + before.last());
                assert(joined(after) == joined(before).push(text.last()));
                assert(joined(after) == text);
            }
        }
    }
}

/// Dropping pieces from the end, or shortening one, keeps the rest
/// comma-free.
proof fn lemma_comma_free_within(pieces: Seq<Seq<char>>, shorter: Seq<Seq<char>>)
    requires
        comma_free(pieces),
        shorter.len() <= pieces.len(),
        forall|i: int| 0 <= i < shorter.len() ==> #[trigger] shorter[i].is_prefix_of(pieces[i]),
    ensures
        comma_free(shorter),
{
    assert forall|i: int, j: int|
        0 <= i < shorter.len() && 0 <= j < shorter[i].len() implies #[trigger] shorter[i][j]
        != ',' by {
        assert(shorter[i].is_prefix_of(pieces[i]));
        assert(shorter[i][j] == pieces[i][j]);
    }
}

/// The pieces of a text are the only comma-free pieces that join to it: any
/// non-empty sequence of comma-free pieces is what its own joined text is cut
/// into.
pub proof fn lemma_segments_unique(pieces: Seq<Seq<char>>)
    requires
        pieces.len() >= 1,
        comma_free(pieces),
    ensures
        segments(joined(pieces)) == pieces,
    decreases joined(pieces).len(),
{
    let text = joined(pieces);
    let last = pieces.last();
    let front = pieces.drop_last();
    if text.len() == 0 {
        assert(pieces.len() == 1);
        assert(pieces[0] =~= Seq::<char>::empty());
        assert(pieces =~= seq![Seq::<char>::empty()]);
    } else if pieces.len() == 1 {
        assert(text == last);
        assert(last[last.len() - 1] != ',');
        let shorter = seq![last.drop_last()];
        lemma_comma_free_within(pieces, shorter);
        assert(joined(shorter) == text.drop_last());
        lemma_segments_unique(shorter);
        assert(segments(text.drop_last()) == shorter);
        assert(shorter.last().push(text.last()) =~= last);
        assert(shorter.drop_last().push(last) =~= pieces);
    } else if last.len() == 0 {
        assert(text =~= joined(front).push(','));
        assert(text.drop_last() =~= joined(front));
        lemma_comma_free_within(pieces, front);
        lemma_segments_unique(front);
        assert(segments(text.drop_last()) == front);
        assert(last =~= Seq::<char>::empty());
        assert(front.push(Seq::<char>::empty()) =~= pieces);
    } else {
        assert(text.last() == last[last.len() - 1]);
        assert(last[last.len() - 1] != ',');
        let shorter = front.push(last.drop_last());
        assert(shorter.drop_last() =~= front);
        lemma_comma_free_within(pieces, shorter);
        assert(joined(shorter) =~= text.drop_last());
        lemma_segments_unique(shorter);
        assert(segments(text.drop_last()) == shorter);
        assert(shorter.last().push(text.last()) =~= last);
        assert(shorter.drop_last().push(last) =~= pieces);
    }
}

} // verus!
