//! Subtraction of address ranges, and the choice of a trampoline reservation.

use vstd::prelude::*;
use vstd::relations::{sorted_by, total_ordering};

verus! {

/// The addresses from `start` up to, not counting, `end`.
#[derive(Clone, Copy, Debug, PartialEq, Eq, Structural)]
pub struct AddrRange {
    pub start: usize,
    pub end: usize,
}

impl AddrRange {
    /// Whether the range holds the address.
    pub open spec fn holds(self, a: int) -> bool {
        self.start <= a < self.end
    }

    /// Whether the range holds nothing.
    pub open spec fn is_void(self) -> bool {
        self.start >= self.end
    }

    /// Length of the range; zero where it ends before it starts.
    pub open spec fn extent(self) -> int {
        if self.start <= self.end {
            self.end - self.start
        } else {
            0
        }
    }

    /// Whether `self` starts and ends within `outer`.
    pub open spec fn within(self, outer: AddrRange) -> bool {
        self.start >= outer.start && self.end <= outer.end
    }

    /// The range from `start` to `end`.
    pub fn new(start: usize, end: usize) -> (range: AddrRange)
        ensures
            range == (AddrRange { start, end }),
    {
        AddrRange { start, end }
    }

    /// Length of the range; zero where it ends before it starts.
    pub fn len(&self) -> (len: usize)
        ensures
            len == self.extent(),
    {
        self.end.saturating_sub(self.start)
    }

    /// Whether the range holds nothing.
    pub fn is_empty(&self) -> (empty: bool)
        ensures
            empty == self.is_void(),
    {
        self.start >= self.end
    }

    /// Whether `self` starts and ends within `outer`.
    pub fn is_within(&self, outer: &AddrRange) -> (inside: bool)
        ensures
            inside == self.within(*outer),
    {
        self.start >= outer.start && self.end <= outer.end
    }
}

/// Whether one of the ranges holds the address.
pub open spec fn any_holds(ranges: Seq<AddrRange>, a: int) -> bool {
    exists|i: int| 0 <= i < ranges.len() && (#[trigger] ranges[i]).holds(a)
}

/// Whether the ranges are not empty, ascend and do not overlap.
pub open spec fn ascending(ranges: Seq<AddrRange>) -> bool {
    &&& forall|i: int| 0 <= i < ranges.len() ==> (#[trigger] ranges[i]).start < ranges[i].end
    &&& forall|i: int, j: int|
        0 <= i < j < ranges.len() ==> (#[trigger] ranges[i]).end <= (#[trigger] ranges[j]).start
}

/// Whether one of the ranges ends, and another starts, at `x`.
pub open spec fn touches(ranges: Seq<AddrRange>, x: int) -> bool {
    exists|i: int, j: int|
        0 <= i < ranges.len() && 0 <= j < ranges.len() && (#[trigger] ranges[i]).end == x && (
        #[trigger] ranges[j]).start == x
}

/// Whether one of the ranges starts and ends at `x`.
pub open spec fn cuts(ranges: Seq<AddrRange>, x: int) -> bool {
    exists|i: int|
        0 <= i < ranges.len() && (#[trigger] ranges[i]).start == x && ranges[i].end == x
}

/// Two ascending sequences of ranges that hold the same addresses and are
/// divided at the same points are one and the same.
pub proof fn ascending_is_canonical(a: Seq<AddrRange>, b: Seq<AddrRange>)
    requires
        ascending(a),
        ascending(b),
        forall|x: int| any_holds(a, x) == any_holds(b, x),
        forall|x: int| touches(a, x) == touches(b, x),
    ensures
        a =~= b,
    decreases a.len(),
{
    if a.len() == 0 {
        if b.len() > 0 {
            let x = b[0].start as int;
            assert(b[0].holds(x));
            assert(any_holds(b, x));
            assert(any_holds(a, x));
        }
    } else if b.len() == 0 {
        let x = a[0].start as int;
        assert(a[0].holds(x));
        assert(any_holds(a, x));
        assert(any_holds(b, x));
    } else {
        let x = a[0].start as int;
        let y = b[0].start as int;
        assert(a[0].holds(x) && b[0].holds(y));
        assert(any_holds(a, x) && any_holds(b, y));
        assert(any_holds(b, x) && any_holds(a, y));
        assert(x == y);
        first_is_not_shorter(a, b);
        first_is_not_shorter(b, a);
        assert(a[0] == b[0]);
        let ta = a.drop_first();
        let tb = b.drop_first();
        assert forall|x: int| any_holds(ta, x) == any_holds(tb, x) by {
            tail_holds(a, x);
            tail_holds(b, x);
        }
        assert forall|x: int| touches(ta, x) == touches(tb, x) by {
            tail_touches(a, x);
            tail_touches(b, x);
        }
        ascending_is_canonical(ta, tb);
        assert(a =~= seq![a[0]] + ta);
        assert(b =~= seq![b[0]] + tb);
    }
}

/// The first range of one sequence cannot end inside the first range of
/// another that holds the same and is divided alike.
proof fn first_is_not_shorter(a: Seq<AddrRange>, b: Seq<AddrRange>)
    requires
        a.len() > 0,
        b.len() > 0,
        ascending(a),
        ascending(b),
        a[0].start == b[0].start,
        forall|x: int| any_holds(a, x) == any_holds(b, x),
        forall|x: int| touches(a, x) == touches(b, x),
    ensures
        a[0].end >= b[0].end,
{
    let p = a[0].end as int;
    if p < b[0].end {
        assert(b[0].holds(p));
        assert(any_holds(b, p));
        assert(any_holds(a, p));
        let i = choose|i: int| 0 <= i < a.len() && (#[trigger] a[i]).holds(p);
        assert(a[0].end <= a[i].start);
        assert(a[0].end == p && a[i].start == p);
        assert(touches(a, p));
        assert(touches(b, p));
        let (j, k) = choose|j: int, k: int|
            0 <= j < b.len() && 0 <= k < b.len() && (#[trigger] b[j]).end == p && (
            #[trigger] b[k]).start == p;
        if j > 0 {
            assert(b[0].end <= b[j].start);
        }
    }
}

/// Without its first range a sequence is divided where it was, but for the end
/// of that range.
proof fn tail_touches(s: Seq<AddrRange>, x: int)
    requires
        s.len() > 0,
        ascending(s),
    ensures
        touches(s.drop_first(), x) == (touches(s, x) && s[0].end != x),
{
    let t = s.drop_first();
    if touches(t, x) {
        let (i, j) = choose|i: int, j: int|
            0 <= i < t.len() && 0 <= j < t.len() && (#[trigger] t[i]).end == x && (
            #[trigger] t[j]).start == x;
        assert(s[i + 1].end == x && s[j + 1].start == x);
        assert(s[0].end <= s[i + 1].start);
        assert(s[i + 1].start < s[i + 1].end);
    }
    if touches(s, x) && s[0].end != x {
        let (i, j) = choose|i: int, j: int|
            0 <= i < s.len() && 0 <= j < s.len() && (#[trigger] s[i]).end == x && (
            #[trigger] s[j]).start == x;
        assert(i > 0);
        assert(s[0].end <= s[i].start && s[i].start < s[i].end);
        assert(j > 0);
        assert(t[i - 1].end == x && t[j - 1].start == x);
    }
}

/// Without its first range a sequence holds what lies past that range.
proof fn tail_holds(s: Seq<AddrRange>, x: int)
    requires
        s.len() > 0,
        ascending(s),
    ensures
        any_holds(s.drop_first(), x) == (any_holds(s, x) && !s[0].holds(x)),
{
    let t = s.drop_first();
    if any_holds(t, x) {
        let i = choose|i: int| 0 <= i < t.len() && (#[trigger] t[i]).holds(x);
        assert(s[i + 1].holds(x));
        assert(s[0].end <= s[i + 1].start);
    }
    if any_holds(s, x) && !s[0].holds(x) {
        let i = choose|i: int| 0 <= i < s.len() && (#[trigger] s[i]).holds(x);
        assert(t[i - 1].holds(x));
    }
}

/// Whether `blocks` ascend by start.
spec fn by_start(blocks: Seq<AddrRange>) -> bool {
    forall|i: int, j: int|
        0 <= i <= j < blocks.len() ==> (#[trigger] blocks[i]).start <= (#[trigger] blocks[j]).start
}

/// Whether one range comes before another: by start, then by end.
pub open spec fn in_order() -> spec_fn(AddrRange, AddrRange) -> bool {
    |a: AddrRange, b: AddrRange| a.start < b.start || (a.start == b.start && a.end <= b.end)
}

/// The order of ranges is total.
proof fn order_is_total()
    ensures
        total_ordering(in_order()),
{
}

/// Whether a range reaches into another.
pub open spec fn reaches_into(range: AddrRange) -> spec_fn(AddrRange) -> bool {
    |block: AddrRange| block.start < range.end && range.start < block.end
}

/// The excluded ranges that reach into `range`, in order.
pub open spec fn blocks_of(range: AddrRange, excluded: Seq<AddrRange>) -> Seq<AddrRange> {
    excluded.filter(reaches_into(range)).sort_by(in_order())
}

/// What is left from `cursor` up to `end` once the blocks are passed, one after
/// the other: the piece before each, if it starts past all that were passed,
/// and the piece after the last.
pub open spec fn left_over(cursor: usize, end: usize, blocks: Seq<AddrRange>) -> Seq<AddrRange>
    decreases blocks.len(),
{
    if blocks.len() == 0 {
        if cursor < end {
            seq![AddrRange { start: cursor, end }]
        } else {
            Seq::empty()
        }
    } else {
        let block = blocks[0];
        let before = if block.start > cursor {
            seq![AddrRange { start: cursor, end: block.start }]
        } else {
            Seq::empty()
        };
        let past = if block.end > cursor {
            block.end
        } else {
            cursor
        };
        if past >= end {
            before
        } else {
            before + left_over(past, end, blocks.drop_first())
        }
    }
}

/// Whether none of the ranges ends before it starts.
pub open spec fn none_reversed(ranges: Seq<AddrRange>) -> bool {
    forall|i: int| 0 <= i < ranges.len() ==> (#[trigger] ranges[i]).start <= ranges[i].end
}

/// The excluded ranges that reach into `range`, in order.
fn meeting_blocks(range: AddrRange, excluded: &[AddrRange]) -> (blocks: Vec<AddrRange>)
    ensures
        blocks@ == blocks_of(range, excluded@),
{
    let ghost keep = reaches_into(range);
    let mut blocks: Vec<AddrRange> = Vec::new();
    let mut i: usize = 0;
    proof {
        order_is_total();
        reveal(Seq::filter);
        assert(blocks@ =~= excluded@.take(0).filter(keep));
    }
    while i < excluded.len()
        invariant
            i <= excluded.len(),
            keep == reaches_into(range),
            sorted_by(blocks@, in_order()),
            blocks@.to_multiset() == excluded@.take(i as int).filter(keep).to_multiset(),
        decreases excluded.len() - i,
    {
        let block = excluded[i];
        let ghost before = blocks@;
        let ghost seen = excluded@.take(i as int);
        proof {
            reveal(Seq::filter);
            assert(excluded@.take(i + 1).drop_last() =~= seen);
            assert(excluded@.take(i + 1).last() == block);
        }
        if block.start < range.end && range.start < block.end {
            let mut at: usize = blocks.len();
            while at > 0 && (blocks[at - 1].start > block.start || (blocks[at - 1].start
                == block.start && blocks[at - 1].end > block.end))
                invariant
                    at <= blocks.len(),
                    blocks@ == before,
                    forall|k: int|
                        at <= k < blocks.len() ==> in_order()(block, #[trigger] blocks@[k]),
                decreases at,
            {
                at -= 1;
            }
            blocks.insert(at, block);
            proof {
                assert(blocks@ =~= before.insert(at as int, block));
                vstd::seq_lib::to_multiset_insert(before, at as int, block);
                vstd::seq_lib::to_multiset_build(seen.filter(keep), block);
                assert forall|j: int, k: int| 0 <= j < k < blocks@.len() implies #[trigger]
                    in_order()(blocks@[j], blocks@[k]) by {
                    if j < at && at <= k {
                        assert(in_order()(before[j], before[at - 1]) || j == at - 1);
                    }
                }
            }
        }
        i += 1;
    }
    proof {
        assert(excluded@.take(i as int) =~= excluded@);
        let kept = excluded@.filter(keep);
        kept.lemma_sort_by_ensures(in_order());
        vstd::seq_lib::lemma_sorted_unique(blocks@, blocks_of(range, excluded@), in_order());
    }
    blocks
}

/// The blocks are the excluded ranges that reach into the range, in order.
proof fn blocks_are_excluded(range: AddrRange, excluded: Seq<AddrRange>)
    ensures
        ({
            let blocks = blocks_of(range, excluded);
            &&& by_start(blocks)
            &&& forall|b: AddrRange| #[trigger]
                blocks.contains(b) == (excluded.contains(b) && b.start < range.end && range.start
                    < b.end)
        }),
{
    broadcast use vstd::seq_lib::group_filter_ensures;
    let blocks = blocks_of(range, excluded);
    let keep = reaches_into(range);
    let kept = excluded.filter(keep);
    order_is_total();
    kept.lemma_sort_by_ensures(in_order());
    blocks.to_multiset_ensures();
    kept.to_multiset_ensures();
    assert forall|i: int, j: int| 0 <= i <= j < blocks.len() implies (#[trigger] blocks[i]).start
        <= (#[trigger] blocks[j]).start by {
        if i < j {
            assert(in_order()(blocks[i], blocks[j]));
        }
    }
    assert forall|b: AddrRange| #[trigger] blocks.contains(b) == (excluded.contains(b) && b.start
        < range.end && range.start < b.end) by {
        assert(blocks.to_multiset().count(b) == kept.to_multiset().count(b));
        assert(blocks.contains(b) == kept.contains(b));
        if kept.contains(b) {
            let i = choose|i: int| 0 <= i < kept.len() && kept[i] == b;
            assert(keep(kept[i]));
            kept_is_among(excluded, keep, i);
        }
        if excluded.contains(b) && keep(b) {
            let i = choose|i: int| 0 <= i < excluded.len() && excluded[i] == b;
            assert(excluded.filter(keep).contains(excluded[i]));
        }
    }
}

/// What a filter keeps was there.
proof fn kept_is_among(s: Seq<AddrRange>, keep: spec_fn(AddrRange) -> bool, i: int)
    requires
        0 <= i < s.filter(keep).len(),
    ensures
        s.contains(s.filter(keep)[i]),
    decreases s.len(),
{
    reveal(Seq::filter);
    let head = s.drop_last();
    if i < head.filter(keep).len() {
        kept_is_among(head, keep, i);
        let k = choose|k: int| 0 <= k < head.len() && head[k] == head.filter(keep)[i];
        assert(s[k] == s.filter(keep)[i]);
    } else {
        assert(s[s.len() - 1] == s.filter(keep)[i]);
    }
}

/// Inserting a range adds what it holds.
proof fn insert_holds(s: Seq<AddrRange>, at: int, block: AddrRange, a: int)
    requires
        0 <= at <= s.len(),
    ensures
        any_holds(s.insert(at, block), a) == (any_holds(s, a) || block.holds(a)),
{
    let t = s.insert(at, block);
    if any_holds(t, a) {
        let i = choose|i: int| 0 <= i < t.len() && (#[trigger] t[i]).holds(a);
        if i < at {
            assert(s[i].holds(a));
        } else if i > at {
            assert(s[i - 1].holds(a));
        }
    }
    if any_holds(s, a) {
        let i = choose|i: int| 0 <= i < s.len() && (#[trigger] s[i]).holds(a);
        if i < at {
            assert(t[i].holds(a));
        } else {
            assert(t[i + 1].holds(a));
        }
    }
    if block.holds(a) {
        assert(t[at].holds(a));
    }
}

/// Appending a range adds what it holds.
proof fn push_holds(s: Seq<AddrRange>, block: AddrRange, a: int)
    ensures
        any_holds(s.push(block), a) == (any_holds(s, a) || block.holds(a)),
{
    insert_holds(s, s.len() as int, block, a);
    assert(s.insert(s.len() as int, block) =~= s.push(block));
}

/// Appending a range past all others divides the sequence where the last one
/// ended, if the new one starts there.
proof fn push_touches(s: Seq<AddrRange>, piece: AddrRange, x: int)
    requires
        ascending(s),
        piece.start < piece.end,
        forall|k: int| 0 <= k < s.len() ==> (#[trigger] s[k]).end <= piece.start,
    ensures
        touches(s.push(piece), x) == (touches(s, x) || (x == piece.start && any_holds(s, x - 1))),
{
    let t = s.push(piece);
    if touches(t, x) {
        let (i, j) = choose|i: int, j: int|
            0 <= i < t.len() && 0 <= j < t.len() && (#[trigger] t[i]).end == x && (
            #[trigger] t[j]).start == x;
        if i < s.len() && j < s.len() {
            assert(s[i].end == x && s[j].start == x);
        } else if j == s.len() {
            assert(i < s.len());
            assert(s[i].holds(x - 1));
        } else {
            assert(i == s.len());
            assert(s[j].start < s[j].end <= piece.start);
        }
    }
    if touches(s, x) {
        let (i, j) = choose|i: int, j: int|
            0 <= i < s.len() && 0 <= j < s.len() && (#[trigger] s[i]).end == x && (
            #[trigger] s[j]).start == x;
        assert(t[i].end == x && t[j].start == x);
    }
    if x == piece.start && any_holds(s, x - 1) {
        let i = choose|i: int| 0 <= i < s.len() && (#[trigger] s[i]).holds(x - 1);
        assert(t[i].end == x && t[s.len() as int].start == x);
    }
}

/// Whether the pieces are `range` minus the `excluded` ranges: they ascend, hold
/// what the range holds and no excluded one does, and are divided only where an
/// empty range is excluded.
pub open spec fn is_difference(
    pieces: Seq<AddrRange>,
    range: AddrRange,
    excluded: Seq<AddrRange>,
) -> bool {
    &&& ascending(pieces)
    &&& forall|a: int|
        #![trigger any_holds(pieces, a)]
        any_holds(pieces, a) == (range.holds(a) && !any_holds(excluded, a))
    &&& forall|x: int|
        #![trigger touches(pieces, x)]
        touches(pieces, x) == (cuts(excluded, x) && any_holds(pieces, x) && any_holds(
            pieces,
            x - 1,
        ))
}

/// Returns `range` minus the `excluded` ranges, which may overlap and stand in
/// any order. A range that is empty divides the piece in which it lies. One that
/// ends before it starts cuts off the piece before it at its start, and the next
/// piece starts at its end, or past what was passed before if that is later.
pub fn subtract_ranges(range: AddrRange, excluded: &[AddrRange]) -> (out: Vec<AddrRange>)
    ensures
        out@ == left_over(range.start, range.end, blocks_of(range, excluded@)),
        none_reversed(excluded@) ==> is_difference(out@, range, excluded@),
{
    let blocks = meeting_blocks(range, excluded);
    proof {
        if none_reversed(excluded@) {
            left_over_is_difference(range, excluded@);
        }
    }
    let ghost whole = left_over(range.start, range.end, blocks@);
    let mut out: Vec<AddrRange> = Vec::new();
    let mut cursor: usize = range.start;
    let mut i: usize = 0;
    assert(blocks@.skip(0) =~= blocks@);
    assert(out@ + whole =~= whole);
    while i < blocks.len()
        invariant
            i <= blocks.len(),
            out@ + left_over(cursor, range.end, blocks@.skip(i as int)) == whole,
            whole == left_over(range.start, range.end, blocks_of(range, excluded@)),
            none_reversed(excluded@) ==> is_difference(whole, range, excluded@),
        decreases blocks.len() - i,
    {
        let block = blocks[i];
        let ghost rest = blocks@.skip(i as int);
        let ghost before = out@;
        assert(rest[0] == block);
        assert(rest.drop_first() =~= blocks@.skip(i + 1));
        if block.start > cursor {
            out.push(AddrRange { start: cursor, end: block.start });
        }
        if block.end > cursor {
            cursor = block.end;
        }
        if cursor >= range.end {
            assert(out@ =~= whole);
            return out;
        }
        i += 1;
        assert(out@ + left_over(cursor, range.end, blocks@.skip(i as int)) =~= whole);
    }
    assert(blocks@.skip(i as int).len() == 0);
    if cursor < range.end {
        out.push(AddrRange { start: cursor, end: range.end });
    }
    assert(out@ =~= whole);
    out
}

/// Where no excluded range ends before it starts, what is left over is the
/// range minus the excluded ones.
pub proof fn left_over_is_difference(range: AddrRange, excluded: Seq<AddrRange>)
    requires
        none_reversed(excluded),
    ensures
        is_difference(
            left_over(range.start, range.end, blocks_of(range, excluded)),
            range,
            excluded,
        ),
{
    let blocks = blocks_of(range, excluded);
    let none = Seq::<AddrRange>::empty();
    blocks_are_excluded(range, excluded);
    assert forall|k: int| 0 <= k < blocks.len() implies (#[trigger] blocks[k]).start < range.end
        && range.start < blocks[k].end && blocks[k].start <= blocks[k].end by {
        assert(blocks.contains(blocks[k]));
        let j = choose|j: int| 0 <= j < excluded.len() && excluded[j] == blocks[k];
        assert(excluded[j].start <= excluded[j].end);
    }
    assert forall|a: int| range.holds(a) implies any_holds(blocks, a) == any_holds(excluded, a) by {
        if any_holds(blocks, a) {
            let k = choose|k: int| 0 <= k < blocks.len() && (#[trigger] blocks[k]).holds(a);
            assert(blocks.contains(blocks[k]));
            let j = choose|j: int| 0 <= j < excluded.len() && excluded[j] == blocks[k];
            assert(excluded[j].holds(a));
        }
        if any_holds(excluded, a) {
            let j = choose|j: int| 0 <= j < excluded.len() && (#[trigger] excluded[j]).holds(a);
            assert(excluded.contains(excluded[j]));
            assert(blocks.contains(excluded[j]));
            let k = choose|k: int| 0 <= k < blocks.len() && blocks[k] == excluded[j];
            assert(blocks[k].holds(a));
        }
    }
    assert forall|x: int| range.start < x < range.end implies #[trigger] cuts(blocks, x) == cuts(
        excluded,
        x,
    ) by {
        if cuts(blocks, x) {
            let k = choose|k: int|
                0 <= k < blocks.len() && (#[trigger] blocks[k]).start == x && blocks[k].end == x;
            assert(blocks.contains(blocks[k]));
            let j = choose|j: int| 0 <= j < excluded.len() && excluded[j] == blocks[k];
            assert(excluded[j].start == x && excluded[j].end == x);
        }
        if cuts(excluded, x) {
            let j = choose|j: int|
                0 <= j < excluded.len() && (#[trigger] excluded[j]).start == x && excluded[j].end
                    == x;
            assert(excluded.contains(excluded[j]));
            assert(blocks.contains(excluded[j]));
            let k = choose|k: int| 0 <= k < blocks.len() && blocks[k] == excluded[j];
            assert(blocks[k].start == x && blocks[k].end == x);
        }
    }
    assert(blocks.skip(0) =~= blocks);
    assert forall|a: int| !any_holds(none, a) by {}
    passing_blocks_keeps_the_rest(none, blocks, range, 0, range.start);
    assert(none + left_over(range.start, range.end, blocks) =~= left_over(
        range.start,
        range.end,
        blocks,
    ));
    finish(left_over(range.start, range.end, blocks), blocks, excluded, range);
}

/// What is left over behind the cursor completes what was kept up to it.
proof fn passing_blocks_keeps_the_rest(
    out: Seq<AddrRange>,
    blocks: Seq<AddrRange>,
    range: AddrRange,
    i: int,
    cursor: usize,
)
    requires
        0 <= i <= blocks.len(),
        by_start(blocks),
        range.start <= cursor,
        forall|k: int|
            0 <= k < blocks.len() ==> (#[trigger] blocks[k]).start < range.end && range.start
                < blocks[k].end && blocks[k].start <= blocks[k].end,
        forall|k: int| 0 <= k < i ==> (#[trigger] blocks[k]).end <= cursor,
        ascending(out),
        forall|k: int| 0 <= k < out.len() ==> (#[trigger] out[k]).end <= cursor,
        kept_up_to(out, blocks, range, cursor as int),
        forall|a: int| any_holds(out, a) ==> a < cursor,
        any_holds(out, cursor - 1) ==> cuts(blocks, cursor as int),
        divided(out, blocks),
    ensures
        ({
            let all = out + left_over(cursor, range.end, blocks.skip(i));
            &&& ascending(all)
            &&& kept_up_to(all, blocks, range, range.end as int)
            &&& divided(all, blocks)
        }),
    decreases blocks.len() - i,
{
    let rest = blocks.skip(i);
    let all = out + left_over(cursor, range.end, rest);
    if i == blocks.len() {
        if cursor < range.end {
            let piece = AddrRange { start: cursor, end: range.end };
            push_piece(out, blocks, range, i, piece);
            assert(all =~= out.push(piece));
        } else {
            assert(all =~= out);
        }
    } else {
        let block = blocks[i];
        assert(rest[0] == block);
        assert(rest.drop_first() =~= blocks.skip(i + 1));
        let piece = AddrRange { start: cursor, end: block.start };
        let now = if block.start > cursor {
            out.push(piece)
        } else {
            out
        };
        let mid = if block.start > cursor {
            block.start
        } else {
            cursor
        };
        let past = if block.end > cursor {
            block.end
        } else {
            cursor
        };
        if block.start > cursor {
            push_piece(out, blocks, range, i, piece);
        }
        assert forall|a: int| any_holds(now, a) implies a < mid by {
            if block.start > cursor {
                push_holds(out, piece, a);
            }
        }
        assert forall|a: int| range.start <= a < past && a < range.end implies any_holds(now, a)
            == !any_holds(blocks, a) by {
            if a >= mid {
                assert(blocks[i].holds(a));
            }
        }
        if any_holds(now, past - 1) {
            if mid == block.start {
                assert(past == mid);
                assert(blocks[i].start == past && blocks[i].end == past);
            }
        }
        if past >= range.end {
            assert(all =~= now);
        } else {
            passing_blocks_keeps_the_rest(now, blocks, range, i + 1, past);
            assert(all =~= now + left_over(past, range.end, blocks.skip(i + 1)));
        }
    }
}

/// Below `cursor`, `out` holds what `range` holds and no block does.
spec fn kept_up_to(
    out: Seq<AddrRange>,
    blocks: Seq<AddrRange>,
    range: AddrRange,
    cursor: int,
) -> bool {
    &&& forall|a: int|
        range.start <= a < cursor && a < range.end ==> any_holds(out, a) == !any_holds(blocks, a)
    &&& forall|a: int| any_holds(out, a) ==> range.holds(a)
}

/// `out` is divided at the blocks that are empty and lie where it holds both
/// neighbours.
spec fn divided(out: Seq<AddrRange>, blocks: Seq<AddrRange>) -> bool {
    forall|x: int|
        #![trigger touches(out, x)]
        touches(out, x) == (cuts(blocks, x) && any_holds(out, x) && any_holds(out, x - 1))
}

/// Appending the piece between the cursor and the next block.
proof fn push_piece(
    out: Seq<AddrRange>,
    blocks: Seq<AddrRange>,
    range: AddrRange,
    i: int,
    piece: AddrRange,
)
    requires
        ascending(out),
        by_start(blocks),
        0 <= i <= blocks.len(),
        piece.start < piece.end <= range.end,
        range.start <= piece.start,
        i < blocks.len() ==> blocks[i].start == piece.end,
        i == blocks.len() ==> piece.end == range.end,
        forall|k: int| 0 <= k < i ==> (#[trigger] blocks[k]).end <= piece.start,
        forall|k: int| 0 <= k < out.len() ==> (#[trigger] out[k]).end <= piece.start,
        kept_up_to(out, blocks, range, piece.start as int),
        any_holds(out, piece.start - 1) ==> cuts(blocks, piece.start as int),
        divided(out, blocks),
    ensures
        ascending(out.push(piece)),
        kept_up_to(out.push(piece), blocks, range, piece.end as int),
        divided(out.push(piece), blocks),
{
    let t = out.push(piece);
    assert forall|a: int| range.start <= a < piece.end && a < range.end implies any_holds(t, a)
        == !any_holds(blocks, a) by {
        push_holds(out, piece, a);
        if a >= piece.start {
            no_block_between(blocks, i, piece.start as int, a);
        }
    }
    assert forall|a: int| any_holds(t, a) implies range.holds(a) by {
        push_holds(out, piece, a);
    }
    assert forall|x: int| #![trigger touches(t, x)]
        touches(t, x) == (cuts(blocks, x) && any_holds(t, x) && any_holds(t, x - 1)) by {
        push_touches(out, piece, x);
        push_holds(out, piece, x);
        push_holds(out, piece, x - 1);
        if cuts(blocks, x) && piece.start < x < piece.end {
            let k = choose|k: int|
                0 <= k < blocks.len() && (#[trigger] blocks[k]).start == x && blocks[k].end == x;
            if k >= i {
                assert(blocks[i].start <= blocks[k].start);
            }
        }
        if any_holds(out, x) {
            let k = choose|k: int| 0 <= k < out.len() && (#[trigger] out[k]).holds(x);
            assert(x < piece.start);
        }
        if any_holds(out, x - 1) {
            let k = choose|k: int| 0 <= k < out.len() && (#[trigger] out[k]).holds(x - 1);
            assert(x <= piece.start);
        }
        assert(piece.holds(x) ==> x >= piece.start);
    }
}

/// What is kept of the whole range, in terms of the excluded ranges.
proof fn finish(
    out: Seq<AddrRange>,
    blocks: Seq<AddrRange>,
    excluded: Seq<AddrRange>,
    range: AddrRange,
)
    requires
        kept_up_to(out, blocks, range, range.end as int),
        divided(out, blocks),
        forall|a: int| range.holds(a) ==> any_holds(blocks, a) == any_holds(excluded, a),
        forall|x: int|
            range.start < x < range.end ==> #[trigger] cuts(blocks, x) == cuts(excluded, x),
    ensures
        forall|a: int|
            #![trigger any_holds(out, a)]
            any_holds(out, a) == (range.holds(a) && !any_holds(excluded, a)),
        forall|x: int|
            #![trigger touches(out, x)]
            touches(out, x) == (cuts(excluded, x) && any_holds(out, x) && any_holds(out, x - 1)),
{
    assert forall|x: int| #![trigger touches(out, x)]
        touches(out, x) == (cuts(excluded, x) && any_holds(out, x) && any_holds(out, x - 1)) by {
        if any_holds(out, x) && any_holds(out, x - 1) {
            assert(range.holds(x) && range.holds(x - 1));
        }
    }
}

/// No block holds an address at or past the cursor and before the start of the
/// next block.
proof fn no_block_between(blocks: Seq<AddrRange>, i: int, cursor: int, a: int)
    requires
        by_start(blocks),
        0 <= i <= blocks.len(),
        forall|k: int| 0 <= k < i ==> (#[trigger] blocks[k]).end <= cursor,
        cursor <= a,
        i < blocks.len() ==> a < blocks[i].start,
    ensures
        !any_holds(blocks, a),
{
    if any_holds(blocks, a) {
        let k = choose|k: int| 0 <= k < blocks.len() && (#[trigger] blocks[k]).holds(a);
        if k >= i {
            assert(blocks[i].start <= blocks[k].start);
        }
    }
}

/// Tries a reservation of full capacity at the preferred place, then one of
/// full capacity anywhere, then one page at the preferred place.
pub fn choose_trampoline_reservation<T, P: Fn(usize) -> Option<T>, A: Fn(usize) -> Option<T>>(
    capacity: usize,
    page_size: usize,
    map_preferred: P,
    map_anywhere: A,
) -> (chosen: Option<(T, usize)>)
    requires
        map_preferred.requires((capacity,)),
        capacity > page_size ==> map_preferred.requires((page_size,)),
        map_anywhere.requires((capacity,)),
    ensures
        reservation_order(capacity, page_size, map_preferred, map_anywhere, chosen),
{
    match map_preferred(capacity) {
        Some(reservation) => return Some((reservation, capacity)),
        None => {},
    }
    match map_anywhere(capacity) {
        Some(reservation) => return Some((reservation, capacity)),
        None => {},
    }
    if capacity > page_size {
        match map_preferred(page_size) {
            Some(reservation) => Some((reservation, page_size)),
            None => None,
        }
    } else {
        None
    }
}

/// How the three attempts decide: each is made only where all before it
/// failed, and the last only where it asks for less than the first.
pub open spec fn reservation_order<T, P: Fn(usize) -> Option<T>, A: Fn(usize) -> Option<T>>(
    capacity: usize,
    page_size: usize,
    map_preferred: P,
    map_anywhere: A,
    chosen: Option<(T, usize)>,
) -> bool {
    let preferred_full = |r: Option<T>| map_preferred.ensures((capacity,), r);
    let anywhere_full = |r: Option<T>| map_anywhere.ensures((capacity,), r);
    let preferred_page = |r: Option<T>| map_preferred.ensures((page_size,), r);
    match chosen {
        Some((got, len)) => {
            ||| len == capacity && preferred_full(Some(got))
            ||| len == capacity && preferred_full(None) && anywhere_full(Some(got))
            ||| len == page_size && capacity > page_size && preferred_full(None) && anywhere_full(
                None,
            ) && preferred_page(Some(got))
        },
        None => preferred_full(None) && anywhere_full(None) && (capacity > page_size
            ==> preferred_page(None)),
    }
}

} // verus!
