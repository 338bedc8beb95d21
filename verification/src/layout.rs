//! What a list of segments means for the bytes of the address space.

use crate::range::AddressRange;
use crate::segment::{Segment, SegmentType};
use vstd::prelude::*;

verus! {

/// The number of addresses in the address space.
pub const MEMORY_SIZE: usize = 0x10000;

/// Whether the segments may govern a running memory: each is a mirror whose two
/// ranges share no address, or a read-only range.
pub open spec fn valid_layout(segments: Seq<Segment>) -> bool {
    forall|k: int|
        0 <= k < segments.len() ==> (#[trigger] segments[k]).valid() && !(segments[k].ttype is Data)
}

/// Whether some read-only segment holds `addr`.
pub open spec fn is_protected(segments: Seq<Segment>, addr: int) -> bool {
    exists|k: int| 0 <= k < segments.len() && (#[trigger] segments[k]).protects(addr)
}

/// Whether some mirror keeps `target` identical to `addr`.
pub open spec fn is_image(segments: Seq<Segment>, addr: int, target: int) -> bool {
    exists|k: int|
        0 <= k < segments.len() && (#[trigger] segments[k]).image_spec(addr) == Some(target)
}

/// Whether storing at `addr` reaches `target`: `target` is `addr` itself or
/// one of its mirror images.
pub open spec fn reaches(segments: Seq<Segment>, addr: int, target: int) -> bool {
    target == addr || is_image(segments, addr, target)
}

/// The bytes after `value` has been stored at `addr`: the byte at `addr` and
/// the byte at each of its mirror images hold `value`, every other byte is as
/// before.
pub open spec fn store(bytes: Seq<u8>, segments: Seq<Segment>, addr: int, value: u8) -> Seq<u8> {
    Seq::new(
        bytes.len(),
        |i: int|
            if reaches(segments, addr, i) {
                value
            } else {
                bytes[i]
            },
    )
}

/// The bytes after a 16-bit word has been stored at `addr`: its low byte is
/// stored at `addr`, then its high byte at the address after it.
pub open spec fn store_word(
    bytes: Seq<u8>,
    segments: Seq<Segment>,
    addr: int,
    lo: u8,
    hi: u8,
) -> Seq<u8> {
    store(store(bytes, segments, addr, lo), segments, addr + 1, hi)
}

/// The bytes that a data segment holds.
pub open spec fn data_bytes(segment: Segment) -> Seq<u8> {
    match segment.ttype {
        SegmentType::Data(bytes) => bytes@,
        _ => Seq::empty(),
    }
}

/// The bytes with a data segment laid over them: each address of the
/// segment's range holds the segment's byte for that place, every other
/// address is as before. Mirrors play no part in this.
pub open spec fn overlay(bytes: Seq<u8>, segment: Segment) -> Seq<u8> {
    Seq::new(
        bytes.len(),
        |i: int|
            if segment.range.contains_spec(i) {
                data_bytes(segment)[i - segment.range.start]
            } else {
                bytes[i]
            },
    )
}

/// The bytes after each data segment in turn has been laid over them.
pub open spec fn place_all(bytes: Seq<u8>, data: Seq<Segment>) -> Seq<u8>
    decreases data.len(),
{
    if data.len() == 0 {
        bytes
    } else {
        overlay(place_all(bytes, data.drop_last()), data.last())
    }
}

/// Laying data segments over bytes keeps the number of bytes.
pub proof fn lemma_place_all_len(bytes: Seq<u8>, data: Seq<Segment>)
    ensures
        place_all(bytes, data).len() == bytes.len(),
    decreases data.len(),
{
    if data.len() > 0 {
        lemma_place_all_len(bytes, data.drop_last());
    }
}

/// Where data segments reach the same address, the last one wins: an address
/// holds the byte of the last data segment whose range holds the address.
pub proof fn lemma_last_data_wins(bytes: Seq<u8>, data: Seq<Segment>, addr: int, k: int)
    requires
        0 <= addr < bytes.len(),
        0 <= k < data.len(),
        data[k].range.contains_spec(addr),
        forall|j: int| k < j < data.len() ==> !(#[trigger] data[j]).range.contains_spec(addr),
    ensures
        place_all(bytes, data)[addr] == data_bytes(data[k])[addr - data[k].range.start],
    decreases data.len(),
{
    lemma_place_all_len(bytes, data.drop_last());
    if k < data.len() - 1 {
        assert(!data[data.len() - 1].range.contains_spec(addr));
        assert forall|j: int| k < j < data.drop_last().len() implies !(
        #[trigger] data.drop_last()[j]).range.contains_spec(addr) by {
            assert(data.drop_last()[j] == data[j]);
        }
        lemma_last_data_wins(bytes, data.drop_last(), addr, k);
    }
}

/// An address that lies in the range of no data segment holds what it held
/// before.
pub proof fn lemma_no_data_keeps(bytes: Seq<u8>, data: Seq<Segment>, addr: int)
    requires
        0 <= addr < bytes.len(),
        forall|j: int| 0 <= j < data.len() ==> !(#[trigger] data[j]).range.contains_spec(addr),
    ensures
        place_all(bytes, data)[addr] == bytes[addr],
    decreases data.len(),
{
    if data.len() > 0 {
        lemma_place_all_len(bytes, data.drop_last());
        assert(!data[data.len() - 1].range.contains_spec(addr));
        assert forall|j: int| 0 <= j < data.drop_last().len() implies !(
        #[trigger] data.drop_last()[j]).range.contains_spec(addr) by {
            assert(data.drop_last()[j] == data[j]);
        }
        lemma_no_data_keeps(bytes, data.drop_last(), addr);
    }
}

/// A mirror couples its two ranges both ways: where it keeps `target`
/// identical to `addr`, it keeps `addr` identical to `target`.
pub proof fn lemma_image_is_mutual(segment: Segment, addr: int, target: int)
    requires
        segment.valid(),
        segment.image_spec(addr) == Some(target),
    ensures
        segment.image_spec(target) == Some(addr),
        target != addr,
        0 <= target < MEMORY_SIZE,
{
    let dest = segment.ttype->Mirror_0;
    if segment.range.contains_spec(addr) && segment.range.contains_spec(target) {
        // The image lies in the destination, which shares no address with
        // the source.
        assert(segment.range.contains_spec(target) && dest.contains_spec(target));
    }
}

/// Mirror symmetry: after a byte has been stored at an address that a mirror
/// couples with another, both addresses hold that byte, whichever of the two
/// ranges the address lies in.
pub proof fn lemma_mirror_symmetry(
    bytes: Seq<u8>,
    segments: Seq<Segment>,
    addr: int,
    value: u8,
    k: int,
)
    requires
        bytes.len() == MEMORY_SIZE,
        valid_layout(segments),
        0 <= addr < MEMORY_SIZE,
        0 <= k < segments.len(),
        segments[k].image_spec(addr) is Some,
    ensures
        0 <= segments[k].image_spec(addr)->Some_0 < MEMORY_SIZE,
        store(bytes, segments, addr, value)[addr] == value,
        store(bytes, segments, addr, value)[segments[k].image_spec(addr)->Some_0] == value,
        segments[k].image_spec(segments[k].image_spec(addr)->Some_0) == Some(addr),
{
    let target = segments[k].image_spec(addr)->Some_0;
    lemma_image_is_mutual(segments[k], addr, target);
    assert(is_image(segments, addr, target));
}

/// A store changes nothing but the address and its mirror images.
pub proof fn lemma_store_elsewhere(
    bytes: Seq<u8>,
    segments: Seq<Segment>,
    addr: int,
    value: u8,
    other: int,
)
    requires
        0 <= other < bytes.len(),
        !reaches(segments, addr, other),
    ensures
        store(bytes, segments, addr, value)[other] == bytes[other],
        store(bytes, segments, addr, value).len() == bytes.len(),
{
}

/// A mirror whose two ranges hold the same byte at every place still does so
/// after a byte has been stored at an address of one of its ranges, and both
/// ranges then hold that byte at the place of the address. This holds where
/// no other mirror couples the address with yet another one.
pub proof fn lemma_mirror_stays_symmetric(
    bytes: Seq<u8>,
    segments: Seq<Segment>,
    addr: int,
    value: u8,
    k: int,
)
    requires
        bytes.len() == MEMORY_SIZE,
        valid_layout(segments),
        0 <= k < segments.len(),
        segments[k].image_spec(addr) is Some,
        forall|target: int| #[trigger]
            is_image(segments, addr, target) ==> segments[k].image_spec(addr) == Some(target),
        forall|place: int|
            segments[k].image_spec(place) is Some ==> bytes[place] == bytes[(
            #[trigger] segments[k].image_spec(place))->Some_0],
    ensures
        store(bytes, segments, addr, value)[addr] == value,
        store(bytes, segments, addr, value)[segments[k].image_spec(addr)->Some_0] == value,
        forall|place: int|
            segments[k].image_spec(place) is Some ==> store(bytes, segments, addr, value)[place]
                == store(bytes, segments, addr, value)[(#[trigger] segments[k].image_spec(
                place,
            ))->Some_0],
{
    let after = store(bytes, segments, addr, value);
    let other = segments[k].image_spec(addr)->Some_0;
    lemma_image_is_mutual(segments[k], addr, other);
    assert(is_image(segments, addr, other));
    assert forall|place: int| segments[k].image_spec(place) is Some implies after[place]
        == after[(#[trigger] segments[k].image_spec(place))->Some_0] by {
        let image = segments[k].image_spec(place)->Some_0;
        lemma_image_is_mutual(segments[k], place, image);
        if place == addr {
        } else if place == other {
        } else {
            assert(!is_image(segments, addr, place));
            assert(!is_image(segments, addr, image));
        }
    }
}

/// A word that is stored can be read back at its address and at the mirror
/// image of its address, where a mirror couples both of its bytes with two
/// bytes that follow each other, and no mirror couples the second byte's
/// address with the first byte's address or with its image.
pub proof fn lemma_mirrored_word(
    bytes: Seq<u8>,
    segments: Seq<Segment>,
    addr: int,
    lo: u8,
    hi: u8,
    k: int,
)
    requires
        bytes.len() == MEMORY_SIZE,
        0 <= addr < MEMORY_SIZE - 1,
        0 <= k < segments.len(),
        segments[k].valid(),
        segments[k].image_spec(addr) is Some,
        segments[k].image_spec(addr + 1) == Some(segments[k].image_spec(addr)->Some_0 + 1),
        !is_image(segments, addr + 1, addr),
        !is_image(segments, addr + 1, segments[k].image_spec(addr)->Some_0),
    ensures
        store_word(bytes, segments, addr, lo, hi)[addr] == lo,
        store_word(bytes, segments, addr, lo, hi)[addr + 1] == hi,
        store_word(bytes, segments, addr, lo, hi)[segments[k].image_spec(addr)->Some_0] == lo,
        store_word(bytes, segments, addr, lo, hi)[segments[k].image_spec(addr)->Some_0 + 1]
            == hi,
{
    let target = segments[k].image_spec(addr)->Some_0;
    lemma_image_is_mutual(segments[k], addr, target);
    lemma_image_is_mutual(segments[k], addr + 1, target + 1);
    assert(is_image(segments, addr, target));
    assert(is_image(segments, addr + 1, target + 1));
    let first = store(bytes, segments, addr, lo);
    assert(first[addr] == lo);
    assert(first[target] == lo);
}

/// Where `segment` goes into a sorted list, looking from `from` on: before the
/// first segment that it strictly precedes, and so behind every segment with
/// the same range.
pub open spec fn insert_position(sorted: Seq<Segment>, segment: Segment, from: int) -> int
    decreases sorted.len() - from,
{
    if from < 0 || from >= sorted.len() {
        sorted.len() as int
    } else if segment.precedes_spec(sorted[from]) {
        from
    } else {
        insert_position(sorted, segment, from + 1)
    }
}

/// The segments sorted by the start and then the end of their ranges.
/// Segments with the same range stay in the order in which they were given.
pub open spec fn sorted_segments(segments: Seq<Segment>) -> Seq<Segment>
    decreases segments.len(),
{
    if segments.len() == 0 {
        Seq::empty()
    } else {
        let init = sorted_segments(segments.drop_last());
        init.insert(insert_position(init, segments.last(), 0), segments.last())
    }
}

/// Whether no segment stands before one that strictly precedes it.
pub open spec fn is_sorted(segments: Seq<Segment>) -> bool {
    forall|i: int, j: int|
        0 <= i < j < segments.len() ==> !(#[trigger] segments[j]).precedes_spec(
            #[trigger] segments[i],
        )
}

/// The place where a segment goes lies in the list or at its end, nothing
/// before it strictly follows the segment, and the segment strictly precedes
/// what stands there.
pub proof fn lemma_insert_position(sorted: Seq<Segment>, segment: Segment, from: int)
    requires
        0 <= from <= sorted.len(),
    ensures
        from <= insert_position(sorted, segment, from) <= sorted.len(),
        forall|i: int|
            from <= i < insert_position(sorted, segment, from) ==> !segment.precedes_spec(
                #[trigger] sorted[i],
            ),
        insert_position(sorted, segment, from) < sorted.len() ==> segment.precedes_spec(
            sorted[insert_position(sorted, segment, from)],
        ),
    decreases sorted.len() - from,
{
    if from < sorted.len() && !segment.precedes_spec(sorted[from]) {
        lemma_insert_position(sorted, segment, from + 1);
    }
}

/// Sorting keeps every segment, as often as it was given, and puts the
/// segments in order.
pub proof fn lemma_sorted_segments(segments: Seq<Segment>)
    ensures
        sorted_segments(segments).len() == segments.len(),
        sorted_segments(segments).to_multiset() == segments.to_multiset(),
        is_sorted(sorted_segments(segments)),
    decreases segments.len(),
{
    broadcast use vstd::seq_lib::group_to_multiset_ensures;

    if segments.len() == 0 {
        assert(sorted_segments(segments).to_multiset() =~= segments.to_multiset());
    } else {
        let init = sorted_segments(segments.drop_last());
        let last = segments.last();
        let at = insert_position(init, last, 0);
        let result = init.insert(at, last);
        lemma_sorted_segments(segments.drop_last());
        lemma_insert_position(init, last, 0);
        assert(segments =~= segments.drop_last().push(last));
        assert(result.to_multiset() =~= init.to_multiset().insert(last));
        assert(segments.to_multiset() =~= segments.drop_last().to_multiset().insert(last));
        assert forall|i: int, j: int| 0 <= i < j < result.len() implies !(#[trigger] result[j]).precedes_spec(
            #[trigger] result[i],
        ) by {
            if j == at {
                assert(result[i] == init[i]);
            } else if i == at {
                assert(result[j] == init[j - 1]);
                if at < j - 1 {
                    assert(!init[j - 1].precedes_spec(init[at]));
                }
            } else {
                let old_i = if i < at { i } else { i - 1 };
                let old_j = if j < at { j } else { j - 1 };
                assert(result[i] == init[old_i]);
                assert(result[j] == init[old_j]);
                assert(!init[old_j].precedes_spec(init[old_i]));
            }
        }
    }
}

/// The test whether a segment has the range `range`.
pub open spec fn has_range(range: AddressRange) -> spec_fn(Segment) -> bool {
    |segment: Segment| segment.range == range
}

/// No segment of a list passes a test that every segment of the list fails.
proof fn lemma_none_has_range(segments: Seq<Segment>, range: AddressRange)
    requires
        forall|i: int| 0 <= i < segments.len() ==> (#[trigger] segments[i]).range != range,
    ensures
        segments.filter(has_range(range)) == Seq::<Segment>::empty(),
    decreases segments.len(),
{
    reveal(Seq::filter);
    if segments.len() > 0 {
        lemma_none_has_range(segments.drop_last(), range);
    }
}

/// Sorting is stable: the segments that share a range come out in the order
/// in which they went in.
pub proof fn lemma_sorting_is_stable(segments: Seq<Segment>, range: AddressRange)
    ensures
        sorted_segments(segments).filter(has_range(range)) == segments.filter(has_range(range)),
    decreases segments.len(),
{
    reveal(Seq::filter);
    if segments.len() > 0 {
        let init = sorted_segments(segments.drop_last());
        let last = segments.last();
        let at = insert_position(init, last, 0);
        let result = init.insert(at, last);
        let front = init.take(at);
        let back = init.skip(at);
        lemma_sorting_is_stable(segments.drop_last(), range);
        lemma_sorted_segments(segments.drop_last());
        lemma_insert_position(init, last, 0);
        assert(init =~= front + back);
        assert(result =~= front.push(last) + back);
        assert(front.push(last).drop_last() =~= front);
        Seq::filter_distributes_over_add(front, back, has_range(range));
        Seq::filter_distributes_over_add(front.push(last), back, has_range(range));
        if last.range == range {
            assert forall|i: int| 0 <= i < back.len() implies (#[trigger] back[i]).range
                != range by {
                assert(back[i] == init[at + i]);
                assert(last.precedes_spec(init[at]));
                if i > 0 {
                    assert(!init[at + i].precedes_spec(init[at]));
                }
            }
            lemma_none_has_range(back, range);
            assert(result.filter(has_range(range)) =~= init.filter(has_range(range)).push(last));
        } else {
            assert(result.filter(has_range(range)) =~= init.filter(has_range(range)));
        }
    }
}

/// Sorting does not change what the segments mean: the same addresses are
/// protected and the same addresses mirror each other, and a valid layout stays
/// valid.
pub proof fn lemma_sorting_keeps_meaning(segments: Seq<Segment>)
    ensures
        valid_layout(segments) <==> valid_layout(sorted_segments(segments)),
        forall|addr: int| #[trigger]
            is_protected(sorted_segments(segments), addr) <==> is_protected(segments, addr),
        forall|addr: int, target: int| #[trigger]
            is_image(sorted_segments(segments), addr, target) <==> is_image(segments, addr, target),
{
    let sorted = sorted_segments(segments);
    lemma_same_segments(segments);
    assert forall|addr: int| #[trigger]
        is_protected(sorted, addr) <==> is_protected(segments, addr) by {
        if is_protected(sorted, addr) {
            let k = choose|k: int| 0 <= k < sorted.len() && (#[trigger] sorted[k]).protects(addr);
            assert(segments.contains(sorted[k]));
            let j = choose|j: int| 0 <= j < segments.len() && segments[j] == sorted[k];
            assert(segments[j].protects(addr));
        }
        if is_protected(segments, addr) {
            let k = choose|k: int|
                0 <= k < segments.len() && (#[trigger] segments[k]).protects(addr);
            assert(sorted.contains(segments[k]));
            let j = choose|j: int| 0 <= j < sorted.len() && sorted[j] == segments[k];
            assert(sorted[j].protects(addr));
        }
    }
    assert forall|addr: int, target: int| #[trigger]
        is_image(sorted, addr, target) <==> is_image(segments, addr, target) by {
        if is_image(sorted, addr, target) {
            let k = choose|k: int|
                0 <= k < sorted.len() && (#[trigger] sorted[k]).image_spec(addr) == Some(target);
            assert(segments.contains(sorted[k]));
            let j = choose|j: int| 0 <= j < segments.len() && segments[j] == sorted[k];
            assert(segments[j].image_spec(addr) == Some(target));
        }
        if is_image(segments, addr, target) {
            let k = choose|k: int|
                0 <= k < segments.len() && (#[trigger] segments[k]).image_spec(addr) == Some(
                    target,
                );
            assert(sorted.contains(segments[k]));
            let j = choose|j: int| 0 <= j < sorted.len() && sorted[j] == segments[k];
            assert(sorted[j].image_spec(addr) == Some(target));
        }
    }
    if valid_layout(segments) {
        assert forall|k: int| 0 <= k < sorted.len() implies (#[trigger] sorted[k]).valid() && !(
        sorted[k].ttype is Data) by {
            assert(segments.contains(sorted[k]));
            let j = choose|j: int| 0 <= j < segments.len() && segments[j] == sorted[k];
            assert(segments[j].valid());
        }
    }
    if valid_layout(sorted) {
        assert forall|k: int| 0 <= k < segments.len() implies (#[trigger] segments[k]).valid()
            && !(segments[k].ttype is Data) by {
            assert(sorted.contains(segments[k]));
            let j = choose|j: int| 0 <= j < sorted.len() && sorted[j] == segments[k];
            assert(sorted[j].valid());
        }
    }
}

/// Every segment of the sorted list stands in the list that was sorted, and
/// the other way round.
proof fn lemma_same_segments(segments: Seq<Segment>)
    ensures
        forall|k: int|
            0 <= k < sorted_segments(segments).len() ==> segments.contains(
                #[trigger] sorted_segments(segments)[k],
            ),
        forall|k: int|
            0 <= k < segments.len() ==> sorted_segments(segments).contains(#[trigger] segments[k]),
    decreases segments.len(),
{
    if segments.len() > 0 {
        let init = sorted_segments(segments.drop_last());
        let last = segments.last();
        let at = insert_position(init, last, 0);
        let result = init.insert(at, last);
        lemma_same_segments(segments.drop_last());
        lemma_insert_position(init, last, 0);
        assert forall|k: int| 0 <= k < result.len() implies segments.contains(
            #[trigger] result[k],
        ) by {
            if k == at {
                assert(segments[segments.len() - 1] == result[k]);
            } else {
                let old_k = if k < at { k } else { k - 1 };
                assert(init[old_k] == result[k]);
                assert(segments.drop_last().contains(init[old_k]));
                let j = choose|j: int|
                    0 <= j < segments.drop_last().len() && segments.drop_last()[j] == init[old_k];
                assert(segments[j] == result[k]);
            }
        }
        assert forall|k: int| 0 <= k < segments.len() implies result.contains(
            #[trigger] segments[k],
        ) by {
            if k == segments.len() - 1 {
                assert(result[at] == segments[k]);
            } else {
                assert(segments.drop_last()[k] == segments[k]);
                assert(init.contains(segments.drop_last()[k]));
                let i = choose|i: int| 0 <= i < init.len() && init[i] == segments[k];
                let new_i = if i < at { i } else { i + 1 };
                assert(result[new_i] == segments[k]);
            }
        }
    }
}

/// Sorts segments by the start and then the end of their ranges, keeping
/// segments with the same range in the order in which they came.
pub fn sort_segments(segments: Vec<Segment>) -> (sorted: Vec<Segment>)
    ensures
        sorted@ == sorted_segments(segments@),
{
    let ghost given = segments@;
    let mut input = segments;
    let mut sorted: Vec<Segment> = Vec::new();
    let ghost mut done: int = 0;
    assert(given.take(0) =~= Seq::<Segment>::empty());
    assert(given.skip(0) =~= given);
    while input.len() > 0
        invariant
            0 <= done <= given.len(),
            input@ == given.skip(done),
            sorted@ == sorted_segments(given.take(done)),
        decreases input.len(),
    {
        let segment = input.remove(0);
        let mut at: usize = 0;
        while at < sorted.len() && !segment.precedes(&sorted[at])
            invariant
                at <= sorted.len(),
                insert_position(sorted@, segment, 0) == insert_position(sorted@, segment, at as int),
            decreases sorted.len() - at,
        {
            at = at + 1;
        }
        proof {
            let prefix = given.take(done + 1);
            assert(prefix.drop_last() =~= given.take(done));
            assert(prefix.last() == segment);
            assert(given.skip(done).remove(0) =~= given.skip(done + 1));
            done = done + 1;
        }
        sorted.insert(at, segment);
    }
    assert(given.take(done) =~= given);
    sorted
}

} // verus!
