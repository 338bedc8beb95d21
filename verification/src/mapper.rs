//! Cartridge mappers: how a cartridge image is laid out in the address space.

use crate::ines::Ines;
use crate::layout::{
    data_bytes, is_protected, lemma_last_data_wins, lemma_no_data_keeps, lemma_place_all_len,
    place_all, sorted_segments, MEMORY_SIZE,
};
use crate::memory::{blank, Memory, MemoryBuilder};
use crate::range::AddressRange;
use crate::segment::{Segment, SegmentType};
use vstd::prelude::*;
use vstd::slice::slice_to_vec;

verus! {

/// Why an image cannot be laid out.
#[derive(Debug, Clone, Copy, PartialEq, Eq)]
pub enum MapperError {
    /// The program memory of the image is neither one bank nor two.
    UnsupportedPrgSize,
}

/// A policy that lays a cartridge image out in the address space.
pub trait Mapper {
    /// Builds the memory that the machine starts with.
    fn map_image(image: Ines) -> (r: Result<Memory, MapperError>)
        ensures
            r is Ok ==> r->Ok_0.wf(),
    ;
}

/// The mapper without bank switching: program memory stands in the upper half
/// of the address space, and a single bank is seen twice there.
pub struct NROM;

/// Whether this mapper can lay out program memory of `prg_len` bytes: one bank
/// of 16384 bytes, or two.
pub open spec fn nrom_supports(prg_len: nat) -> bool {
    prg_len == 16384 || prg_len == 32768
}

/// The bytes of the address space under this mapper: zero in the lower half,
/// and program memory from 0x8000 on, repeated where it is shorter than the
/// window.
pub open spec fn nrom_bytes(prg: Seq<u8>) -> Seq<u8> {
    Seq::new(
        MEMORY_SIZE as nat,
        |i: int|
            if i < 0x8000 {
                0u8
            } else {
                prg[(i - 0x8000) % (prg.len() as int)]
            },
    )
}

/// The mirror that couples the two halves of the program window.
pub open spec fn nrom_mirror() -> Segment {
    Segment {
        ttype: SegmentType::Mirror(AddressRange { start: 0xC000, end: 0xFFFF }),
        range: AddressRange { start: 0x8000, end: 0xBFFF },
    }
}

/// The segment that protects the program window.
pub open spec fn nrom_readonly() -> Segment {
    Segment { ttype: SegmentType::Readonly, range: AddressRange { start: 0x8000, end: 0xFFFF } }
}

/// The segments of the address space under this mapper: the program window is
/// read-only, and with a single bank its upper half mirrors its lower half.
pub open spec fn nrom_segments(prg_len: nat) -> Seq<Segment> {
    if prg_len == 16384 {
        seq![nrom_mirror(), nrom_readonly()]
    } else {
        seq![nrom_readonly()]
    }
}

/// Every address of the program window rejects writes, and no address below
/// it does.
pub proof fn lemma_nrom_protects_window(prg_len: nat, addr: int)
    ensures
        is_protected(nrom_segments(prg_len), addr) <==> 0x8000 <= addr <= 0xFFFF,
{
    let segments = nrom_segments(prg_len);
    if 0x8000 <= addr <= 0xFFFF {
        assert(segments[segments.len() - 1].protects(addr));
    }
}

/// With a single bank, each address of the lower half of the program window
/// holds the same byte as the address 0x4000 above it.
pub proof fn lemma_nrom_single_bank_is_mirrored(prg: Seq<u8>, addr: int)
    requires
        prg.len() == 16384,
        0x8000 <= addr <= 0xBFFF,
    ensures
        nrom_bytes(prg)[addr] == nrom_bytes(prg)[addr + 0x4000],
        nrom_bytes(prg)[addr] == prg[addr - 0x8000],
{
}

/// With two banks, the program window holds program memory byte for byte, so
/// its two halves are independent of each other.
pub proof fn lemma_nrom_two_banks_fill_window(prg: Seq<u8>, addr: int)
    requires
        prg.len() == 32768,
        0x8000 <= addr <= 0xFFFF,
    ensures
        nrom_bytes(prg)[addr] == prg[addr - 0x8000],
{
}

/// The data segments of a layout, laid over zero bytes, give the bytes of the
/// address space under this mapper: a single bank copied to each half of the
/// program window, or two banks that fill it.
proof fn lemma_banks_placed(prg: Seq<u8>, data: Seq<Segment>)
    requires
        nrom_supports(prg.len()),
        prg.len() == 16384 ==> data.len() == 2 && data[0].range == (AddressRange {
            start: 0x8000,
            end: 0xBFFF,
        }) && data[1].range == (AddressRange { start: 0xC000, end: 0xFFFF }) && data_bytes(
            data[0],
        ) == prg && data_bytes(data[1]) == prg,
        prg.len() == 32768 ==> data.len() == 1 && data[0].range == (AddressRange {
            start: 0x8000,
            end: 0xFFFF,
        }) && data_bytes(data[0]) == prg,
    ensures
        place_all(blank(), data) == nrom_bytes(prg),
{
    let placed = place_all(blank(), data);
    lemma_place_all_len(blank(), data);
    assert forall|i: int| 0 <= i < MEMORY_SIZE implies placed[i] == nrom_bytes(prg)[i] by {
        if i < 0x8000 {
            lemma_no_data_keeps(blank(), data, i);
        } else if prg.len() == 16384 && i >= 0xC000 {
            lemma_last_data_wins(blank(), data, i, 1);
        } else {
            lemma_last_data_wins(blank(), data, i, 0);
        }
    }
    assert(placed =~= nrom_bytes(prg));
}

impl Mapper for NROM {
    /// Lays out an image whose program memory is one bank of 16384 bytes or
    /// two. One bank is copied to both halves of the program window, at
    /// 0x8000 and at 0xC000, and a mirror couples the two halves; two banks
    /// fill the window from 0x8000 to 0xFFFF. The window is read-only. Any
    /// other size of program memory is an error.
    fn map_image(image: Ines) -> (r: Result<Memory, MapperError>)
        ensures
            r is Ok <==> nrom_supports(image.prg@.len()),
            r is Err ==> r->Err_0 == MapperError::UnsupportedPrgSize,
            r is Ok ==> r->Ok_0.bytes() == nrom_bytes(image.prg@),
            r is Ok ==> r->Ok_0.segments() == nrom_segments(image.prg@.len()),
    {
        let ghost prg = image.prg@;
        let mut builder = MemoryBuilder::new();
        if image.prg.len() == 16384 {
            let upper_bank = slice_to_vec(image.prg.as_slice());
            let lower = 0x8000..=0xBFFF;
            let upper = 0xC000..=0xFFFF;
            assert(!AddressRange::of(lower).intersects_spec(AddressRange::of(upper)));
            let _ = builder.add_data(0x8000..=0xBFFF, image.prg);
            let _ = builder.add_data(0xC000..=0xFFFF, upper_bank);
            let _ = builder.add_mirror(lower, upper);
        } else if image.prg.len() == 32768 {
            let _ = builder.add_data(0x8000..=0xFFFF, image.prg);
        } else {
            return Err(MapperError::UnsupportedPrgSize);
        }
        builder.add_readonly(0x8000..=0xFFFF);
        proof {
            let segments = builder.segments();
            assert(segments =~= nrom_segments(prg.len()));
            lemma_banks_placed(prg, builder.data());
            if prg.len() == 16384 {
                assert(segments.drop_last() =~= seq![nrom_mirror()]);
                assert(seq![nrom_mirror()].drop_last() =~= Seq::<Segment>::empty());
            } else {
                assert(segments.drop_last() =~= Seq::<Segment>::empty());
            }
            assert(sorted_segments(segments) =~= segments) by {
                reveal_with_fuel(sorted_segments, 3);
                reveal_with_fuel(crate::layout::insert_position, 3);
            }
        }
        Ok(builder.build())
    }
}

} // verus!
