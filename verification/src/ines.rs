//! The iNES container of a cartridge image.

use vstd::prelude::*;
use vstd::slice::{slice_subrange, slice_to_vec};

verus! {

/// Bytes of program memory in one bank.
pub const PRG_BANK_SIZE: usize = 16384;

/// Bytes of graphics memory in one bank.
pub const CHR_BANK_SIZE: usize = 8192;

/// Bytes of a trainer.
pub const TRAINER_SIZE: usize = 512;

/// Bytes of the header, signature included.
pub const HEADER_SIZE: usize = 16;

/// The bit of the mapper flags that says that a trainer is present.
pub const TRAINER_FLAG: u8 = 0b0010_0000;

/// Why bytes are not an iNES image.
#[derive(Debug, Clone, Copy, PartialEq, Eq)]
pub enum InesError {
    /// The bytes do not start with the signature `NES` followed by 0x1A.
    BadMagic,
    /// The bytes end before the section that is being read does.
    UnexpectedEof,
}

/// The header of an iNES image, without its signature.
#[derive(Debug, Clone, PartialEq, Eq)]
pub struct InesHeader {
    /// Number of 16384-byte banks of program memory.
    pub prg_size: u8,
    /// Number of 8192-byte banks of graphics memory.
    pub chr_size: u8,
    /// Mapper flags.
    pub mapper: u8,
    /// The rest of the header.
    pub extra: [u8; 9],
}

/// An iNES image.
#[derive(Debug, Clone, PartialEq, Eq)]
pub struct Ines {
    pub header: InesHeader,
    /// The trainer, present exactly when the header's flags say so.
    pub trainer: Option<Vec<u8>>,
    /// Program memory.
    pub prg: Vec<u8>,
    /// Graphics memory, present exactly when the header counts a bank of it.
    pub chr: Option<Vec<u8>>,
}

/// What a header holds.
pub struct InesHeaderView {
    pub prg_size: u8,
    pub chr_size: u8,
    pub mapper: u8,
    pub extra: Seq<u8>,
}

/// What an image holds.
pub struct InesView {
    pub header: InesHeaderView,
    pub trainer: Option<Seq<u8>>,
    pub prg: Seq<u8>,
    pub chr: Option<Seq<u8>>,
}

impl View for InesHeader {
    type V = InesHeaderView;

    open spec fn view(&self) -> InesHeaderView {
        InesHeaderView {
            prg_size: self.prg_size,
            chr_size: self.chr_size,
            mapper: self.mapper,
            extra: self.extra@,
        }
    }
}

impl View for Ines {
    type V = InesView;

    open spec fn view(&self) -> InesView {
        InesView {
            header: self.header@,
            trainer: match self.trainer {
                Some(trainer) => Some(trainer@),
                None => None,
            },
            prg: self.prg@,
            chr: match self.chr {
                Some(chr) => Some(chr@),
                None => None,
            },
        }
    }
}

/// The signature that every image starts with.
pub open spec fn magic() -> Seq<u8> {
    seq![0x4Eu8, 0x45u8, 0x53u8, 0x1Au8]
}

impl InesHeaderView {
    /// Whether the flags announce a trainer.
    pub open spec fn has_trainer(self) -> bool {
        self.mapper & TRAINER_FLAG != 0
    }

    /// Bytes of the trainer that the header announces.
    pub open spec fn trainer_len(self) -> nat {
        if self.has_trainer() {
            TRAINER_SIZE as nat
        } else {
            0
        }
    }

    /// Bytes of program memory that the header announces.
    pub open spec fn prg_len(self) -> nat {
        (self.prg_size * PRG_BANK_SIZE) as nat
    }

    /// Bytes of graphics memory that the header announces.
    pub open spec fn chr_len(self) -> nat {
        (self.chr_size * CHR_BANK_SIZE) as nat
    }

    /// The header as it is written: the signature, the three counts and
    /// flags, and the rest.
    pub open spec fn to_bytes(self) -> Seq<u8> {
        magic() + seq![self.prg_size, self.chr_size, self.mapper] + self.extra
    }
}

impl InesView {
    /// Whether the sections are those that the header announces.
    pub open spec fn consistent(self) -> bool {
        &&& self.header.extra.len() == 9
        &&& self.trainer is Some <==> self.header.has_trainer()
        &&& self.trainer is Some ==> self.trainer->Some_0.len() == TRAINER_SIZE
        &&& self.prg.len() == self.header.prg_len()
        &&& self.chr is Some <==> self.header.chr_size != 0
        &&& self.chr is Some ==> self.chr->Some_0.len() == self.header.chr_len()
    }

    /// The image as it is written: the header, the trainer if there is one,
    /// program memory, and graphics memory if there is any.
    pub open spec fn to_bytes(self) -> Seq<u8> {
        self.header.to_bytes() + (match self.trainer {
            Some(trainer) => trainer,
            None => Seq::empty(),
        }) + self.prg + (match self.chr {
            Some(chr) => chr,
            None => Seq::empty(),
        })
    }
}

/// The header at the start of `bytes`. Fewer than four bytes end before the
/// signature does; four bytes other than the signature are no image; fewer
/// than sixteen bytes end before the header does.
pub open spec fn parse_header(bytes: Seq<u8>) -> Result<InesHeaderView, InesError> {
    if bytes.len() < 4 {
        Err(InesError::UnexpectedEof)
    } else if bytes.subrange(0, 4) != magic() {
        Err(InesError::BadMagic)
    } else if bytes.len() < HEADER_SIZE {
        Err(InesError::UnexpectedEof)
    } else {
        Ok(
            InesHeaderView {
                prg_size: bytes[4],
                chr_size: bytes[5],
                mapper: bytes[6],
                extra: bytes.subrange(7, 16),
            },
        )
    }
}

/// The image at the start of `bytes`: the header, then the sections that the
/// header announces, one after the other. Bytes behind the last section are
/// not looked at.
pub open spec fn parse_image(bytes: Seq<u8>) -> Result<InesView, InesError> {
    match parse_header(bytes) {
        Err(error) => Err(error),
        Ok(header) => {
            let prg_start = HEADER_SIZE + header.trainer_len();
            let chr_start = prg_start + header.prg_len();
            let end = chr_start + header.chr_len();
            if bytes.len() < end {
                Err(InesError::UnexpectedEof)
            } else {
                Ok(
                    InesView {
                        header,
                        trainer: if header.has_trainer() {
                            Some(bytes.subrange(HEADER_SIZE as int, prg_start as int))
                        } else {
                            None
                        },
                        prg: bytes.subrange(prg_start as int, chr_start as int),
                        chr: if header.chr_size != 0 {
                            Some(bytes.subrange(chr_start as int, end as int))
                        } else {
                            None
                        },
                    },
                )
            }
        },
    }
}

/// Copies the bytes of `bytes` from `from` up to, not including, `to`.
fn copy_section(bytes: &[u8], from: usize, to: usize) -> (section: Vec<u8>)
    requires
        from <= to <= bytes.len(),
    ensures
        section@ == bytes@.subrange(from as int, to as int),
{
    slice_to_vec(slice_subrange(bytes, from, to))
}

impl InesHeader {
    /// Reads the header at the start of `bytes`.
    pub fn parse(bytes: &[u8]) -> (r: Result<InesHeader, InesError>)
        ensures
            r is Ok <==> parse_header(bytes@) is Ok,
            r is Ok ==> r->Ok_0@ == parse_header(bytes@)->Ok_0,
            r is Err ==> r->Err_0 == parse_header(bytes@)->Err_0,
    {
        if bytes.len() < 4 {
            return Err(InesError::UnexpectedEof);
        }
        if bytes[0] != 0x4E || bytes[1] != 0x45 || bytes[2] != 0x53 || bytes[3] != 0x1A {
            assert(bytes@.subrange(0, 4)[0] == bytes@[0]);
            assert(bytes@.subrange(0, 4)[1] == bytes@[1]);
            assert(bytes@.subrange(0, 4)[2] == bytes@[2]);
            assert(bytes@.subrange(0, 4)[3] == bytes@[3]);
            return Err(InesError::BadMagic);
        }
        assert(bytes@.subrange(0, 4) =~= magic());
        if bytes.len() < HEADER_SIZE {
            return Err(InesError::UnexpectedEof);
        }
        let extra: [u8; 9] = [
            bytes[7],
            bytes[8],
            bytes[9],
            bytes[10],
            bytes[11],
            bytes[12],
            bytes[13],
            bytes[14],
            bytes[15],
        ];
        assert(extra@ =~= bytes@.subrange(7, 16));
        Ok(InesHeader { prg_size: bytes[4], chr_size: bytes[5], mapper: bytes[6], extra })
    }

    /// Writes the header: the signature, the three counts and flags, and the
    /// rest.
    pub fn dump(&self) -> (bytes: Vec<u8>)
        ensures
            bytes@ == self@.to_bytes(),
    {
        let mut bytes: Vec<u8> = Vec::new();
        bytes.push(0x4E);
        bytes.push(0x45);
        bytes.push(0x53);
        bytes.push(0x1A);
        bytes.push(self.prg_size);
        bytes.push(self.chr_size);
        bytes.push(self.mapper);
        let mut index: usize = 0;
        while index < 9
            invariant
                index <= 9,
                bytes@ == magic() + seq![self.prg_size, self.chr_size, self.mapper]
                    + self.extra@.take(index as int),
            decreases 9 - index,
        {
            bytes.push(self.extra[index]);
            assert(self.extra@.take(index as int + 1) =~= self.extra@.take(index as int).push(
                self.extra@[index as int],
            ));
            index = index + 1;
        }
        assert(self.extra@.take(9) =~= self.extra@);
        bytes
    }
}

impl Default for InesHeader {
    /// The header of an image with one bank of program memory and nothing
    /// else.
    fn default() -> (header: InesHeader)
        ensures
            header.prg_size == 1,
            header.chr_size == 0,
            header.mapper == 0,
            header.extra@ == Seq::new(9, |i: int| 0u8),
    {
        let extra: [u8; 9] = [0, 0, 0, 0, 0, 0, 0, 0, 0];
        assert(extra@ =~= Seq::new(9, |i: int| 0u8));
        InesHeader { prg_size: 1, chr_size: 0, mapper: 0, extra }
    }
}

impl Ines {
    /// Reads the image at the start of `bytes`.
    pub fn parse(bytes: &[u8]) -> (r: Result<Ines, InesError>)
        ensures
            r is Ok <==> parse_image(bytes@) is Ok,
            r is Ok ==> r->Ok_0@ == parse_image(bytes@)->Ok_0,
            r is Err ==> r->Err_0 == parse_image(bytes@)->Err_0,
    {
        let header = match InesHeader::parse(bytes) {
            Ok(header) => header,
            Err(error) => {
                return Err(error);
            },
        };
        let has_trainer = header.mapper & TRAINER_FLAG != 0;
        let prg_start: usize = if has_trainer {
            HEADER_SIZE + TRAINER_SIZE
        } else {
            HEADER_SIZE
        };
        let chr_start: usize = prg_start + header.prg_size as usize * PRG_BANK_SIZE;
        let end: usize = chr_start + header.chr_size as usize * CHR_BANK_SIZE;
        if bytes.len() < end {
            return Err(InesError::UnexpectedEof);
        }
        let trainer = if has_trainer {
            Some(copy_section(bytes, HEADER_SIZE, prg_start))
        } else {
            None
        };
        let prg = copy_section(bytes, prg_start, chr_start);
        let chr = if header.chr_size != 0 {
            Some(copy_section(bytes, chr_start, end))
        } else {
            None
        };
        Ok(Ines { header, trainer, prg, chr })
    }

    /// Writes the image: the header, the trainer if there is one, program
    /// memory, and graphics memory if there is any.
    pub fn dump(&self) -> (bytes: Vec<u8>)
        ensures
            bytes@ == self@.to_bytes(),
    {
        let mut bytes = self.header.dump();
        match &self.trainer {
            Some(trainer) => {
                bytes.extend_from_slice(trainer.as_slice());
            },
            None => {},
        }
        bytes.extend_from_slice(self.prg.as_slice());
        match &self.chr {
            Some(chr) => {
                bytes.extend_from_slice(chr.as_slice());
            },
            None => {},
        }
        assert(bytes@ =~= self@.to_bytes());
        bytes
    }
}

impl Default for Ines {
    /// An image with the default header and no section filled in.
    fn default() -> (image: Ines)
        ensures
            image.header.prg_size == 1,
            image.header.chr_size == 0,
            image.header.mapper == 0,
            image.header.extra@ == Seq::new(9, |i: int| 0u8),
            image.trainer is None,
            image.prg@ == Seq::<u8>::empty(),
            image.chr is None,
    {
        Ines { header: InesHeader::default(), trainer: None, prg: Vec::new(), chr: None }
    }
}

/// Reading what was written gives the image back: a consistent image, written
/// out and read again, is the same image, whatever bytes follow it.
pub proof fn lemma_parse_inverts_dump(image: InesView, trailing: Seq<u8>)
    requires
        image.consistent(),
    ensures
        parse_image(image.to_bytes() + trailing) is Ok,
        parse_image(image.to_bytes() + trailing)->Ok_0 == image,
{
    let header = image.header;
    let bytes = image.to_bytes() + trailing;
    let head = header.to_bytes();
    assert(head.len() == 16);
    assert(bytes.subrange(0, 4) =~= magic());
    assert(bytes.subrange(7, 16) =~= header.extra);
    assert(bytes[4] == header.prg_size);
    assert(bytes[5] == header.chr_size);
    assert(bytes[6] == header.mapper);
    let parsed = parse_header(bytes)->Ok_0;
    assert(parsed == header);
    let prg_start = HEADER_SIZE + header.trainer_len();
    let chr_start = prg_start + header.prg_len();
    let end = chr_start + header.chr_len();
    if image.trainer is Some {
        assert(bytes.subrange(HEADER_SIZE as int, prg_start as int) =~= image.trainer->Some_0);
    }
    assert(bytes.subrange(prg_start as int, chr_start as int) =~= image.prg);
    if image.chr is Some {
        assert(bytes.subrange(chr_start as int, end as int) =~= image.chr->Some_0);
    }
}

/// A successful reading gives a consistent image.
pub proof fn lemma_parsed_is_consistent(bytes: Seq<u8>)
    requires
        parse_image(bytes) is Ok,
    ensures
        parse_image(bytes)->Ok_0.consistent(),
{
}

} // verus!
