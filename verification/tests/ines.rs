use nestle::ines::{Ines, InesError, InesHeader};

fn with_header(body: &[u8]) -> Vec<u8> {
    let mut result = InesHeader::default().dump();
    result.extend_from_slice(body);
    result
}

#[test]
fn test_ines_header() {
    let reader = b"NES\x1a\x01\x00\x00\x00\x00\x00\x00\x00\x00\x00\x00\x00";
    let header: InesHeader = InesHeader::parse(reader).unwrap();
    assert_eq!(header.prg_size, 1u8);
    assert_eq!(header.chr_size, 0u8);
    assert_eq!(header.mapper, 0u8);
}

#[test]
fn test_ines_parse() {
    let prg = b"\x01".repeat(16384);
    let reader = with_header(&prg);
    let image: Ines = Ines::parse(&reader).unwrap();
    assert_eq!(&image.prg, &prg);
}

#[test]
fn test_ines_parse_trainer() {
    let header = InesHeader {
        mapper: 0b0010_0000,
        ..Default::default()
    };
    let trainer = b"trainer\x01".repeat(64);
    let prg = b"\x01".repeat(16384);

    let ines = Ines {
        header,
        trainer: Some(trainer.clone()),
        prg,
        ..Default::default()
    };
    let reader = ines.dump();
    let image: Ines = Ines::parse(&reader).unwrap();

    assert!(image.trainer.is_some());
    let img_trainer = image.trainer.unwrap();
    assert_eq!(img_trainer.len(), 512);
    assert_eq!(img_trainer, trainer);
}

#[test]
fn test_ines_pasre_chr() {
    let header = InesHeader {
        chr_size: 2,
        ..Default::default()
    };
    let prg = b"\x01".repeat(16384);
    let chr = b"chrsect\x02".repeat(2048); // 8192 * 2

    let ines = Ines {
        header,
        prg,
        chr: Some(chr.clone()),
        ..Default::default()
    };
    let reader = ines.dump();
    let image: Ines = Ines::parse(&reader).unwrap();

    assert!(image.chr.is_some());
    let img_chr = image.chr.unwrap();
    assert_eq!(img_chr.len(), 8192 * 2);
    assert_eq!(img_chr, chr);
}

#[test]
fn the_default_header_counts_one_program_bank() {
    let header = InesHeader::default();
    assert_eq!(header.prg_size, 1);
    assert_eq!(header.chr_size, 0);
    assert_eq!(header.mapper, 0);
    assert_eq!(header.extra, [0u8; 9]);
    let image = Ines::default();
    assert_eq!(image.header, header);
    assert_eq!(image.trainer, None);
    assert_eq!(image.prg, Vec::<u8>::new());
    assert_eq!(image.chr, None);
}

#[test]
fn a_header_is_written_with_its_signature() {
    let header = InesHeader {
        prg_size: 2,
        chr_size: 3,
        mapper: 0x21,
        extra: [1, 2, 3, 4, 5, 6, 7, 8, 9],
    };
    assert_eq!(
        header.dump(),
        vec![0x4E, 0x45, 0x53, 0x1A, 2, 3, 0x21, 1, 2, 3, 4, 5, 6, 7, 8, 9]
    );
    assert_eq!(InesHeader::parse(&header.dump()), Ok(header));
}

#[test]
fn an_image_is_written_section_by_section() {
    let image = Ines {
        header: InesHeader {
            prg_size: 1,
            chr_size: 1,
            mapper: 0b0010_0000,
            extra: [0; 9],
        },
        trainer: Some(vec![0xAA; 512]),
        prg: vec![0xBB; 16384],
        chr: Some(vec![0xCC; 8192]),
    };
    let bytes = image.dump();
    assert_eq!(bytes.len(), 16 + 512 + 16384 + 8192);
    assert_eq!(&bytes[..4], b"NES\x1a");
    assert_eq!(bytes[16], 0xAA);
    assert_eq!(bytes[16 + 511], 0xAA);
    assert_eq!(bytes[16 + 512], 0xBB);
    assert_eq!(bytes[16 + 512 + 16383], 0xBB);
    assert_eq!(bytes[16 + 512 + 16384], 0xCC);
    assert_eq!(Ines::parse(&bytes), Ok(image));
}

#[test]
fn bytes_behind_the_image_are_ignored() {
    let image = Ines {
        prg: vec![7; 16384],
        ..Default::default()
    };
    let mut bytes = image.dump();
    bytes.extend_from_slice(&[1, 2, 3]);
    assert_eq!(Ines::parse(&bytes), Ok(image));
}

#[test]
fn a_wrong_signature_is_rejected() {
    assert_eq!(
        InesHeader::parse(b"NES\x1b\x01\x00\x00\x00\x00\x00\x00\x00\x00\x00\x00\x00"),
        Err(InesError::BadMagic)
    );
    assert_eq!(
        InesHeader::parse(b"nes\x1a\x01\x00\x00\x00\x00\x00\x00\x00\x00\x00\x00\x00"),
        Err(InesError::BadMagic)
    );
    assert_eq!(InesHeader::parse(b"ABCD"), Err(InesError::BadMagic));
    let mut bytes = with_header(&[0u8; 16384]);
    bytes[0] = 0;
    assert_eq!(Ines::parse(&bytes), Err(InesError::BadMagic));
}

#[test]
fn cut_off_bytes_are_rejected() {
    assert_eq!(InesHeader::parse(b""), Err(InesError::UnexpectedEof));
    assert_eq!(InesHeader::parse(b"NES"), Err(InesError::UnexpectedEof));
    assert_eq!(InesHeader::parse(b"XYZ"), Err(InesError::UnexpectedEof));
    assert_eq!(InesHeader::parse(b"NES\x1a"), Err(InesError::UnexpectedEof));
    assert_eq!(
        InesHeader::parse(b"NES\x1a\x01\x00\x00\x00\x00\x00\x00\x00\x00\x00\x00"),
        Err(InesError::UnexpectedEof)
    );
    assert_eq!(
        Ines::parse(&with_header(&[0u8; 16383])),
        Err(InesError::UnexpectedEof)
    );
    assert_eq!(Ines::parse(&with_header(&[])), Err(InesError::UnexpectedEof));

    let with_chr = Ines {
        header: InesHeader {
            chr_size: 1,
            ..Default::default()
        },
        prg: vec![0; 16384],
        chr: Some(vec![0; 8191]),
        ..Default::default()
    };
    assert_eq!(Ines::parse(&with_chr.dump()), Err(InesError::UnexpectedEof));

    let with_trainer = Ines {
        header: InesHeader {
            mapper: 0b0010_0000,
            ..Default::default()
        },
        trainer: Some(vec![0; 512]),
        prg: vec![0; 16383],
        ..Default::default()
    };
    assert_eq!(
        Ines::parse(&with_trainer.dump()),
        Err(InesError::UnexpectedEof)
    );
}

#[test]
fn the_trainer_is_present_exactly_when_its_flag_is_set() {
    for mapper in [0u8, 0b0001_0000, 0b0100_0000, 0b1101_1111, 1] {
        let header = InesHeader {
            prg_size: 0,
            mapper,
            ..Default::default()
        };
        let mut bytes = header.dump();
        bytes.extend_from_slice(&[9u8; 512]);
        let image = Ines::parse(&bytes).unwrap();
        assert_eq!(image.trainer, None);
        assert_eq!(image.prg, Vec::<u8>::new());
    }
    for mapper in [0b0010_0000u8, 0b0010_0001, 0xFF] {
        let header = InesHeader {
            prg_size: 0,
            mapper,
            ..Default::default()
        };
        let mut bytes = header.dump();
        bytes.extend_from_slice(&[9u8; 512]);
        let image = Ines::parse(&bytes).unwrap();
        assert_eq!(image.trainer, Some(vec![9u8; 512]));
    }
}

#[test]
fn sections_have_the_sizes_that_the_header_counts() {
    let header = InesHeader {
        prg_size: 2,
        chr_size: 1,
        ..Default::default()
    };
    let mut bytes = header.dump();
    bytes.extend_from_slice(&[1u8; 32768]);
    bytes.extend_from_slice(&[2u8; 8192]);
    let image = Ines::parse(&bytes).unwrap();
    assert_eq!(image.prg, vec![1u8; 32768]);
    assert_eq!(image.chr, Some(vec![2u8; 8192]));
    assert_eq!(image.trainer, None);
    assert_eq!(image.header, header);
}
