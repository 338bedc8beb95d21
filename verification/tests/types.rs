use nestle::cursor::ByteCursor;
use nestle::instructions::{
    ADC, AND, ASL, BCC, BCS, BEQ, BIT, BMI, BNE, BPL, BRK, BVC, BVS, CLC, CLD, CLI, CLV, CMP, CPX,
    CPY, DEC, DEX, DEY, EOR, INC, INX, INY, Instruction, InstructionConstruct, JMP, JSR, LDA, LDX,
    LDY, LSR, NOP, ORA, PHA, PHP, PLA, PLP, ROL, ROR, RTI, RTS, SBC, SEC, SED, SEI, STA, STX, STY,
    TAX, TAY, TSX, TXA, TXS, TYA,
};
use nestle::mnemonic::Mnemonic;
use nestle::opcode::Opcode;
use nestle::table::lookup;

fn assert_decodes_its_own<T: InstructionConstruct + Instruction>(mnemonic: Mnemonic) {
    let mut own = 0;
    for byte in 0..=255u8 {
        let buffer = [byte, 0x34, 0x12];
        let decoded = T::from_bytes(&buffer);
        match lookup(byte) {
            Some((entry, kind)) if entry == mnemonic => {
                let instruction = decoded.unwrap();
                let opcode = Opcode::from_peekable(&mut ByteCursor::new(&buffer)).unwrap();
                assert_eq!(instruction.name(), mnemonic.name());
                assert_eq!(instruction.size(), kind.size());
                assert_eq!(instruction.format(), opcode.format());
                assert_eq!(opcode.tag(), mnemonic);
                assert!(instruction.format().starts_with(mnemonic.name()));
                own += 1;
            }
            _ => assert!(decoded.is_none()),
        }
    }
    assert!(own >= 1);
}

#[test]
fn every_type_decodes_the_opcodes_of_its_mnemonic() {
    assert_decodes_its_own::<ADC>(Mnemonic::ADC);
    assert_decodes_its_own::<AND>(Mnemonic::AND);
    assert_decodes_its_own::<ASL>(Mnemonic::ASL);
    assert_decodes_its_own::<BCC>(Mnemonic::BCC);
    assert_decodes_its_own::<BCS>(Mnemonic::BCS);
    assert_decodes_its_own::<BEQ>(Mnemonic::BEQ);
    assert_decodes_its_own::<BIT>(Mnemonic::BIT);
    assert_decodes_its_own::<BMI>(Mnemonic::BMI);
    assert_decodes_its_own::<BNE>(Mnemonic::BNE);
    assert_decodes_its_own::<BPL>(Mnemonic::BPL);
    assert_decodes_its_own::<BRK>(Mnemonic::BRK);
    assert_decodes_its_own::<BVC>(Mnemonic::BVC);
    assert_decodes_its_own::<BVS>(Mnemonic::BVS);
    assert_decodes_its_own::<CLC>(Mnemonic::CLC);
    assert_decodes_its_own::<CLD>(Mnemonic::CLD);
    assert_decodes_its_own::<CLI>(Mnemonic::CLI);
    assert_decodes_its_own::<CLV>(Mnemonic::CLV);
    assert_decodes_its_own::<CMP>(Mnemonic::CMP);
    assert_decodes_its_own::<CPX>(Mnemonic::CPX);
    assert_decodes_its_own::<CPY>(Mnemonic::CPY);
    assert_decodes_its_own::<DEC>(Mnemonic::DEC);
    assert_decodes_its_own::<DEX>(Mnemonic::DEX);
    assert_decodes_its_own::<DEY>(Mnemonic::DEY);
    assert_decodes_its_own::<EOR>(Mnemonic::EOR);
    assert_decodes_its_own::<INC>(Mnemonic::INC);
    assert_decodes_its_own::<INX>(Mnemonic::INX);
    assert_decodes_its_own::<INY>(Mnemonic::INY);
    assert_decodes_its_own::<JMP>(Mnemonic::JMP);
    assert_decodes_its_own::<JSR>(Mnemonic::JSR);
    assert_decodes_its_own::<LDA>(Mnemonic::LDA);
    assert_decodes_its_own::<LDX>(Mnemonic::LDX);
    assert_decodes_its_own::<LDY>(Mnemonic::LDY);
    assert_decodes_its_own::<LSR>(Mnemonic::LSR);
    assert_decodes_its_own::<NOP>(Mnemonic::NOP);
    assert_decodes_its_own::<ORA>(Mnemonic::ORA);
    assert_decodes_its_own::<PHA>(Mnemonic::PHA);
    assert_decodes_its_own::<PHP>(Mnemonic::PHP);
    assert_decodes_its_own::<PLA>(Mnemonic::PLA);
    assert_decodes_its_own::<PLP>(Mnemonic::PLP);
    assert_decodes_its_own::<ROL>(Mnemonic::ROL);
    assert_decodes_its_own::<ROR>(Mnemonic::ROR);
    assert_decodes_its_own::<RTI>(Mnemonic::RTI);
    assert_decodes_its_own::<RTS>(Mnemonic::RTS);
    assert_decodes_its_own::<SBC>(Mnemonic::SBC);
    assert_decodes_its_own::<SEC>(Mnemonic::SEC);
    assert_decodes_its_own::<SED>(Mnemonic::SED);
    assert_decodes_its_own::<SEI>(Mnemonic::SEI);
    assert_decodes_its_own::<STA>(Mnemonic::STA);
    assert_decodes_its_own::<STX>(Mnemonic::STX);
    assert_decodes_its_own::<STY>(Mnemonic::STY);
    assert_decodes_its_own::<TAX>(Mnemonic::TAX);
    assert_decodes_its_own::<TAY>(Mnemonic::TAY);
    assert_decodes_its_own::<TSX>(Mnemonic::TSX);
    assert_decodes_its_own::<TXA>(Mnemonic::TXA);
    assert_decodes_its_own::<TXS>(Mnemonic::TXS);
    assert_decodes_its_own::<TYA>(Mnemonic::TYA);
}
