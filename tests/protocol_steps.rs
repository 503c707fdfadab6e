use x7dap::bits::msb_first;
use x7dap::protocol::{
    check_programmed_ok, check_ready_to_program, dna_from_read, dna_steps, jprogram_steps,
    load_steps, progress_bytes, status_from_read, status_steps,
};
use x7dap::{reverse_bits_in_buffer, reverse_bits_in_byte, Command, Error, Status, Step};

fn msb_bits_of_word(w: u32) -> Vec<bool> {
    (0..32).map(|i| (w >> (31 - i)) & 1 == 1).collect()
}

fn lsb_bits(value: u32, n: usize) -> Vec<bool> {
    (0..n).map(|i| (value >> i) & 1 == 1).collect()
}

#[test]
fn instruction_bits() {
    assert_eq!(Command::CFG_IN.bits(), vec![true, false, true, false, false, false]);
    assert_eq!(Command::CFG_OUT.bits(), lsb_bits(0b000100, 6));
    assert_eq!(Command::FUSE_DNA.bits(), lsb_bits(0b110010, 6));
    assert_eq!(Command::JPROGRAM.bits(), lsb_bits(0b001011, 6));
    assert_eq!(Command::JSTART.bits(), lsb_bits(0b001100, 6));
    assert_eq!(Command::IDCODE.bits(), lsb_bits(0b001001, 6));
    assert_eq!(Command::BYPASS.bits(), vec![true; 6]);
    assert_eq!(Command::EXTEST_TRAIN.bits(), lsb_bits(0b1111101, 7));
    assert_eq!(Command::EXTEST_TRAIN.width(), 7);
    assert_eq!(Command::USER4.opcode(), 0b100011);
}

#[test]
fn byte_reversal() {
    assert_eq!(reverse_bits_in_byte(0x01), 0x80);
    assert_eq!(reverse_bits_in_byte(0xA0), 0x05);
    assert_eq!(reverse_bits_in_byte(0xFF), 0xFF);
    assert_eq!(reverse_bits_in_byte(0x00), 0x00);
    for b in 0..=255u8 {
        assert_eq!(reverse_bits_in_byte(b), b.reverse_bits());
    }
}

#[test]
fn buffer_reversal_round_trip() {
    for data in [vec![], vec![0x5Au8], vec![0x01, 0x02, 0xF0, 0xAA, 0x99]] {
        let once = reverse_bits_in_buffer(&data);
        assert_eq!(once.len(), data.len());
        assert_eq!(reverse_bits_in_buffer(&once), data);
    }
    assert_eq!(reverse_bits_in_buffer(&[0x01, 0x03]), vec![0x80, 0xC0]);
}

#[test]
fn payload_is_msb_first() {
    assert_eq!(
        msb_first(&[0x80, 0x01]),
        vec![true, false, false, false, false, false, false, false,
             false, false, false, false, false, false, false, true]
    );
    assert!(msb_first(&[]).is_empty());
}

#[test]
fn status_read_sequence() {
    let steps = status_steps();
    assert_eq!(steps.len(), 7);
    assert!(matches!(steps[0], Step::Reset));
    assert!(matches!(steps[1], Step::Idle(5)));
    match &steps[2] {
        Step::WriteIr(b) => assert_eq!(b, &Command::CFG_IN.bits()),
        _ => panic!("expected CFG_IN"),
    }
    match &steps[3] {
        Step::WriteDr(b) => {
            let mut expected = Vec::new();
            for w in [0xAA99_5566u32, 0x2000_0000, 0x2800_E001, 0x2000_0000, 0x2000_0000] {
                expected.extend(lsb_bits(w.reverse_bits(), 32));
            }
            assert_eq!(b.len(), 160);
            assert_eq!(b, &expected);
        }
        _ => panic!("expected the status request"),
    }
    match &steps[4] {
        Step::WriteIr(b) => assert_eq!(b, &Command::CFG_OUT.bits()),
        _ => panic!("expected CFG_OUT"),
    }
    assert!(matches!(steps[5], Step::ReadDr(32)));
    assert!(matches!(steps[6], Step::Reset));
}

#[test]
fn status_decoded_from_read() {
    let s = status_from_read(&msb_bits_of_word(0x1234_5678));
    assert_eq!(s.value(), 0x1234_5678);
    let bits = lsb_bits(0x8000_0001, 32);
    assert_eq!(status_from_read(&bits).value(), 0x8000_0001u32.reverse_bits());
    assert_eq!(status_from_read(&[true]).value(), 0x8000_0000);
    assert_eq!(status_from_read(&[]).value(), 0);
}

#[test]
fn dna_sequence_and_bytes() {
    let steps = dna_steps();
    assert_eq!(steps.len(), 2);
    match &steps[0] {
        Step::WriteIr(b) => assert_eq!(b, &Command::FUSE_DNA.bits()),
        _ => panic!("expected FUSE_DNA"),
    }
    assert!(matches!(steps[1], Step::ReadDr(64)));
    let mut bits = lsb_bits(0x0403_0201, 32);
    bits.extend(lsb_bits(0x0807_0605, 32));
    assert_eq!(dna_from_read(&bits), vec![1, 2, 3, 4, 5, 6, 7, 8]);
    assert_eq!(dna_from_read(&[true, true, true, false]), vec![0x07]);
    assert_eq!(dna_from_read(&[]), Vec::<u8>::new());
}

#[test]
fn restart_sequence() {
    let steps = jprogram_steps();
    assert_eq!(steps.len(), 3);
    match &steps[0] {
        Step::WriteIr(b) => assert_eq!(b, &Command::JPROGRAM.bits()),
        _ => panic!("expected JPROGRAM"),
    }
    assert!(matches!(steps[1], Step::Idle(2000)));
    assert!(matches!(steps[2], Step::Reset));
}

#[test]
fn load_sequence() {
    let steps = load_steps(&[0x01, 0xAA]);
    assert_eq!(steps.len(), 11);
    assert!(matches!(steps[0], Step::Reset));
    assert!(matches!(&steps[1], Step::WriteIr(b) if *b == Command::JPROGRAM.bits()));
    assert!(matches!(steps[2], Step::Idle(1)));
    assert!(matches!(steps[3], Step::SleepMs(20)));
    assert!(matches!(steps[4], Step::Reset));
    assert!(matches!(&steps[5], Step::WriteIr(b) if *b == Command::CFG_IN.bits()));
    match &steps[6] {
        Step::WriteDrProgress(b) => {
            let mut expected = lsb_bits(0x80, 8);
            expected.extend(lsb_bits(0x55, 8));
            assert_eq!(b, &expected);
        }
        _ => panic!("expected the payload"),
    }
    assert!(matches!(steps[7], Step::Idle(1)));
    assert!(matches!(&steps[8], Step::WriteIr(b) if *b == Command::JSTART.bits()));
    assert!(matches!(steps[9], Step::Idle(2000)));
    assert!(matches!(steps[10], Step::Reset));
}

#[test]
fn ready_check() {
    assert_eq!(check_ready_to_program(&Status::new((1 << 11) | (1 << 12))), Ok(()));
    assert_eq!(check_ready_to_program(&Status::new(1 << 12)), Err(Error::BadStatus));
    assert_eq!(check_ready_to_program(&Status::new(1 << 11)), Err(Error::BadStatus));
    assert_eq!(check_ready_to_program(&Status::new(0)), Err(Error::BadStatus));
}

#[test]
fn programmed_check() {
    let good = (1 << 11) | (1 << 12) | (1 << 13) | (1 << 14);
    assert_eq!(check_programmed_ok(&Status::new(good)), Ok(()));
    assert_eq!(check_programmed_ok(&Status::new(good | 0b1111_1110 | (1 << 17))), Ok(()));
    for bad in [good & !(1 << 11), good & !(1 << 12), good & !(1 << 13), good & !(1 << 14),
                good | (1 << 16), good | (1 << 15), good | 1] {
        assert_eq!(check_programmed_ok(&Status::new(bad)), Err(Error::BadStatus));
    }
}

#[test]
fn programmed_check_on_3fff() {
    // Bit 0 (CRC error) is set and bit 14 (DONE) is clear in this word.
    assert_eq!(check_programmed_ok(&Status::new(0x0000_3FFF)), Err(Error::BadStatus));
    assert_eq!(check_ready_to_program(&Status::new(0x0000_3FFF)), Ok(()));
}

#[test]
fn progress_in_bytes() {
    assert_eq!(progress_bytes(0), 0);
    assert_eq!(progress_bytes(7), 0);
    assert_eq!(progress_bytes(8), 1);
    assert_eq!(progress_bytes(8 * 1024 + 3), 1024);
}
