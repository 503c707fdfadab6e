use x7dap::Status;

fn all_fields(s: &Status) -> (u8, [bool; 15], u8) {
    (
        s.startup_state(),
        [
            s.xadc_overtemp(),
            s.dec_error(),
            s.id_error(),
            s.done(),
            s.release_done(),
            s.init_b(),
            s.init_complete(),
            s.ghigh_b(),
            s.gwe(),
            s.gts_cfg_b(),
            s.eos(),
            s.dci_match(),
            s.mmcm_lock(),
            s.part_secured(),
            s.crc_error(),
        ],
        s.mode(),
    )
}

#[test]
fn status_all_clear() {
    let (startup, flags, mode) = all_fields(&Status::new(0));
    assert_eq!(startup, 0);
    assert_eq!(mode, 0);
    assert!(flags.iter().all(|f| !*f));
}

#[test]
fn status_all_set() {
    let (startup, flags, mode) = all_fields(&Status::new(0xFFFF_FFFF));
    assert_eq!(startup, 0b111);
    assert_eq!(mode, 0b111);
    assert!(flags.iter().all(|f| *f));
}

#[test]
fn status_single_bits() {
    assert!(Status::new(1 << 17).xadc_overtemp());
    assert!(Status::new(1 << 16).dec_error());
    assert!(Status::new(1 << 15).id_error());
    assert!(Status::new(1 << 14).done());
    assert!(Status::new(1 << 13).release_done());
    assert!(Status::new(1 << 12).init_b());
    assert!(Status::new(1 << 11).init_complete());
    assert!(Status::new(1 << 7).ghigh_b());
    assert!(Status::new(1 << 6).gwe());
    assert!(Status::new(1 << 5).gts_cfg_b());
    assert!(Status::new(1 << 4).eos());
    assert!(Status::new(1 << 3).dci_match());
    assert!(Status::new(1 << 2).mmcm_lock());
    assert!(Status::new(1 << 1).part_secured());
    assert!(Status::new(1).crc_error());
    assert!(!Status::new(1 << 14).init_b());
    assert!(!Status::new(1 << 11).done());
}

#[test]
fn status_multi_bit_fields() {
    let s = Status::new((0b101 << 18) | (0b011 << 8));
    assert_eq!(s.startup_state(), 0b101);
    assert_eq!(s.mode(), 0b011);
    assert!(!s.xadc_overtemp());
    assert!(!s.ghigh_b());
    assert_eq!(Status::new(0xFFFF_FFFF).value(), 0xFFFF_FFFF);
}

#[test]
fn status_word_3fff() {
    let s = Status::new(0x0000_3FFF);
    assert!(s.init_complete());
    assert!(s.init_b());
    assert!(s.release_done());
    assert!(!s.done());
    assert!(s.crc_error());
    assert_eq!(s.mode(), 0b111);
    assert_eq!(s.startup_state(), 0);
}
