use x7dap::Bitstream;

#[test]
fn bitstream_holds_its_bytes() {
    let b = Bitstream::from_data(&[1, 2, 3]);
    assert_eq!(b.data(), &[1, 2, 3]);
    let b = Bitstream::new(vec![0xAA; 5]);
    assert_eq!(b.data(), &[0xAA; 5]);
    assert!(Bitstream::from_data(&[]).data().is_empty());
}
