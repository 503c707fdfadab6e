use x7dap::{auto_tap_idx, check_tap_idx, X7IDCODE};

#[test]
fn resolve_known_codes() {
    assert_eq!(X7IDCODE::try_from_u32(0x0362_2093), Some(X7IDCODE::X7S6));
    assert_eq!(X7IDCODE::try_from_u32(0x0372_7093), Some(X7IDCODE::X7Z020));
    assert_eq!(X7IDCODE::try_from_u32(0x0362_D093), Some(X7IDCODE::X7A35T));
    assert_eq!(X7IDCODE::try_from_u32(0x0373_6093), Some(X7IDCODE::X7Z100));
}

#[test]
fn resolve_unknown_code() {
    assert_eq!(X7IDCODE::try_from_u32(0x4111_1043), None);
    assert_eq!(X7IDCODE::try_from_u32(0), None);
    assert_eq!(X7IDCODE::try_from_u32(0xFFFF_FFFF), None);
}

#[test]
fn resolve_ignores_revision() {
    for rev in 0u32..16 {
        for code in [0x0362_2093u32, 0x0372_2093, 0x0365_1093, 0x1234_5678] {
            assert_eq!(
                X7IDCODE::try_from_u32(code),
                X7IDCODE::try_from_u32(code | (rev << 28))
            );
        }
    }
}

#[test]
fn revision_one_resolves_like_revision_zero() {
    let a = X7IDCODE::try_from_u32(0x1372_2093).unwrap();
    let b = X7IDCODE::try_from_u32(0x0372_2093).unwrap();
    assert_eq!(a, X7IDCODE::X7Z010);
    assert_eq!(a.name(), b.name());
    assert_eq!(a.name(), "X7Z010");
    assert!(a.compatible(b));
}

#[test]
fn codes_and_names_round_trip() {
    let mut count = 0;
    for raw in [
        0x03622093u32, 0x03620093, 0x037C4093, 0x0362F093, 0x037C8093, 0x037c7093, 0x037c3093,
        0x0362E093, 0x037C2093, 0x0362D093, 0x0362C093, 0x03632093, 0x03631093, 0x03636093,
        0x03647093, 0x0364C093, 0x03651093, 0x03747093, 0x03656093, 0x03752093, 0x03751093,
        0x03671093, 0x03667093, 0x03682093, 0x03687093, 0x03692093, 0x03691093, 0x03696093,
        0x036D5093, 0x036D9093, 0x036DB093, 0x03723093, 0x0373c093, 0x03728093, 0x03722093,
        0x0373b093, 0x03727093, 0x0372c093, 0x03732093, 0x03731093, 0x03736093,
    ] {
        let d = X7IDCODE::try_from_u32(raw).unwrap();
        assert_eq!(d.code(), raw);
        assert_eq!(X7IDCODE::try_from_name(d.name()), Some(d));
        count += 1;
    }
    assert_eq!(count, 41);
}

#[test]
fn lookup_by_name_ignores_case() {
    assert_eq!(X7IDCODE::try_from_name("x7a35t"), Some(X7IDCODE::X7A35T));
    assert_eq!(X7IDCODE::try_from_name("X7vx1140T"), Some(X7IDCODE::X7VX1140T));
    assert_eq!(X7IDCODE::try_from_name("X7Z020"), Some(X7IDCODE::X7Z020));
    assert_eq!(X7IDCODE::try_from_name("X7Z02"), None);
    assert_eq!(X7IDCODE::try_from_name("X7Z0200"), None);
    assert_eq!(X7IDCODE::try_from_name(""), None);
    assert_eq!(X7IDCODE::try_from_name("XC7A35T"), None);
}

#[test]
fn compatible_is_masked_equality() {
    let a = X7IDCODE::X7K325T;
    let b = X7IDCODE::X7K410T;
    assert!(a.compatible(a));
    assert!(!a.compatible(b));
    assert!(!b.compatible(a));
    let x = X7IDCODE::try_from_u32(0x3365_1093).unwrap();
    let y = X7IDCODE::try_from_u32(0x0365_1093).unwrap();
    assert!(x.compatible(y));
    assert!(y.compatible(x));
}

#[test]
fn frame_geometry_is_zero() {
    assert_eq!(X7IDCODE::X7A35T.config_bits_per_frame(), (0, 0, 0));
}

#[test]
fn tap_at_index() {
    let chain = [Some(0x4BA0_0477u32), None, Some(0x1362_D093)];
    assert_eq!(check_tap_idx(&chain, 2), Some(X7IDCODE::X7A35T));
    assert_eq!(check_tap_idx(&chain, 0), None);
    assert_eq!(check_tap_idx(&chain, 1), None);
    assert_eq!(check_tap_idx(&chain, 3), None);
}

#[test]
fn automatic_tap_selection() {
    assert_eq!(
        auto_tap_idx(&[Some(0x4BA0_0477), None, Some(0x1362_D093)]),
        Some((2, X7IDCODE::X7A35T))
    );
    assert_eq!(auto_tap_idx(&[]), None);
    assert_eq!(auto_tap_idx(&[Some(0x4BA0_0477), None]), None);
    assert_eq!(auto_tap_idx(&[Some(0x0362_D093), Some(0x0372_7093)]), None);
}
