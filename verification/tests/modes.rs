use chanem::mode::Mode;

#[test]
fn mode_codes_are_stable() {
    assert_eq!(Mode::AutomaticFreeSpace.code(), 0);
    assert_eq!(Mode::AutomaticFlatEarthTwoRay.code(), 1);
    assert_eq!(Mode::AutomaticCurvedEarthTwoRay.code(), 2);
    assert_eq!(Mode::AutomaticNineRay.code(), 3);
    assert_eq!(Mode::Manual.code(), 4);
}

#[test]
fn mode_from_code_round_trips() {
    for c in 0u8..5u8 {
        assert_eq!(Mode::from_code(c).code(), c);
    }
}

#[test]
fn mode_from_code_out_of_range_is_manual() {
    assert_eq!(Mode::from_code(5), Mode::Manual);
    assert_eq!(Mode::from_code(17), Mode::Manual);
    assert_eq!(Mode::from_code(255), Mode::Manual);
}

#[test]
fn mode_cycle_closure_from_every_mode() {
    for c in 0u8..5u8 {
        let start = Mode::from_code(c);
        let mut m = start;
        for k in 0u8..5u8 {
            m = m.cycle();
            assert_eq!(m.code(), (c + k + 1) % 5);
        }
        assert_eq!(m, start);
    }
}
