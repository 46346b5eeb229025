use userland::capability::Capability;
use userland::env::get_args;
use userland::env::get_capability;
use userland::env::Env;

#[test]
fn capability_keeps_its_bits() {
    assert_eq!(Capability::new(0x1234_5678_9abc_def0_0fed_cba9_8765_4321).raw(),
        0x1234_5678_9abc_def0_0fed_cba9_8765_4321);
    assert_eq!(Capability::new(0).raw(), 0);
    assert_eq!(Capability::new(u128::MAX).raw(), u128::MAX);
}

#[test]
fn only_the_zero_capability_is_null() {
    assert!(Capability::null().is_null());
    assert_eq!(Capability::null().raw(), 0);
    assert!(!Capability::new(1).is_null());
    assert!(!Capability::new(1 << 64).is_null());
    assert!(Capability::from_halves(0, 0).is_null());
    assert!(!Capability::from_halves(0, 1).is_null());
    assert!(!Capability::from_halves(1, 0).is_null());
}

#[test]
fn halves_are_the_upper_and_lower_64_bits() {
    let cap = Capability::from_halves(0x1111_2222_3333_4444, 0x5555_6666_7777_8888);
    assert_eq!(cap.raw(), 0x1111_2222_3333_4444_5555_6666_7777_8888);
    assert_eq!(cap.high(), 0x1111_2222_3333_4444);
    assert_eq!(cap.low(), 0x5555_6666_7777_8888);
}

#[test]
fn halves_round_trip() {
    let words = [0, 1, 0x8000_0000_0000_0000, u64::MAX, 0xdead_beef];
    for high in words {
        for low in words {
            let cap = Capability::from_halves(high, low);
            assert_eq!((cap.high(), cap.low()), (high, low));
            assert_eq!(Capability::from_halves(cap.high(), cap.low()).raw(), cap.raw());
        }
    }
}

#[test]
fn process_inherits_its_capability() {
    let env = Env::new(0, 0, 7, 9);
    assert_eq!(get_capability(&env).raw(), (7 << 64) | 9);
    let env = Env::new(0, 0, 0, 0);
    assert!(get_capability(&env).is_null());
}

#[test]
fn arguments_need_a_blob_that_is_long_enough() {
    let env = Env::new(0x6000, 16, 0, 0);
    assert_eq!(get_args(&env, 0), Some(0x6000));
    assert_eq!(get_args(&env, 8), Some(0x6000));
    assert_eq!(get_args(&env, 16), Some(0x6000));
    assert_eq!(get_args(&env, 17), None);
    let env = Env::new(0, 16, 0, 0);
    assert_eq!(get_args(&env, 8), None);
    assert_eq!(get_args(&env, 0), None);
}
