use zingo::activation::{
    orchard_activation_height, orchard_override, orchard_variable, parse_override,
    sapling_activation_height, sapling_override, sapling_variable, set_orchard_activation_height,
    set_sapling_activation_height, ActivationOverrides, EnvRead, HeightOverride, SetOutcome,
};

fn present(value: &str) -> EnvRead {
    EnvRead::Present(value.to_string())
}

#[test]
fn override_is_a_decimal_number() {
    assert_eq!(parse_override(&present("12")), Some(12));
    assert_eq!(parse_override(&present("+12")), Some(12));
    assert_eq!(parse_override(&present("4294967295")), Some(u32::MAX));
    assert_eq!(parse_override(&present("4294967296")), None);
    assert_eq!(parse_override(&present("")), None);
    assert_eq!(parse_override(&present(" 12")), None);
    assert_eq!(parse_override(&present("-1")), None);
    assert_eq!(parse_override(&EnvRead::NotPresent), None);
    assert_eq!(parse_override(&EnvRead::Unreadable), None);
}

#[test]
fn network_height_holds_without_an_override() {
    let mut overrides = ActivationOverrides::new();
    assert_eq!(
        sapling_activation_height(&mut overrides, &EnvRead::NotPresent, Some(419_200)),
        419_200
    );
    assert_eq!(
        orchard_activation_height(&mut overrides, &EnvRead::NotPresent, Some(1_687_104)),
        1_687_104
    );
}

#[test]
fn override_goes_before_the_network() {
    let mut overrides = ActivationOverrides::new();
    assert_eq!(
        set_sapling_activation_height(&mut overrides, 3, &EnvRead::NotPresent),
        SetOutcome::InForce
    );
    assert_eq!(
        sapling_activation_height(&mut overrides, &present("9"), Some(419_200)),
        3
    );
    assert_eq!(orchard_activation_height(&mut overrides, &present("9"), None), 9);
    assert_eq!(sapling_override(&mut overrides, &EnvRead::NotPresent), Some(3));
    assert_eq!(orchard_override(&mut overrides, &EnvRead::NotPresent), Some(9));
}

#[test]
fn first_height_stays() {
    let mut overrides = ActivationOverrides::new();
    let nothing = EnvRead::NotPresent;
    assert_eq!(
        set_orchard_activation_height(&mut overrides, 5, &nothing),
        SetOutcome::InForce
    );
    assert_eq!(
        set_orchard_activation_height(&mut overrides, 5, &nothing),
        SetOutcome::AlreadyInForce
    );
    assert_eq!(
        set_orchard_activation_height(&mut overrides, 6, &nothing),
        SetOutcome::ManualKept { existing: 5 }
    );
    assert_eq!(orchard_override(&mut overrides, &nothing), Some(5));
    assert_eq!(sapling_override(&mut overrides, &nothing), None);
}

#[test]
fn environment_goes_before_a_later_call() {
    let mut overrides = ActivationOverrides::new();
    assert_eq!(
        set_sapling_activation_height(&mut overrides, 5, &present("7")),
        SetOutcome::EnvironmentKept { env_height: 7 }
    );
    assert_eq!(
        set_sapling_activation_height(&mut overrides, 7, &EnvRead::NotPresent),
        SetOutcome::AlreadyInForce
    );
    assert_eq!(sapling_override(&mut overrides, &present("8")), Some(7));
}

#[test]
fn environment_is_read_once() {
    let mut state = HeightOverride::new();
    assert!(state.needs_environment());
    assert_eq!(state.current(&EnvRead::NotPresent), None);
    assert!(!state.needs_environment());
    assert_eq!(state.current(&present("7")), None);
    assert_eq!(state.set(4, &present("7")), SetOutcome::InForce);
    assert_eq!(state.current(&present("7")), Some(4));
}

#[test]
fn variables_have_their_names() {
    assert_eq!(sapling_variable(), "ZINGO_SAPLING_ACTIVATION_HEIGHT");
    assert_eq!(orchard_variable(), "ZINGO_ORCHARD_ACTIVATION_HEIGHT");
}
