use notebot::permissions::{is_flag_set, PermissionsMut, PermissionsProvider};
use notebot::snowflake::{Snowflake, DISCORD_EPOCH};

#[test]
fn flags_read_back_after_being_set() {
    let mut p = PermissionsMut::new();
    assert_eq!(p.number(), 0);
    p.allow_to_kick_members();
    p.allow_to_speak();
    let frozen = p.freeze();
    assert!(frozen.allowed_to_kick_members());
    assert!(frozen.allowed_to_speak());
    assert!(!frozen.allowed_to_ban_members());
    assert!(!frozen.allowed_to_administrator());
    assert_eq!(frozen.number(), (1 << 1) | (1 << 21));
}

#[test]
fn high_flags_use_the_wide_bits() {
    let mut p = PermissionsMut::new();
    p.allow_to_moderate_members();
    assert_eq!(p.number(), 1i64 << 40);
    assert!(p.allowed_to_moderate_members());
    assert!(!p.allowed_to_request_to_speak());
}

#[test]
fn number_string_is_the_decimal_of_the_bits() {
    let mut p = PermissionsMut::new();
    assert_eq!(p.number_string(), "0");
    p.allow_to_kick_members();
    assert_eq!(p.number_string(), "2");
    p.allow_to_create_instant_invite();
    assert_eq!(p.freeze().number_string(), "3");
}

#[test]
fn is_flag_set_checks_one_bit() {
    assert!(is_flag_set(0b100, 2));
    assert!(!is_flag_set(0b100, 1));
    assert!(is_flag_set(-1, 0));
}

#[test]
fn snowflake_timestamp_round_trip() {
    let millis = DISCORD_EPOCH + 1234567;
    let id = Snowflake::from_timestamp_millis(millis);
    assert_eq!(id.timestamp_millis(), millis);
    assert_eq!(Snowflake::zero().timestamp_millis(), DISCORD_EPOCH);
}

#[test]
fn snowflake_low_bit_fields() {
    let id = Snowflake::new(0xABC);
    assert_eq!(id.increment(), 0xABC);
    assert_eq!(id.ipid(), 0);
    assert_eq!(id.iwid(), 0);
    assert_eq!(Snowflake::default().value(), 0);
}

#[test]
fn snowflake_parses_and_formats_decimal() {
    let id = Snowflake::parse("90210").expect("parse");
    assert_eq!(id.value(), 90210);
    assert_eq!(id.decimal_string(), "90210");
    assert_eq!(Snowflake::parse("-42").map(|s| s.value()), Some(-42));
    assert!(Snowflake::parse("not an id").is_none());
    assert!(Snowflake::parse("9223372036854775808").is_none());
}
