use ed25519_dalek::{PublicKey, SecretKey};
use notebot::configuration::{BotConfig, ConfigLoadError};

fn valid_key_hex() -> String {
    let secret = SecretKey::from_bytes(&[3u8; 32]).expect("secret key");
    let public = PublicKey::from(&secret);
    let mut s = String::new();
    for b in public.to_bytes() {
        s.push_str(&format!("{:02x}", b));
    }
    s
}

fn full_values() -> (
    Option<String>,
    Option<String>,
    Option<String>,
    Option<String>,
    Option<String>,
    Option<String>,
    Option<String>,
    Option<String>,
    Option<String>,
) {
    (
        Some("the-bot-token".to_string()),
        Some("0.0.0.0".to_string()),
        Some("9000".to_string()),
        Some("277025508352".to_string()),
        Some("https://example.invalid/api".to_string()),
        Some("1019061481475354644".to_string()),
        Some("https://bot.example.invalid".to_string()),
        Some(valid_key_hex()),
        Some("/tmp/notebot_config_store".to_string()),
    )
}

#[test]
fn all_values_present_build_the_config() {
    let (t, l, p, perm, base, clid, url, key, path) = full_values();
    let c = BotConfig::from_values(t, l, p, perm, base, clid, url, key, path).expect("config");
    assert_eq!(c.token, "the-bot-token");
    assert_eq!(c.socket_addr.0, "0.0.0.0");
    assert_eq!(c.socket_addr.1, 9000);
    assert_eq!(c.intent_bits, 277025508352);
    assert_eq!(c.app_id.value(), 1019061481475354644);
    assert_eq!(c.base_url, "https://example.invalid/api");
    assert_eq!(c.bot_url, "https://bot.example.invalid");
    assert_eq!(c.public_key.len(), 32);
    assert_eq!(c.storage_path, "/tmp/notebot_config_store");
}

#[test]
fn listen_port_and_base_url_have_defaults() {
    let (t, _, _, perm, _, clid, url, key, path) = full_values();
    let c = BotConfig::from_values(t, None, None, perm, None, clid, url, key, path)
        .expect("config");
    assert_eq!(c.socket_addr.0, "127.0.0.1");
    assert_eq!(c.socket_addr.1, 8080);
    assert_eq!(c.base_url, "https://discord.com/api");
}

#[test]
fn missing_token_is_refused_first() {
    let (_, l, p, perm, base, clid, url, key, path) = full_values();
    let e = BotConfig::from_values(None, l, p, perm, base, clid, url, key, path).unwrap_err();
    match e {
        ConfigLoadError::MissingRequired { field_name } => {
            assert_eq!(field_name, "DISCORD_TOKEN")
        }
        other => panic!("unexpected error: {:?}", other),
    }
}

#[test]
fn a_malformed_port_is_refused() {
    let (t, l, _, perm, base, clid, url, key, path) = full_values();
    let e = BotConfig::from_values(t, l, Some("eighty".to_string()), perm, base, clid, url, key, path)
        .unwrap_err();
    match e {
        ConfigLoadError::InvalidValue { field_name, .. } => assert_eq!(field_name, "PORT"),
        other => panic!("unexpected error: {:?}", other),
    }
    let (t, l, _, perm, base, clid, url, key, path) = full_values();
    let e = BotConfig::from_values(t, l, Some("65536".to_string()), perm, base, clid, url, key, path)
        .unwrap_err();
    assert!(matches!(e, ConfigLoadError::InvalidValue { field_name: "PORT", .. }));
}

#[test]
fn a_malformed_public_key_is_refused() {
    // not hex at all
    let (t, l, p, perm, base, clid, url, _, path) = full_values();
    let e = BotConfig::from_values(t, l, p, perm, base, clid, url, Some("zz".to_string()), path)
        .unwrap_err();
    assert!(matches!(e, ConfigLoadError::InvalidValue { field_name: "PUBLIC_KEY", .. }));
    // valid hex, wrong length for a key
    let (t, l, p, perm, base, clid, url, _, path) = full_values();
    let e = BotConfig::from_values(t, l, p, perm, base, clid, url, Some("00ff".to_string()), path)
        .unwrap_err();
    assert!(matches!(e, ConfigLoadError::InvalidValue { field_name: "PUBLIC_KEY", .. }));
}

#[test]
fn missing_required_values_name_their_keys() {
    let (t, l, p, _, base, clid, url, key, path) = full_values();
    let e = BotConfig::from_values(t, l, p, None, base, clid, url, key, path).unwrap_err();
    assert!(matches!(e, ConfigLoadError::MissingRequired { field_name: "PERMISSIONS_INTEGER" }));
    let (t, l, p, perm, base, _, url, key, path) = full_values();
    let e = BotConfig::from_values(t, l, p, perm, base, None, url, key, path).unwrap_err();
    assert!(matches!(e, ConfigLoadError::MissingRequired { field_name: "CLID" }));
    let (t, l, p, perm, base, clid, _, key, path) = full_values();
    let e = BotConfig::from_values(t, l, p, perm, base, clid, None, key, path).unwrap_err();
    assert!(matches!(e, ConfigLoadError::MissingRequired { field_name: "URL" }));
    let (t, l, p, perm, base, clid, url, _, path) = full_values();
    let e = BotConfig::from_values(t, l, p, perm, base, clid, url, None, path).unwrap_err();
    assert!(matches!(e, ConfigLoadError::MissingRequired { field_name: "PUBLIC_KEY" }));
    let (t, l, p, perm, base, clid, url, key, _) = full_values();
    let e = BotConfig::from_values(t, l, p, perm, base, clid, url, key, None).unwrap_err();
    assert!(matches!(e, ConfigLoadError::MissingRequired { field_name: "STORAGE_PATH" }));
}
