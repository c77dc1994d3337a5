//! Startup configuration: validates the values the environment supplies and
//! assembles them into one typed record.

use vstd::prelude::*;
use crate::authorization::{ed25519_valid_key, hex_decoded, is_hex_string};
use crate::authorization;
use crate::decimal;
use crate::snowflake::Snowflake;

verus! {

// The environment keys each value is read from.
pub const DISCORD_TOKEN: &'static str = "DISCORD_TOKEN";

pub const LISTEN_ADDRESS: &'static str = "LISTEN";

pub const PORT: &'static str = "PORT";

pub const PERMISSIONS: &'static str = "PERMISSIONS_INTEGER";

pub const DISCORD_BASE_URL: &'static str = "BASE_URL";

pub const CLIENT_ID: &'static str = "CLID";

pub const BOT_URL: &'static str = "URL";

pub const PUBLIC_KEY: &'static str = "PUBLIC_KEY";

pub const STORAGE_PATH: &'static str = "STORAGE_PATH";

/// Why configuration loading was refused.
#[derive(Debug)]
pub enum ConfigLoadError {
    InvalidValue { field_name: &'static str, expected: &'static str },
    MissingRequired { field_name: &'static str },
}

/// Everything the service needs at startup. The verification key is held as
/// its raw bytes, already checked to name a well-formed key.
#[derive(Debug)]
pub struct BotConfig {
    pub token: String,
    pub socket_addr: (String, u16),
    pub intent_bits: u64,
    pub app_id: Snowflake,
    pub bot_url: String,
    pub base_url: String,
    pub public_key: Vec<u8>,
    pub storage_path: String,
}

/// An absent port falls back to a default; a present one must be a decimal
/// `u16`.
pub open spec fn port_valid(port: Option<String>) -> bool {
    match port {
        None => true,
        Some(p) => decimal::is_u64_string(p@) && decimal::digits_value(
            decimal::unsigned_body(p@),
        ) <= 65535,
    }
}

pub open spec fn permissions_valid(v: Option<String>) -> bool {
    v matches Some(s) && decimal::is_u64_string(s@)
}

pub open spec fn client_id_valid(v: Option<String>) -> bool {
    v matches Some(s) && decimal::is_i64_string(s@)
}

/// A present, well-formed hex string naming a well-formed public key.
pub open spec fn public_key_valid(v: Option<String>) -> bool {
    v matches Some(s) && is_hex_string(s@) && ed25519_valid_key(hex_decoded(s@))
}

impl BotConfig {
    /// Validates the raw environment values and assembles the
    /// configuration. Each absent required value is refused as
    /// `MissingRequired`, each malformed one as `InvalidValue`, checked in
    /// the order the clauses below give; listen address, port and base url
    /// have defaults.
    pub fn from_values(
        token: Option<String>,
        listen_address: Option<String>,
        port: Option<String>,
        permissions_integer: Option<String>,
        base_url: Option<String>,
        client_id: Option<String>,
        bot_url: Option<String>,
        public_key: Option<String>,
        storage_path: Option<String>,
    ) -> (r: Result<BotConfig, ConfigLoadError>)
        ensures
            r is Ok <==> {
                &&& token is Some
                &&& port_valid(port)
                &&& permissions_valid(permissions_integer)
                &&& client_id_valid(client_id)
                &&& bot_url is Some
                &&& public_key_valid(public_key)
                &&& storage_path is Some
            },
            r matches Ok(c) ==> {
                &&& token matches Some(t) && c.token == t
                &&& c.socket_addr.0@ == (match listen_address {
                    Some(l) => l@,
                    None => "127.0.0.1"@,
                })
                &&& c.socket_addr.1 as int == (match port {
                    Some(p) => decimal::digits_value(decimal::unsigned_body(p@)),
                    None => 8080,
                })
                &&& permissions_integer matches Some(s) && c.intent_bits as int
                    == decimal::digits_value(decimal::unsigned_body(s@))
                &&& client_id matches Some(s) && c.app_id@ as int == decimal::i64_string_value(s@)
                &&& c.base_url@ == (match base_url {
                    Some(b) => b@,
                    None => "https://discord.com/api"@,
                })
                &&& bot_url matches Some(b) && c.bot_url == b
                &&& public_key matches Some(s) && c.public_key@ == hex_decoded(s@)
                &&& storage_path matches Some(s) && c.storage_path == s
            },
            token is None ==> (r matches Err(ConfigLoadError::MissingRequired { field_name })
                && field_name@ == "DISCORD_TOKEN"@),
            token is Some && !port_valid(port) ==> (r matches Err(
                ConfigLoadError::InvalidValue { field_name, .. },
            ) && field_name@ == "PORT"@),
            token is Some && port_valid(port) && permissions_integer is None ==> (r matches Err(
                ConfigLoadError::MissingRequired { field_name },
            ) && field_name@ == "PERMISSIONS_INTEGER"@),
            token is Some && port_valid(port) && permissions_integer is Some && !permissions_valid(
                permissions_integer,
            ) ==> (r matches Err(ConfigLoadError::InvalidValue { field_name, .. }) && field_name@
                == "PERMISSIONS_INTEGER"@),
            token is Some && port_valid(port) && permissions_valid(permissions_integer)
                && client_id is None ==> (r matches Err(
                ConfigLoadError::MissingRequired { field_name },
            ) && field_name@ == "CLID"@),
            token is Some && port_valid(port) && permissions_valid(permissions_integer)
                && client_id is Some && !client_id_valid(client_id) ==> (r matches Err(
                ConfigLoadError::InvalidValue { field_name, .. },
            ) && field_name@ == "CLID"@),
            token is Some && port_valid(port) && permissions_valid(permissions_integer)
                && client_id_valid(client_id) && bot_url is None ==> (r matches Err(
                ConfigLoadError::MissingRequired { field_name },
            ) && field_name@ == "URL"@),
            token is Some && port_valid(port) && permissions_valid(permissions_integer)
                && client_id_valid(client_id) && bot_url is Some && public_key is None
                ==> (r matches Err(ConfigLoadError::MissingRequired { field_name }) && field_name@
                == "PUBLIC_KEY"@),
            token is Some && port_valid(port) && permissions_valid(permissions_integer)
                && client_id_valid(client_id) && bot_url is Some && public_key is Some
                && !public_key_valid(public_key) ==> (r matches Err(
                ConfigLoadError::InvalidValue { field_name, .. },
            ) && field_name@ == "PUBLIC_KEY"@),
            token is Some && port_valid(port) && permissions_valid(permissions_integer)
                && client_id_valid(client_id) && bot_url is Some && public_key_valid(public_key)
                && storage_path is None ==> (r matches Err(
                ConfigLoadError::MissingRequired { field_name },
            ) && field_name@ == "STORAGE_PATH"@),
    {
        let token = match token {
            Some(t) => t,
            None => {
                return Err(ConfigLoadError::MissingRequired { field_name: DISCORD_TOKEN });
            },
        };
        let listen_addr = match listen_address {
            Some(l) => l,
            None => "127.0.0.1".to_owned(),
        };
        let port_number: u16 = match port {
            None => 8080,
            Some(p) => {
                let parsed = decimal::parse_u64(p.as_str());
                match parsed {
                    Some(v) => {
                        if v <= 65535 {
                            v as u16
                        } else {
                            return Err(ConfigLoadError::InvalidValue {
                                field_name: PORT,
                                expected: "Integer in range 0..u16::MAX",
                            });
                        }
                    },
                    None => {
                        return Err(ConfigLoadError::InvalidValue {
                            field_name: PORT,
                            expected: "Integer in range 0..u16::MAX",
                        });
                    },
                }
            },
        };
        let intent_bits: u64 = match permissions_integer {
            None => {
                return Err(ConfigLoadError::MissingRequired { field_name: PERMISSIONS });
            },
            Some(s) => {
                match decimal::parse_u64(s.as_str()) {
                    Some(v) => v,
                    None => {
                        return Err(ConfigLoadError::InvalidValue {
                            field_name: PERMISSIONS,
                            expected: "Integer in range 0..u64::MAX",
                        });
                    },
                }
            },
        };
        let base_url = match base_url {
            Some(b) => b,
            None => "https://discord.com/api".to_owned(),
        };
        let app_id = match client_id {
            None => {
                return Err(ConfigLoadError::MissingRequired { field_name: CLIENT_ID });
            },
            Some(s) => {
                match Snowflake::parse(s.as_str()) {
                    Some(id) => id,
                    None => {
                        return Err(ConfigLoadError::InvalidValue {
                            field_name: CLIENT_ID,
                            expected: "Valid snowflake id of app",
                        });
                    },
                }
            },
        };
        let bot_url = match bot_url {
            Some(b) => b,
            None => {
                return Err(ConfigLoadError::MissingRequired { field_name: BOT_URL });
            },
        };
        let public_key = match public_key {
            None => {
                return Err(ConfigLoadError::MissingRequired { field_name: PUBLIC_KEY });
            },
            Some(text) => {
                let bytes = match authorization::decode_hex(text.as_str()) {
                    Some(b) => b,
                    None => {
                        return Err(ConfigLoadError::InvalidValue {
                            field_name: PUBLIC_KEY,
                            expected: "Valid ed25519 public key obtained from Discord",
                        });
                    },
                };
                if !authorization::public_key_is_valid(&bytes) {
                    return Err(ConfigLoadError::InvalidValue {
                        field_name: PUBLIC_KEY,
                        expected: "Valid ed25519 public key obtained from Discord",
                    });
                }
                bytes
            },
        };
        let storage_path = match storage_path {
            Some(s) => s,
            None => {
                return Err(ConfigLoadError::MissingRequired { field_name: STORAGE_PATH });
            },
        };
        Ok(
            BotConfig {
                token,
                socket_addr: (listen_addr, port_number),
                intent_bits,
                base_url,
                app_id,
                bot_url,
                public_key,
                storage_path,
            },
        )
    }
}

} // verus!
