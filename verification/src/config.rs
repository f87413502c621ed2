//! Settings of one running service. Reading them from the environment is the
//! caller's part; the library only holds them.

use vstd::prelude::*;
use crate::text::{
    chars_of, decimal_digits, decimal_u64, parsed_signed, parsed_unsigned, read_signed,
    read_unsigned, same_text,
};

verus! {

/// Lifetime of an access token where the environment names none: 15 minutes.
pub const DEFAULT_ACCESS_TTL_SECS: i64 = 900;

/// Lifetime of a refresh token where the environment names none: 7 days.
pub const DEFAULT_REFRESH_TTL_SECS: i64 = 604800;

/// Lifetime of a demo session where the environment names none: 2 hours.
pub const DEFAULT_DEMO_TTL_SECS: i64 = 7200;

/// The settings of a running service.
#[derive(Debug, Clone)]
pub struct Config {
    pub database_url: String,
    pub host: String,
    pub port: u16,
    pub frontend_url: String,
    /// The one shared secret that signs every token.
    pub jwt_secret: String,
    pub jwt_access_ttl_secs: i64,
    pub jwt_refresh_ttl_secs: i64,
    pub stripe_secret_key: String,
    pub stripe_webhook_secret: String,
    pub claude_api_key: String,
    /// Name of the language model that writes insights; where it is empty
    /// no model is asked.
    pub claude_model: String,
    pub sentry_dsn: Option<String>,
    pub try_me_enabled: bool,
    pub demo_ttl_secs: i64,
    pub demo_max_insight_calls: i32,
}

impl Config {
    /// Host and port joined by a colon.
    pub open spec fn listen_addr_of(self) -> Seq<char> {
        self.host@ + seq![':'] + decimal_digits(self.port as nat)
    }

    /// The address to bind the listener to.
    pub fn listen_addr(&self) -> (addr: String)
        ensures
            addr@ == self.listen_addr_of(),
    {
        proof {
            reveal_strlit(":");
        }
        let port = decimal_u64(self.port as u64);
        let addr = self.host.clone().concat(":").concat(port.as_str());
        assert(addr@ =~= self.listen_addr_of());
        addr
    }
}

/// The settings as the environment gives them: each variable's text, or
/// nothing where it is not set.
#[derive(Debug)]
pub struct ConfigSource {
    pub database_url: Option<String>,
    pub host: Option<String>,
    pub port: Option<String>,
    pub frontend_url: Option<String>,
    pub jwt_secret: Option<String>,
    pub jwt_access_ttl_secs: Option<String>,
    pub jwt_refresh_ttl_secs: Option<String>,
    pub stripe_secret_key: Option<String>,
    pub stripe_webhook_secret: Option<String>,
    pub claude_api_key: Option<String>,
    pub claude_model: Option<String>,
    pub sentry_dsn: Option<String>,
    pub try_me_enabled: Option<String>,
    pub demo_ttl_secs: Option<String>,
    pub demo_max_insight_calls: Option<String>,
}

/// What an optional string stands for in contracts.
pub open spec fn given(value: Option<String>) -> Option<Seq<char>> {
    match value {
        Some(s) => Some(s@),
        None => None,
    }
}

/// The text of a setting, or its default where it is not set.
pub open spec fn text_or(value: Option<String>, default: Seq<char>) -> Seq<char> {
    match value {
        Some(s) => s@,
        None => default,
    }
}

/// A setting that has to be a number where it is set: the number it writes,
/// the default where it is not set, and nothing where it writes none.
pub open spec fn number_or(value: Option<String>, default: int, max: nat) -> Option<int> {
    match value {
        Some(s) => parsed_signed(s@, max),
        None => Some(default),
    }
}

/// A setting that falls back to its default also where it writes no number.
pub open spec fn lenient_number(value: Option<String>, default: int, max: nat) -> int {
    match number_or(value, default, max) {
        Some(n) => n,
        None => default,
    }
}

/// The port: an unsigned 16-bit number, 8080 where none is set.
pub open spec fn port_of(value: Option<String>) -> Option<int> {
    match value {
        Some(s) => match parsed_unsigned(s@, u16::MAX as nat) {
            Some(n) => Some(n as int),
            None => None,
        },
        None => Some(8080),
    }
}

/// A switch is on unless it is set to `false`.
pub open spec fn switch_of(value: Option<String>) -> bool {
    match value {
        Some(s) => s@ != "false"@,
        None => true,
    }
}

/// An optional setting counts as not set where it is empty.
pub open spec fn non_empty(value: Option<String>) -> Option<Seq<char>> {
    match value {
        Some(s) => if s@.len() == 0 {
            None
        } else {
            Some(s@)
        },
        None => None,
    }
}

/// What is missing or malformed in a source, if anything is: the first of
/// the database address, the port, the signing secret and the two token
/// lifetimes.
pub open spec fn source_fault(source: ConfigSource) -> Option<Seq<char>> {
    if source.database_url is None {
        Some("DATABASE_URL must be set"@)
    } else if port_of(source.port) is None {
        Some("PORT must be a number"@)
    } else if source.jwt_secret is None {
        Some("JWT_SECRET must be set"@)
    } else if number_or(source.jwt_access_ttl_secs, DEFAULT_ACCESS_TTL_SECS as int, i64::MAX as nat) is None {
        Some("JWT_ACCESS_TTL_SECS must be a number"@)
    } else if number_or(source.jwt_refresh_ttl_secs, DEFAULT_REFRESH_TTL_SECS as int, i64::MAX as nat) is None {
        Some("JWT_REFRESH_TTL_SECS must be a number"@)
    } else {
        None
    }
}

/// The settings that a source without fault yields.
pub open spec fn settings_match(config: Config, source: ConfigSource) -> bool {
    &&& Some(config.database_url@) == given(source.database_url)
    &&& config.host@ == text_or(source.host, "0.0.0.0"@)
    &&& Some(config.port as int) == port_of(source.port)
    &&& config.frontend_url@ == text_or(source.frontend_url, "http://localhost:3000"@)
    &&& Some(config.jwt_secret@) == given(source.jwt_secret)
    &&& Some(config.jwt_access_ttl_secs as int) == number_or(
        source.jwt_access_ttl_secs,
        DEFAULT_ACCESS_TTL_SECS as int,
        i64::MAX as nat,
    )
    &&& Some(config.jwt_refresh_ttl_secs as int) == number_or(
        source.jwt_refresh_ttl_secs,
        DEFAULT_REFRESH_TTL_SECS as int,
        i64::MAX as nat,
    )
    &&& config.stripe_secret_key@ == text_or(source.stripe_secret_key, Seq::empty())
    &&& config.stripe_webhook_secret@ == text_or(source.stripe_webhook_secret, Seq::empty())
    &&& config.claude_api_key@ == text_or(source.claude_api_key, Seq::empty())
    &&& config.claude_model@ == text_or(source.claude_model, Seq::empty())
    &&& given(config.sentry_dsn) == non_empty(source.sentry_dsn)
    &&& config.try_me_enabled == switch_of(source.try_me_enabled)
    &&& config.demo_ttl_secs == lenient_number(source.demo_ttl_secs, DEFAULT_DEMO_TTL_SECS as int, i64::MAX as nat)
    &&& config.demo_max_insight_calls == lenient_number(source.demo_max_insight_calls, 2, i32::MAX as nat)
}

fn or_default(value: Option<String>, default: &str) -> (text: String)
    ensures
        text@ == text_or(value, default@),
{
    match value {
        Some(s) => s,
        None => default.to_owned(),
    }
}

fn signed_setting(value: &Option<String>, default: i64, max: u128) -> (number: Option<i64>)
    requires
        max <= i64::MAX,
    ensures
        match number_or(*value, default as int, max as nat) {
            Some(n) => number == Some(n as i64),
            None => number is None,
        },
{
    match value {
        Some(s) => {
            let digits = chars_of(s.as_str());
            match read_signed(&digits, max) {
                Some(n) => Some(n as i64),
                None => None,
            }
        },
        None => Some(default),
    }
}

impl Config {
    /// Builds the settings from what the environment gives. The database
    /// address and the signing secret have to be set; the port and the two
    /// token lifetimes have to be numbers where they are set; every other
    /// setting falls back to its default.
    pub fn from_values(source: ConfigSource) -> (outcome: Result<Config, String>)
        ensures
            match source_fault(source) {
                Some(text) => outcome matches Err(e) && e@ == text,
                None => outcome matches Ok(config) && settings_match(config, source),
            },
    {
        proof {
            reveal_strlit("");
            assert(""@ =~= Seq::<char>::empty());
        }
        let database_url = match source.database_url {
            Some(s) => s,
            None => {
                return Err("DATABASE_URL must be set".to_owned());
            },
        };
        let port: u16 = match &source.port {
            Some(s) => {
                let digits = chars_of(s.as_str());
                match read_unsigned(&digits, 65535u128) {
                    Some(n) => n as u16,
                    None => {
                        return Err("PORT must be a number".to_owned());
                    },
                }
            },
            None => 8080,
        };
        let jwt_secret = match source.jwt_secret {
            Some(s) => s,
            None => {
                return Err("JWT_SECRET must be set".to_owned());
            },
        };
        let jwt_access_ttl_secs = match signed_setting(
            &source.jwt_access_ttl_secs,
            DEFAULT_ACCESS_TTL_SECS,
            9223372036854775807u128,
        ) {
            Some(n) => n,
            None => {
                return Err("JWT_ACCESS_TTL_SECS must be a number".to_owned());
            },
        };
        let jwt_refresh_ttl_secs = match signed_setting(
            &source.jwt_refresh_ttl_secs,
            DEFAULT_REFRESH_TTL_SECS,
            9223372036854775807u128,
        ) {
            Some(n) => n,
            None => {
                return Err("JWT_REFRESH_TTL_SECS must be a number".to_owned());
            },
        };
        let demo_ttl_secs = match signed_setting(
            &source.demo_ttl_secs,
            DEFAULT_DEMO_TTL_SECS,
            9223372036854775807u128,
        ) {
            Some(n) => n,
            None => DEFAULT_DEMO_TTL_SECS,
        };
        let demo_max_insight_calls: i32 = match signed_setting(
            &source.demo_max_insight_calls,
            2,
            2147483647u128,
        ) {
            Some(n) => n as i32,
            None => 2,
        };
        let try_me_enabled = match &source.try_me_enabled {
            Some(s) => !same_text(s.as_str(), "false"),
            None => true,
        };
        let sentry_dsn = match source.sentry_dsn {
            Some(s) => if s.as_str().is_empty() {
                None
            } else {
                Some(s)
            },
            None => None,
        };
        Ok(
            Config {
                database_url,
                host: or_default(source.host, "0.0.0.0"),
                port,
                frontend_url: or_default(source.frontend_url, "http://localhost:3000"),
                jwt_secret,
                jwt_access_ttl_secs,
                jwt_refresh_ttl_secs,
                stripe_secret_key: or_default(source.stripe_secret_key, ""),
                stripe_webhook_secret: or_default(source.stripe_webhook_secret, ""),
                claude_api_key: or_default(source.claude_api_key, ""),
                claude_model: or_default(source.claude_model, ""),
                sentry_dsn,
                try_me_enabled,
                demo_ttl_secs,
                demo_max_insight_calls,
            },
        )
    }
}

} // verus!
