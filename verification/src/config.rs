//! Application configuration: the values read from the environment, with
//! their defaults.
use vstd::prelude::*;

use crate::accounts_csv::opt_view;
use crate::numeric::{parse_uint, parse_uint_spec};
use crate::text::chars_of;

verus! {

/// The configuration of the application.
pub struct AppConfig {
    pub database_url: String,
    pub jwt_secret: String,
    pub jwt_access_expires_secs: u64,
    pub jwt_refresh_expires_secs: u64,
    pub server_host: String,
    pub server_port: u16,
    pub cors_origin: String,
}

/// The value of a numeric setting: the variable parsed, else the default.
pub open spec fn setting_number(var: Option<Seq<char>>, max: int, default: int) -> int {
    match var {
        Some(v) => match parse_uint_spec(v, max) {
            Some(n) => n,
            None => default,
        },
        None => default,
    }
}

pub open spec fn setting_text(var: Option<Seq<char>>, default: Seq<char>) -> Seq<char> {
    match var {
        Some(v) => v,
        None => default,
    }
}

fn number_or(var: &Option<String>, max: u64, default: u64) -> (r: u64)
    requires
        default <= max,
    ensures
        r == setting_number(opt_view(*var), max as int, default as int),
{
    match var {
        Some(v) => {
            assert(opt_view(*var) == Some(v@));
            match parse_uint(&chars_of(v.as_str()), max) {
                Some(n) => n,
                None => default,
            }
        },
        None => default,
    }
}

fn text_or(var: Option<String>, default: &str) -> (r: String)
    ensures
        r@ == setting_text(opt_view(var), default@),
{
    match var {
        Some(v) => v,
        None => default.to_owned(),
    }
}

impl AppConfig {
    /// The configuration from the environment variables `DATABASE_URL`,
    /// `JWT_SECRET`, `JWT_ACCESS_EXPIRES_SECS`, `JWT_REFRESH_EXPIRES_SECS`,
    /// `SERVER_HOST`, `SERVER_PORT` and `CORS_ORIGIN` (each `None` when
    /// unset). A missing secret is replaced by `random_secret`; a missing or
    /// unreadable number by its default (900 and 604800 seconds, port 3000).
    pub fn from_env_values(
        database_url: Option<String>,
        jwt_secret: Option<String>,
        random_secret: String,
        access_expires: Option<String>,
        refresh_expires: Option<String>,
        server_host: Option<String>,
        server_port: Option<String>,
        cors_origin: Option<String>,
    ) -> (r: AppConfig)
        ensures
            r.database_url@ == setting_text(opt_view(database_url), "sqlite:./hope.db?mode=rwc"@),
            r.jwt_secret@ == setting_text(opt_view(jwt_secret), random_secret@),
            r.jwt_access_expires_secs == setting_number(
                opt_view(access_expires),
                u64::MAX as int,
                900,
            ),
            r.jwt_refresh_expires_secs == setting_number(
                opt_view(refresh_expires),
                u64::MAX as int,
                604800,
            ),
            r.server_host@ == setting_text(opt_view(server_host), "0.0.0.0"@),
            r.server_port == setting_number(opt_view(server_port), u16::MAX as int, 3000),
            r.cors_origin@ == setting_text(opt_view(cors_origin), "http://localhost:5173"@),
    {
        let access = number_or(&access_expires, u64::MAX, 900);
        let refresh = number_or(&refresh_expires, u64::MAX, 604800);
        let port = number_or(&server_port, 65535, 3000);
        let secret = match jwt_secret {
            Some(s) => s,
            None => random_secret,
        };
        AppConfig {
            database_url: text_or(database_url, "sqlite:./hope.db?mode=rwc"),
            jwt_secret: secret,
            jwt_access_expires_secs: access,
            jwt_refresh_expires_secs: refresh,
            server_host: text_or(server_host, "0.0.0.0"),
            server_port: port as u16,
            cors_origin: text_or(cors_origin, "http://localhost:5173"),
        }
    }
}

} // verus!
