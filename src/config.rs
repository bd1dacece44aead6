//! Startup configuration: settings arrive as text and are coerced on use.
use vstd::prelude::*;

verus! {

pub open spec fn all_digits(s: Seq<char>) -> bool {
    forall|i: int| 0 <= i < s.len() ==> '0' <= #[trigger] s[i] <= '9'
}

/// The value of a string of decimal digits.
pub open spec fn digits_value(s: Seq<char>) -> nat
    decreases s.len(),
{
    if s.len() == 0 {
        0
    } else {
        digits_value(s.drop_last()) * 10 + (s.last() as nat - '0' as nat) as nat
    }
}

/// What std's integer parsing reads from `s` for an unsigned type whose
/// largest value is `max`: an optional `+`, then one or more ASCII digits.
pub open spec fn parsed_unsigned(s: Seq<char>, max: nat) -> Option<nat> {
    let d = if s.len() > 0 && s[0] == '+' {
        s.subrange(1, s.len() as int)
    } else {
        s
    };
    if d.len() > 0 && all_digits(d) && digits_value(d) <= max {
        Some(digits_value(d))
    } else {
        None
    }
}

/// Relies on std's `str::parse::<u16>`: an optional `+` and decimal digits
/// whose value fits, and nothing else, is accepted.
#[verifier::external_body]
fn parse_u16(s: &str) -> (r: Option<u16>)
    ensures
        r matches Some(v) ==> parsed_unsigned(s@, 0xffff) == Some(v as nat),
        r is None ==> parsed_unsigned(s@, 0xffff) is None,
{
    s.parse::<u16>().ok()
}

/// Relies on std's `str::parse::<u32>`: an optional `+` and decimal digits
/// whose value fits, and nothing else, is accepted.
#[verifier::external_body]
fn parse_u32(s: &str) -> (r: Option<u32>)
    ensures
        r matches Some(v) ==> parsed_unsigned(s@, 0xffff_ffff) == Some(v as nat),
        r is None ==> parsed_unsigned(s@, 0xffff_ffff) is None,
{
    s.parse::<u32>().ok()
}

pub const DEFAULT_SMTP_HOST: &'static str = "smtp.gmail.com";
pub const DEFAULT_SMTP_PORT: &'static str = "587";
pub const DEFAULT_JWT_SECRET: &'static str = "dev-secret";
pub const DEFAULT_API_BASE_URL: &'static str = "http://localhost:8000";
pub const DEFAULT_ADMIN_EMAIL: &'static str = "admin@localhost";
pub const DEFAULT_RATE_LIMIT: &'static str = "60";

pub open spec fn setting_or(v: Option<String>, default: Seq<char>) -> Seq<char> {
    match v {
        Some(s) => s@,
        None => default,
    }
}

fn take_or(v: Option<String>, default: &str) -> (r: String)
    ensures
        r@ == setting_or(v, default@),
{
    match v {
        Some(s) => s,
        None => String::from_str(default),
    }
}

/// Settings of the service, each held as the text it was given in.
#[derive(Debug, Clone)]
pub struct Config {
    pub smtp_username: String,
    pub smtp_password: String,
    pub smtp_host: String,
    pub smtp_port: String,
    pub jwt_secret: String,
    pub api_base_url: String,
    pub admin_email: String,
    pub rate_limit_requests_per_minute: String,
}

impl Config {
    /// Builds the configuration from looked-up settings, putting the
    /// documented default in place of each one that is absent.
    pub fn from_settings(
        smtp_username: Option<String>,
        smtp_password: Option<String>,
        smtp_host: Option<String>,
        smtp_port: Option<String>,
        jwt_secret: Option<String>,
        api_base_url: Option<String>,
        admin_email: Option<String>,
        rate_limit_requests_per_minute: Option<String>,
    ) -> (r: Config)
        ensures
            r.smtp_username@ == setting_or(smtp_username, ""@),
            r.smtp_password@ == setting_or(smtp_password, ""@),
            r.smtp_host@ == setting_or(smtp_host, DEFAULT_SMTP_HOST@),
            r.smtp_port@ == setting_or(smtp_port, DEFAULT_SMTP_PORT@),
            r.jwt_secret@ == setting_or(jwt_secret, DEFAULT_JWT_SECRET@),
            r.api_base_url@ == setting_or(api_base_url, DEFAULT_API_BASE_URL@),
            r.admin_email@ == setting_or(admin_email, DEFAULT_ADMIN_EMAIL@),
            r.rate_limit_requests_per_minute@ == setting_or(
                rate_limit_requests_per_minute,
                DEFAULT_RATE_LIMIT@,
            ),
    {
        Config {
            smtp_username: take_or(smtp_username, ""),
            smtp_password: take_or(smtp_password, ""),
            smtp_host: take_or(smtp_host, DEFAULT_SMTP_HOST),
            smtp_port: take_or(smtp_port, DEFAULT_SMTP_PORT),
            jwt_secret: take_or(jwt_secret, DEFAULT_JWT_SECRET),
            api_base_url: take_or(api_base_url, DEFAULT_API_BASE_URL),
            admin_email: take_or(admin_email, DEFAULT_ADMIN_EMAIL),
            rate_limit_requests_per_minute: take_or(
                rate_limit_requests_per_minute,
                DEFAULT_RATE_LIMIT,
            ),
        }
    }

    /// The SMTP port as a number; 587 when the setting is not one.
    pub fn smtp_port_as_u16(&self) -> (r: u16)
        ensures
            r as nat == match parsed_unsigned(self.smtp_port@, 0xffff) {
                Some(v) => v,
                None => 587,
            },
    {
        match parse_u16(self.smtp_port.as_str()) {
            Some(v) => v,
            None => 587,
        }
    }

    /// The request budget per minute as a number; 60 when the setting is not one.
    pub fn rate_limit_as_u32(&self) -> (r: u32)
        ensures
            r as nat == match parsed_unsigned(self.rate_limit_requests_per_minute@, 0xffff_ffff) {
                Some(v) => v,
                None => 60,
            },
    {
        match parse_u32(self.rate_limit_requests_per_minute.as_str()) {
            Some(v) => v,
            None => 60,
        }
    }
}

} // verus!
