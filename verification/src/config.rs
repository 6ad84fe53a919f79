//! The settings of the service, each read from a variable of the environment
//! with a default for a variable that is unset or cannot be read.

use vstd::prelude::*;
use vstd::string::StringExecFns;

use crate::text::{parse_decimal, parsed};

verus! {

/// The default for the highest cost limit that a submission may ask for.
pub const DEFAULT_MAX_COST: u64 = 1_000_000_000;

/// The default for the highest memory limit, in MB, that a submission may ask for.
pub const DEFAULT_MAX_MEMORY: u32 = 4096;

/// The default port of the server.
pub const DEFAULT_PORT: u16 = 33000;

/// The number that a setting stands for: the variable's value where it is set
/// and is a decimal number of at most `max`, else the default.
pub open spec fn setting_or(setting: Option<String>, max: nat, default: nat) -> nat {
    match setting {
        Some(text) => match parsed(text@, max) {
            Some(number) => number,
            None => default,
        },
        None => default,
    }
}

/// The highest cost limit that a submission may ask for, from the value of the
/// variable `MAX_COST`.
pub fn max_cost(setting: Option<String>) -> (limit: u64)
    ensures
        limit == setting_or(setting, u64::MAX as nat, DEFAULT_MAX_COST as nat),
{
    match setting {
        Some(text) => match parse_decimal(text.as_str(), u64::MAX) {
            Some(number) => number,
            None => DEFAULT_MAX_COST,
        },
        None => DEFAULT_MAX_COST,
    }
}

/// The highest memory limit that a submission may ask for, from the value of the
/// variable `MAX_MEMORY`.
pub fn max_memory(setting: Option<String>) -> (limit: u32)
    ensures
        limit == setting_or(setting, u32::MAX as nat, DEFAULT_MAX_MEMORY as nat),
{
    match setting {
        Some(text) => match parse_decimal(text.as_str(), 0xffff_ffff) {
            Some(number) => number as u32,
            None => DEFAULT_MAX_MEMORY,
        },
        None => DEFAULT_MAX_MEMORY,
    }
}

/// The port of the server, from the value of the variable `PORT`.
pub fn server_port(setting: Option<String>) -> (port: u16)
    ensures
        port == setting_or(setting, u16::MAX as nat, DEFAULT_PORT as nat),
{
    match setting {
        Some(text) => match parse_decimal(text.as_str(), 0xffff) {
            Some(number) => number as u16,
            None => DEFAULT_PORT,
        },
        None => DEFAULT_PORT,
    }
}

/// The secret of the application, from the value of the variable `APP_SECRET`.
pub fn app_secret(setting: Option<String>) -> (secret: String)
    ensures
        secret@ == match setting {
            Some(text) => text@,
            None => "APP_SECRET"@,
        },
{
    match setting {
        Some(text) => text,
        None => String::from_str("APP_SECRET"),
    }
}

} // verus!
