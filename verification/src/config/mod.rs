//! The configuration of the process, read once at startup.

use crate::errors::config_error::ConfigError;
use crate::models::{same_text, text_of};
use vstd::prelude::*;

verus! {

/// The settings the service runs with, as the environment gave them. A
/// setting that is not set is `None`; whoever needs it reports that.
#[derive(Clone, Debug, PartialEq, Eq)]
pub struct Config {
    /// `HOST`: the address to listen on.
    pub host: Option<String>,
    /// `DATABASE_URL`: where the store is.
    pub database_url: Option<String>,
    /// `POSTGRES_DB`: the name of the database.
    pub postgres_db: Option<String>,
    /// `JWT_SECRET`: the key that signs tokens.
    pub jwt_secret: Option<String>,
    /// `JWT_EXPIRATION_TIME`: how long a token is valid, in seconds.
    pub jwt_expiration_time: Option<String>,
}

/// The value of the first variable with this name.
pub open spec fn variable(environment: Seq<(String, String)>, name: Seq<char>) -> Option<
    Seq<char>,
>
    decreases environment.len(),
{
    if environment.len() == 0 {
        None
    } else if environment[0].0@ == name {
        Some(environment[0].1@)
    } else {
        variable(environment.skip(1), name)
    }
}

/// The value of a decimal digit.
pub open spec fn digit_value(c: char) -> Option<int> {
    if '0' <= c <= '9' {
        Some(c as int - '0' as int)
    } else {
        None
    }
}

/// The number that a run of decimal digits writes; the empty run writes 0.
pub open spec fn digits_value(digits: Seq<char>) -> Option<int>
    decreases digits.len(),
{
    if digits.len() == 0 {
        Some(0)
    } else {
        match (digits_value(digits.drop_last()), digit_value(digits.last())) {
            (Some(high), Some(low)) => Some(10 * high + low),
            _ => None,
        }
    }
}

/// The integer that a text writes: an optional sign, then one or more
/// decimal digits, and nothing else.
pub open spec fn integer_value(text: Seq<char>) -> Option<int> {
    if text.len() == 0 {
        None
    } else if text[0] == '-' || text[0] == '+' {
        if text.len() == 1 {
            None
        } else {
            match digits_value(text.skip(1)) {
                Some(value) => Some(
                    if text[0] == '-' {
                        -value
                    } else {
                        value
                    },
                ),
                None => None,
            }
        }
    } else {
        digits_value(text)
    }
}

/// The integer that a text writes, if it fits 64 bits.
pub open spec fn integer_of(text: Seq<char>) -> Option<i64> {
    match integer_value(text) {
        Some(value) => if i64::MIN <= value <= i64::MAX {
            Some(value as i64)
        } else {
            None
        },
        None => None,
    }
}

/// A run of digits writes at least what any of its beginnings writes.
proof fn lemma_digits_grow(digits: Seq<char>, shorter: int)
    requires
        0 <= shorter <= digits.len(),
        digits_value(digits) is Some,
    ensures
        digits_value(digits.take(shorter)) matches Some(low) && 0 <= low <= digits_value(
            digits,
        ).unwrap(),
    decreases digits.len(),
{
    if shorter == digits.len() {
        assert(digits.take(shorter) =~= digits);
        if digits.len() > 0 {
            lemma_digits_grow(digits.drop_last(), 0);
        } else {
        }
    } else {
        lemma_digits_grow(digits.drop_last(), shorter);
        assert(digits.drop_last().take(shorter) =~= digits.take(shorter));
    }
}

/// Reads a whole number.
pub fn parse_integer(text: &str) -> (seconds: Option<i64>)
    ensures
        seconds == integer_of(text@),
{
    let length = text.unicode_len();
    if length == 0 {
        return None;
    }
    let first = text.get_char(0);
    let signed = first == '-' || first == '+';
    let start: usize = if signed {
        1
    } else {
        0
    };
    if start == length {
        return None;
    }
    let ghost digits = text@.skip(start as int);
    let mut value: u128 = 0;
    let mut i: usize = start;
    assert(digits.take(0) =~= Seq::<char>::empty());
    while i < length
        invariant
            start <= i <= length,
            length == text@.len(),
            length > 0,
            signed == (text@[0] == '-' || text@[0] == '+'),
            start == (if signed {
                1usize
            } else {
                0usize
            }),
            digits == text@.skip(start as int),
            digits_value(digits.take(i - start)) == Some(value as int),
            value <= 0x8000_0000_0000_0000,
        decreases length - i,
    {
        let c = text.get_char(i);
        proof {
            assert(digits.take(i - start + 1).drop_last() =~= digits.take(i - start));
            assert(digits.take(i - start + 1).last() == c);
        }
        if c < '0' || c > '9' {
            proof {
                if digits_value(digits) is Some {
                    lemma_digits_grow(digits, i - start + 1);
                }
                if !signed {
                    assert(digits =~= text@);
                }
            }
            return None;
        }
        let digit: u128 = (c as u32 - '0' as u32) as u128;
        let larger: u128 = value * 10 + digit;
        if larger > 0x8000_0000_0000_0000 {
            proof {
                if digits_value(digits) is Some {
                    lemma_digits_grow(digits, i - start + 1);
                }
                if !signed {
                    assert(digits =~= text@);
                }
            }
            return None;
        }
        value = larger;
        i += 1;
    }
    proof {
        assert(digits.take(i - start) =~= digits);
        if !signed {
            assert(digits =~= text@);
        }
    }
    if first == '-' {
        if value == 0x8000_0000_0000_0000 {
            Some(i64::MIN)
        } else {
            Some(-(value as i64))
        }
    } else if value == 0x8000_0000_0000_0000 {
        None
    } else {
        Some(value as i64)
    }
}

/// Looks a variable up among name-value pairs.
pub fn lookup(environment: &Vec<(String, String)>, name: &str) -> (value: Option<String>)
    ensures
        text_of(value) == variable(environment@, name@),
{
    let mut i: usize = 0;
    assert(environment@.skip(0) =~= environment@);
    while i < environment.len()
        invariant
            i <= environment.len(),
            variable(environment@, name@) == variable(environment@.skip(i as int), name@),
        decreases environment.len() - i,
    {
        assert(environment@.skip(i as int).skip(1) =~= environment@.skip(i as int + 1));
        if same_text(environment[i].0.as_str(), name) {
            return Some(environment[i].1.clone());
        }
        i += 1;
    }
    None
}

impl Config {
    /// Takes the settings from the environment, given as name-value pairs,
    /// once the `.env` file was loaded into it. If loading that file failed,
    /// `loaded` holds the reason, and so does the error returned.
    pub fn init(loaded: Result<(), String>, environment: &Vec<(String, String)>) -> (config: Result<
        Config,
        ConfigError,
    >)
        ensures
            match loaded {
                Ok(_) => config matches Ok(config) && {
                    &&& text_of(config.host) == variable(environment@, "HOST"@)
                    &&& text_of(config.database_url) == variable(
                        environment@,
                        "DATABASE_URL"@,
                    )
                    &&& text_of(config.postgres_db) == variable(
                        environment@,
                        "POSTGRES_DB"@,
                    )
                    &&& text_of(config.jwt_secret) == variable(
                        environment@,
                        "JWT_SECRET"@,
                    )
                    &&& text_of(config.jwt_expiration_time) == variable(
                        environment@,
                        "JWT_EXPIRATION_TIME"@,
                    )
                },
                Err(cause) => config matches Err(ConfigError::Dotenv(reason)) && reason@
                    == cause@,
            },
    {
        match loaded {
            Ok(_) => Ok(
                Config {
                    host: lookup(environment, "HOST"),
                    database_url: lookup(environment, "DATABASE_URL"),
                    postgres_db: lookup(environment, "POSTGRES_DB"),
                    jwt_secret: lookup(environment, "JWT_SECRET"),
                    jwt_expiration_time: lookup(environment, "JWT_EXPIRATION_TIME"),
                },
            ),
            Err(cause) => Err(ConfigError::Dotenv(cause)),
        }
    }

    /// The key that signs tokens; `EnvVarNotFound` if it is not set.
    pub fn signing_secret(&self) -> (secret: Result<String, ConfigError>)
        ensures
            match self.jwt_secret {
                Some(value) => secret matches Ok(text) && text@ == value@,
                None => secret matches Err(ConfigError::EnvVarNotFound(_)),
            },
    {
        match &self.jwt_secret {
            Some(value) => Ok(value.clone()),
            None => Err(ConfigError::EnvVarNotFound("environment variable not found".to_string())),
        }
    }

    /// How long a token is valid, in seconds; `EnvVarNotFound` if it is not
    /// set, `ParsingError` if it is not a whole number that fits 64 bits.
    pub fn token_lifetime(&self) -> (seconds: Result<i64, ConfigError>)
        ensures
            match self.jwt_expiration_time {
                Some(value) => match integer_of(value@) {
                    Some(number) => seconds == Ok::<i64, ConfigError>(number),
                    None => seconds matches Err(ConfigError::ParsingError(_)),
                },
                None => seconds matches Err(ConfigError::EnvVarNotFound(_)),
            },
    {
        match &self.jwt_expiration_time {
            Some(value) => match parse_integer(value.as_str()) {
                Some(number) => Ok(number),
                None => Err(
                    ConfigError::ParsingError("Invalid JWT_EXPIRATION_TIME value".to_string()),
                ),
            },
            None => Err(ConfigError::EnvVarNotFound("environment variable not found".to_string())),
        }
    }
}

} // verus!
