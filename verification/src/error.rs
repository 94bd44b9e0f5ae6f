//! The errors that commands end in, and the text the bot answers them with.
use vstd::prelude::*;

use crate::text::{append_i64, append_pad2, int_text, pad2_text};
use crate::util::{currency_text, format_currency};

verus! {

/// Why a command or a message event failed.
///
/// The failures of the outside services carry the description that the
/// service gave; a client-library failure also says whether it was a refusal
/// for missing permissions.
#[derive(Debug)]
pub enum Error {
    Redis(String),
    Db(String),
    Serenity { text: String, missing_permissions: bool },
    Cooldown(i64),
    Broke(i64),
    DailyClaimed(i64),
    CommandNotFound,
    ParseInt,
    OutOfBounds,
    NoPermission,
    InvalidArguments,
}

/// The text of a wait in seconds, as hours, minutes and seconds of at least
/// two digits each; a negative wait is read as its `u64` reinterpretation.
pub open spec fn wait_text(seconds: i64) -> Seq<char> {
    let d = seconds as u64;
    pad2_text(((d / 60) / 60) as nat) + ":"@ + pad2_text(((d / 60) % 60) as nat) + ":"@
        + pad2_text((d % 60) as nat)
}

impl Error {
    /// Whether the failure is one the bot did not expect: a failure of Redis
    /// or of the database.
    pub open spec fn spec_is_unexpected(&self) -> bool {
        match self {
            Error::Redis(_) | Error::Db(_) => true,
            _ => false,
        }
    }

    /// The text that explains the failure to a user.
    pub open spec fn spec_message(&self) -> Seq<char> {
        match self {
            Error::InvalidArguments => "invalid arguments"@,
            Error::NoPermission => "my g you cant access that"@,
            Error::Broke(by) => "sorry, but you are short "@ + currency_text(*by as int)
                + " to roll that amount"@,
            Error::Cooldown(left) => "wait "@ + int_text(*left as int)
                + " more seconds before using that again"@,
            Error::DailyClaimed(left) => "wait "@ + wait_text(*left) + " to claim again"@,
            Error::Redis(e) => "redis error: "@ + e@,
            Error::Db(e) => "database error: "@ + e@,
            Error::Serenity { text, .. } => "serenity (client library) error: "@ + text@,
            Error::CommandNotFound => "command by that name was not found"@,
            Error::ParseInt => "could not resolve that to a valid number"@,
            Error::OutOfBounds => "that number is out of bounds"@,
        }
    }

    /// Whether the failure is one the bot did not expect.
    pub fn is_unexpected(&self) -> (r: bool)
        ensures
            r == self.spec_is_unexpected(),
    {
        match self {
            Error::Broke(_) | Error::Cooldown(_) | Error::Serenity { .. } | Error::DailyClaimed(_)
            | Error::ParseInt | Error::CommandNotFound | Error::OutOfBounds | Error::NoPermission
            | Error::InvalidArguments => false,
            _ => true,
        }
    }

    /// The text that explains the failure to a user.
    pub fn message(&self) -> (r: String)
        ensures
            r@ == self.spec_message(),
    {
        match self {
            Error::InvalidArguments => String::from_str("invalid arguments"),
            Error::NoPermission => String::from_str("my g you cant access that"),
            Error::Broke(by) => {
                let mut s = String::from_str("sorry, but you are short ");
                let c = format_currency(*by);
                s.append(c.as_str());
                s.append(" to roll that amount");
                s
            },
            Error::Cooldown(left) => {
                let mut s = String::from_str("wait ");
                append_i64(&mut s, *left);
                s.append(" more seconds before using that again");
                s
            },
            Error::DailyClaimed(left) => {
                let d: u64 = *left as u64;
                let mut s = String::from_str("wait ");
                append_pad2(&mut s, (d / 60) / 60);
                s.append(":");
                append_pad2(&mut s, (d / 60) % 60);
                s.append(":");
                append_pad2(&mut s, d % 60);
                s.append(" to claim again");
                s
            },
            Error::Redis(e) => String::from_str("redis error: ").concat(e.as_str()),
            Error::Db(e) => String::from_str("database error: ").concat(e.as_str()),
            Error::Serenity { text, .. } => String::from_str(
                "serenity (client library) error: ",
            ).concat(text.as_str()),
            Error::CommandNotFound => String::from_str("command by that name was not found"),
            Error::ParseInt => String::from_str("could not resolve that to a valid number"),
            Error::OutOfBounds => String::from_str("that number is out of bounds"),
        }
    }
}

} // verus!
