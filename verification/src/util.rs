//! Formatting of amounts, streaks, user names and leaderboard entries, and
//! the bot's answer to a failure.
use vstd::prelude::*;

use crate::error::Error;
use crate::leaderboard::{LeaderboardRow, LeaderboardType};
use crate::model::Emoji;
use crate::text::{append_i64, int_text, nat_text, u64_text};

verus! {

/// The text of an amount of credits: the number in bold, then the credits
/// emoji.
pub open spec fn currency_text(amount: int) -> Seq<char> {
    "**"@ + int_text(amount) + "** "@ + Emoji::Credits.markup()
}

/// The text of a streak: the number in bold, then the fire emoji.
pub open spec fn streak_text(amount: int) -> Seq<char> {
    "**"@ + int_text(amount) + "** "@ + Emoji::Fire.markup()
}

/// The text of a user: the name alone where the discriminator is 0, else the
/// name, `#` and the discriminator.
pub open spec fn username_text(name: Seq<char>, discriminator: u16) -> Seq<char> {
    if discriminator == 0 {
        name
    } else {
        name + "#"@ + nat_text(discriminator as nat)
    }
}

/// The text of one leaderboard entry.
pub open spec fn lb_entry_text(
    row: LeaderboardRow,
    position: int,
    t: LeaderboardType,
    is_self: bool,
) -> Seq<char> {
    (if is_self {
        "You (#"@ + int_text(position) + ")"@
    } else {
        "`#"@ + int_text(position) + "`"@
    }) + " | "@ + username_text(row.user_name@, row.discriminator) + " - "@ + match t {
        LeaderboardType::StreakBest => streak_text(row.value as int),
        _ => currency_text(row.value as int),
    }
}

fn amount_with(amount: i64, emoji: Emoji) -> (r: String)
    ensures
        r@ == "**"@ + int_text(amount as int) + "** "@ + emoji.markup(),
{
    let mut s = String::from_str("**");
    append_i64(&mut s, amount);
    s.append("** ");
    s.append(emoji.text());
    s
}

/// Formats an amount of credits.
pub fn format_currency(amount: i64) -> (r: String)
    ensures
        r@ == currency_text(amount as int),
{
    amount_with(amount, Emoji::Credits)
}

/// Formats a daily streak.
pub fn format_streak(amount: i64) -> (r: String)
    ensures
        r@ == streak_text(amount as int),
{
    amount_with(amount, Emoji::Fire)
}

/// Formats a user's name with its discriminator.
pub fn format_username(name: &str, discriminator: u16) -> (r: String)
    ensures
        r@ == username_text(name@, discriminator),
{
    if discriminator == 0 {
        return String::from_str(name);
    }
    let mut s = String::from_str(name);
    s.append("#");
    let d = u64_text(discriminator as u64);
    s.append(d.as_str());
    s
}

/// Formats one leaderboard entry: the position, the user and the value.
pub fn format_lb_entry(
    row: &LeaderboardRow,
    position: i64,
    t: &LeaderboardType,
    is_self: bool,
) -> (r: String)
    ensures
        r@ == lb_entry_text(*row, position as int, *t, is_self),
{
    let mut s = if is_self {
        String::from_str("You (#")
    } else {
        String::from_str("`#")
    };
    append_i64(&mut s, position);
    if is_self {
        s.append(")");
    } else {
        s.append("`");
    }
    s.append(" | ");
    let name = format_username(row.user_name.as_str(), row.discriminator);
    s.append(name.as_str());
    s.append(" - ");
    let value = match t {
        LeaderboardType::StreakBest => format_streak(row.value),
        _ => format_currency(row.value),
    };
    s.append(value.as_str());
    s
}

/// What the bot does with a failure.
pub enum ErrorAction {
    /// Nothing: the bot may not write to that channel.
    Drop,
    /// Logs the text: the failure did not come from a command.
    Log(String),
    /// Answers the text in the channel.
    Reply(String),
}

/// The text of the answer to a failure: a warning and the explanation for
/// an unexpected failure, else the fail emoji and the explanation.
pub open spec fn error_reply_text(e: Error) -> Seq<char> {
    if e.spec_is_unexpected() {
        ":warning:"@ + " something went wrong internally: "@ + e.spec_message()
    } else {
        Emoji::EpicFail.markup() + " "@ + e.spec_message()
    }
}

/// Decides what the bot does with a failure: a client-library refusal for
/// missing permissions is dropped; a failure that did not come from a command
/// is only logged, with its explanation; any other is answered.
pub fn handle_error(e: &Error, from_command: bool) -> (r: ErrorAction)
    ensures
        match r {
            ErrorAction::Drop => e matches Error::Serenity { missing_permissions: true, .. },
            ErrorAction::Log(t) => !(e matches Error::Serenity { missing_permissions: true, .. })
                && !from_command && t@ == e.spec_message(),
            ErrorAction::Reply(t) => !(e matches Error::Serenity { missing_permissions: true, .. })
                && from_command && t@ == error_reply_text(*e),
        },
{
    if let Error::Serenity { missing_permissions: true, .. } = e {
        return ErrorAction::Drop;
    }
    if !from_command {
        return ErrorAction::Log(e.message());
    }
    let mut s = if e.is_unexpected() {
        String::from_str(":warning: something went wrong internally: ")
    } else {
        let mut f = String::from_str(Emoji::EpicFail.text());
        f.append(" ");
        f
    };
    let m = e.message();
    s.append(m.as_str());
    proof {
        reveal_strlit(":warning: something went wrong internally: ");
        reveal_strlit(":warning:");
        reveal_strlit(" something went wrong internally: ");
        assert(":warning:"@ + " something went wrong internally: "@
            =~= ":warning: something went wrong internally: "@);
    }
    ErrorAction::Reply(s)
}

} // verus!
