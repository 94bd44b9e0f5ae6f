//! Leaderboards: which column they rank by, the queries that read them,
//! the request a user makes, and the answer.
use vstd::prelude::*;

use crate::args::Flags;
use crate::error::Error;
use crate::model::Emoji;
use crate::text::{ascii_lower, ascii_lowercase, join, parse_i64, parse_i64_spec, string_views};
use crate::util::{format_lb_entry, lb_entry_text};

verus! {

/// The column that a leaderboard ranks users by.
#[derive(Clone, Copy, Debug, PartialEq, Eq, Structural)]
pub enum LeaderboardType {
    CurrencyBest,
    CurrencyHeld,
    StreakBest,
}

/// One user's line on a leaderboard.
pub struct LeaderboardRow {
    pub user_id: i64,
    pub user_name: String,
    pub discriminator: u16,
    pub value: i64,
}

impl LeaderboardType {
    /// The name of the column in the `users` table.
    pub open spec fn column(self) -> Seq<char> {
        match self {
            LeaderboardType::CurrencyBest => "currency_best"@,
            LeaderboardType::CurrencyHeld => "currency_held"@,
            LeaderboardType::StreakBest => "daily_streak_best"@,
        }
    }

    /// The name of the column in the `users` table.
    pub fn to_str(&self) -> (r: &'static str)
        ensures
            r@ == self.column(),
    {
        match self {
            LeaderboardType::CurrencyBest => "currency_best",
            LeaderboardType::CurrencyHeld => "currency_held",
            LeaderboardType::StreakBest => "daily_streak_best",
        }
    }
}

/// Rows per leaderboard page.
pub const LEADERBOARD_MAX_ENTRIES: i64 = 10;

/// The last page that a query reads; a later page reads this one.
pub const MAX_PAGES: i64 = 100;

/// The three queries that read one page of a leaderboard, with the values
/// bound to the page query.
pub struct LeaderboardQuery {
    /// Counts the users whose value is at least the author's (bind: the
    /// author's id).
    pub position_sql: String,
    /// Reads the author's own row (bind: the author's id).
    pub self_row_sql: String,
    /// Reads the page, highest value first (binds: `limit`, `offset`).
    pub rows_sql: String,
    pub limit: i64,
    pub offset: i64,
}

/// The query that counts the users ranked at or above the author.
pub open spec fn position_sql(t: LeaderboardType) -> Seq<char> {
    "SELECT COUNT(*) FROM users WHERE "@ + t.column() + " >= (SELECT "@ + t.column()
        + " FROM users WHERE user_id = ?)"@
}

/// The query that reads the author's row.
pub open spec fn self_row_sql(t: LeaderboardType) -> Seq<char> {
    "SELECT "@ + t.column() + ", user_id, cached_username, cached_discriminator FROM users WHERE user_id = ?"@
}

/// The query that reads a page of rows, highest value first.
pub open spec fn rows_sql(t: LeaderboardType) -> Seq<char> {
    "SELECT "@ + t.column() + ", user_id, cached_username, cached_discriminator FROM users ORDER BY "@
        + t.column() + " DESC LIMIT ? OFFSET ?"@
}

/// The first row of a page: pages past the last read the last one, and a
/// negative page reads the first.
pub open spec fn page_offset(page: i64) -> int {
    let p = if page > MAX_PAGES {
        MAX_PAGES
    } else {
        page
    };
    (if p < 0 {
        0
    } else {
        p
    }) * LEADERBOARD_MAX_ENTRIES
}

/// A page always starts at a multiple of the page size between the first
/// row and the first row of the last page.
pub proof fn law_page_offset(page: i64)
    ensures
        0 <= page_offset(page) <= MAX_PAGES * LEADERBOARD_MAX_ENTRIES,
        page_offset(page) % (LEADERBOARD_MAX_ENTRIES as int) == 0,
        0 <= page <= MAX_PAGES ==> page_offset(page) == page * LEADERBOARD_MAX_ENTRIES,
{
}

/// The queries that read page `page` of the leaderboard of type `t`.
pub fn leaderboard_query(page: i64, t: &LeaderboardType) -> (r: LeaderboardQuery)
    ensures
        r.position_sql@ == position_sql(*t),
        r.self_row_sql@ == self_row_sql(*t),
        r.rows_sql@ == rows_sql(*t),
        r.limit == LEADERBOARD_MAX_ENTRIES,
        r.offset == page_offset(page),
{
    let page = if page > MAX_PAGES {
        MAX_PAGES
    } else {
        page
    };
    let column = t.to_str();
    let mut position = String::from_str("SELECT COUNT(*) FROM users WHERE ");
    position.append(column);
    position.append(" >= (SELECT ");
    position.append(column);
    position.append(" FROM users WHERE user_id = ?)");
    let mut self_row = String::from_str("SELECT ");
    self_row.append(column);
    self_row.append(", user_id, cached_username, cached_discriminator FROM users WHERE user_id = ?");
    let mut rows = String::from_str("SELECT ");
    rows.append(column);
    rows.append(", user_id, cached_username, cached_discriminator FROM users ORDER BY ");
    rows.append(column);
    rows.append(" DESC LIMIT ? OFFSET ?");
    LeaderboardQuery {
        position_sql: position,
        self_row_sql: self_row,
        rows_sql: rows,
        limit: LEADERBOARD_MAX_ENTRIES,
        offset: (if page < 0 {
            0
        } else {
            page
        }) * LEADERBOARD_MAX_ENTRIES,
    }
}

/// The leaderboard that a word asks for, read in ASCII lower case: `alltime`
/// the best amounts, `streak` the best streaks, anything else the amounts
/// held now.
pub open spec fn type_for_word(word: Seq<char>) -> LeaderboardType {
    let w = ascii_lower(word);
    if w == "alltime"@ {
        LeaderboardType::CurrencyBest
    } else if w == "current"@ {
        LeaderboardType::CurrencyHeld
    } else if w == "streak"@ {
        LeaderboardType::StreakBest
    } else {
        LeaderboardType::CurrencyHeld
    }
}

/// The page and leaderboard that a request asks for: the page is the `p`
/// flag (0 where it is missing) and must lie in `0..=99`; the type is named
/// by the first positional argument.
pub open spec fn leaderboard_request_spec(
    positional: Seq<Seq<char>>,
    flags: Map<Seq<char>, Seq<char>>,
) -> Result<(i64, LeaderboardType), Error> {
    let page: Option<i64> = if flags.contains_key("p"@) {
        parse_i64_spec(flags["p"@])
    } else {
        Some(0)
    };
    match page {
        None => Err(Error::ParseInt),
        Some(p) => if !(0 <= p <= 99) {
            Err(Error::OutOfBounds)
        } else if positional.len() > 0 {
            Ok((p, type_for_word(positional[0])))
        } else {
            Ok((p, LeaderboardType::CurrencyHeld))
        },
    }
}

/// The page of a leaderboard request: every `p` flag that reads as a number
/// in `0..=99` is the page asked for; a number outside that range is out of
/// bounds; a `p` flag that is not a number is a bad number; no `p` flag asks
/// for page 0.
pub proof fn law_leaderboard_pages(positional: Seq<Seq<char>>, flags: Map<Seq<char>, Seq<char>>)
    ensures
        flags.contains_key("p"@) ==> match parse_i64_spec(flags["p"@]) {
            Some(p) => if 0 <= p <= 99 {
                (leaderboard_request_spec(positional, flags) matches Ok((q, _)) && q == p)
            } else {
                leaderboard_request_spec(positional, flags) == Err::<(i64, LeaderboardType), Error>(
                    Error::OutOfBounds,
                )
            },
            None => leaderboard_request_spec(positional, flags) == Err::<
                (i64, LeaderboardType),
                Error,
            >(Error::ParseInt),
        },
        !flags.contains_key("p"@) ==> (leaderboard_request_spec(positional, flags) matches Ok((q, _))
            && q == 0),
{
}

/// The leaderboard of a request that is accepted: the best amounts for
/// `alltime`, the best streaks for `streak`, in any case of ASCII letters; the
/// amounts held now for `current`, for any other word, and where no word is
/// given.
pub proof fn law_leaderboard_types(positional: Seq<Seq<char>>, flags: Map<Seq<char>, Seq<char>>)
    ensures
        leaderboard_request_spec(positional, flags) matches Ok((_, t)) ==> {
            &&& positional.len() == 0 ==> t == LeaderboardType::CurrencyHeld
            &&& positional.len() > 0 && ascii_lower(positional[0]) == "alltime"@ ==> t
                == LeaderboardType::CurrencyBest
            &&& positional.len() > 0 && ascii_lower(positional[0]) == "streak"@ ==> t
                == LeaderboardType::StreakBest
            &&& positional.len() > 0 && ascii_lower(positional[0]) != "alltime"@ && ascii_lower(
                positional[0],
            ) != "streak"@ ==> t == LeaderboardType::CurrencyHeld
        },
{
    reveal_strlit("alltime");
    reveal_strlit("current");
    reveal_strlit("streak");
    broadcast use vstd::string::group_string_axioms;

    assert("alltime"@.len() == 7 && "current"@.len() == 7 && "streak"@.len() == 6);
    assert("alltime"@[0] == 'a' && "current"@[0] == 'c');
}

/// Reads the page and leaderboard type of a leaderboard command.
pub fn leaderboard_request(positional: &Vec<&str>, flags: &Flags) -> (r: Result<
    (i64, LeaderboardType),
    Error,
>)
    ensures
        r == leaderboard_request_spec(crate::text::str_views(positional@), flags@),
{
    let page: i64 = match flags.get("p") {
        Some(v) => match parse_i64(v) {
            Some(p) => p,
            None => return Err(Error::ParseInt),
        },
        None => 0,
    };
    if !(0 <= page && page <= 99) {
        return Err(Error::OutOfBounds);
    }
    if positional.len() > 0 {
        let w = ascii_lowercase(positional[0]);
        let t = if w == String::from_str("alltime") {
            LeaderboardType::CurrencyBest
        } else if w == String::from_str("current") {
            LeaderboardType::CurrencyHeld
        } else if w == String::from_str("streak") {
            LeaderboardType::StreakBest
        } else {
            LeaderboardType::CurrencyHeld
        };
        Ok((page, t))
    } else {
        Ok((page, LeaderboardType::CurrencyHeld))
    }
}

/// The heading of a leaderboard.
pub open spec fn title(t: LeaderboardType) -> Seq<char> {
    match t {
        LeaderboardType::CurrencyBest => "All Time Richest Whatsappians"@,
        LeaderboardType::CurrencyHeld => "Current Richest Whatsappians"@,
        LeaderboardType::StreakBest => "All Time Highest Daily Streak"@,
    }
}

/// The entries of a page: row `i` is ranked `i + 1`.
pub open spec fn page_entries(rows: Seq<LeaderboardRow>, t: LeaderboardType) -> Seq<Seq<char>> {
    Seq::new(rows.len(), |i: int| lb_entry_text(rows[i], i + 1, t, false))
}

/// The text of a leaderboard answer: the heading between two gold emoji, the
/// page's entries one per line, a rule, and the author's own entry.
pub open spec fn leaderboard_text(
    t: LeaderboardType,
    rows: Seq<LeaderboardRow>,
    self_position: i64,
    self_row: LeaderboardRow,
) -> Seq<char> {
    Emoji::WhatsappGold.markup() + " __**"@ + title(t) + "**__ "@ + Emoji::WhatsappGold.markup()
        + "\n"@ + join(page_entries(rows, t), "\n"@) + "\n-----\n"@ + lb_entry_text(
        self_row,
        self_position as int,
        t,
        true,
    )
}

/// Writes the answer to a leaderboard command.
pub fn leaderboard_reply(
    t: &LeaderboardType,
    rows: &Vec<LeaderboardRow>,
    self_position: i64,
    self_row: &LeaderboardRow,
) -> (r: String)
    requires
        rows@.len() < i64::MAX,
    ensures
        r@ == leaderboard_text(*t, rows@, self_position, *self_row),
{
    let mut entries: Vec<String> = Vec::new();
    let mut i: usize = 0;
    while i < rows.len()
        invariant
            i <= rows@.len(),
            rows@.len() < i64::MAX,
            string_views(entries@) == page_entries(rows@, *t).take(i as int),
        decreases rows@.len() - i,
    {
        let e = format_lb_entry(&rows[i], (i + 1) as i64, t, false);
        let ghost prev = entries@;
        entries.push(e);
        proof {
            let pe = page_entries(rows@, *t);
            assert(entries@ == prev.push(e));
            assert(string_views(entries@) =~= string_views(prev).push(e@));
            assert(pe[i as int] == e@);
            assert(pe.take(i + 1) =~= pe.take(i as int).push(pe[i as int]));
        }
        i = i + 1;
    }
    proof {
        assert(page_entries(rows@, *t).take(rows@.len() as int) == page_entries(rows@, *t));
    }
    let title = match t {
        LeaderboardType::CurrencyBest => "All Time Richest Whatsappians",
        LeaderboardType::CurrencyHeld => "Current Richest Whatsappians",
        LeaderboardType::StreakBest => "All Time Highest Daily Streak",
    };
    let mut s = String::from_str(Emoji::WhatsappGold.text());
    s.append(" __**");
    s.append(title);
    s.append("**__ ");
    s.append(Emoji::WhatsappGold.text());
    s.append("\n");
    let body = crate::text::join_strings(&entries, "\n");
    s.append(body.as_str());
    s.append("\n-----\n");
    let own = format_lb_entry(self_row, self_position, t, true);
    s.append(own.as_str());
    s
}

} // verus!
