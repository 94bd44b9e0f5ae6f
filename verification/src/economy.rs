//! The rules of the bot's currency: balance changes, the daily claim, the
//! passive reward for talking, command cool-downs and the log's entry kinds.
use vstd::prelude::*;

use crate::error::Error;
use crate::outside::{now_timestamp, random_in};
use crate::text::{append_i64, int_text, is_digit, lemma_nat_text, law_unsigned_round_trip, nat_text};

verus! {

/// The cap on balances and records.
pub const CURRENCY_MAX: i64 = 1_000_000_000_000_000;

/// What a balance change writes: the new record, where the change beats the
/// old one, and the amount added to the balance.
#[derive(Clone, Copy, Debug, PartialEq, Eq, Structural)]
pub struct CurrencyUpdate {
    pub new_best: Option<i64>,
    pub held_increment: i64,
}

/// The update for a change of `by` to a balance `held` whose record is
/// `best`: the record becomes the new balance, capped at `CURRENCY_MAX`,
/// where the new balance beats it; the balance grows by `by`, or by
/// `CURRENCY_MAX` where the new balance would reach the cap.
pub open spec fn currency_update_spec(held: i64, best: i64, by: i64) -> CurrencyUpdate {
    let total = held + by;
    CurrencyUpdate {
        new_best: if total > best {
            Some(
                if total >= CURRENCY_MAX {
                    CURRENCY_MAX
                } else {
                    total as i64
                },
            )
        } else {
            None
        },
        held_increment: if total >= CURRENCY_MAX {
            CURRENCY_MAX
        } else {
            by
        },
    }
}

/// Computes what a balance change writes.
pub fn change_by(held: i64, best: i64, by: i64) -> (r: CurrencyUpdate)
    requires
        i64::MIN <= held + by <= i64::MAX,
    ensures
        r == currency_update_spec(held, best, by),
{
    let total = held + by;
    CurrencyUpdate {
        new_best: if total > best {
            Some(
                if total >= CURRENCY_MAX {
                    CURRENCY_MAX
                } else {
                    total
                },
            )
        } else {
            None
        },
        held_increment: if total >= CURRENCY_MAX {
            CURRENCY_MAX
        } else {
            by
        },
    }
}

/// The record after an update.
pub open spec fn best_after(best: i64, u: CurrencyUpdate) -> int {
    match u.new_best {
        Some(b) => b as int,
        None => best as int,
    }
}

/// A record at most the cap never goes down.
pub proof fn law_record_never_drops(held: i64, best: i64, by: i64)
    requires
        best <= CURRENCY_MAX,
    ensures
        best_after(best, currency_update_spec(held, best, by)) >= best,
{
}

/// Below the cap a change moves the balance by exactly its amount, and the
/// record becomes the larger of the old record and the new balance.
pub proof fn law_change_below_cap(held: i64, best: i64, by: i64)
    requires
        held + by < CURRENCY_MAX,
    ensures
        held + currency_update_spec(held, best, by).held_increment == held + by,
        best_after(best, currency_update_spec(held, best, by)) == if held + by > best {
            held + by
        } else {
            best as int
        },
{
}

/// The kinds of entry in the currency log.
#[derive(Clone, Copy, Debug, PartialEq, Eq, Structural)]
pub enum LogType {
    Claim,
    Passive,
    Gamble,
    Manual,
}

impl LogType {
    /// The number that stands for the kind in the log table.
    pub open spec fn spec_code(self) -> i64 {
        match self {
            LogType::Claim => 0,
            LogType::Passive => 1,
            LogType::Gamble => 2,
            LogType::Manual => 99,
        }
    }

    /// The number that stands for the kind in the log table.
    pub fn code(&self) -> (r: i64)
        ensures
            r == self.spec_code(),
    {
        match self {
            LogType::Claim => 0,
            LogType::Passive => 1,
            LogType::Gamble => 2,
            LogType::Manual => 99,
        }
    }
}

/// The daily bonus by streak day, from the first day to the seventh and on.
pub open spec fn bonus_scale(i: int) -> i64 {
    if i == 0 {
        50
    } else if i == 1 {
        60
    } else if i == 2 {
        75
    } else if i == 3 {
        90
    } else if i == 4 {
        110
    } else if i == 5 {
        130
    } else {
        150
    }
}

/// The daily bonus for the streak day at `i` (0 to 6).
pub fn daily_streak_bonus(i: usize) -> (r: i64)
    requires
        i < 7,
    ensures
        r == bonus_scale(i as int),
{
    let scale: [i64; 7] = [50, 60, 75, 90, 110, 130, 150];
    scale[i]
}

/// The base amount of a daily claim.
pub const DAILY_STREAK_AMOUNT: i64 = 100;

/// A day in seconds.
pub const DAY_SECONDS: i64 = 86400;

/// The outcome of a daily claim that is allowed.
#[derive(Clone, Copy, Debug, PartialEq, Eq, Structural)]
pub struct ClaimDecision {
    /// The streak after the claim.
    pub new_streak: i64,
    /// Whether the new streak beats the record.
    pub raises_best: bool,
    /// The record after the claim.
    pub record: i64,
}

/// Whether the arithmetic of a claim stays inside `i64` for these values.
pub open spec fn claim_in_range(last_claimed: i64, streak: i64, now: i64) -> bool {
    &&& last_claimed + DAY_SECONDS <= i64::MAX
    &&& last_claimed + DAY_SECONDS > now ==> last_claimed + DAY_SECONDS - now <= i64::MAX
    &&& last_claimed + DAY_SECONDS <= now ==> last_claimed + 2 * DAY_SECONDS <= i64::MAX
    &&& (last_claimed + DAY_SECONDS <= now && last_claimed + 2 * DAY_SECONDS >= now) ==> streak
        < i64::MAX
}

/// A claim made at `now`: refused, with the seconds left, less than a day
/// after the last one; otherwise the streak goes on where the last claim is
/// at most two days old and starts again at 1 where it is older.
pub open spec fn claim_spec(last_claimed: i64, streak: i64, best: i64, now: i64) -> Result<
    ClaimDecision,
    Error,
> {
    if last_claimed + DAY_SECONDS > now {
        Err(Error::DailyClaimed((last_claimed + DAY_SECONDS - now) as i64))
    } else {
        let new_streak: i64 = if last_claimed + 2 * DAY_SECONDS < now {
            1
        } else {
            (streak + 1) as i64
        };
        Ok(
            ClaimDecision {
                new_streak,
                raises_best: new_streak > best,
                record: if new_streak > best {
                    new_streak
                } else {
                    best
                },
            },
        )
    }
}

/// Decides a daily claim made at `now`, given the time of the last claim,
/// the current streak and the streak record.
pub fn claim(last_claimed: i64, streak: i64, best: i64, now: i64) -> (r: Result<
    ClaimDecision,
    Error,
>)
    requires
        claim_in_range(last_claimed, streak, now),
    ensures
        r == claim_spec(last_claimed, streak, best, now),
{
    if last_claimed + DAY_SECONDS > now {
        return Err(Error::DailyClaimed((last_claimed + DAY_SECONDS) - now));
    }
    let new_streak = if last_claimed + (DAY_SECONDS * 2) < now {
        1
    } else {
        streak + 1
    };
    Ok(
        ClaimDecision {
            new_streak,
            raises_best: new_streak > best,
            record: if new_streak > best {
                new_streak
            } else {
                best
            },
        },
    )
}

/// Reads the clock and decides a daily claim made now. Gives the time read,
/// and the decision where the arithmetic of the claim stays inside `i64`
/// (`None` where it does not).
pub fn claim_now(last_claimed: i64, streak: i64, best: i64) -> (r: (i64, Option<
    Result<ClaimDecision, Error>,
>))
    ensures
        match r.1 {
            Some(d) => claim_in_range(last_claimed, streak, r.0) && d == claim_spec(
                last_claimed,
                streak,
                best,
                r.0,
            ),
            None => !claim_in_range(last_claimed, streak, r.0),
        },
{
    let now = now_timestamp();
    if claim_fits(last_claimed, streak, now) {
        (now, Some(claim(last_claimed, streak, best, now)))
    } else {
        (now, None)
    }
}

/// Whether the arithmetic of a claim stays inside `i64`.
pub fn claim_fits(last_claimed: i64, streak: i64, now: i64) -> (r: bool)
    ensures
        r == claim_in_range(last_claimed, streak, now),
{
    let last = last_claimed as i128;
    let due = last + 86400;
    let ok_due = due <= 0x7fff_ffff_ffff_ffff;
    let ok_wait = !(due > now as i128) || due - (now as i128) <= 0x7fff_ffff_ffff_ffff;
    let ok_window = !(due <= now as i128) || last + 172800 <= 0x7fff_ffff_ffff_ffff;
    let ok_streak = !(due <= now as i128 && last + 172800 >= now as i128) || streak
        < 0x7fff_ffff_ffff_ffff;
    ok_due && ok_wait && ok_window && ok_streak
}

/// The credits of a claim that brings the streak to `new_streak`: the base
/// amount and the bonus of the streak day, the seventh day's from the seventh
/// on; a streak below 1 has no day and is refused as a bad number.
pub open spec fn claim_credits_spec(new_streak: i64) -> Result<i64, Error> {
    if new_streak >= 7 {
        Ok((DAILY_STREAK_AMOUNT + bonus_scale(6)) as i64)
    } else if new_streak >= 1 {
        Ok((DAILY_STREAK_AMOUNT + bonus_scale(new_streak - 1)) as i64)
    } else {
        Err(Error::ParseInt)
    }
}

/// The credits earned by a claim that brings the streak to `new_streak`.
pub fn claim_credits(new_streak: i64) -> (r: Result<i64, Error>)
    requires
        new_streak > i64::MIN,
    ensures
        r == claim_credits_spec(new_streak),
{
    let day: i64 = if new_streak >= 7 {
        6
    } else {
        new_streak - 1
    };
    if day < 0 {
        return Err(Error::ParseInt);
    }
    Ok(DAILY_STREAK_AMOUNT + daily_streak_bonus(day as usize))
}

/// A longer streak never earns less, and every streak earns between 150 and
/// 250 credits.
pub proof fn law_claim_credits_monotone(a: i64, b: i64)
    requires
        1 <= a <= b,
    ensures
        claim_credits_spec(a) is Ok,
        claim_credits_spec(b) is Ok,
        claim_credits_spec(a)->Ok_0 <= claim_credits_spec(b)->Ok_0,
        150 <= claim_credits_spec(a)->Ok_0 <= 250,
{
}

/// A claim less than a day after the last one is refused with a wait of
/// more than 0 and at most a day.
pub proof fn law_claim_once_a_day(last_claimed: i64, streak: i64, best: i64, now: i64)
    requires
        claim_in_range(last_claimed, streak, now),
        last_claimed <= now < last_claimed + DAY_SECONDS,
    ensures
        claim_spec(last_claimed, streak, best, now) matches Err(Error::DailyClaimed(w)) && 0 < w
            <= DAY_SECONDS,
{
}

/// A claim between one and two days after the last one continues the
/// streak by one, whatever the streak; a claim more than two days after it
/// starts the streak again at 1; either way the record becomes the larger of
/// the old record and the new streak, and it is raised exactly when the new
/// streak beats it.
pub proof fn law_claim_streak(last_claimed: i64, streak: i64, best: i64, now: i64)
    requires
        claim_in_range(last_claimed, streak, now),
        now >= last_claimed + DAY_SECONDS,
    ensures
        claim_spec(last_claimed, streak, best, now) matches Ok(d) && {
            &&& now <= last_claimed + 2 * DAY_SECONDS ==> d.new_streak == streak + 1
            &&& now > last_claimed + 2 * DAY_SECONDS ==> d.new_streak == 1
            &&& d.raises_best == (d.new_streak > best)
            &&& d.record == if d.new_streak > best {
                d.new_streak
            } else {
                best
            }
        },
{
}

/// A claim less than a day after the last one is refused with the seconds
/// that are left until the day is over.
pub proof fn law_claim_refusal_wait(last_claimed: i64, streak: i64, best: i64, now: i64)
    requires
        claim_in_range(last_claimed, streak, now),
        now < last_claimed + DAY_SECONDS,
    ensures
        claim_spec(last_claimed, streak, best, now) == Err::<ClaimDecision, Error>(
            Error::DailyClaimed((last_claimed + DAY_SECONDS - now) as i64),
        ),
        now + (last_claimed + DAY_SECONDS - now) == last_claimed + DAY_SECONDS,
{
}

/// What a claim pays grows strictly with the streak up to the seventh day,
/// from 150 on the first to 250 on the seventh, and stays at 250 after it.
pub proof fn law_claim_credits_scale(a: i64, b: i64)
    requires
        1 <= a < b,
    ensures
        claim_credits_spec(a) matches Ok(x) && claim_credits_spec(b) matches Ok(y) && (b <= 7 ==> x
            < y) && (a >= 7 ==> x == y),
        claim_credits_spec(1) == Ok::<i64, Error>(150),
        b >= 7 ==> claim_credits_spec(b) == Ok::<i64, Error>(250),
{
}

/// An allowed claim leaves a record at least the new streak and at least
/// the old record, and a streak of at least 1 where the old one was not
/// negative.
pub proof fn law_claim_record(last_claimed: i64, streak: i64, best: i64, now: i64)
    requires
        claim_in_range(last_claimed, streak, now),
        now >= last_claimed + DAY_SECONDS,
        streak >= 0,
    ensures
        claim_spec(last_claimed, streak, best, now) matches Ok(d) && d.record >= d.new_streak
            && d.record >= best && d.new_streak >= 1,
{
}

/// A user's claim columns: the time of the last claim, the streak and the
/// streak record.
pub type ClaimRow = (i64, i64, i64);

/// What a user's claim columns hold after a claim at `now`, as the claim
/// writes them: a refused claim, or one whose arithmetic would leave `i64`,
/// writes nothing; an allowed one stores `now` and the new streak, and where
/// the new streak beats the record, the record plus one.
pub open spec fn row_after_claim(row: ClaimRow, now: i64) -> ClaimRow {
    if !claim_in_range(row.0, row.1, now) {
        row
    } else {
        match claim_spec(row.0, row.1, row.2, now) {
            Err(_) => row,
            Ok(d) => (
                now,
                d.new_streak,
                if d.raises_best {
                    (row.2 + 1) as i64
                } else {
                    row.2
                },
            ),
        }
    }
}

/// Whether claim columns are sound: the streak is not negative and at most
/// the record.
pub open spec fn claim_row_sound(row: ClaimRow) -> bool {
    0 <= row.1 <= row.2
}

/// One claim on sound columns: the record stored (the old one plus one
/// where it is beaten) is the decision's record, the columns stay sound, the
/// record never goes down, and it is the larger of the old record and the
/// new streak.
pub proof fn law_claim_step(row: ClaimRow, now: i64)
    requires
        claim_row_sound(row),
    ensures
        claim_row_sound(row_after_claim(row, now)),
        row_after_claim(row, now).2 >= row.2,
        row_after_claim(row, now).2 == if row_after_claim(row, now).1 > row.2 {
            row_after_claim(row, now).1
        } else {
            row.2
        },
        claim_in_range(row.0, row.1, now) ==> (claim_spec(row.0, row.1, row.2, now) matches Ok(d)
            ==> d.record == row_after_claim(row, now).2),
{
}

/// The claim columns after a run of claims at the given times.
pub open spec fn row_after_claims(row: ClaimRow, times: Seq<i64>) -> ClaimRow
    decreases times.len(),
{
    if times.len() == 0 {
        row
    } else {
        row_after_claim(row_after_claims(row, times.drop_last()), times.last())
    }
}

/// The highest streak stored over a run of claims, or the starting record
/// where that is higher.
pub open spec fn peak_streak(row: ClaimRow, times: Seq<i64>) -> int
    decreases times.len(),
{
    if times.len() == 0 {
        row.2 as int
    } else {
        let p = peak_streak(row, times.drop_last());
        let s = row_after_claims(row, times).1 as int;
        if s > p {
            s
        } else {
            p
        }
    }
}

/// Over any run of claims from sound columns (a new user starts at streak 0
/// and record 0): the columns stay sound, the record never goes down, and
/// the record is the highest streak ever stored (or the starting record).
pub proof fn law_claim_run(row: ClaimRow, times: Seq<i64>)
    requires
        claim_row_sound(row),
    ensures
        claim_row_sound(row_after_claims(row, times)),
        row_after_claims(row, times).2 >= row.2,
        row_after_claims(row, times).2 == peak_streak(row, times),
    decreases times.len(),
{
    if times.len() > 0 {
        law_claim_run(row, times.drop_last());
        law_claim_step(row_after_claims(row, times.drop_last()), times.last());
    }
}

/// The text of the answer to a claim.
pub open spec fn claim_reply_text(
    credits_now: i64,
    streak_old: i64,
    streak_new: i64,
    streak_best: i64,
) -> Seq<char> {
    let next = crate::util::currency_text(
        bonus_scale(
            if streak_new >= 7 {
                6
            } else {
                streak_new as int
            },
        ) as int,
    );
    "Free money sir, you got "@ + crate::util::currency_text(DAILY_STREAK_AMOUNT as int) + " + "@
        + next + " (Streak bonus!). You now have "@ + crate::util::currency_text(credits_now as int)
        + "\nCome back in 24 hours to claim again\nCurrent streak: "@ + int_text(streak_old as int)
        + " -> **"@ + int_text(streak_new as int) + "** (Record: "@ + int_text(streak_best as int)
        + ")\nNext bonus: "@ + next
}

/// Writes the answer to a daily claim: what was earned, the balance now,
/// and the streak.
pub fn claim_reply(credits_now: i64, streak_old: i64, streak_new: i64, streak_best: i64) -> (r:
    String)
    requires
        streak_new >= 0,
    ensures
        r@ == claim_reply_text(credits_now, streak_old, streak_new, streak_best),
{
    let day: i64 = if streak_new >= 7 {
        6
    } else {
        streak_new
    };
    let next = crate::util::format_currency(daily_streak_bonus(day as usize));
    let base = crate::util::format_currency(DAILY_STREAK_AMOUNT);
    let now = crate::util::format_currency(credits_now);
    let mut s = String::from_str("Free money sir, you got ");
    s.append(base.as_str());
    s.append(" + ");
    s.append(next.as_str());
    s.append(" (Streak bonus!). You now have ");
    s.append(now.as_str());
    s.append("\nCome back in 24 hours to claim again\nCurrent streak: ");
    append_i64(&mut s, streak_old);
    s.append(" -> **");
    append_i64(&mut s, streak_new);
    s.append("** (Record: ");
    append_i64(&mut s, streak_best);
    s.append(")\nNext bonus: ");
    s.append(next.as_str());
    s
}

/// The fewest credits that talking earns.
pub const MIN_CURRENCY_EARNED: usize = 8;

/// The most credits that talking earns.
pub const MAX_CURRENCY_EARNED: usize = 10;

/// Seconds between two rewards for talking.
pub const TALK_INTERVAL: usize = 60;

/// The balance and record that a new user starts with.
pub const STARTING_CURRENCY: i64 = 500;

/// The first step of the reward for talking.
#[derive(Clone, Copy, Debug, PartialEq, Eq, Structural)]
pub enum TalkStep {
    /// The user was rewarded within the interval: nothing more happens.
    Done,
    /// The user is looked up, to register or to refresh.
    LookUpUser,
}

/// Decides the reward for talking by the user's talk mark: a user whose mark
/// is set gets nothing; any other is looked up.
pub fn talk_start(mark_set: bool) -> (r: TalkStep)
    ensures
        r == (if mark_set {
            TalkStep::Done
        } else {
            TalkStep::LookUpUser
        }),
{
    if mark_set {
        TalkStep::Done
    } else {
        TalkStep::LookUpUser
    }
}

/// The reward for talking of a user without a talk mark.
#[derive(Clone, Copy, Debug, PartialEq, Eq, Structural)]
pub struct TalkReward {
    /// Whether the user is new and gets a row with `STARTING_CURRENCY`;
    /// otherwise the row's cached name is refreshed.
    pub register: bool,
    /// The credits earned.
    pub amount: i64,
}

/// Decides the reward of a looked-up user, given the number of rows the user
/// has: a user without a row is registered; every user earns the drawn
/// reward.
pub fn talk_reward(rows_for_user: u32) -> (r: TalkReward)
    ensures
        r.register == (rows_for_user == 0),
        MIN_CURRENCY_EARNED <= r.amount <= MAX_CURRENCY_EARNED,
{
    TalkReward { register: rows_for_user == 0, amount: passive_reward() }
}

/// Draws the reward for talking.
pub fn passive_reward() -> (r: i64)
    ensures
        MIN_CURRENCY_EARNED <= r <= MAX_CURRENCY_EARNED,
{
    let earned = random_in(MIN_CURRENCY_EARNED, MAX_CURRENCY_EARNED);
    earned as i64
}

/// The Redis key that marks a user's talk reward as recent.
pub fn talk_key(user_id: u64) -> (r: String)
    ensures
        r@ == nat_text(user_id as nat) + ":talk"@,
{
    let mut s = crate::text::u64_text(user_id);
    s.append(":talk");
    s
}

/// The Redis key that marks a user's use of a command as recent.
pub fn cooldown_key(user_id: u64, command: &str) -> (r: String)
    ensures
        r@ == nat_text(user_id as nat) + ":"@ + command@,
{
    let mut s = crate::text::u64_text(user_id);
    s.append(":");
    s.append(command);
    s
}

/// Cool-down keys of different users or different commands differ: the
/// user's digits end at the first `:`.
pub proof fn law_cooldown_keys_distinct(user: u64, command: Seq<char>, other_user: u64, other_command: Seq<char>)
    requires
        nat_text(user as nat) + ":"@ + command == nat_text(other_user as nat) + ":"@ + other_command,
    ensures
        user == other_user,
        command == other_command,
{
    reveal_strlit(":");
    let a = nat_text(user as nat);
    let b = nat_text(other_user as nat);
    lemma_nat_text(user as nat);
    lemma_nat_text(other_user as nat);
    let l = a + ":"@ + command;
    let r = b + ":"@ + other_command;
    if a.len() < b.len() {
        assert(l[a.len() as int] == ':');
        assert(r[a.len() as int] == b[a.len() as int]);
        assert(is_digit(b[a.len() as int]));
    } else if b.len() < a.len() {
        assert(r[b.len() as int] == ':');
        assert(l[b.len() as int] == a[b.len() as int]);
        assert(is_digit(a[b.len() as int]));
    }
    assert(a =~= l.subrange(0, a.len() as int));
    assert(b =~= r.subrange(0, b.len() as int));
    assert(command =~= l.skip((a.len() + 1) as int));
    assert(other_command =~= r.skip((b.len() + 1) as int));
    law_unsigned_round_trip(user);
    law_unsigned_round_trip(other_user);
}

/// Two uses of a command: the first, with no mark, is allowed (and sets the
/// mark to its time `n`); a later use at `later < n + cooldown_length`, while
/// the mark stands, is refused with the `n + cooldown_length - later`
/// seconds left, a positive count.
pub proof fn law_cooldown_two_uses(n: i64, later: i64, cooldown_length: usize)
    requires
        0 <= n,
        n + cooldown_length <= i64::MAX,
        n + cooldown_length <= usize::MAX,
        n <= later < n + cooldown_length,
    ensures
        cooldown_spec(None, cooldown_length, n) is Ok,
        cooldown_in_range(Some(n as usize), cooldown_length, later),
        cooldown_spec(Some(n as usize), cooldown_length, later) == Err::<(), Error>(
            Error::Cooldown((n + cooldown_length - later) as i64),
        ),
        n + cooldown_length - later > 0,
{
}

/// Whether the arithmetic of a cool-down check stays inside its types.
pub open spec fn cooldown_in_range(stored: Option<usize>, cooldown_length: usize, now: i64) -> bool {
    match stored {
        None => true,
        Some(t) => t + cooldown_length <= usize::MAX && i64::MIN <= ((t + cooldown_length) as i64)
            - now <= i64::MAX,
    }
}

/// A use of a command while its cool-down mark is set is refused with the
/// seconds left until the mark's time plus the cool-down; without a mark it is
/// allowed.
pub open spec fn cooldown_spec(stored: Option<usize>, cooldown_length: usize, now: i64) -> Result<
    (),
    Error,
> {
    match stored {
        None => Ok(()),
        Some(t) => Err(Error::Cooldown((((t + cooldown_length) as i64) - now) as i64)),
    }
}

/// A command is refused exactly while its cool-down mark is set.
pub proof fn law_cooldown(stored: Option<usize>, cooldown_length: usize, now: i64)
    ensures
        (cooldown_spec(stored, cooldown_length, now) is Ok) == (stored is None),
        stored matches Some(t) ==> cooldown_spec(stored, cooldown_length, now) matches Err(
            Error::Cooldown(_),
        ),
{
}

/// Decides a use of a command given its cool-down mark (the time of the last
/// use, where it is still set).
pub fn check_cooldown(stored: Option<usize>, cooldown_length: usize, now: i64) -> (r: Result<
    (),
    Error,
>)
    requires
        cooldown_in_range(stored, cooldown_length, now),
    ensures
        r == cooldown_spec(stored, cooldown_length, now),
{
    match stored {
        None => Ok(()),
        Some(t) => {
            let end: i64 = (t + cooldown_length) as i64;
            Err(Error::Cooldown(end - now))
        },
    }
}

/// Reads the clock and decides a use of a command now. Gives the time read
/// (what the new mark holds), and the decision where its arithmetic stays
/// inside its types (`None` where it does not).
pub fn check_cooldown_now(stored: Option<usize>, cooldown_length: usize) -> (r: (
    i64,
    Option<Result<(), Error>>,
))
    ensures
        match r.1 {
            Some(d) => cooldown_in_range(stored, cooldown_length, r.0) && d == cooldown_spec(
                stored,
                cooldown_length,
                r.0,
            ),
            None => !cooldown_in_range(stored, cooldown_length, r.0),
        },
{
    let now = now_timestamp();
    let fits = match stored {
        None => true,
        Some(t) => {
            if t as u128 + cooldown_length as u128 > usize::MAX as u128 {
                false
            } else {
                let end: i64 = (t + cooldown_length) as i64;
                let diff: i128 = end as i128 - now as i128;
                -0x8000_0000_0000_0000i128 <= diff && diff <= 0x7fff_ffff_ffff_ffffi128
            }
        },
    };
    if fits {
        (now, Some(check_cooldown(stored, cooldown_length, now)))
    } else {
        (now, None)
    }
}

} // verus!
