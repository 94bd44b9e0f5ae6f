//! The slot machine: the stake a user names, the wheels and their spin, what
//! the payout row is worth, and the answer.
use vstd::prelude::*;
use vstd::utf8::encode_utf8;

use crate::error::Error;
use crate::model::{Emoji, Icon};
use crate::outside::random_in;
use crate::text::{
    all_digits, append_i64, digits_value, is_digit, join, lemma_utf8_ascii_head, nat_text, parse_i64,
    parse_i64_spec, str_views, string_views, u64_text,
};
use crate::util::{currency_text, format_currency};

verus! {

/// The stake where none is named, and the least stake.
pub const DEFAULT_AMOUNT: i64 = 10;

/// The greatest stake.
pub const MAX_AMOUNT: i64 = 10_000_000_000;

/// The user who takes the winnings of a row of three Whatsapp Spencers.
pub const SPENCER_ID: u64 = 439862794511450133;

/// The number of wheels.
pub const WHEEL_COUNT: usize = 3;

/// The number of icons on a wheel.
pub const WHEEL_SIZE: usize = 28;

/// The number of icons of a wheel that a spin shows.
pub const WINDOW: usize = 5;

/// The row of the window that pays.
pub const PAYOUT_ROW: usize = 2;

/// The factor that a stake's last character stands for: `k` a thousand, `m` a
/// million, any other 1.
pub open spec fn suffix_factor(c: char) -> int {
    if c == 'k' {
        1000
    } else if c == 'm' {
        1_000_000
    } else {
        1
    }
}

/// The number part of a stake: as many characters from the front as the
/// stake has UTF-8 bytes, less one where it ends in a suffix.
pub open spec fn stake_digits(arg: Seq<char>) -> Seq<char> {
    let cut = if arg.last() == 'k' || arg.last() == 'm' {
        1int
    } else {
        0
    };
    let n = encode_utf8(arg).len() - cut;
    if n < arg.len() {
        arg.take(n)
    } else {
        arg
    }
}

/// The stake that a word names, before it is bounded: the balance for
/// `all`, else its number times the suffix's factor; `None` where the number
/// does not parse.
pub open spec fn named_stake(arg: Seq<char>, credits: i64) -> Option<int> {
    if arg == "all"@ {
        Some(credits as int)
    } else {
        match parse_i64_spec(stake_digits(arg)) {
            Some(v) => Some(v * suffix_factor(arg.last())),
            None => None,
        }
    }
}

/// Whether reading the stake stays inside its types: the word is not empty
/// and its number times the factor fits an `i64`.
pub open spec fn stake_in_range(positional: Seq<Seq<char>>, credits: i64) -> bool {
    positional.len() > 0 ==> {
        &&& positional[0].len() > 0
        &&& named_stake(positional[0], credits) matches Some(a) ==> i64::MIN <= a <= i64::MAX
    }
}

/// A stake bounded to `DEFAULT_AMOUNT..=MAX_AMOUNT`.
pub open spec fn bounded_stake(a: int) -> int {
    if a < DEFAULT_AMOUNT {
        DEFAULT_AMOUNT as int
    } else if a > MAX_AMOUNT {
        MAX_AMOUNT as int
    } else {
        a
    }
}

/// The stake of a gamble: `DEFAULT_AMOUNT` where no word is given, else the
/// stake the first word names, bounded; `ParseInt` where it does not parse.
pub open spec fn stake_spec(positional: Seq<Seq<char>>, credits: i64) -> Result<i64, Error> {
    if positional.len() == 0 {
        Ok(DEFAULT_AMOUNT)
    } else {
        match named_stake(positional[0], credits) {
            Some(a) => Ok(bounded_stake(a) as i64),
            None => Err(Error::ParseInt),
        }
    }
}

/// Whether reading the stake stays inside its types.
pub fn stake_fits(positional: &Vec<&str>, credits: i64) -> (r: bool)
    ensures
        r == stake_in_range(str_views(positional@), credits),
{
    if positional.len() == 0 {
        return true;
    }
    let arg = positional[0];
    let n = arg.unicode_len();
    if n == 0 {
        return false;
    }
    if String::from_str(arg) == String::from_str("all") {
        return true;
    }
    let last = arg.get_char(n - 1);
    let digits = stake_digits_of(arg);
    match parse_i64(digits) {
        Some(v) => {
            let f: i128 = if last == 'k' {
                1000
            } else if last == 'm' {
                1_000_000
            } else {
                1
            };
            let a: i128 = (v as i128) * f;
            -0x8000_0000_0000_0000i128 <= a && a <= 0x7fff_ffff_ffff_ffffi128
        },
        None => true,
    }
}

fn stake_digits_of(arg: &str) -> (r: &str)
    requires
        arg@.len() > 0,
    ensures
        r@ == stake_digits(arg@),
{
    let n = arg.unicode_len();
    let last = arg.get_char(n - 1);
    let bytes = arg.as_bytes().len();
    let cut: usize = if last == 'k' || last == 'm' {
        1
    } else {
        0
    };
    let keep = bytes - cut;
    if keep < n {
        arg.substring_char(0, keep)
    } else {
        proof {
            assert(arg@.subrange(0, n as int) == arg@);
        }
        arg.substring_char(0, n)
    }
}

/// Reads the stake of a gamble from its arguments, given the balance.
pub fn gamble_amount(positional: &Vec<&str>, credits: i64) -> (r: Result<i64, Error>)
    requires
        stake_in_range(str_views(positional@), credits),
    ensures
        r == stake_spec(str_views(positional@), credits),
{
    if positional.len() == 0 {
        return Ok(DEFAULT_AMOUNT);
    }
    let arg = positional[0];
    let mut amount: i64 = if String::from_str(arg) == String::from_str("all") {
        credits
    } else {
        let n = arg.unicode_len();
        let last = arg.get_char(n - 1);
        let factor: i64 = if last == 'k' {
            1000
        } else if last == 'm' {
            1_000_000
        } else {
            1
        };
        let digits = stake_digits_of(arg);
        match parse_i64(digits) {
            Some(v) => v * factor,
            None => return Err(Error::ParseInt),
        }
    };
    if amount < DEFAULT_AMOUNT {
        amount = DEFAULT_AMOUNT;
    }
    if amount > MAX_AMOUNT {
        amount = MAX_AMOUNT;
    }
    Ok(amount)
}

/// A stake that the balance does not cover is refused with the shortfall.
pub fn check_funds(credits: i64, amount: i64) -> (r: Result<(), Error>)
    requires
        credits < amount ==> amount - credits <= i64::MAX,
    ensures
        r == (if credits < amount {
            Err(Error::Broke((amount - credits) as i64))
        } else {
            Ok(())
        }),
{
    if credits < amount {
        return Err(Error::Broke(amount - credits));
    }
    Ok(())
}

/// A stake, once read, lies in `DEFAULT_AMOUNT..=MAX_AMOUNT`.
pub proof fn law_stake_bounded(positional: Seq<Seq<char>>, credits: i64)
    ensures
        stake_spec(positional, credits) matches Ok(a) ==> DEFAULT_AMOUNT <= a <= MAX_AMOUNT,
{
}

/// A named stake is kept as named where it already lies in
/// `DEFAULT_AMOUNT..=MAX_AMOUNT`; a smaller one becomes `DEFAULT_AMOUNT`, a
/// larger one `MAX_AMOUNT`; and no word means `DEFAULT_AMOUNT`.
pub proof fn law_stake_kept_within_bounds(positional: Seq<Seq<char>>, credits: i64)
    ensures
        positional.len() == 0 ==> stake_spec(positional, credits) == Ok::<i64, Error>(DEFAULT_AMOUNT),
        positional.len() > 0 ==> match named_stake(positional[0], credits) {
            Some(a) => {
                &&& DEFAULT_AMOUNT <= a <= MAX_AMOUNT ==> stake_spec(positional, credits) == Ok::<
                    i64,
                    Error,
                >(a as i64)
                &&& a < DEFAULT_AMOUNT ==> stake_spec(positional, credits) == Ok::<i64, Error>(
                    DEFAULT_AMOUNT,
                )
                &&& a > MAX_AMOUNT ==> stake_spec(positional, credits) == Ok::<i64, Error>(
                    MAX_AMOUNT,
                )
            },
            None => stake_spec(positional, credits) == Err::<i64, Error>(Error::ParseInt),
        },
{
}

/// Whether every character of a text is ASCII.
pub open spec fn all_ascii(s: Seq<char>) -> bool {
    forall|i: int| 0 <= i < s.len() ==> (#[trigger] s[i] as u32) < 128
}

proof fn lemma_ascii_utf8_len(s: Seq<char>)
    requires
        all_ascii(s),
    ensures
        encode_utf8(s).len() == s.len(),
    decreases s.len(),
{
    if s.len() > 0 {
        assert((s[0] as u32) < 128);
        lemma_utf8_ascii_head(s);
        assert forall|i: int| 0 <= i < s.drop_first().len() implies (#[trigger] s.drop_first()[i]
            as u32) < 128 by {
            assert(s.drop_first()[i] == s[i + 1]);
        }
        lemma_ascii_utf8_len(s.drop_first());
    }
}

proof fn lemma_digits_parse(d: Seq<char>)
    requires
        d.len() > 0,
        all_digits(d),
        digits_value(d) <= i64::MAX,
    ensures
        parse_i64_spec(d) == Some(digits_value(d) as i64),
        all_ascii(d),
{
    assert(is_digit(d[0]));
    assert forall|i: int| 0 <= i < d.len() implies (#[trigger] d[i] as u32) < 128 by {
        assert(is_digit(d[i]));
    }
}

/// A word of digits names its value as the stake, and a word of digits
/// followed by `k` or `m` names its value times a thousand or a million.
pub proof fn law_digit_stakes(d: Seq<char>, suffix: char, credits: i64)
    requires
        d.len() > 0,
        all_digits(d),
        digits_value(d) <= i64::MAX,
    ensures
        named_stake(d, credits) == Some(digits_value(d) as int),
        (suffix == 'k' || suffix == 'm') ==> named_stake(d.push(suffix), credits) == Some(
            digits_value(d) * (if suffix == 'k' {
                1000int
            } else {
                1_000_000int
            }),
        ),
        DEFAULT_AMOUNT <= digits_value(d) <= MAX_AMOUNT ==> stake_spec(seq![d], credits) == Ok::<
            i64,
            Error,
        >(digits_value(d) as i64),
{
    reveal_strlit("all");
    lemma_digits_parse(d);
    lemma_ascii_utf8_len(d);
    assert(is_digit(d.last()));
    assert(d != "all"@) by {
        assert(is_digit(d[0]));
        assert("all"@[0] == 'a');
    }
    assert(stake_digits(d) == d);
    if suffix == 'k' || suffix == 'm' {
        let w = d.push(suffix);
        assert forall|i: int| 0 <= i < w.len() implies (#[trigger] w[i] as u32) < 128 by {
            if i < d.len() {
                assert(w[i] == d[i]);
            }
        }
        lemma_ascii_utf8_len(w);
        assert(w.take(d.len() as int) == d);
        assert(w != "all"@) by {
            assert(w[0] == d[0]);
            assert(is_digit(d[0]));
            assert("all"@[0] == 'a');
        }
        assert(stake_digits(w) == d);
    }
    assert(seq![d][0] == d);
}

/// The icons of the three wheels, each of `WHEEL_SIZE`.
pub open spec fn wheel(w: int) -> Seq<Icon> {
    if w == 0 {
        seq![
            Icon::Whatsapp,
            Icon::Troll,
            Icon::WhatsappGold,
            Icon::Moosh,
            Icon::Moosh,
            Icon::JointOLantern,
            Icon::Reaper,
            Icon::WhatsappSpencer,
            Icon::Fabio,
            Icon::WhatsappSpencer,
            Icon::Reaper,
            Icon::Whatsapp,
            Icon::Fabio,
            Icon::Troll,
            Icon::Troll,
            Icon::Reaper,
            Icon::Troll,
            Icon::Fabio,
            Icon::WhatsappSpencer,
            Icon::TheDollar,
            Icon::TheDollar,
            Icon::Fabio,
            Icon::Fabio,
            Icon::Moosh,
            Icon::TheDollar,
            Icon::Reaper,
            Icon::JointOLantern,
            Icon::Reaper,
        ]
    } else if w == 1 {
        seq![
            Icon::Reaper,
            Icon::Whatsapp,
            Icon::Moosh,
            Icon::Fabio,
            Icon::Troll,
            Icon::Moosh,
            Icon::Reaper,
            Icon::Whatsapp,
            Icon::Fabio,
            Icon::WhatsappSpencer,
            Icon::Troll,
            Icon::JointOLantern,
            Icon::JointOLantern,
            Icon::Reaper,
            Icon::Reaper,
            Icon::Fabio,
            Icon::WhatsappGold,
            Icon::TheDollar,
            Icon::Moosh,
            Icon::WhatsappSpencer,
            Icon::Troll,
            Icon::Reaper,
            Icon::Troll,
            Icon::Fabio,
            Icon::TheDollar,
            Icon::WhatsappSpencer,
            Icon::TheDollar,
            Icon::Fabio,
        ]
    } else {
        seq![
            Icon::WhatsappSpencer,
            Icon::TheDollar,
            Icon::Reaper,
            Icon::WhatsappSpencer,
            Icon::Troll,
            Icon::Moosh,
            Icon::JointOLantern,
            Icon::Fabio,
            Icon::Fabio,
            Icon::Reaper,
            Icon::Troll,
            Icon::Fabio,
            Icon::Troll,
            Icon::Whatsapp,
            Icon::Reaper,
            Icon::Fabio,
            Icon::Reaper,
            Icon::Moosh,
            Icon::Moosh,
            Icon::Troll,
            Icon::WhatsappGold,
            Icon::Fabio,
            Icon::TheDollar,
            Icon::JointOLantern,
            Icon::Whatsapp,
            Icon::Reaper,
            Icon::WhatsappSpencer,
            Icon::TheDollar,
        ]
    }
}

/// The icons of wheel `w`.
pub fn wheel_icons(w: usize) -> (r: Vec<Icon>)
    requires
        w < WHEEL_COUNT,
    ensures
        r@ == wheel(w as int),
{
    if w == 0 {
        vec![
            Icon::Whatsapp,
            Icon::Troll,
            Icon::WhatsappGold,
            Icon::Moosh,
            Icon::Moosh,
            Icon::JointOLantern,
            Icon::Reaper,
            Icon::WhatsappSpencer,
            Icon::Fabio,
            Icon::WhatsappSpencer,
            Icon::Reaper,
            Icon::Whatsapp,
            Icon::Fabio,
            Icon::Troll,
            Icon::Troll,
            Icon::Reaper,
            Icon::Troll,
            Icon::Fabio,
            Icon::WhatsappSpencer,
            Icon::TheDollar,
            Icon::TheDollar,
            Icon::Fabio,
            Icon::Fabio,
            Icon::Moosh,
            Icon::TheDollar,
            Icon::Reaper,
            Icon::JointOLantern,
            Icon::Reaper,
        ]
    } else if w == 1 {
        vec![
            Icon::Reaper,
            Icon::Whatsapp,
            Icon::Moosh,
            Icon::Fabio,
            Icon::Troll,
            Icon::Moosh,
            Icon::Reaper,
            Icon::Whatsapp,
            Icon::Fabio,
            Icon::WhatsappSpencer,
            Icon::Troll,
            Icon::JointOLantern,
            Icon::JointOLantern,
            Icon::Reaper,
            Icon::Reaper,
            Icon::Fabio,
            Icon::WhatsappGold,
            Icon::TheDollar,
            Icon::Moosh,
            Icon::WhatsappSpencer,
            Icon::Troll,
            Icon::Reaper,
            Icon::Troll,
            Icon::Fabio,
            Icon::TheDollar,
            Icon::WhatsappSpencer,
            Icon::TheDollar,
            Icon::Fabio,
        ]
    } else {
        vec![
            Icon::WhatsappSpencer,
            Icon::TheDollar,
            Icon::Reaper,
            Icon::WhatsappSpencer,
            Icon::Troll,
            Icon::Moosh,
            Icon::JointOLantern,
            Icon::Fabio,
            Icon::Fabio,
            Icon::Reaper,
            Icon::Troll,
            Icon::Fabio,
            Icon::Troll,
            Icon::Whatsapp,
            Icon::Reaper,
            Icon::Fabio,
            Icon::Reaper,
            Icon::Moosh,
            Icon::Moosh,
            Icon::Troll,
            Icon::WhatsappGold,
            Icon::Fabio,
            Icon::TheDollar,
            Icon::JointOLantern,
            Icon::Whatsapp,
            Icon::Reaper,
            Icon::WhatsappSpencer,
            Icon::TheDollar,
        ]
    }
}

/// The wheel index shown in row `j` of a window that starts at `pos`; past
/// the end it wraps round by the wheel's size less one.
pub open spec fn window_index(pos: int, j: int) -> int {
    let p = pos + j;
    if p > WHEEL_SIZE - 1 {
        p % (WHEEL_SIZE - 1) as int
    } else {
        p
    }
}

/// The icons that wheel `w` shows when it stops at `pos`.
pub open spec fn window(w: int, pos: int) -> Seq<Icon> {
    Seq::new(WINDOW as nat, |j: int| wheel(w)[window_index(pos, j)])
}

/// The icons that wheel `w` shows when it stops at `pos`.
pub fn wheel_window(w: usize, pos: usize) -> (r: Vec<Icon>)
    requires
        w < WHEEL_COUNT,
        pos < WHEEL_SIZE,
    ensures
        r@ == window(w as int, pos as int),
{
    let icons = wheel_icons(w);
    let mut out: Vec<Icon> = Vec::new();
    let mut j: usize = 0;
    while j < WINDOW
        invariant
            j <= WINDOW,
            pos < WHEEL_SIZE,
            icons@ == wheel(w as int),
            icons@.len() == WHEEL_SIZE,
            out@ == window(w as int, pos as int).take(j as int),
        decreases WINDOW - j,
    {
        let p = pos + j;
        let idx = if p > WHEEL_SIZE - 1 {
            p % (WHEEL_SIZE - 1)
        } else {
            p
        };
        out.push(icons[idx]);
        proof {
            assert(out@ =~= window(w as int, pos as int).take(j + 1));
        }
        j = j + 1;
    }
    proof {
        assert(window(w as int, pos as int).take(WINDOW as int) =~= window(w as int, pos as int));
    }
    out
}

/// Whether some stop of wheel `w` shows `icons`.
pub open spec fn shows_a_window(icons: Seq<Icon>, w: int) -> bool {
    exists|pos: int| 0 <= pos < WHEEL_SIZE && icons == window(w, pos)
}

/// Spins the three wheels: each stops at a random place and shows its
/// window.
pub fn spin() -> (r: Vec<Vec<Icon>>)
    ensures
        r@.len() == WHEEL_COUNT,
        forall|w: int| 0 <= w < WHEEL_COUNT ==> shows_a_window((#[trigger] r@[w])@, w),
{
    let mut wheels: Vec<Vec<Icon>> = Vec::new();
    let mut w: usize = 0;
    while w < WHEEL_COUNT
        invariant
            w <= WHEEL_COUNT,
            wheels@.len() == w,
            forall|k: int| 0 <= k < w ==> shows_a_window((#[trigger] wheels@[k])@, k),
        decreases WHEEL_COUNT - w,
    {
        let pos = random_in(0, WHEEL_SIZE - 1);
        let shown = wheel_window(w, pos);
        let ghost prev = wheels@;
        proof {
            assert(shows_a_window(shown@, w as int));
        }
        wheels.push(shown);
        proof {
            assert forall|k: int| 0 <= k < w + 1 implies shows_a_window(
                (#[trigger] wheels@[k])@,
                k,
            ) by {
                if k < w {
                    assert(wheels@[k] == prev[k]);
                }
            }
        }
        w = w + 1;
    }
    wheels
}

/// Whether spun wheels have the shape of a spin: three windows of five.
pub open spec fn spun(wheels: Seq<Vec<Icon>>) -> bool {
    &&& wheels.len() == WHEEL_COUNT
    &&& forall|w: int| 0 <= w < WHEEL_COUNT ==> (#[trigger] wheels[w])@.len() == WINDOW
}

/// A spin has the shape of a spin.
pub proof fn law_spin_shape(wheels: Seq<Vec<Icon>>)
    requires
        wheels.len() == WHEEL_COUNT,
        forall|w: int| 0 <= w < WHEEL_COUNT ==> shows_a_window((#[trigger] wheels[w])@, w),
    ensures
        spun(wheels),
{
    assert forall|w: int| 0 <= w < WHEEL_COUNT implies (#[trigger] wheels[w])@.len() == WINDOW by {
        assert(shows_a_window(wheels[w]@, w));
        let pos = choose|pos: int| 0 <= pos < WHEEL_SIZE && wheels[w]@ == window(w, pos);
    }
}

/// The special rows of three.
#[derive(Clone, Copy, Debug, PartialEq, Eq, Structural)]
pub enum GambleEvent {
    /// No special row.
    Plain,
    /// Three of the dollar: the payout is 1.
    Dollar,
    /// Three Whatsapp Spencers: Spencer takes the winnings.
    Spencer,
}

/// Whether the three icons of the payout row share one name.
pub open spec fn three_of_a_kind(row: Seq<Icon>) -> bool {
    row[1].spec_name() == row[0].spec_name() && row[2].spec_name() == row[0].spec_name()
}

/// The event of a payout row.
pub open spec fn event_of(row: Seq<Icon>) -> GambleEvent {
    if three_of_a_kind(row) && row[0] == Icon::TheDollar {
        GambleEvent::Dollar
    } else if three_of_a_kind(row) && row[0] == Icon::WhatsappSpencer {
        GambleEvent::Spencer
    } else {
        GambleEvent::Plain
    }
}

/// The payout row of a spin: the icon in the paying row of each wheel.
pub open spec fn payout_row(wheels: Seq<Vec<Icon>>) -> Seq<Icon> {
    seq![
        wheels[0]@[PAYOUT_ROW as int],
        wheels[1]@[PAYOUT_ROW as int],
        wheels[2]@[PAYOUT_ROW as int],
    ]
}

/// The payout row of a spin.
pub fn payout_icons(wheels: &Vec<Vec<Icon>>) -> (r: Vec<Icon>)
    requires
        spun(wheels@),
    ensures
        r@ == payout_row(wheels@),
{
    proof {
        assert(wheels@[0]@.len() == WINDOW);
        assert(wheels@[1]@.len() == WINDOW);
        assert(wheels@[2]@.len() == WINDOW);
    }
    let a = wheels[0][PAYOUT_ROW];
    let b = wheels[1][PAYOUT_ROW];
    let c = wheels[2][PAYOUT_ROW];
    let r = vec![a, b, c];
    proof {
        assert(r@ =~= payout_row(wheels@));
    }
    r
}

/// Whether the three icons share one name.
pub fn is_three_of_a_kind(row: &Vec<Icon>) -> (r: bool)
    requires
        row@.len() == 3,
    ensures
        r == three_of_a_kind(row@),
{
    let first = String::from_str(row[0].name());
    String::from_str(row[1].name()) == first && String::from_str(row[2].name()) == first
}

/// The event of a payout row.
pub fn gamble_event(row: &Vec<Icon>) -> (r: GambleEvent)
    requires
        row@.len() == 3,
    ensures
        r == event_of(row@),
{
    let same = is_three_of_a_kind(row);
    if same && row[0] == Icon::TheDollar {
        GambleEvent::Dollar
    } else if same && row[0] == Icon::WhatsappSpencer {
        GambleEvent::Spencer
    } else {
        GambleEvent::Plain
    }
}

/// Icons with the same name are the same icon.
pub proof fn law_names_tell_icons_apart(a: Icon, b: Icon)
    ensures
        (a.spec_name() == b.spec_name()) == (a == b),
{
    reveal_strlit("Moosh");
    reveal_strlit("Fabio");
    reveal_strlit("Reaper");
    reveal_strlit("Troll");
    reveal_strlit("Whatsapp Spencer");
    reveal_strlit("Whatsapp");
    reveal_strlit("Whatsapp Gold");
    reveal_strlit("the dollar");
    reveal_strlit("joint-o-lantern");
    broadcast use vstd::string::group_string_axioms;

    assert("Moosh"@.len() == 5 && "Fabio"@.len() == 5 && "Reaper"@.len() == 6 && "Troll"@.len() == 5 && "Whatsapp Spencer"@.len() == 16 && "Whatsapp"@.len() == 8 && "Whatsapp Gold"@.len() == 13 && "the dollar"@.len() == 10 && "joint-o-lantern"@.len() == 15);
    assert("Moosh"@[0] == 'M' && "Fabio"@[0] == 'F' && "Troll"@[0] == 'T');
}

/// A row is three of a kind exactly when its three icons are the same; it is
/// the dollar's row exactly when all three are the dollar, and Spencer's
/// exactly when all three are Whatsapp Spencer.
pub proof fn law_rows_of_three(row: Seq<Icon>)
    requires
        row.len() == 3,
    ensures
        three_of_a_kind(row) == (row[0] == row[1] && row[1] == row[2]),
        (event_of(row) == GambleEvent::Dollar) == (row[0] == Icon::TheDollar && row[1]
            == Icon::TheDollar && row[2] == Icon::TheDollar),
        (event_of(row) == GambleEvent::Spencer) == (row[0] == Icon::WhatsappSpencer && row[1]
            == Icon::WhatsappSpencer && row[2] == Icon::WhatsappSpencer),
{
    law_names_tell_icons_apart(row[0], row[1]);
    law_names_tell_icons_apart(row[0], row[2]);
}

/// The terms of the payout multiplier, in tenths and in the order they are
/// added: a row of three adds its row value, Spencer's row one more whole;
/// a row with no event adds each icon's own value.
pub open spec fn multiplier_terms(row: Seq<Icon>) -> Seq<u32> {
    (if three_of_a_kind(row) {
        seq![row[0].spec_multipliers().1] + if event_of(row) == GambleEvent::Spencer {
            seq![10u32]
        } else {
            seq![]
        }
    } else {
        seq![]
    }) + if event_of(row) == GambleEvent::Plain {
        seq![
            row[0].spec_multipliers().0,
            row[1].spec_multipliers().0,
            row[2].spec_multipliers().0,
        ]
    } else {
        seq![]
    }
}

/// The terms of the payout multiplier, in tenths and in the order they are
/// added.
pub fn payout_terms(row: &Vec<Icon>) -> (r: Vec<u32>)
    requires
        row@.len() == 3,
    ensures
        r@ == multiplier_terms(row@),
{
    let same = is_three_of_a_kind(row);
    let event = gamble_event(row);
    let mut terms: Vec<u32> = Vec::new();
    if same {
        terms.push(row[0].multipliers().1);
        if event == GambleEvent::Spencer {
            terms.push(10);
        }
    }
    if event == GambleEvent::Plain {
        terms.push(row[0].multipliers().0);
        terms.push(row[1].multipliers().0);
        terms.push(row[2].multipliers().0);
    }
    proof {
        assert(terms@ =~= multiplier_terms(row@));
    }
    terms
}

/// The decimal text of a number of tenths: the whole part, and a point and
/// the tenth where it is not 0.
pub open spec fn tenths_text(t: nat) -> Seq<char> {
    if t % 10 == 0 {
        nat_text(t / 10)
    } else {
        nat_text(t / 10) + "."@ + nat_text(t % 10)
    }
}

fn tenths(t: u32) -> (r: String)
    ensures
        r@ == tenths_text(t as nat),
{
    let mut s = u64_text((t / 10) as u64);
    if t % 10 != 0 {
        s.append(".");
        let d = u64_text((t % 10) as u64);
        s.append(d.as_str());
    }
    s
}

/// The line that tells what a row of three pays.
pub open spec fn three_line(row: Seq<Icon>) -> Seq<char> {
    match event_of(row) {
        GambleEvent::Dollar => "the dollar"@,
        GambleEvent::Spencer => "3 spencer bonus: spencer stole all your winnings"@,
        GambleEvent::Plain => "**MATCH 3 BONUS** "@ + row[0].spec_name() + ": **"@ + tenths_text(
            row[0].spec_multipliers().1 as nat,
        ) + "**x"@,
    }
}

/// The line that tells what one icon pays.
pub open spec fn icon_line(icon: Icon) -> Seq<char> {
    icon.spec_name() + ": "@ + tenths_text(icon.spec_multipliers().0 as nat) + "x"@
}

/// The lines that tell what the payout row pays, in the order of its terms.
pub open spec fn payout_lines(row: Seq<Icon>) -> Seq<Seq<char>> {
    (if three_of_a_kind(row) {
        seq![three_line(row)]
    } else {
        seq![]
    }) + if event_of(row) == GambleEvent::Plain {
        seq![icon_line(row[0]), icon_line(row[1]), icon_line(row[2])]
    } else {
        seq![]
    }
}

/// What the payout row adds up, term by term, in tenths: a row that is not
/// three of a kind adds each of its three icons' own values, in order; three
/// of a kind with no event adds the row value and then the three own values;
/// three dollars add only the dollar's row value 0; three Spencers add their
/// row value 0 and one whole.
pub proof fn law_payout_terms(row: Seq<Icon>)
    requires
        row.len() == 3,
    ensures
        !(row[0] == row[1] && row[1] == row[2]) ==> multiplier_terms(row) == seq![
            row[0].spec_multipliers().0,
            row[1].spec_multipliers().0,
            row[2].spec_multipliers().0,
        ],
        (row[0] == row[1] && row[1] == row[2] && row[0] != Icon::TheDollar && row[0]
            != Icon::WhatsappSpencer) ==> multiplier_terms(row) == seq![
            row[0].spec_multipliers().1,
            row[0].spec_multipliers().0,
            row[0].spec_multipliers().0,
            row[0].spec_multipliers().0,
        ],
        (row[0] == Icon::TheDollar && row[1] == Icon::TheDollar && row[2] == Icon::TheDollar)
            ==> multiplier_terms(row) == seq![0u32],
        (row[0] == Icon::WhatsappSpencer && row[1] == Icon::WhatsappSpencer && row[2]
            == Icon::WhatsappSpencer) ==> multiplier_terms(row) == seq![0u32, 10u32],
{
    law_rows_of_three(row);
    if !(row[0] == row[1] && row[1] == row[2]) {
        assert(multiplier_terms(row) =~= seq![
            row[0].spec_multipliers().0,
            row[1].spec_multipliers().0,
            row[2].spec_multipliers().0,
        ]);
    } else if row[0] != Icon::TheDollar && row[0] != Icon::WhatsappSpencer {
        assert(multiplier_terms(row) =~= seq![
            row[0].spec_multipliers().1,
            row[0].spec_multipliers().0,
            row[0].spec_multipliers().0,
            row[0].spec_multipliers().0,
        ]);
    } else if row[0] == Icon::TheDollar {
        assert(multiplier_terms(row) =~= seq![0u32]);
    } else {
        assert(multiplier_terms(row) =~= seq![0u32, 10u32]);
    }
}

/// What the payout row is told as, line by line: a row that is not three of
/// a kind gets one line per icon, in order; three of a kind with no event
/// gets a bonus line and then one line per icon; three dollars and three
/// Spencers get one line each.
pub proof fn law_payout_lines(row: Seq<Icon>)
    requires
        row.len() == 3,
    ensures
        !(row[0] == row[1] && row[1] == row[2]) ==> payout_lines(row) == seq![
            icon_line(row[0]),
            icon_line(row[1]),
            icon_line(row[2]),
        ],
        (row[0] == row[1] && row[1] == row[2] && row[0] != Icon::TheDollar && row[0]
            != Icon::WhatsappSpencer) ==> (payout_lines(row).len() == 4 && payout_lines(row).skip(1)
            == seq![icon_line(row[0]), icon_line(row[0]), icon_line(row[0])]),
        (row[0] == Icon::TheDollar && row[1] == Icon::TheDollar && row[2] == Icon::TheDollar)
            ==> payout_lines(row) == seq!["the dollar"@],
        (row[0] == Icon::WhatsappSpencer && row[1] == Icon::WhatsappSpencer && row[2]
            == Icon::WhatsappSpencer) ==> payout_lines(row) == seq![
            "3 spencer bonus: spencer stole all your winnings"@,
        ],
{
    law_rows_of_three(row);
    if !(row[0] == row[1] && row[1] == row[2]) {
        assert(payout_lines(row) =~= seq![icon_line(row[0]), icon_line(row[1]), icon_line(row[2])]);
    } else if row[0] != Icon::TheDollar && row[0] != Icon::WhatsappSpencer {
        assert(payout_lines(row).skip(1) =~= seq![
            icon_line(row[0]),
            icon_line(row[0]),
            icon_line(row[0]),
        ]);
    } else if row[0] == Icon::TheDollar {
        assert(payout_lines(row) =~= seq!["the dollar"@]);
    } else {
        assert(payout_lines(row) =~= seq!["3 spencer bonus: spencer stole all your winnings"@]);
    }
}

fn icon_line_of(icon: Icon) -> (r: String)
    ensures
        r@ == icon_line(icon),
{
    let mut s = String::from_str(icon.name());
    s.append(": ");
    let m = tenths(icon.multipliers().0);
    s.append(m.as_str());
    s.append("x");
    s
}

/// The lines that tell what the payout row pays.
pub fn payout_information(row: &Vec<Icon>) -> (r: Vec<String>)
    requires
        row@.len() == 3,
    ensures
        string_views(r@) == payout_lines(row@),
{
    let same = is_three_of_a_kind(row);
    let event = gamble_event(row);
    let mut lines: Vec<String> = Vec::new();
    if same {
        let line = match event {
            GambleEvent::Dollar => String::from_str("the dollar"),
            GambleEvent::Spencer => String::from_str(
                "3 spencer bonus: spencer stole all your winnings",
            ),
            GambleEvent::Plain => {
                let mut s = String::from_str("**MATCH 3 BONUS** ");
                s.append(row[0].name());
                s.append(": **");
                let m = tenths(row[0].multipliers().1);
                s.append(m.as_str());
                s.append("**x");
                s
            },
        };
        lines.push(line);
    }
    if event == GambleEvent::Plain {
        lines.push(icon_line_of(row[0]));
        lines.push(icon_line_of(row[1]));
        lines.push(icon_line_of(row[2]));
    }
    proof {
        assert(string_views(lines@) =~= payout_lines(row@));
    }
    lines
}

/// How a gamble settles.
#[derive(Clone, Copy, Debug, PartialEq, Eq, Structural)]
pub struct Settlement {
    /// What the user is paid.
    pub payout: i64,
    /// The change of the user's balance.
    pub diff: i64,
    /// What Spencer is paid, on Spencer's row.
    pub spencer_credit: Option<i64>,
}

/// How a gamble of `amount` settles when the multiplied stake is `winnings`:
/// the dollar pays 1, Spencer's row pays nothing and hands the winnings to
/// Spencer, any other row pays the winnings.
pub open spec fn settle_spec(amount: i64, winnings: i64, event: GambleEvent) -> Settlement {
    let payout: i64 = match event {
        GambleEvent::Dollar => 1,
        GambleEvent::Spencer => 0,
        GambleEvent::Plain => winnings,
    };
    Settlement {
        payout,
        diff: (payout - amount) as i64,
        spencer_credit: if event == GambleEvent::Spencer {
            Some(winnings)
        } else {
            None
        },
    }
}

/// Settles a gamble.
pub fn settle(amount: i64, winnings: i64, event: GambleEvent) -> (r: Settlement)
    requires
        DEFAULT_AMOUNT <= amount <= MAX_AMOUNT,
        winnings >= 0,
    ensures
        r == settle_spec(amount, winnings, event),
{
    let payout: i64 = match event {
        GambleEvent::Dollar => 1,
        GambleEvent::Spencer => 0,
        GambleEvent::Plain => winnings,
    };
    Settlement {
        payout,
        diff: payout - amount,
        spencer_credit: if event == GambleEvent::Spencer {
            Some(winnings)
        } else {
            None
        },
    }
}

/// A row of three dollars or three Spencers always loses the user money, and
/// every settlement moves the balance by the payout less the stake.
pub proof fn law_settlement(amount: i64, winnings: i64, event: GambleEvent)
    requires
        DEFAULT_AMOUNT <= amount <= MAX_AMOUNT,
        winnings >= 0,
    ensures
        settle_spec(amount, winnings, event).diff == settle_spec(amount, winnings, event).payout
            - amount,
        event != GambleEvent::Plain ==> settle_spec(amount, winnings, event).diff < 0,
        settle_spec(amount, winnings, event).spencer_credit is Some <==> event
            == GambleEvent::Spencer,
{
}

/// What a gamble pays: a row with no event pays the winnings, whatever their
/// size; three dollars pay 1; three Spencers pay nothing and Spencer gets the
/// winnings.
pub proof fn law_settlement_payouts(amount: i64, winnings: i64)
    requires
        DEFAULT_AMOUNT <= amount <= MAX_AMOUNT,
        winnings >= 0,
    ensures
        settle_spec(amount, winnings, GambleEvent::Plain).payout == winnings,
        settle_spec(amount, winnings, GambleEvent::Plain).diff == winnings - amount,
        settle_spec(amount, winnings, GambleEvent::Plain).spencer_credit is None,
        settle_spec(amount, winnings, GambleEvent::Dollar).payout == 1,
        settle_spec(amount, winnings, GambleEvent::Dollar).diff == 1 - amount,
        settle_spec(amount, winnings, GambleEvent::Spencer).payout == 0,
        settle_spec(amount, winnings, GambleEvent::Spencer).diff == -amount,
        settle_spec(amount, winnings, GambleEvent::Spencer).spencer_credit == Some(winnings),
{
}

/// The text that a row of the display shows: a marker, the three wheels'
/// emoji, and a marker; the paying row is marked with arrows.
pub open spec fn display_line(wheels: Seq<Vec<Icon>>, i: int) -> Seq<char> {
    (if i == PAYOUT_ROW {
        "`>`"@
    } else {
        "` `"@
    }) + wheels[0]@[i].spec_emoji().markup() + wheels[1]@[i].spec_emoji().markup()
        + wheels[2]@[i].spec_emoji().markup() + (if i == PAYOUT_ROW {
        "`<`"@
    } else {
        "` `"@
    })
}

/// The rows of the display of a spin.
pub open spec fn display_lines(wheels: Seq<Vec<Icon>>) -> Seq<Seq<char>> {
    Seq::new(WINDOW as nat, |i: int| display_line(wheels, i))
}

/// Draws the display of a spin, row by row.
pub fn casino_display(wheels: &Vec<Vec<Icon>>) -> (r: Vec<String>)
    requires
        spun(wheels@),
    ensures
        string_views(r@) == display_lines(wheels@),
{
    proof {
        assert(wheels@[0]@.len() == WINDOW);
        assert(wheels@[1]@.len() == WINDOW);
        assert(wheels@[2]@.len() == WINDOW);
    }
    let mut lines: Vec<String> = Vec::new();
    let mut i: usize = 0;
    while i < WINDOW
        invariant
            i <= WINDOW,
            spun(wheels@),
            wheels@[0]@.len() == WINDOW,
            wheels@[1]@.len() == WINDOW,
            wheels@[2]@.len() == WINDOW,
            string_views(lines@) == display_lines(wheels@).take(i as int),
        decreases WINDOW - i,
    {
        let mut s = if i == PAYOUT_ROW {
            String::from_str("`>`")
        } else {
            String::from_str("` `")
        };
        s.append(wheels[0][i].emoji().text());
        s.append(wheels[1][i].emoji().text());
        s.append(wheels[2][i].emoji().text());
        if i == PAYOUT_ROW {
            s.append("`<`");
        } else {
            s.append("` `");
        }
        let ghost prev = lines@;
        lines.push(s);
        proof {
            assert(string_views(lines@) =~= string_views(prev).push(s@));
            assert(display_lines(wheels@).take(i + 1) =~= display_lines(wheels@).take(i as int).push(
                display_line(wheels@, i as int),
            ));
        }
        i = i + 1;
    }
    proof {
        assert(display_lines(wheels@).take(WINDOW as int) == display_lines(wheels@));
    }
    lines
}

/// One pull of the slot machine: the wheels as they stopped and what they
/// show and pay.
pub struct Roll {
    pub wheels: Vec<Vec<Icon>>,
    pub row: Vec<Icon>,
    pub event: GambleEvent,
    /// The terms of the payout multiplier, in tenths, in the order they add.
    pub terms: Vec<u32>,
    pub information: Vec<String>,
    pub display: Vec<String>,
}

/// Whether a roll is what wheels that stopped as `wheels` show and pay.
pub open spec fn roll_of_wheels(r: Roll, wheels: Seq<Vec<Icon>>) -> bool {
    &&& r.wheels@ == wheels
    &&& r.row@ == payout_row(wheels)
    &&& r.event == event_of(payout_row(wheels))
    &&& r.terms@ == multiplier_terms(payout_row(wheels))
    &&& string_views(r.information@) == payout_lines(payout_row(wheels))
    &&& string_views(r.display@) == display_lines(wheels)
}

/// What wheels that stopped as `wheels` show and pay.
pub fn roll_of(wheels: Vec<Vec<Icon>>) -> (r: Roll)
    requires
        spun(wheels@),
    ensures
        roll_of_wheels(r, wheels@),
{
    let row = payout_icons(&wheels);
    let event = gamble_event(&row);
    let terms = payout_terms(&row);
    let information = payout_information(&row);
    let display = casino_display(&wheels);
    Roll { wheels, row, event, terms, information, display }
}

/// Pulls the slot machine: spins the wheels, then reads what they show and
/// pay.
pub fn roll() -> (r: Roll)
    ensures
        spun(r.wheels@),
        forall|w: int| 0 <= w < WHEEL_COUNT ==> shows_a_window((#[trigger] r.wheels@[w])@, w),
        roll_of_wheels(r, r.wheels@),
{
    let wheels = spin();
    proof {
        law_spin_shape(wheels@);
    }
    roll_of(wheels)
}

/// The multiplier shown for a row with an event: its emoji; a row without
/// one shows the multiplier itself.
pub open spec fn event_marker(event: GambleEvent) -> Option<Seq<char>> {
    match event {
        GambleEvent::Dollar => Some(Emoji::TheDollar.markup()),
        GambleEvent::Spencer => Some(Emoji::WhatsappSpencer.markup()),
        GambleEvent::Plain => None,
    }
}

/// The multiplier shown for a row with an event.
pub fn event_modifier(event: GambleEvent) -> (r: Option<String>)
    ensures
        match event_marker(event) {
            Some(t) => r matches Some(s) && s@ == t,
            None => r is None,
        },
{
    match event {
        GambleEvent::Dollar => Some(Emoji::TheDollar.to_string()),
        GambleEvent::Spencer => Some(Emoji::WhatsappSpencer.to_string()),
        GambleEvent::Plain => None,
    }
}

/// The text of the answer to a gamble.
pub open spec fn gamble_text(
    author: u64,
    display: Seq<Seq<char>>,
    information: Seq<Seq<char>>,
    amount: i64,
    modifier: Seq<char>,
    payout: i64,
    diff: i64,
    balance: i64,
) -> Seq<char> {
    "<@"@ + nat_text(author as nat) + ">\n"@ + join(display, "\n"@) + "\n---\n"@ + join(
        information,
        ", "@,
    ) + "\n"@ + currency_text(amount as int) + " in >> "@ + modifier + " >> "@ + currency_text(
        payout as int,
    ) + " | You "@ + (if diff >= 0 {
        "got"@
    } else {
        "lost"@
    }) + " __"@ + currency_text(
        if diff >= 0 {
            diff as int
        } else {
            -diff
        },
    ) + "__ (now at "@ + currency_text(balance as int) + ")"@
}

/// Writes the answer to a gamble: who played, the display, what the row
/// paid, the stake, the multiplier, the payout, the gain or loss, and the
/// balance now.
pub fn gamble_reply(
    author: u64,
    display: &Vec<String>,
    information: &Vec<String>,
    amount: i64,
    modifier: &str,
    payout: i64,
    diff: i64,
    balance: i64,
) -> (r: String)
    requires
        diff > i64::MIN,
    ensures
        r@ == gamble_text(
            author,
            string_views(display@),
            string_views(information@),
            amount,
            modifier@,
            payout,
            diff,
            balance,
        ),
{
    let mut s = String::from_str("<@");
    let a = u64_text(author);
    s.append(a.as_str());
    s.append(">\n");
    let d = crate::text::join_strings(display, "\n");
    s.append(d.as_str());
    s.append("\n---\n");
    let i = crate::text::join_strings(information, ", ");
    s.append(i.as_str());
    s.append("\n");
    let am = format_currency(amount);
    s.append(am.as_str());
    s.append(" in >> ");
    s.append(modifier);
    s.append(" >> ");
    let p = format_currency(payout);
    s.append(p.as_str());
    s.append(" | You ");
    if diff >= 0 {
        s.append("got");
    } else {
        s.append("lost");
    }
    s.append(" __");
    let magnitude: i64 = if diff >= 0 {
        diff
    } else {
        -diff
    };
    let m = format_currency(magnitude);
    s.append(m.as_str());
    s.append("__ (now at ");
    let b = format_currency(balance);
    s.append(b.as_str());
    s.append(")");
    s
}

} // verus!
