use gamba::economy::{
    change_by, check_cooldown, check_cooldown_now, claim, claim_credits, claim_fits, claim_now,
    claim_reply, cooldown_key, passive_reward, talk_key, talk_reward, talk_start, CurrencyUpdate,
    LogType, TalkStep, CURRENCY_MAX, DAY_SECONDS,
};
use gamba::error::Error;
use gamba::gamble::{
    casino_display, check_funds, event_modifier, gamble_amount, gamble_event, gamble_reply,
    payout_icons, payout_information, payout_terms, roll, roll_of, settle, spin, stake_fits,
    wheel_icons,
    wheel_window, GambleEvent, Settlement,
};
use gamba::model::Icon;

const POINTS: &str = "<:points:1098027068152873092>";

#[test]
fn balance_changes() {
    assert_eq!(change_by(100, 200, 50), CurrencyUpdate { new_best: None, held_increment: 50 });
    assert_eq!(change_by(100, 120, 50), CurrencyUpdate { new_best: Some(150), held_increment: 50 });
    assert_eq!(
        change_by(CURRENCY_MAX - 1, 0, 5),
        CurrencyUpdate { new_best: Some(CURRENCY_MAX), held_increment: CURRENCY_MAX }
    );
    assert_eq!(change_by(10, 10, -5), CurrencyUpdate { new_best: None, held_increment: -5 });
}

#[test]
fn record_never_drops_on_values() {
    for (held, best, by) in [(0i64, 10i64, 5i64), (100, 50, -60), (5, 5, 0), (CURRENCY_MAX, CURRENCY_MAX, 1)] {
        let u = change_by(held, best, by);
        assert!(u.new_best.unwrap_or(best) >= best);
    }
}

#[test]
fn log_codes() {
    assert_eq!(LogType::Claim.code(), 0);
    assert_eq!(LogType::Passive.code(), 1);
    assert_eq!(LogType::Gamble.code(), 2);
    assert_eq!(LogType::Manual.code(), 99);
}

#[test]
fn claims() {
    let t = 1_700_000_000i64;
    assert!(matches!(claim(t, 3, 5, t + 10), Err(Error::DailyClaimed(w)) if w == DAY_SECONDS - 10));
    let d = claim(t, 3, 5, t + DAY_SECONDS).unwrap();
    assert_eq!((d.new_streak, d.raises_best, d.record), (4, false, 5));
    let d = claim(t, 5, 5, t + 2 * DAY_SECONDS).unwrap();
    assert_eq!((d.new_streak, d.raises_best, d.record), (6, true, 6));
    let d = claim(t, 9, 9, t + 2 * DAY_SECONDS + 1).unwrap();
    assert_eq!((d.new_streak, d.raises_best, d.record), (1, false, 9));
    let d = claim(0, 0, 0, t).unwrap();
    assert_eq!(d.new_streak, 1);
    assert!(claim_fits(t, 3, t));
    assert!(!claim_fits(i64::MAX, 3, t));
    assert!(!claim_fits(t, i64::MAX, t + DAY_SECONDS));
}

#[test]
fn claim_now_reads_the_clock() {
    let (now, d) = claim_now(0, 0, 0);
    assert!(now > 1_600_000_000);
    let d = d.unwrap().unwrap();
    assert_eq!(d.new_streak, 1);
    let (_, blocked) = claim_now(now, 0, 0);
    assert!(matches!(blocked, Some(Err(Error::DailyClaimed(_)))));
}

#[test]
fn claim_credit_scale() {
    let expected = [150, 160, 175, 190, 210, 230, 250, 250, 250];
    for (i, e) in expected.iter().enumerate() {
        assert_eq!(claim_credits(i as i64 + 1).unwrap(), *e);
    }
    assert!(matches!(claim_credits(0), Err(Error::ParseInt)));
    assert!(matches!(claim_credits(-4), Err(Error::ParseInt)));
}

#[test]
fn claim_answer() {
    let r = claim_reply(1234, 2, 3, 7);
    let expected = format!(
        "Free money sir, you got **100** {p} + **90** {p} (Streak bonus!). You now have **1234** {p}\nCome back in 24 hours to claim again\nCurrent streak: 2 -> **3** (Record: 7)\nNext bonus: **90** {p}",
        p = POINTS
    );
    assert_eq!(r, expected);
    assert!(claim_reply(1, 9, 9, 9).contains("**150**"));
}

#[test]
fn passive_reward_range() {
    for _ in 0..200 {
        let r = passive_reward();
        assert!((8..=10).contains(&r));
    }
    assert_eq!(talk_key(42), "42:talk");
    assert_eq!(cooldown_key(42, "gamble"), "42:gamble");
}

#[test]
fn cooldowns() {
    assert!(check_cooldown(None, 5, 100).is_ok());
    assert!(matches!(check_cooldown(Some(98), 5, 100), Err(Error::Cooldown(3))));
    let (now, d) = check_cooldown_now(None, 5);
    assert!(now > 0);
    assert!(matches!(d, Some(Ok(()))));
    let (_, over) = check_cooldown_now(Some(usize::MAX), 5);
    assert!(over.is_none());
}

#[test]
fn stakes() {
    let none: Vec<&str> = Vec::new();
    assert_eq!(gamble_amount(&none, 500).unwrap(), 10);
    assert_eq!(gamble_amount(&vec!["all"], 500).unwrap(), 500);
    assert_eq!(gamble_amount(&vec!["all"], 3).unwrap(), 10);
    assert_eq!(gamble_amount(&vec!["5k"], 0).unwrap(), 5000);
    assert_eq!(gamble_amount(&vec!["2m"], 0).unwrap(), 2_000_000);
    assert_eq!(gamble_amount(&vec!["5"], 0).unwrap(), 10);
    assert_eq!(gamble_amount(&vec!["99999999999"], 0).unwrap(), 10_000_000_000);
    assert_eq!(gamble_amount(&vec!["-5k"], 0).unwrap(), 10);
    assert!(matches!(gamble_amount(&vec!["abc"], 0), Err(Error::ParseInt)));
    assert!(matches!(gamble_amount(&vec!["k"], 0), Err(Error::ParseInt)));
    assert!(matches!(gamble_amount(&vec!["1.5k"], 0), Err(Error::ParseInt)));
    assert!(matches!(gamble_amount(&vec!["éé5k"], 0), Err(Error::ParseInt)));
    assert!(stake_fits(&vec!["100k"], 0));
    assert!(!stake_fits(&vec!["9223372036854775807k"], 0));
    assert!(!stake_fits(&vec![""], 0));
    assert!(stake_fits(&vec!["zzz"], 0));
}

#[test]
fn funds() {
    assert!(check_funds(100, 100).is_ok());
    assert!(matches!(check_funds(40, 100), Err(Error::Broke(60))));
}

#[test]
fn wheels_and_windows() {
    for w in 0..3 {
        assert_eq!(wheel_icons(w).len(), 28);
    }
    let first = wheel_icons(0);
    assert_eq!(wheel_window(0, 0), first[0..5].to_vec());
    // Past the end the window wraps round by 27, skipping the first icon.
    assert_eq!(wheel_window(0, 27), vec![first[27], first[1], first[2], first[3], first[4]]);
    assert_eq!(wheel_window(0, 25), vec![first[25], first[26], first[27], first[1], first[2]]);
    let spun = spin();
    assert_eq!(spun.len(), 3);
    for (w, shown) in spun.iter().enumerate() {
        assert_eq!(shown.len(), 5);
        assert!((0..28).any(|p| wheel_window(w, p) == *shown));
    }
}

fn wheels_with_row(row: [Icon; 3]) -> Vec<Vec<Icon>> {
    row.iter().map(|i| vec![Icon::Moosh, Icon::Fabio, *i, Icon::Reaper, Icon::Troll]).collect()
}

#[test]
fn payouts() {
    let plain = vec![Icon::Fabio, Icon::Reaper, Icon::WhatsappGold];
    assert_eq!(gamble_event(&plain), GambleEvent::Plain);
    assert_eq!(payout_terms(&plain), vec![1, 2, 12]);
    assert_eq!(
        payout_information(&plain),
        vec!["Fabio: 0.1x", "Reaper: 0.2x", "Whatsapp Gold: 1.2x"]
    );
    let three = vec![Icon::Troll, Icon::Troll, Icon::Troll];
    assert_eq!(payout_terms(&three), vec![18, 4, 4, 4]);
    assert_eq!(
        payout_information(&three),
        vec!["**MATCH 3 BONUS** Troll: **1.8**x", "Troll: 0.4x", "Troll: 0.4x", "Troll: 0.4x"]
    );
    let reapers = vec![Icon::Reaper; 3];
    assert_eq!(payout_information(&reapers)[0], "**MATCH 3 BONUS** Reaper: **1**x");
    let moosh = vec![Icon::Moosh; 3];
    assert_eq!(payout_information(&moosh)[1], "Moosh: 0x");
    let dollars = vec![Icon::TheDollar; 3];
    assert_eq!(gamble_event(&dollars), GambleEvent::Dollar);
    assert_eq!(payout_terms(&dollars), vec![0]);
    assert_eq!(payout_information(&dollars), vec!["the dollar"]);
    let spencers = vec![Icon::WhatsappSpencer; 3];
    assert_eq!(gamble_event(&spencers), GambleEvent::Spencer);
    assert_eq!(payout_terms(&spencers), vec![0, 10]);
    assert_eq!(
        payout_information(&spencers),
        vec!["3 spencer bonus: spencer stole all your winnings"]
    );
    let wheels = wheels_with_row([Icon::Whatsapp, Icon::Whatsapp, Icon::Fabio]);
    assert_eq!(payout_icons(&wheels), vec![Icon::Whatsapp, Icon::Whatsapp, Icon::Fabio]);
}

#[test]
fn settlements() {
    assert_eq!(
        settle(100, 250, GambleEvent::Plain),
        Settlement { payout: 250, diff: 150, spencer_credit: None }
    );
    assert_eq!(
        settle(100, 0, GambleEvent::Dollar),
        Settlement { payout: 1, diff: -99, spencer_credit: None }
    );
    assert_eq!(
        settle(100, 100, GambleEvent::Spencer),
        Settlement { payout: 0, diff: -100, spencer_credit: Some(100) }
    );
}

#[test]
fn display_and_answer() {
    let wheels = wheels_with_row([Icon::Whatsapp, Icon::Troll, Icon::Fabio]);
    let lines = casino_display(&wheels);
    assert_eq!(lines.len(), 5);
    assert_eq!(
        lines[2],
        "`>`<:wapp:1098433043175313448><:troll:1098433050662162532>:fabio:`<`"
    );
    assert_eq!(
        lines[0],
        "` `<:moosher:1098433526141046825><:moosher:1098433526141046825><:moosher:1098433526141046825>` `"
    );
    assert_eq!(event_modifier(GambleEvent::Dollar).unwrap(), ":dollar:");
    assert_eq!(
        event_modifier(GambleEvent::Spencer).unwrap(),
        "<:wappspencer:1098434636721422346>"
    );
    assert!(event_modifier(GambleEvent::Plain).is_none());
    let info = vec!["a: 1x".to_string()];
    let reply = gamble_reply(7, &vec!["L1".to_string(), "L2".to_string()], &info, 100, "x1.00", 90, -10, 490);
    let expected = format!(
        "<@7>\nL1\nL2\n---\na: 1x\n**100** {p} in >> x1.00 >> **90** {p} | You lost __**10** {p}__ (now at **490** {p})",
        p = POINTS
    );
    assert_eq!(reply, expected);
    let won = gamble_reply(7, &Vec::new(), &Vec::new(), 10, "x", 30, 20, 20);
    assert!(won.contains("You got __**20**"));
}

#[test]
fn rolls() {
    let r = roll_of(wheels_with_row([Icon::TheDollar, Icon::TheDollar, Icon::TheDollar]));
    assert_eq!(r.row, vec![Icon::TheDollar; 3]);
    assert_eq!(r.event, GambleEvent::Dollar);
    assert_eq!(r.terms, vec![0]);
    assert_eq!(r.information, vec!["the dollar"]);
    assert_eq!(r.display.len(), 5);
    let pulled = roll();
    assert_eq!(pulled.wheels.len(), 3);
    assert_eq!(pulled.row.len(), 3);
    assert_eq!(pulled.row[0], pulled.wheels[0][2]);
    assert_eq!(pulled.display.len(), 5);
}

#[test]
fn talk_rewards() {
    assert_eq!(talk_start(true), TalkStep::Done);
    assert_eq!(talk_start(false), TalkStep::LookUpUser);
    let new = talk_reward(0);
    assert!(new.register);
    assert!((8..=10).contains(&new.amount));
    assert!(!talk_reward(1).register);
}

#[test]
fn a_run_of_claims_keeps_the_record() {
    // last claim, streak, record as stored after each claim
    let mut row = (0i64, 0i64, 0i64);
    let mut peak = 0;
    let day = DAY_SECONDS;
    let start = 1_700_000_000i64;
    for now in [start, start + day, start + 2 * day, start + 2 * day + 5, start + 6 * day, start + 7 * day] {
        if let Ok(d) = claim(row.0, row.1, row.2, now) {
            let best = if d.raises_best { row.2 + 1 } else { row.2 };
            assert_eq!(best, d.record);
            assert!(best >= row.2);
            row = (now, d.new_streak, best);
            peak = peak.max(d.new_streak);
        }
        assert!(0 <= row.1 && row.1 <= row.2);
        assert_eq!(row.2, peak);
    }
    assert_eq!(row, (start + 7 * day, 2, 3));
}

#[test]
fn cooldown_over_two_uses() {
    let n = 1_700_000_000i64;
    assert!(check_cooldown(None, 15, n).is_ok());
    assert!(matches!(check_cooldown(Some(n as usize), 15, n + 4), Err(Error::Cooldown(11))));
    assert_ne!(cooldown_key(1, "ping"), cooldown_key(11, "ping"));
    assert_ne!(cooldown_key(1, "1:ping"), cooldown_key(11, ":ping"));
    assert_ne!(cooldown_key(1, "ping"), cooldown_key(1, "gamble"));
}
