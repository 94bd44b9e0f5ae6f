use gamba::args::Flags;
use gamba::command::{
    balance_reply, command_list, command_list_reply, find_command, help_for, help_reply,
    info_reply, ping_reply, setbalance_reply, setbalance_request, BalanceCommand, ClaimCommand,
    CommandKind, GambleCommand, HelpCommand, InfoCommand, LeaderboardCommand, PingCommand,
    SetBalanceCommand,
};
use gamba::dispatch::{command_tokens, route_message};
use gamba::error::Error;
use gamba::leaderboard::{
    leaderboard_query, leaderboard_reply, leaderboard_request, LeaderboardRow, LeaderboardType,
};
use gamba::model::{Class, Emoji, Icon};
use gamba::util::{
    format_currency, format_lb_entry, format_streak, format_username, handle_error, ErrorAction,
};

const POINTS: &str = "<:points:1098027068152873092>";

#[test]
fn emoji_and_icons() {
    assert_eq!(Emoji::Credits.text(), POINTS);
    assert_eq!(Emoji::Fire.to_string(), ":fire:");
    assert_eq!(Emoji::PackOLantern.text(), "<:packolantern:1110735361644183643>");
    assert_eq!(Icon::JointOLantern.emoji(), Emoji::PackOLantern);
    assert_eq!(Icon::TheDollar.name(), "the dollar");
    assert_eq!(Icon::WhatsappSpencer.name(), "Whatsapp Spencer");
    assert_eq!(Icon::WhatsappGold.multipliers(), (12, 45));
    assert_eq!(Icon::Moosh.multipliers(), (0, 0));
}

#[test]
fn module_info() {
    assert_eq!(Class::Core.info().name, "Core");
    assert_eq!(Class::Core.info().description, "Core commands");
    assert_eq!(Class::GetItTwisted.info().name, "Chinese gambling simulator");
    assert!(Class::GetItTwisted.info().description.starts_with("🦍 🗣 GET IT TWISTED"));
}

#[test]
fn formatting() {
    assert_eq!(format_currency(500), format!("**500** {}", POINTS));
    assert_eq!(format_currency(-3), format!("**-3** {}", POINTS));
    assert_eq!(format_streak(4), "**4** :fire:");
    assert_eq!(format_username("bob", 0), "bob");
    assert_eq!(format_username("bob", 42), "bob#42");
    let row = LeaderboardRow { user_id: 1, user_name: "amy".to_string(), discriminator: 7, value: 90 };
    assert_eq!(
        format_lb_entry(&row, 3, &LeaderboardType::CurrencyHeld, false),
        format!("`#3` | amy#7 - **90** {}", POINTS)
    );
    assert_eq!(
        format_lb_entry(&row, 12, &LeaderboardType::StreakBest, true),
        "You (#12) | amy#7 - **90** :fire:"
    );
}

#[test]
fn error_messages() {
    assert_eq!(Error::InvalidArguments.message(), "invalid arguments");
    assert_eq!(Error::NoPermission.message(), "my g you cant access that");
    assert_eq!(
        Error::Broke(25).message(),
        format!("sorry, but you are short **25** {} to roll that amount", POINTS)
    );
    assert_eq!(Error::Cooldown(3).message(), "wait 3 more seconds before using that again");
    assert_eq!(Error::DailyClaimed(3661).message(), "wait 01:01:01 to claim again");
    assert_eq!(Error::DailyClaimed(86399).message(), "wait 23:59:59 to claim again");
    assert_eq!(Error::DailyClaimed(360000).message(), "wait 100:00:00 to claim again");
    assert_eq!(Error::Redis("down".to_string()).message(), "redis error: down");
    assert_eq!(Error::Db("locked".to_string()).message(), "database error: locked");
    assert_eq!(
        Error::Serenity { text: "oops".to_string(), missing_permissions: false }.message(),
        "serenity (client library) error: oops"
    );
    assert_eq!(Error::CommandNotFound.message(), "command by that name was not found");
    assert_eq!(Error::ParseInt.message(), "could not resolve that to a valid number");
    assert_eq!(Error::OutOfBounds.message(), "that number is out of bounds");
}

#[test]
fn negative_wait_reads_as_unsigned() {
    let d = (-1i64) as u64;
    let expected = format!("wait {:0>2}:{:0>2}:{:0>2} to claim again", (d / 60) / 60, (d / 60) % 60, d % 60);
    assert_eq!(Error::DailyClaimed(-1).message(), expected);
}

#[test]
fn unexpected_failures() {
    assert!(Error::Redis(String::new()).is_unexpected());
    assert!(Error::Db(String::new()).is_unexpected());
    assert!(!Error::Broke(1).is_unexpected());
    assert!(!Error::Serenity { text: String::new(), missing_permissions: false }.is_unexpected());
    assert!(!Error::OutOfBounds.is_unexpected());
}

#[test]
fn failures_are_answered_logged_or_dropped() {
    let refused = Error::Serenity { text: "x".to_string(), missing_permissions: true };
    assert!(matches!(handle_error(&refused, true), ErrorAction::Drop));
    match handle_error(&Error::ParseInt, false) {
        ErrorAction::Log(t) => assert_eq!(t, "could not resolve that to a valid number"),
        _ => panic!("expected a log"),
    }
    match handle_error(&Error::ParseInt, true) {
        ErrorAction::Reply(t) => {
            assert_eq!(t, "<:fail:1098060687101673552> could not resolve that to a valid number")
        }
        _ => panic!("expected a reply"),
    }
    match handle_error(&Error::Db("gone".to_string()), true) {
        ErrorAction::Reply(t) => {
            assert_eq!(t, ":warning: something went wrong internally: database error: gone")
        }
        _ => panic!("expected a reply"),
    }
}

#[test]
fn command_descriptions() {
    let b = BalanceCommand.info();
    assert_eq!((b.name, b.shorthand, b.cooldown_length), ("balance", "bal", 5));
    assert_eq!(b.description, "check how rich (or poor) you are");
    assert_eq!(ClaimCommand.info().cooldown_length, 30);
    assert_eq!(GambleCommand.info().usage, "[amount]");
    assert_eq!(HelpCommand.info().module, Class::Core);
    assert_eq!(InfoCommand.info().shorthand, "i");
    assert_eq!(
        LeaderboardCommand.info().usage,
        "[alltime|current(default)|streak] -p [page_number]"
    );
    assert_eq!(PingCommand.info().usage, "<none>");
    assert_eq!(SetBalanceCommand.info().cooldown_length, 0);
    let names: Vec<&str> = command_list().iter().map(|c| c.name).collect();
    assert_eq!(
        names,
        vec!["claim", "info", "ping", "help", "gamble", "leaderboard", "balance", "setbalance"]
    );
}

#[test]
fn words_find_their_command() {
    assert_eq!(find_command("lb").map(|c| c.kind), Some(CommandKind::Leaderboard));
    assert_eq!(find_command("setbal").map(|c| c.kind), Some(CommandKind::SetBalance));
    assert_eq!(find_command("gamble").map(|c| c.kind), Some(CommandKind::Gamble));
    assert_eq!(find_command("p").map(|c| c.kind), Some(CommandKind::Ping));
    assert!(find_command("Gamble").is_none());
    assert!(find_command("nope").is_none());
    for c in command_list() {
        assert_eq!(find_command(c.name).map(|f| f.kind), Some(c.kind));
        assert_eq!(find_command(c.shorthand).map(|f| f.kind), Some(c.kind));
    }
}

#[test]
fn help_answers() {
    assert_eq!(
        command_list_reply(),
        "List of all commands:\n`claim` `info` `ping` `help` `gamble` `leaderboard` `balance` `setbalance`"
    );
    assert_eq!(help_reply(&Vec::new()).unwrap(), command_list_reply());
    let g = help_reply(&vec!["GAMBLE"]).unwrap();
    assert_eq!(
        g,
        "Command help for `gamble`\nAlias: `g`\nPart of module: `Chinese gambling simulator`\nDescription: get it twisted sir\nUsage: `gamble [amount]`\n*This command can be used every 2 seconds*"
    );
    assert_eq!(help_for("ping").unwrap(), help_reply(&vec!["Ping"]).unwrap());
    assert!(matches!(help_reply(&vec!["g"]), Err(Error::CommandNotFound)));
    assert!(matches!(help_for("zzz"), Err(Error::CommandNotFound)));
}

#[test]
fn short_answers() {
    assert_eq!(balance_reply(12), format!("You have **12** {}", POINTS));
    assert_eq!(info_reply(), "Whatsapp Casino discord bot");
    assert_eq!(ping_reply(), "pong");
    assert_eq!(setbalance_reply(), ":ok_hand:");
}

#[test]
fn setbalance_requests() {
    assert!(matches!(setbalance_request(5, &vec!["1", "2"]), Err(Error::NoPermission)));
    assert!(matches!(setbalance_request(0, &vec!["1"]), Err(Error::InvalidArguments)));
    assert!(matches!(setbalance_request(0, &vec!["x", "2"]), Err(Error::ParseInt)));
    assert!(matches!(setbalance_request(0, &vec!["-1", "2"]), Err(Error::ParseInt)));
    assert!(matches!(setbalance_request(0, &vec!["1", "2.5"]), Err(Error::ParseInt)));
    assert!(matches!(setbalance_request(0, &vec!["7", "-250"]), Ok((7, -250))));
}

#[test]
fn leaderboard_queries() {
    let q = leaderboard_query(5, &LeaderboardType::CurrencyHeld);
    assert_eq!(q.limit, 10);
    assert_eq!(q.offset, 50);
    assert_eq!(
        q.position_sql,
        "SELECT COUNT(*) FROM users WHERE currency_held >= (SELECT currency_held FROM users WHERE user_id = ?)"
    );
    assert_eq!(
        q.self_row_sql,
        "SELECT currency_held, user_id, cached_username, cached_discriminator FROM users WHERE user_id = ?"
    );
    assert_eq!(
        q.rows_sql,
        "SELECT currency_held, user_id, cached_username, cached_discriminator FROM users ORDER BY currency_held DESC LIMIT ? OFFSET ?"
    );
    assert_eq!(leaderboard_query(500, &LeaderboardType::StreakBest).offset, 1000);
    assert_eq!(leaderboard_query(-4, &LeaderboardType::CurrencyBest).offset, 0);
    assert_eq!(LeaderboardType::StreakBest.to_str(), "daily_streak_best");
    assert_eq!(LeaderboardType::CurrencyBest.to_str(), "currency_best");
}

#[test]
fn leaderboard_requests() {
    let none = Flags::new();
    assert!(matches!(leaderboard_request(&Vec::new(), &none), Ok((0, LeaderboardType::CurrencyHeld))));
    assert!(matches!(
        leaderboard_request(&vec!["AllTime"], &none),
        Ok((0, LeaderboardType::CurrencyBest))
    ));
    assert!(matches!(leaderboard_request(&vec!["streak"], &none), Ok((0, LeaderboardType::StreakBest))));
    assert!(matches!(leaderboard_request(&vec!["other"], &none), Ok((0, LeaderboardType::CurrencyHeld))));
    let mut p = Flags::new();
    p.insert("p".to_string(), "3");
    assert!(matches!(leaderboard_request(&vec!["current"], &p), Ok((3, LeaderboardType::CurrencyHeld))));
    let mut bad = Flags::new();
    bad.insert("p".to_string(), "three");
    assert!(matches!(leaderboard_request(&Vec::new(), &bad), Err(Error::ParseInt)));
    let mut far = Flags::new();
    far.insert("p".to_string(), "100");
    assert!(matches!(leaderboard_request(&Vec::new(), &far), Err(Error::OutOfBounds)));
    let mut neg = Flags::new();
    neg.insert("p".to_string(), "-1");
    assert!(matches!(leaderboard_request(&Vec::new(), &neg), Err(Error::OutOfBounds)));
}

#[test]
fn leaderboard_answer() {
    let rows = vec![
        LeaderboardRow { user_id: 1, user_name: "a".to_string(), discriminator: 0, value: 900 },
        LeaderboardRow { user_id: 2, user_name: "b".to_string(), discriminator: 1, value: 800 },
    ];
    let me = LeaderboardRow { user_id: 3, user_name: "c".to_string(), discriminator: 0, value: 5 };
    let gold = "<:wappgold:1098433045339586601>";
    let expected = format!(
        "{g} __**Current Richest Whatsappians**__ {g}\n`#1` | a - **900** {p}\n`#2` | b#1 - **800** {p}\n-----\nYou (#9) | c - **5** {p}",
        g = gold,
        p = POINTS
    );
    assert_eq!(leaderboard_reply(&LeaderboardType::CurrencyHeld, &rows, 9, &me), expected);
}

#[test]
fn message_routing() {
    assert!(command_tokens("hello there").is_none());
    assert!(command_tokens("&").is_none());
    assert!(command_tokens("").is_none());
    assert_eq!(command_tokens("  &lb  alltime ").unwrap(), vec!["&lb", "alltime"]);
    let lb = route_message("&lb streak -p 3").unwrap();
    assert_eq!(lb.command.kind, CommandKind::Leaderboard);
    assert_eq!(lb.positional, vec!["streak"]);
    assert_eq!(lb.flags.get("p"), Some("3"));
    assert!(matches!(
        leaderboard_request(&lb.positional, &lb.flags),
        Ok((3, LeaderboardType::StreakBest))
    ));
    let r = route_message("&g 100").unwrap();
    assert_eq!(r.command.kind, CommandKind::Gamble);
    assert_eq!(r.positional, vec!["100"]);
    let h = route_message("&help gamble").unwrap();
    assert_eq!(h.command.kind, CommandKind::Help);
    assert_eq!(h.positional, vec!["gamble"]);
    assert!(route_message("&unknown 1").is_none());
    assert!(route_message("no prefix").is_none());
}

#[test]
fn every_command_but_setbalance_has_a_cooldown() {
    assert!(CommandKind::Ping.uses_cooldown());
    assert!(CommandKind::Gamble.uses_cooldown());
    assert!(!CommandKind::SetBalance.uses_cooldown());
}
