//! The bot's commands: what each is called, how often it may be used, and
//! how a command line picks one.
use vstd::prelude::*;

use crate::error::Error;
use crate::model::Class;
use crate::text::{join, nat_text, str_views, string_views, u64_text};

verus! {

/// The commands that the bot knows.
#[derive(Clone, Copy, Debug, PartialEq, Eq, Structural)]
pub enum CommandKind {
    Claim,
    Info,
    Ping,
    Help,
    Gamble,
    Leaderboard,
    Balance,
    SetBalance,
}

/// What the bot tells of a command, and which command it is.
pub struct CommandInfo {
    pub module: Class,
    pub name: &'static str,
    pub shorthand: &'static str,
    pub cooldown_length: usize,
    pub description: &'static str,
    pub usage: &'static str,
    pub kind: CommandKind,
}

impl CommandKind {
    pub open spec fn spec_module(self) -> Class {
        match self {
            CommandKind::Info | CommandKind::Ping | CommandKind::Help | CommandKind::SetBalance => Class::Core,
            _ => Class::GetItTwisted,
        }
    }

    pub open spec fn spec_name(self) -> Seq<char> {
        match self {
            CommandKind::Claim => "claim"@,
            CommandKind::Info => "info"@,
            CommandKind::Ping => "ping"@,
            CommandKind::Help => "help"@,
            CommandKind::Gamble => "gamble"@,
            CommandKind::Leaderboard => "leaderboard"@,
            CommandKind::Balance => "balance"@,
            CommandKind::SetBalance => "setbalance"@,
        }
    }

    pub open spec fn spec_shorthand(self) -> Seq<char> {
        match self {
            CommandKind::Claim => "c"@,
            CommandKind::Info => "i"@,
            CommandKind::Ping => "p"@,
            CommandKind::Help => "h"@,
            CommandKind::Gamble => "g"@,
            CommandKind::Leaderboard => "lb"@,
            CommandKind::Balance => "bal"@,
            CommandKind::SetBalance => "setbal"@,
        }
    }

    /// Seconds between two uses by one user.
    pub open spec fn spec_cooldown(self) -> usize {
        match self {
            CommandKind::Claim => 30,
            CommandKind::Info => 10,
            CommandKind::Ping => 15,
            CommandKind::Help => 10,
            CommandKind::Gamble => 2,
            CommandKind::Leaderboard => 5,
            CommandKind::Balance => 5,
            CommandKind::SetBalance => 0,
        }
    }

    pub open spec fn spec_description(self) -> Seq<char> {
        match self {
            CommandKind::Claim => "claim free credits every 24 hours"@,
            CommandKind::Info => "info about the bot"@,
            CommandKind::Ping => "responds with a message if alive, used for debugging"@,
            CommandKind::Help => "get info/help with any command, or view the command list"@,
            CommandKind::Gamble => "get it twisted sir"@,
            CommandKind::Leaderboard => "get the richest users"@,
            CommandKind::Balance => "check how rich (or poor) you are"@,
            CommandKind::SetBalance => "manually increase/decrease the balance of any user by X"@,
        }
    }

    pub open spec fn spec_usage(self) -> Seq<char> {
        match self {
            CommandKind::Claim => ""@,
            CommandKind::Info => ""@,
            CommandKind::Ping => "<none>"@,
            CommandKind::Help => "cmd_name"@,
            CommandKind::Gamble => "[amount]"@,
            CommandKind::Leaderboard => "[alltime|current(default)|streak] -p [page_number]"@,
            CommandKind::Balance => ""@,
            CommandKind::SetBalance => "[user_id] [amount]"@,
        }
    }

    /// Whether the command checks and sets a cool-down before it runs.
    /// Every command but `setbalance`, whose cool-down is 0, does.
    pub open spec fn spec_uses_cooldown(self) -> bool {
        !(self is SetBalance)
    }

    /// Whether the command checks and sets a cool-down before it runs.
    pub fn uses_cooldown(&self) -> (r: bool)
        ensures
            r == self.spec_uses_cooldown(),
    {
        match self {
            CommandKind::SetBalance => false,
            _ => true,
        }
    }

    /// The command's description.
    pub fn info(&self) -> (r: CommandInfo)
        ensures
            describes(r, *self),
    {
        match self {
            CommandKind::Claim => ClaimCommand.info(),
            CommandKind::Info => InfoCommand.info(),
            CommandKind::Ping => PingCommand.info(),
            CommandKind::Help => HelpCommand.info(),
            CommandKind::Gamble => GambleCommand.info(),
            CommandKind::Leaderboard => LeaderboardCommand.info(),
            CommandKind::Balance => BalanceCommand.info(),
            CommandKind::SetBalance => SetBalanceCommand.info(),
        }
    }
}

/// Whether a description is the one of command `k`.
pub open spec fn describes(info: CommandInfo, k: CommandKind) -> bool {
    &&& info.kind == k
    &&& info.module == k.spec_module()
    &&& info.name@ == k.spec_name()
    &&& info.shorthand@ == k.spec_shorthand()
    &&& info.cooldown_length == k.spec_cooldown()
    &&& info.description@ == k.spec_description()
    &&& info.usage@ == k.spec_usage()
}

/// The `balance` command.
pub struct BalanceCommand;

/// The `claim` command.
pub struct ClaimCommand;

/// The `gamble` command.
pub struct GambleCommand;

/// The `help` command.
pub struct HelpCommand;

/// The `info` command.
pub struct InfoCommand;

/// The `leaderboard` command.
pub struct LeaderboardCommand;

/// The `ping` command.
pub struct PingCommand;

/// The `setbalance` command.
pub struct SetBalanceCommand;

impl BalanceCommand {
    pub fn info(&self) -> (r: CommandInfo)
        ensures
            describes(r, CommandKind::Balance),
    {
        CommandInfo {
            module: Class::GetItTwisted,
            name: "balance",
            shorthand: "bal",
            cooldown_length: 5,
            description: "check how rich (or poor) you are",
            usage: "",
            kind: CommandKind::Balance,
        }
    }
}

impl ClaimCommand {
    pub fn info(&self) -> (r: CommandInfo)
        ensures
            describes(r, CommandKind::Claim),
    {
        CommandInfo {
            module: Class::GetItTwisted,
            name: "claim",
            shorthand: "c",
            cooldown_length: 30,
            description: "claim free credits every 24 hours",
            usage: "",
            kind: CommandKind::Claim,
        }
    }
}

impl GambleCommand {
    pub fn info(&self) -> (r: CommandInfo)
        ensures
            describes(r, CommandKind::Gamble),
    {
        CommandInfo {
            module: Class::GetItTwisted,
            name: "gamble",
            shorthand: "g",
            cooldown_length: 2,
            description: "get it twisted sir",
            usage: "[amount]",
            kind: CommandKind::Gamble,
        }
    }
}

impl HelpCommand {
    pub fn info(&self) -> (r: CommandInfo)
        ensures
            describes(r, CommandKind::Help),
    {
        CommandInfo {
            module: Class::Core,
            name: "help",
            shorthand: "h",
            cooldown_length: 10,
            description: "get info/help with any command, or view the command list",
            usage: "cmd_name",
            kind: CommandKind::Help,
        }
    }
}

impl InfoCommand {
    pub fn info(&self) -> (r: CommandInfo)
        ensures
            describes(r, CommandKind::Info),
    {
        CommandInfo {
            module: Class::Core,
            name: "info",
            shorthand: "i",
            cooldown_length: 10,
            description: "info about the bot",
            usage: "",
            kind: CommandKind::Info,
        }
    }
}

impl LeaderboardCommand {
    pub fn info(&self) -> (r: CommandInfo)
        ensures
            describes(r, CommandKind::Leaderboard),
    {
        CommandInfo {
            module: Class::GetItTwisted,
            name: "leaderboard",
            shorthand: "lb",
            cooldown_length: 5,
            description: "get the richest users",
            usage: "[alltime|current(default)|streak] -p [page_number]",
            kind: CommandKind::Leaderboard,
        }
    }
}

impl PingCommand {
    pub fn info(&self) -> (r: CommandInfo)
        ensures
            describes(r, CommandKind::Ping),
    {
        CommandInfo {
            module: Class::Core,
            name: "ping",
            shorthand: "p",
            cooldown_length: 15,
            description: "responds with a message if alive, used for debugging",
            usage: "<none>",
            kind: CommandKind::Ping,
        }
    }
}

impl SetBalanceCommand {
    pub fn info(&self) -> (r: CommandInfo)
        ensures
            describes(r, CommandKind::SetBalance),
    {
        CommandInfo {
            module: Class::Core,
            name: "setbalance",
            shorthand: "setbal",
            cooldown_length: 0,
            description: "manually increase/decrease the balance of any user by X",
            usage: "[user_id] [amount]",
            kind: CommandKind::SetBalance,
        }
    }
}

/// The commands in the order the bot lists and tries them.
pub open spec fn command_order(i: int) -> CommandKind {
    if i == 0 {
        CommandKind::Claim
    } else if i == 1 {
        CommandKind::Info
    } else if i == 2 {
        CommandKind::Ping
    } else if i == 3 {
        CommandKind::Help
    } else if i == 4 {
        CommandKind::Gamble
    } else if i == 5 {
        CommandKind::Leaderboard
    } else if i == 6 {
        CommandKind::Balance
    } else {
        CommandKind::SetBalance
    }
}

/// The number of commands.
pub const COMMAND_COUNT: usize = 8;

fn kind_at(i: usize) -> (r: CommandKind)
    requires
        i < 8,
    ensures
        r == command_order(i as int),
{
    match i {
        0 => CommandKind::Claim,
        1 => CommandKind::Info,
        2 => CommandKind::Ping,
        3 => CommandKind::Help,
        4 => CommandKind::Gamble,
        5 => CommandKind::Leaderboard,
        6 => CommandKind::Balance,
        _ => CommandKind::SetBalance,
    }
}

/// The descriptions of all commands, in order.
pub fn command_list() -> (r: Vec<CommandInfo>)
    ensures
        r@.len() == COMMAND_COUNT,
        forall|i: int| 0 <= i < COMMAND_COUNT ==> describes(#[trigger] r@[i], command_order(i)),
{
    let mut v: Vec<CommandInfo> = Vec::new();
    let mut i: usize = 0;
    while i < COMMAND_COUNT
        invariant
            i <= COMMAND_COUNT,
            v@.len() == i,
            forall|j: int| 0 <= j < i ==> describes(#[trigger] v@[j], command_order(j)),
        decreases COMMAND_COUNT - i,
    {
        v.push(kind_at(i).info());
        i = i + 1;
    }
    v
}

/// Whether a word calls command `k`: it is the command's name or shorthand.
pub open spec fn calls(k: CommandKind, word: Seq<char>) -> bool {
    k.spec_name() == word || k.spec_shorthand() == word
}

/// The first command, from position `i` of the list on, that a word calls.
pub open spec fn first_called(word: Seq<char>, i: int) -> Option<CommandKind>
    decreases COMMAND_COUNT - i,
{
    if i >= COMMAND_COUNT {
        None
    } else if calls(command_order(i), word) {
        Some(command_order(i))
    } else {
        first_called(word, i + 1)
    }
}

/// The lengths and first letters of the commands' names and shorthands,
/// which tell them apart.
proof fn lemma_command_words()
    ensures
        "claim"@.len() == 5 && "info"@.len() == 4 && "ping"@.len() == 4 && "help"@.len() == 4,
        "gamble"@.len() == 6 && "leaderboard"@.len() == 11 && "balance"@.len() == 7,
        "setbalance"@.len() == 10 && "lb"@.len() == 2 && "bal"@.len() == 3 && "setbal"@.len() == 6,
        "info"@[0] == 'i' && "ping"@[0] == 'p' && "help"@[0] == 'h',
        "gamble"@[0] == 'g' && "setbal"@[0] == 's',
        "c"@[0] == 'c' && "i"@[0] == 'i' && "p"@[0] == 'p' && "h"@[0] == 'h' && "g"@[0] == 'g',
        "c"@.len() == 1 && "i"@.len() == 1 && "p"@.len() == 1 && "h"@.len() == 1 && "g"@.len() == 1,
{
    reveal_strlit("claim");
    reveal_strlit("info");
    reveal_strlit("ping");
    reveal_strlit("help");
    reveal_strlit("gamble");
    reveal_strlit("leaderboard");
    reveal_strlit("balance");
    reveal_strlit("setbalance");
    reveal_strlit("c");
    reveal_strlit("i");
    reveal_strlit("p");
    reveal_strlit("h");
    reveal_strlit("g");
    reveal_strlit("lb");
    reveal_strlit("bal");
    reveal_strlit("setbal");
    broadcast use vstd::string::group_string_axioms;

}

/// The names and shorthands of the commands are all different, so each
/// calls its own command and no other.
pub proof fn law_each_word_calls_its_command(i: int)
    requires
        0 <= i < COMMAND_COUNT,
    ensures
        first_called(command_order(i).spec_name(), 0) == Some(command_order(i)),
        first_called(command_order(i).spec_shorthand(), 0) == Some(command_order(i)),
{
    lemma_command_words();
    reveal_with_fuel(first_called, 9);
}

/// The command that a word calls: the first in the list whose name or
/// shorthand it is.
pub fn find_command(word: &str) -> (r: Option<CommandInfo>)
    ensures
        match first_called(word@, 0) {
            Some(k) => r matches Some(info) && describes(info, k),
            None => r is None,
        },
{
    let w = String::from_str(word);
    let mut i: usize = 0;
    while i < COMMAND_COUNT
        invariant
            i <= COMMAND_COUNT,
            w@ == word@,
            first_called(word@, 0) == first_called(word@, i as int),
        decreases COMMAND_COUNT - i,
    {
        let info = kind_at(i).info();
        if w == String::from_str(info.name) || w == String::from_str(info.shorthand) {
            return Some(info);
        }
        i = i + 1;
    }
    None
}

/// The text of a command's help.
pub open spec fn help_text(k: CommandKind) -> Seq<char> {
    "Command help for `"@ + k.spec_name() + "`\nAlias: `"@ + k.spec_shorthand()
        + "`\nPart of module: `"@ + k.spec_module().spec_name() + "`\nDescription: "@
        + k.spec_description() + "\nUsage: `"@ + k.spec_name() + " "@ + k.spec_usage()
        + "`\n*This command can be used every "@ + nat_text(k.spec_cooldown() as nat)
        + " seconds*"@
}

/// The first command, from position `i` of the list on, whose name is
/// exactly `word`.
pub open spec fn first_named(word: Seq<char>, i: int) -> Option<CommandKind>
    decreases COMMAND_COUNT - i,
{
    if i >= COMMAND_COUNT {
        None
    } else if command_order(i).spec_name() == word {
        Some(command_order(i))
    } else {
        first_named(word, i + 1)
    }
}

/// The list of all commands: each name between backticks, separated by
/// spaces.
pub open spec fn command_list_text() -> Seq<char> {
    "List of all commands:\n"@ + join(
        Seq::new(COMMAND_COUNT as nat, |i: int| "`"@ + command_order(i).spec_name() + "`"@),
        " "@,
    )
}

/// The help for the command named `name` (already in lower case), or
/// `CommandNotFound`.
pub open spec fn help_for_spec(name: Seq<char>) -> Result<Seq<char>, Error> {
    match first_named(name, 0) {
        Some(k) => Ok(help_text(k)),
        None => Err(Error::CommandNotFound),
    }
}

/// Every command's name asks for that command's help.
pub proof fn law_help_names_every_command(i: int)
    requires
        0 <= i < COMMAND_COUNT,
    ensures
        help_for_spec(command_order(i).spec_name()) == Ok::<Seq<char>, Error>(
            help_text(command_order(i)),
        ),
{
    lemma_command_words();
    reveal_with_fuel(first_named, 9);
}

/// Writes the help of the command whose name is `name`.
pub fn help_for(name: &str) -> (r: Result<String, Error>)
    ensures
        match help_for_spec(name@) {
            Ok(t) => r matches Ok(s) && s@ == t,
            Err(e) => r matches Err(f) && f == e,
        },
{
    let wanted = String::from_str(name);
    let mut i: usize = 0;
    while i < COMMAND_COUNT
        invariant
            i <= COMMAND_COUNT,
            wanted@ == name@,
            first_named(name@, 0) == first_named(name@, i as int),
        decreases COMMAND_COUNT - i,
    {
        let k = kind_at(i);
        let info = k.info();
        if wanted == String::from_str(info.name) {
            let mut s = String::from_str("Command help for `");
            s.append(info.name);
            s.append("`\nAlias: `");
            s.append(info.shorthand);
            s.append("`\nPart of module: `");
            s.append(info.module.info().name);
            s.append("`\nDescription: ");
            s.append(info.description);
            s.append("\nUsage: `");
            s.append(info.name);
            s.append(" ");
            s.append(info.usage);
            s.append("`\n*This command can be used every ");
            let c = u64_text(info.cooldown_length as u64);
            s.append(c.as_str());
            s.append(" seconds*");
            return Ok(s);
        }
        i = i + 1;
    }
    Err(Error::CommandNotFound)
}

/// Writes the list of all commands.
pub fn command_list_reply() -> (r: String)
    ensures
        r@ == command_list_text(),
{
    let list = command_list();
    let mut names: Vec<String> = Vec::new();
    let ghost parts = Seq::new(COMMAND_COUNT as nat, |i: int| "`"@ + command_order(i).spec_name() + "`"@);
    let mut i: usize = 0;
    while i < COMMAND_COUNT
        invariant
            i <= COMMAND_COUNT,
            list@.len() == COMMAND_COUNT,
            forall|j: int| 0 <= j < COMMAND_COUNT ==> describes(#[trigger] list@[j], command_order(j)),
            parts == Seq::new(COMMAND_COUNT as nat, |i: int| "`"@ + command_order(i).spec_name() + "`"@),
            string_views(names@) == parts.take(i as int),
        decreases COMMAND_COUNT - i,
    {
        let mut n = String::from_str("`");
        n.append(list[i].name);
        n.append("`");
        let ghost prev = names@;
        names.push(n);
        proof {
            assert(describes(list@[i as int], command_order(i as int)));
            assert(string_views(names@) =~= string_views(prev).push(n@));
            assert(parts.take(i + 1) =~= parts.take(i as int).push(parts[i as int]));
        }
        i = i + 1;
    }
    proof {
        assert(parts.take(COMMAND_COUNT as int) == parts);
    }
    let joined = crate::text::join_strings(&names, " ");
    String::from_str("List of all commands:\n").concat(joined.as_str())
}

/// What Unicode lower-casing makes of a text, as `str::to_lowercase` does.
pub uninterp spec fn lowercase(s: Seq<char>) -> Seq<char>;

/// Lower-cases a text.
/// Trusted: `str::to_lowercase`; its result is a function of the text alone,
/// named `lowercase` here and not spelled out.
#[verifier::external_body]
fn to_lowercase(s: &str) -> (r: String)
    ensures
        r@ == lowercase(s@),
{
    s.to_lowercase()
}

/// The answer to a help command: the list of all commands where no argument
/// is given, else the help of the command that the first argument, lower
/// cased, names.
pub open spec fn help_reply_spec(positional: Seq<Seq<char>>) -> Result<Seq<char>, Error> {
    if positional.len() == 0 {
        Ok(command_list_text())
    } else {
        help_for_spec(lowercase(positional[0]))
    }
}

/// Answers a help command.
pub fn help_reply(positional: &Vec<&str>) -> (r: Result<String, Error>)
    ensures
        match help_reply_spec(str_views(positional@)) {
            Ok(t) => r matches Ok(s) && s@ == t,
            Err(e) => r matches Err(f) && f == e,
        },
{
    if positional.len() == 0 {
        Ok(command_list_reply())
    } else {
        let lowered = to_lowercase(positional[0]);
        help_for(lowered.as_str())
    }
}

/// The answer to a balance command.
pub fn balance_reply(balance: i64) -> (r: String)
    ensures
        r@ == "You have "@ + crate::util::currency_text(balance as int),
{
    let c = crate::util::format_currency(balance);
    String::from_str("You have ").concat(c.as_str())
}

/// The answer to an info command.
pub fn info_reply() -> (r: &'static str)
    ensures
        r@ == "Whatsapp Casino discord bot"@,
{
    "Whatsapp Casino discord bot"
}

/// The answer to a ping command.
pub fn ping_reply() -> (r: &'static str)
    ensures
        r@ == "pong"@,
{
    "pong"
}

/// The answer to a balance change that was made.
pub fn setbalance_reply() -> (r: &'static str)
    ensures
        r@ == ":ok_hand:"@,
{
    ":ok_hand:"
}

/// The user allowed to change balances by hand.
pub const OWNER_ID: u64 = 0;

/// What a balance change by hand asks for: only the owner may ask; it takes
/// exactly two arguments, a user id and a signed amount.
pub open spec fn setbalance_spec(author: u64, positional: Seq<Seq<char>>) -> Result<(u64, i64), Error> {
    if author != OWNER_ID {
        Err(Error::NoPermission)
    } else if positional.len() != 2 {
        Err(Error::InvalidArguments)
    } else {
        match crate::text::parse_u64_spec(positional[0]) {
            None => Err(Error::ParseInt),
            Some(user) => match crate::text::parse_i64_spec(positional[1]) {
                None => Err(Error::ParseInt),
                Some(by) => Ok((user, by)),
            },
        }
    }
}

/// Reads a balance change by hand: the user and the amount.
pub fn setbalance_request(author: u64, positional: &Vec<&str>) -> (r: Result<(u64, i64), Error>)
    ensures
        r == setbalance_spec(author, str_views(positional@)),
{
    if author != OWNER_ID {
        return Err(Error::NoPermission);
    }
    if positional.len() != 2 {
        return Err(Error::InvalidArguments);
    }
    let user = match crate::text::parse_u64(positional[0]) {
        Some(u) => u,
        None => return Err(Error::ParseInt),
    };
    let by = match crate::text::parse_i64(positional[1]) {
        Some(b) => b,
        None => return Err(Error::ParseInt),
    };
    Ok((user, by))
}

} // verus!
