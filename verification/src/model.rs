//! The bot's vocabulary: emoji, slot-machine icons and command modules.
use vstd::prelude::*;

verus! {

/// The emoji that the bot writes into its messages.
///
/// `Credits` is the emoji that amounts of currency are shown with. `Fabio`
/// and `Reaper` show the icons of the same name; the bot has no custom
/// Discord emoji for them, so they are written as the plain shortcodes
/// `:fabio:` and `:reaper:`.
#[derive(Clone, Copy, Debug, PartialEq, Eq, Structural)]
pub enum Emoji {
    Credits,
    EpicFail,
    Moosh,
    Reddit,
    Discord,
    Troll,
    WhatsappSpencer,
    Whatsapp,
    WhatsappGold,
    Fire,
    TheDollar,
    PackOLantern,
    Fabio,
    Reaper,
}

impl Emoji {
    /// The Discord markup of the emoji.
    pub open spec fn markup(self) -> Seq<char> {
        match self {
            Emoji::Credits => "<:points:1098027068152873092>"@,
            Emoji::EpicFail => "<:fail:1098060687101673552>"@,
            Emoji::Moosh => "<:moosher:1098433526141046825>"@,
            Emoji::Reddit => "<:reddit:1144084645332402297>"@,
            Emoji::Discord => "<:discord:1144085223806599218>"@,
            Emoji::Troll => "<:troll:1098433050662162532>"@,
            Emoji::WhatsappSpencer => "<:wappspencer:1098434636721422346>"@,
            Emoji::Whatsapp => "<:wapp:1098433043175313448>"@,
            Emoji::WhatsappGold => "<:wappgold:1098433045339586601>"@,
            Emoji::Fire => ":fire:"@,
            Emoji::TheDollar => ":dollar:"@,
            Emoji::PackOLantern => "<:packolantern:1110735361644183643>"@,
            Emoji::Fabio => ":fabio:"@,
            Emoji::Reaper => ":reaper:"@,
        }
    }

    /// The Discord markup of the emoji, as its `Display` writes it.
    pub fn text(&self) -> (r: &'static str)
        ensures
            r@ == self.markup(),
    {
        match self {
            Emoji::Credits => "<:points:1098027068152873092>",
            Emoji::EpicFail => "<:fail:1098060687101673552>",
            Emoji::Moosh => "<:moosher:1098433526141046825>",
            Emoji::Reddit => "<:reddit:1144084645332402297>",
            Emoji::Discord => "<:discord:1144085223806599218>",
            Emoji::Troll => "<:troll:1098433050662162532>",
            Emoji::WhatsappSpencer => "<:wappspencer:1098434636721422346>",
            Emoji::Whatsapp => "<:wapp:1098433043175313448>",
            Emoji::WhatsappGold => "<:wappgold:1098433045339586601>",
            Emoji::Fire => ":fire:",
            Emoji::TheDollar => ":dollar:",
            Emoji::PackOLantern => "<:packolantern:1110735361644183643>",
            Emoji::Fabio => ":fabio:",
            Emoji::Reaper => ":reaper:",
        }
    }

    /// The markup as an owned string, what `to_string` gives.
    pub fn to_string(&self) -> (r: String)
        ensures
            r@ == self.markup(),
    {
        String::from_str(self.text())
    }
}

/// The icons on the slot machine's wheels.
#[derive(Clone, Copy, Debug, PartialEq, Eq, Structural)]
pub enum Icon {
    Moosh,
    Fabio,
    Reaper,
    Troll,
    WhatsappSpencer,
    Whatsapp,
    WhatsappGold,
    TheDollar,
    JointOLantern,
}

impl Icon {
    /// The emoji that shows the icon.
    pub open spec fn spec_emoji(self) -> Emoji {
        match self {
            Icon::Moosh => Emoji::Moosh,
            Icon::Fabio => Emoji::Fabio,
            Icon::Reaper => Emoji::Reaper,
            Icon::Troll => Emoji::Troll,
            Icon::WhatsappSpencer => Emoji::WhatsappSpencer,
            Icon::Whatsapp => Emoji::Whatsapp,
            Icon::WhatsappGold => Emoji::WhatsappGold,
            Icon::TheDollar => Emoji::TheDollar,
            Icon::JointOLantern => Emoji::PackOLantern,
        }
    }

    /// The emoji that shows the icon.
    pub fn emoji(&self) -> (r: Emoji)
        ensures
            r == self.spec_emoji(),
    {
        match *self {
            Icon::Moosh => Emoji::Moosh,
            Icon::Fabio => Emoji::Fabio,
            Icon::Reaper => Emoji::Reaper,
            Icon::Troll => Emoji::Troll,
            Icon::WhatsappSpencer => Emoji::WhatsappSpencer,
            Icon::Whatsapp => Emoji::Whatsapp,
            Icon::WhatsappGold => Emoji::WhatsappGold,
            Icon::TheDollar => Emoji::TheDollar,
            Icon::JointOLantern => Emoji::PackOLantern,
        }
    }

    /// The icon's display name.
    pub open spec fn spec_name(self) -> Seq<char> {
        match self {
            Icon::Moosh => "Moosh"@,
            Icon::Fabio => "Fabio"@,
            Icon::Reaper => "Reaper"@,
            Icon::Troll => "Troll"@,
            Icon::WhatsappSpencer => "Whatsapp Spencer"@,
            Icon::Whatsapp => "Whatsapp"@,
            Icon::WhatsappGold => "Whatsapp Gold"@,
            Icon::TheDollar => "the dollar"@,
            Icon::JointOLantern => "joint-o-lantern"@,
        }
    }

    /// The icon's display name.
    pub fn name(&self) -> (r: &'static str)
        ensures
            r@ == self.spec_name(),
    {
        match *self {
            Icon::Moosh => "Moosh",
            Icon::Fabio => "Fabio",
            Icon::Reaper => "Reaper",
            Icon::Troll => "Troll",
            Icon::WhatsappSpencer => "Whatsapp Spencer",
            Icon::Whatsapp => "Whatsapp",
            Icon::WhatsappGold => "Whatsapp Gold",
            Icon::TheDollar => "the dollar",
            Icon::JointOLantern => "joint-o-lantern",
        }
    }

    /// The icon's payout multipliers in tenths: what one icon on the payout
    /// row adds, and what a row of three of it adds.
    pub open spec fn spec_multipliers(self) -> (u32, u32) {
        match self {
            Icon::Moosh => (0, 0),
            Icon::Fabio => (1, 5),
            Icon::Reaper => (2, 10),
            Icon::TheDollar => (3, 0),
            Icon::Troll => (4, 18),
            Icon::WhatsappSpencer => (5, 0),
            Icon::JointOLantern => (6, 30),
            Icon::Whatsapp => (7, 38),
            Icon::WhatsappGold => (12, 45),
        }
    }

    /// The icon's payout multipliers in tenths (`.0` for one icon, `.1` for
    /// a row of three).
    pub fn multipliers(&self) -> (r: (u32, u32))
        ensures
            r == self.spec_multipliers(),
    {
        match *self {
            Icon::Moosh => (0, 0),
            Icon::Fabio => (1, 5),
            Icon::Reaper => (2, 10),
            Icon::TheDollar => (3, 0),
            Icon::Troll => (4, 18),
            Icon::WhatsappSpencer => (5, 0),
            Icon::JointOLantern => (6, 30),
            Icon::Whatsapp => (7, 38),
            Icon::WhatsappGold => (12, 45),
        }
    }
}

/// The modules that commands belong to.
#[derive(Clone, Copy, Debug, PartialEq, Eq, Structural)]
pub enum Class {
    Core,
    GetItTwisted,
}

/// A module's name and description.
pub struct Info {
    pub name: &'static str,
    pub description: &'static str,
}

impl Class {
    /// The module's display name.
    pub open spec fn spec_name(self) -> Seq<char> {
        match self {
            Class::Core => "Core"@,
            Class::GetItTwisted => "Chinese gambling simulator"@,
        }
    }

    /// The module's description.
    pub open spec fn spec_description(self) -> Seq<char> {
        match self {
            Class::Core => "Core commands"@,
            Class::GetItTwisted => "🦍 🗣 GET IT TWISTED 🌪 , GAMBLE ✅ . PLEASE START GAMBLING 👍 . GAMBLING IS AN INVESTMENT 🎰 AND AN INVESTMENT ONLY 👍 . YOU WILL PROFIT 💰 , YOU WILL WIN ❗ ️. YOU WILL DO ALL OF THAT 💯 , YOU UNDERSTAND ⁉ ️ YOU WILL BECOME A BILLIONAIRE 💵 📈 AND REBUILD YOUR FUCKING LIFE 🤯"@,
        }
    }

    /// The module's name and description.
    pub fn info(&self) -> (r: Info)
        ensures
            r.name@ == self.spec_name(),
            r.description@ == self.spec_description(),
    {
        match self {
            Class::Core => Info { name: "Core", description: "Core commands" },
            Class::GetItTwisted => Info {
                name: "Chinese gambling simulator",
                description: "🦍 🗣 GET IT TWISTED 🌪 , GAMBLE ✅ . PLEASE START GAMBLING 👍 . GAMBLING IS AN INVESTMENT 🎰 AND AN INVESTMENT ONLY 👍 . YOU WILL PROFIT 💰 , YOU WILL WIN ❗ ️. YOU WILL DO ALL OF THAT 💯 , YOU UNDERSTAND ⁉ ️ YOU WILL BECOME A BILLIONAIRE 💵 📈 AND REBUILD YOUR FUCKING LIFE 🤯",
            },
        }
    }
}

} // verus!
