use vstd::prelude::*;

use crate::text::str_eq;

verus! {

/// The part a player takes in a raid.
#[derive(Clone, Copy, Debug, PartialEq, Eq, Structural)]
pub enum PlayerRole {
    Tank,
    Healer,
    Dps,
}

/// The icon shown for each role.
pub open spec fn role_icon(r: PlayerRole) -> Seq<char> {
    match r {
        PlayerRole::Tank => "https://r2.seemsgood.org/content/icons/tank.png"@,
        PlayerRole::Healer => "https://r2.seemsgood.org/content/icons/healer.png"@,
        PlayerRole::Dps => "https://r2.seemsgood.org/content/icons/dps.png"@,
    }
}

/// The display name of each role.
pub open spec fn role_name(r: PlayerRole) -> Seq<char> {
    match r {
        PlayerRole::Tank => "Tank"@,
        PlayerRole::Healer => "Healer"@,
        PlayerRole::Dps => "Dps"@,
    }
}

impl PlayerRole {
    /// The address of the role's icon.
    pub fn icon_url(&self) -> (r: &'static str)
        ensures
            r@ == role_icon(*self),
    {
        match self {
            PlayerRole::Tank => "https://r2.seemsgood.org/content/icons/tank.png",
            PlayerRole::Healer => "https://r2.seemsgood.org/content/icons/healer.png",
            PlayerRole::Dps => "https://r2.seemsgood.org/content/icons/dps.png",
        }
    }

    /// The role's display name, as the pages print it.
    pub fn to_string(&self) -> (r: String)
        ensures
            r@ == role_name(*self),
    {
        let s: &str = match self {
            PlayerRole::Tank => "Tank",
            PlayerRole::Healer => "Healer",
            PlayerRole::Dps => "Dps",
        };
        s.to_owned()
    }
}


/// A playable class; each has its own colour on the pages.
#[derive(Clone, Copy, Debug, PartialEq, Eq, Structural)]
pub enum PlayerClass {
    Warrior,
    Mage,
    Rogue,
    Hunter,
    Druid,
    Paladin,
    Priest,
    Warlock,
    Monk,
    DeathKnight,
    Shaman,
    DemonHunter,
    Evoker,
}

/// The colour of each class, as a CSS `rgb(...)` value.
pub open spec fn class_rgb(c: PlayerClass) -> Seq<char> {
    match c {
        PlayerClass::DeathKnight => "rgb(196, 30, 58)"@,
        PlayerClass::DemonHunter => "rgb(163, 48, 201)"@,
        PlayerClass::Druid => "rgb(255, 124, 10)"@,
        PlayerClass::Evoker => "rgb(51, 147, 127)"@,
        PlayerClass::Hunter => "rgb(170, 211, 114)"@,
        PlayerClass::Mage => "rgb(63, 199, 235)"@,
        PlayerClass::Monk => "rgb(0, 255, 152)"@,
        PlayerClass::Paladin => "rgb(244, 140, 186)"@,
        PlayerClass::Priest => "rgb(255, 255, 255)"@,
        PlayerClass::Rogue => "rgb(255, 244, 104)"@,
        PlayerClass::Shaman => "rgb(0, 112, 221)"@,
        PlayerClass::Warlock => "rgb(135, 136, 238)"@,
        PlayerClass::Warrior => "rgb(198, 155, 109)"@,
    }
}

/// The display name of each class.
pub open spec fn class_name(c: PlayerClass) -> Seq<char> {
    match c {
        PlayerClass::DeathKnight => "DeathKnight"@,
        PlayerClass::DemonHunter => "DemonHunter"@,
        PlayerClass::Druid => "Druid"@,
        PlayerClass::Evoker => "Evoker"@,
        PlayerClass::Hunter => "Hunter"@,
        PlayerClass::Mage => "Mage"@,
        PlayerClass::Monk => "Monk"@,
        PlayerClass::Paladin => "Paladin"@,
        PlayerClass::Priest => "Priest"@,
        PlayerClass::Rogue => "Rogue"@,
        PlayerClass::Shaman => "Shaman"@,
        PlayerClass::Warlock => "Warlock"@,
        PlayerClass::Warrior => "Warrior"@,
    }
}

impl PlayerClass {
    /// The class colour, as a CSS `rgb(...)` value.
    pub fn rgb(&self) -> (r: &'static str)
        ensures
            r@ == class_rgb(*self),
    {
        match self {
            PlayerClass::DeathKnight => "rgb(196, 30, 58)",
            PlayerClass::DemonHunter => "rgb(163, 48, 201)",
            PlayerClass::Druid => "rgb(255, 124, 10)",
            PlayerClass::Evoker => "rgb(51, 147, 127)",
            PlayerClass::Hunter => "rgb(170, 211, 114)",
            PlayerClass::Mage => "rgb(63, 199, 235)",
            PlayerClass::Monk => "rgb(0, 255, 152)",
            PlayerClass::Paladin => "rgb(244, 140, 186)",
            PlayerClass::Priest => "rgb(255, 255, 255)",
            PlayerClass::Rogue => "rgb(255, 244, 104)",
            PlayerClass::Shaman => "rgb(0, 112, 221)",
            PlayerClass::Warlock => "rgb(135, 136, 238)",
            PlayerClass::Warrior => "rgb(198, 155, 109)",
        }
    }

    /// The class's display name, as the pages print it.
    pub fn to_string(&self) -> (r: String)
        ensures
            r@ == class_name(*self),
    {
        let s: &str = match self {
            PlayerClass::DeathKnight => "DeathKnight",
            PlayerClass::DemonHunter => "DemonHunter",
            PlayerClass::Druid => "Druid",
            PlayerClass::Evoker => "Evoker",
            PlayerClass::Hunter => "Hunter",
            PlayerClass::Mage => "Mage",
            PlayerClass::Monk => "Monk",
            PlayerClass::Paladin => "Paladin",
            PlayerClass::Priest => "Priest",
            PlayerClass::Rogue => "Rogue",
            PlayerClass::Shaman => "Shaman",
            PlayerClass::Warlock => "Warlock",
            PlayerClass::Warrior => "Warrior",
        };
        s.to_owned()
    }
}


/// One member of a raid roster.
#[derive(Clone, Copy, Debug)]
pub struct Player {
    pub name: &'static str,
    pub class: PlayerClass,
    pub realm: &'static str,
    pub role: PlayerRole,
}

/// What the home page shows of one cleared raid boss.
#[derive(Clone, Copy, Debug)]
pub struct RaidMetaData {
    pub fight_name: &'static str,
    pub season: &'static str,
    pub expansion: &'static str,
    pub group_photo: &'static str,
    pub log_id: &'static str,
    pub datetime: &'static str,
    pub pretty_datetime: &'static str,
    pub fight_key: &'static str,
    pub fight_is_video: bool,
}

/// The raids shown on the home page, newest first.
pub open spec fn raid_table() -> Seq<RaidMetaData> {
    seq![
        RaidMetaData {
            fight_name: "Dimensius",
            season: "Season 3",
            expansion: "The War Within",
            group_photo: "dimensius-kill",
            log_id: "Nmh3PAJ6kzYKGb2D",
            datetime: "2025-12-18",
            pretty_datetime: "10:45pm - 18 December 2025",
            fight_key: "Dimensius",
            fight_is_video: true,
        },
        RaidMetaData {
            fight_name: "Gallywix",
            season: "Season 2",
            expansion: "The War Within",
            group_photo: "gallywix-kill-group.png",
            log_id: "FBvTzZPLVmdApbN6",
            datetime: "2025-06-26",
            pretty_datetime: "9:13pm - 26 June 2025",
            fight_key: "Gallywix",
            fight_is_video: false,
        },
        RaidMetaData {
            fight_name: "Kyvesa",
            season: "Season 1",
            expansion: "The War Within",
            group_photo: "kyvesa-kill",
            log_id: "Lfx3nrBVRWtNFzMQ",
            datetime: "2024-12-12",
            pretty_datetime: "10:15pm - 12 December 2024",
            fight_key: "Kyvesa",
            fight_is_video: true,
        },
        RaidMetaData {
            fight_name: "Fyrakk",
            season: "Season 4",
            expansion: "Dragonflight",
            group_photo: "fyrakk-group-pic.jpg",
            log_id: "F8fxkdGnVQmRNCJrv",
            datetime: "2024-07-01",
            pretty_datetime: "10:03pm - 1 July 2024",
            fight_key: "Fyrakk",
            fight_is_video: false,
        },
    ]
}

/// Builds the raid table. A raid with `fight_is_video` has its kill video
/// in the object store under `<fight_name>-kill-video.mp4`.
pub fn build_raid() -> (r: Vec<RaidMetaData>)
    ensures
        r@ == raid_table(),
{
    let raid_metadata = vec![
        RaidMetaData {
            fight_name: "Dimensius",
            season: "Season 3",
            expansion: "The War Within",
            group_photo: "dimensius-kill",
            log_id: "Nmh3PAJ6kzYKGb2D",
            datetime: "2025-12-18",
            pretty_datetime: "10:45pm - 18 December 2025",
            fight_key: "Dimensius",
            fight_is_video: true,
        },
        RaidMetaData {
            fight_name: "Gallywix",
            season: "Season 2",
            expansion: "The War Within",
            group_photo: "gallywix-kill-group.png",
            log_id: "FBvTzZPLVmdApbN6",
            datetime: "2025-06-26",
            pretty_datetime: "9:13pm - 26 June 2025",
            fight_key: "Gallywix",
            fight_is_video: false,
        },
        RaidMetaData {
            fight_name: "Kyvesa",
            season: "Season 1",
            expansion: "The War Within",
            group_photo: "kyvesa-kill",
            log_id: "Lfx3nrBVRWtNFzMQ",
            datetime: "2024-12-12",
            pretty_datetime: "10:15pm - 12 December 2024",
            fight_key: "Kyvesa",
            fight_is_video: true,
        },
        RaidMetaData {
            fight_name: "Fyrakk",
            season: "Season 4",
            expansion: "Dragonflight",
            group_photo: "fyrakk-group-pic.jpg",
            log_id: "F8fxkdGnVQmRNCJrv",
            datetime: "2024-07-01",
            pretty_datetime: "10:03pm - 1 July 2024",
            fight_key: "Fyrakk",
            fight_is_video: false,
        },
    ];
    raid_metadata
}

/// The roster shown for a raid the table does not know.
pub open spec fn default_roster() -> Seq<Player> {
    seq![
        Player { name: "DefaultName", class: PlayerClass::Paladin, realm: "DefaultRealm", role: PlayerRole::Tank },
    ]
}

/// The Fyrakk roster (Dragonflight, season 4).
pub open spec fn fyrakk_roster() -> Seq<Player> {
    seq![
        Player { name: "Jugsmcgee", class: PlayerClass::DeathKnight, realm: "Stormrage", role: PlayerRole::Tank },
        Player { name: "Rogermeta", class: PlayerClass::DemonHunter, realm: "Stormrage", role: PlayerRole::Tank },
        Player { name: "Evelianne", class: PlayerClass::Monk, realm: "Stormrage", role: PlayerRole::Healer },
        Player { name: "Shdo", class: PlayerClass::Paladin, realm: "Stormrage", role: PlayerRole::Healer },
        Player { name: "Delusionol", class: PlayerClass::Priest, realm: "Stormrage", role: PlayerRole::Healer },
        Player { name: "Sylvána", class: PlayerClass::Priest, realm: "Stormrage", role: PlayerRole::Healer },
        Player { name: "Tusknight", class: PlayerClass::DeathKnight, realm: "Stormrage", role: PlayerRole::Dps },
        Player { name: "Amarelysa", class: PlayerClass::DemonHunter, realm: "Stormrage", role: PlayerRole::Dps },
        Player { name: "Fliptwisty", class: PlayerClass::DemonHunter, realm: "Stormrage", role: PlayerRole::Dps },
        Player { name: "Nuzzler", class: PlayerClass::Druid, realm: "Stormrage", role: PlayerRole::Dps },
        Player { name: "Nyansev", class: PlayerClass::Evoker, realm: "Stormrage", role: PlayerRole::Dps },
        Player { name: "Jennatullz", class: PlayerClass::Hunter, realm: "Stormrage", role: PlayerRole::Dps },
        Player { name: "Kaelirious", class: PlayerClass::Hunter, realm: "Stormrage", role: PlayerRole::Dps },
        Player { name: "Infilicious", class: PlayerClass::Mage, realm: "Stormrage", role: PlayerRole::Dps },
        Player { name: "Jakksparrow", class: PlayerClass::Paladin, realm: "Stormrage", role: PlayerRole::Dps },
        Player { name: "Paliduh", class: PlayerClass::Paladin, realm: "Stormrage", role: PlayerRole::Dps },
        Player { name: "Wallysaurous", class: PlayerClass::Paladin, realm: "Stormrage", role: PlayerRole::Dps },
        Player { name: "Nicechint", class: PlayerClass::Rogue, realm: "Stormrage", role: PlayerRole::Dps },
        Player { name: "Lanathallan", class: PlayerClass::Warlock, realm: "Stormrage", role: PlayerRole::Dps },
        Player { name: "Contradict", class: PlayerClass::Warrior, realm: "Stormrage", role: PlayerRole::Dps },
    ]
}

/// The Kyvesa roster (The War Within, season 1).
pub open spec fn kyvesa_roster() -> Seq<Player> {
    seq![
        Player { name: "Crypticist", class: PlayerClass::DeathKnight, realm: "Zul'jin", role: PlayerRole::Tank },
        Player { name: "Paliduh", class: PlayerClass::Paladin, realm: "Stormrage", role: PlayerRole::Tank },
        Player { name: "Notshodo", class: PlayerClass::Evoker, realm: "Stormrage", role: PlayerRole::Healer },
        Player { name: "Evelianne", class: PlayerClass::Monk, realm: "Stormrage", role: PlayerRole::Healer },
        Player { name: "Spera", class: PlayerClass::Paladin, realm: "Stormrage", role: PlayerRole::Healer },
        Player { name: "Delusionil", class: PlayerClass::Priest, realm: "Stormrage", role: PlayerRole::Healer },
        Player { name: "Piptide", class: PlayerClass::Shaman, realm: "Tichondrius", role: PlayerRole::Healer },
        Player { name: "Rogergrowth", class: PlayerClass::Druid, realm: "Stormrage", role: PlayerRole::Dps },
        Player { name: "Kolzane", class: PlayerClass::Hunter, realm: "Stormrage", role: PlayerRole::Dps },
        Player { name: "Hekthuzad", class: PlayerClass::Mage, realm: "Stormrage", role: PlayerRole::Dps },
        Player { name: "Infilicious", class: PlayerClass::Mage, realm: "Stormrage", role: PlayerRole::Dps },
        Player { name: "Filio", class: PlayerClass::Monk, realm: "Stormrage", role: PlayerRole::Dps },
        Player { name: "Quelstyle", class: PlayerClass::Paladin, realm: "Stormrage", role: PlayerRole::Dps },
        Player { name: "Emlay", class: PlayerClass::Priest, realm: "Stormrage", role: PlayerRole::Dps },
        Player { name: "Vinneya", class: PlayerClass::Priest, realm: "Stormrage", role: PlayerRole::Dps },
        Player { name: "Ppdx", class: PlayerClass::Rogue, realm: "Stormrage", role: PlayerRole::Dps },
        Player { name: "Dubshamm", class: PlayerClass::Shaman, realm: "Stormrage", role: PlayerRole::Dps },
        Player { name: "Lanathallan", class: PlayerClass::Warlock, realm: "Stormrage", role: PlayerRole::Dps },
        Player { name: "Nyanslok", class: PlayerClass::Warlock, realm: "Stormrage", role: PlayerRole::Dps },
        Player { name: "Chuubers", class: PlayerClass::Warrior, realm: "Stormrage", role: PlayerRole::Dps },
    ]
}

/// The Gallywix roster (The War Within, season 2).
pub open spec fn gallywix_roster() -> Seq<Player> {
    seq![
        Player { name: "Whare", class: PlayerClass::Paladin, realm: "Stormrage", role: PlayerRole::Tank },
        Player { name: "Jaemsy", class: PlayerClass::Warrior, realm: "Stormrage", role: PlayerRole::Tank },
        Player { name: "Pipmeow", class: PlayerClass::Druid, realm: "Tichondrius", role: PlayerRole::Healer },
        Player { name: "Evelianne", class: PlayerClass::Monk, realm: "Stormrage", role: PlayerRole::Healer },
        Player { name: "Delusionol", class: PlayerClass::Priest, realm: "Stormrage", role: PlayerRole::Healer },
        Player { name: "Oldmanzand", class: PlayerClass::Shaman, realm: "Illidan", role: PlayerRole::Healer },
        Player { name: "Obiscuit", class: PlayerClass::DeathKnight, realm: "Stormrage", role: PlayerRole::Dps },
        Player { name: "Jedh", class: PlayerClass::DemonHunter, realm: "Dalaran", role: PlayerRole::Dps },
        Player { name: "Nuzzler", class: PlayerClass::Druid, realm: "Stormrage", role: PlayerRole::Dps },
        Player { name: "Rogergrowth", class: PlayerClass::Druid, realm: "Stormrage", role: PlayerRole::Dps },
        Player { name: "Indico", class: PlayerClass::Evoker, realm: "Zul'jin", role: PlayerRole::Dps },
        Player { name: "Notshodo", class: PlayerClass::Evoker, realm: "Stormrage", role: PlayerRole::Dps },
        Player { name: "Kolzane", class: PlayerClass::Hunter, realm: "Ysera", role: PlayerRole::Dps },
        Player { name: "Stormßreeð", class: PlayerClass::Hunter, realm: "Thrall", role: PlayerRole::Dps },
        Player { name: "Infilicious", class: PlayerClass::Mage, realm: "Stormrage", role: PlayerRole::Dps },
        Player { name: "Filio", class: PlayerClass::Monk, realm: "Stormrage", role: PlayerRole::Dps },
        Player { name: "Ppdx", class: PlayerClass::Rogue, realm: "Stormrage", role: PlayerRole::Dps },
        Player { name: "Dubshamm", class: PlayerClass::Shaman, realm: "Stormrage", role: PlayerRole::Dps },
        Player { name: "Nyanslok", class: PlayerClass::Warlock, realm: "Stormrage", role: PlayerRole::Dps },
        Player { name: "Aphitari", class: PlayerClass::Warrior, realm: "Stormrage", role: PlayerRole::Dps },
    ]
}

/// The Dimensius roster (The War Within, season 3).
pub open spec fn dimensius_roster() -> Seq<Player> {
    seq![
        Player { name: "Whare", class: PlayerClass::Paladin, realm: "Stormrage", role: PlayerRole::Tank },
        Player { name: "Purpformance", class: PlayerClass::Monk, realm: "Proudmoore", role: PlayerRole::Tank },
        Player { name: "Piptide", class: PlayerClass::Shaman, realm: "Tichondrius", role: PlayerRole::Healer },
        Player { name: "Evelianne", class: PlayerClass::Monk, realm: "Stormrage", role: PlayerRole::Healer },
        Player { name: "Philfishh", class: PlayerClass::Monk, realm: "Area-52", role: PlayerRole::Healer },
        Player { name: "Delusionol", class: PlayerClass::Priest, realm: "Stormrage", role: PlayerRole::Healer },
        Player { name: "Obiscuit", class: PlayerClass::DeathKnight, realm: "Stormrage", role: PlayerRole::Dps },
        Player { name: "Fliptwisty", class: PlayerClass::DemonHunter, realm: "Stormrage", role: PlayerRole::Dps },
        Player { name: "Ovtlaw", class: PlayerClass::Rogue, realm: "Dalaran", role: PlayerRole::Dps },
        Player { name: "Nuzzler", class: PlayerClass::Druid, realm: "Stormrage", role: PlayerRole::Dps },
        Player { name: "Rogerport", class: PlayerClass::Mage, realm: "Stormrage", role: PlayerRole::Dps },
        Player { name: "Indico", class: PlayerClass::Evoker, realm: "Zul'jin", role: PlayerRole::Dps },
        Player { name: "Prankdaddy", class: PlayerClass::Evoker, realm: "Thrall", role: PlayerRole::Dps },
        Player { name: "Kolzane", class: PlayerClass::Hunter, realm: "Ysera", role: PlayerRole::Dps },
        Player { name: "Stormßreeð", class: PlayerClass::Hunter, realm: "Thrall", role: PlayerRole::Dps },
        Player { name: "Infilicious", class: PlayerClass::Mage, realm: "Stormrage", role: PlayerRole::Dps },
        Player { name: "Ppddk", class: PlayerClass::DeathKnight, realm: "Stormrage", role: PlayerRole::Dps },
        Player { name: "Purpleheal", class: PlayerClass::Priest, realm: "Stormrage", role: PlayerRole::Dps },
        Player { name: "Nyanslok", class: PlayerClass::Warlock, realm: "Stormrage", role: PlayerRole::Dps },
        Player { name: "Aphitari", class: PlayerClass::Warrior, realm: "Stormrage", role: PlayerRole::Dps },
    ]
}

/// The roster of the raid named `id`.
pub open spec fn roster_of(id: Seq<char>) -> Seq<Player> {
    if id == "Dimensius"@ {
        dimensius_roster()
    } else if id == "Gallywix"@ {
        gallywix_roster()
    } else if id == "Kyvesa"@ {
        kyvesa_roster()
    } else if id == "Fyrakk"@ {
        fyrakk_roster()
    } else {
        default_roster()
    }
}

fn default() -> (r: Vec<Player>)
    ensures
        r@ == default_roster(),
{
    vec![
        Player { name: "DefaultName", class: PlayerClass::Paladin, realm: "DefaultRealm", role: PlayerRole::Tank },
    ]
}

fn fyrakk() -> (r: Vec<Player>)
    ensures
        r@ == fyrakk_roster(),
{
    vec![
        Player { name: "Jugsmcgee", class: PlayerClass::DeathKnight, realm: "Stormrage", role: PlayerRole::Tank },
        Player { name: "Rogermeta", class: PlayerClass::DemonHunter, realm: "Stormrage", role: PlayerRole::Tank },
        Player { name: "Evelianne", class: PlayerClass::Monk, realm: "Stormrage", role: PlayerRole::Healer },
        Player { name: "Shdo", class: PlayerClass::Paladin, realm: "Stormrage", role: PlayerRole::Healer },
        Player { name: "Delusionol", class: PlayerClass::Priest, realm: "Stormrage", role: PlayerRole::Healer },
        Player { name: "Sylvána", class: PlayerClass::Priest, realm: "Stormrage", role: PlayerRole::Healer },
        Player { name: "Tusknight", class: PlayerClass::DeathKnight, realm: "Stormrage", role: PlayerRole::Dps },
        Player { name: "Amarelysa", class: PlayerClass::DemonHunter, realm: "Stormrage", role: PlayerRole::Dps },
        Player { name: "Fliptwisty", class: PlayerClass::DemonHunter, realm: "Stormrage", role: PlayerRole::Dps },
        Player { name: "Nuzzler", class: PlayerClass::Druid, realm: "Stormrage", role: PlayerRole::Dps },
        Player { name: "Nyansev", class: PlayerClass::Evoker, realm: "Stormrage", role: PlayerRole::Dps },
        Player { name: "Jennatullz", class: PlayerClass::Hunter, realm: "Stormrage", role: PlayerRole::Dps },
        Player { name: "Kaelirious", class: PlayerClass::Hunter, realm: "Stormrage", role: PlayerRole::Dps },
        Player { name: "Infilicious", class: PlayerClass::Mage, realm: "Stormrage", role: PlayerRole::Dps },
        Player { name: "Jakksparrow", class: PlayerClass::Paladin, realm: "Stormrage", role: PlayerRole::Dps },
        Player { name: "Paliduh", class: PlayerClass::Paladin, realm: "Stormrage", role: PlayerRole::Dps },
        Player { name: "Wallysaurous", class: PlayerClass::Paladin, realm: "Stormrage", role: PlayerRole::Dps },
        Player { name: "Nicechint", class: PlayerClass::Rogue, realm: "Stormrage", role: PlayerRole::Dps },
        Player { name: "Lanathallan", class: PlayerClass::Warlock, realm: "Stormrage", role: PlayerRole::Dps },
        Player { name: "Contradict", class: PlayerClass::Warrior, realm: "Stormrage", role: PlayerRole::Dps },
    ]
}

fn kyvesa() -> (r: Vec<Player>)
    ensures
        r@ == kyvesa_roster(),
{
    vec![
        Player { name: "Crypticist", class: PlayerClass::DeathKnight, realm: "Zul'jin", role: PlayerRole::Tank },
        Player { name: "Paliduh", class: PlayerClass::Paladin, realm: "Stormrage", role: PlayerRole::Tank },
        Player { name: "Notshodo", class: PlayerClass::Evoker, realm: "Stormrage", role: PlayerRole::Healer },
        Player { name: "Evelianne", class: PlayerClass::Monk, realm: "Stormrage", role: PlayerRole::Healer },
        Player { name: "Spera", class: PlayerClass::Paladin, realm: "Stormrage", role: PlayerRole::Healer },
        Player { name: "Delusionil", class: PlayerClass::Priest, realm: "Stormrage", role: PlayerRole::Healer },
        Player { name: "Piptide", class: PlayerClass::Shaman, realm: "Tichondrius", role: PlayerRole::Healer },
        Player { name: "Rogergrowth", class: PlayerClass::Druid, realm: "Stormrage", role: PlayerRole::Dps },
        Player { name: "Kolzane", class: PlayerClass::Hunter, realm: "Stormrage", role: PlayerRole::Dps },
        Player { name: "Hekthuzad", class: PlayerClass::Mage, realm: "Stormrage", role: PlayerRole::Dps },
        Player { name: "Infilicious", class: PlayerClass::Mage, realm: "Stormrage", role: PlayerRole::Dps },
        Player { name: "Filio", class: PlayerClass::Monk, realm: "Stormrage", role: PlayerRole::Dps },
        Player { name: "Quelstyle", class: PlayerClass::Paladin, realm: "Stormrage", role: PlayerRole::Dps },
        Player { name: "Emlay", class: PlayerClass::Priest, realm: "Stormrage", role: PlayerRole::Dps },
        Player { name: "Vinneya", class: PlayerClass::Priest, realm: "Stormrage", role: PlayerRole::Dps },
        Player { name: "Ppdx", class: PlayerClass::Rogue, realm: "Stormrage", role: PlayerRole::Dps },
        Player { name: "Dubshamm", class: PlayerClass::Shaman, realm: "Stormrage", role: PlayerRole::Dps },
        Player { name: "Lanathallan", class: PlayerClass::Warlock, realm: "Stormrage", role: PlayerRole::Dps },
        Player { name: "Nyanslok", class: PlayerClass::Warlock, realm: "Stormrage", role: PlayerRole::Dps },
        Player { name: "Chuubers", class: PlayerClass::Warrior, realm: "Stormrage", role: PlayerRole::Dps },
    ]
}

fn gallywix() -> (r: Vec<Player>)
    ensures
        r@ == gallywix_roster(),
{
    vec![
        Player { name: "Whare", class: PlayerClass::Paladin, realm: "Stormrage", role: PlayerRole::Tank },
        Player { name: "Jaemsy", class: PlayerClass::Warrior, realm: "Stormrage", role: PlayerRole::Tank },
        Player { name: "Pipmeow", class: PlayerClass::Druid, realm: "Tichondrius", role: PlayerRole::Healer },
        Player { name: "Evelianne", class: PlayerClass::Monk, realm: "Stormrage", role: PlayerRole::Healer },
        Player { name: "Delusionol", class: PlayerClass::Priest, realm: "Stormrage", role: PlayerRole::Healer },
        Player { name: "Oldmanzand", class: PlayerClass::Shaman, realm: "Illidan", role: PlayerRole::Healer },
        Player { name: "Obiscuit", class: PlayerClass::DeathKnight, realm: "Stormrage", role: PlayerRole::Dps },
        Player { name: "Jedh", class: PlayerClass::DemonHunter, realm: "Dalaran", role: PlayerRole::Dps },
        Player { name: "Nuzzler", class: PlayerClass::Druid, realm: "Stormrage", role: PlayerRole::Dps },
        Player { name: "Rogergrowth", class: PlayerClass::Druid, realm: "Stormrage", role: PlayerRole::Dps },
        Player { name: "Indico", class: PlayerClass::Evoker, realm: "Zul'jin", role: PlayerRole::Dps },
        Player { name: "Notshodo", class: PlayerClass::Evoker, realm: "Stormrage", role: PlayerRole::Dps },
        Player { name: "Kolzane", class: PlayerClass::Hunter, realm: "Ysera", role: PlayerRole::Dps },
        Player { name: "Stormßreeð", class: PlayerClass::Hunter, realm: "Thrall", role: PlayerRole::Dps },
        Player { name: "Infilicious", class: PlayerClass::Mage, realm: "Stormrage", role: PlayerRole::Dps },
        Player { name: "Filio", class: PlayerClass::Monk, realm: "Stormrage", role: PlayerRole::Dps },
        Player { name: "Ppdx", class: PlayerClass::Rogue, realm: "Stormrage", role: PlayerRole::Dps },
        Player { name: "Dubshamm", class: PlayerClass::Shaman, realm: "Stormrage", role: PlayerRole::Dps },
        Player { name: "Nyanslok", class: PlayerClass::Warlock, realm: "Stormrage", role: PlayerRole::Dps },
        Player { name: "Aphitari", class: PlayerClass::Warrior, realm: "Stormrage", role: PlayerRole::Dps },
    ]
}

fn dimensius() -> (r: Vec<Player>)
    ensures
        r@ == dimensius_roster(),
{
    vec![
        Player { name: "Whare", class: PlayerClass::Paladin, realm: "Stormrage", role: PlayerRole::Tank },
        Player { name: "Purpformance", class: PlayerClass::Monk, realm: "Proudmoore", role: PlayerRole::Tank },
        Player { name: "Piptide", class: PlayerClass::Shaman, realm: "Tichondrius", role: PlayerRole::Healer },
        Player { name: "Evelianne", class: PlayerClass::Monk, realm: "Stormrage", role: PlayerRole::Healer },
        Player { name: "Philfishh", class: PlayerClass::Monk, realm: "Area-52", role: PlayerRole::Healer },
        Player { name: "Delusionol", class: PlayerClass::Priest, realm: "Stormrage", role: PlayerRole::Healer },
        Player { name: "Obiscuit", class: PlayerClass::DeathKnight, realm: "Stormrage", role: PlayerRole::Dps },
        Player { name: "Fliptwisty", class: PlayerClass::DemonHunter, realm: "Stormrage", role: PlayerRole::Dps },
        Player { name: "Ovtlaw", class: PlayerClass::Rogue, realm: "Dalaran", role: PlayerRole::Dps },
        Player { name: "Nuzzler", class: PlayerClass::Druid, realm: "Stormrage", role: PlayerRole::Dps },
        Player { name: "Rogerport", class: PlayerClass::Mage, realm: "Stormrage", role: PlayerRole::Dps },
        Player { name: "Indico", class: PlayerClass::Evoker, realm: "Zul'jin", role: PlayerRole::Dps },
        Player { name: "Prankdaddy", class: PlayerClass::Evoker, realm: "Thrall", role: PlayerRole::Dps },
        Player { name: "Kolzane", class: PlayerClass::Hunter, realm: "Ysera", role: PlayerRole::Dps },
        Player { name: "Stormßreeð", class: PlayerClass::Hunter, realm: "Thrall", role: PlayerRole::Dps },
        Player { name: "Infilicious", class: PlayerClass::Mage, realm: "Stormrage", role: PlayerRole::Dps },
        Player { name: "Ppddk", class: PlayerClass::DeathKnight, realm: "Stormrage", role: PlayerRole::Dps },
        Player { name: "Purpleheal", class: PlayerClass::Priest, realm: "Stormrage", role: PlayerRole::Dps },
        Player { name: "Nyanslok", class: PlayerClass::Warlock, realm: "Stormrage", role: PlayerRole::Dps },
        Player { name: "Aphitari", class: PlayerClass::Warrior, realm: "Stormrage", role: PlayerRole::Dps },
    ]
}

/// The roster of the raid named `id`; a placeholder roster of one player
/// where `id` names no raid of the table.
pub fn build_roster(id: &str) -> (r: Vec<Player>)
    ensures
        r@ == roster_of(id@),
{
    if str_eq(id, "Dimensius") {
        dimensius()
    } else if str_eq(id, "Gallywix") {
        gallywix()
    } else if str_eq(id, "Kyvesa") {
        kyvesa()
    } else if str_eq(id, "Fyrakk") {
        fyrakk()
    } else {
        default()
    }
}

} // verus!
