use vstd::prelude::*;

use crate::player_metadata::PlayerClass;

verus! {

/// A player on the Mythic+ page.
#[derive(Clone, Copy, Debug)]
pub struct Player {
    pub name: &'static str,
    pub class: PlayerClass,
    pub realm: &'static str,
}

/// The players listed on the Mythic+ page, by realm.
pub open spec fn keys_table() -> Seq<Player> {
    seq![
        Player { name: "Aphitari", class: PlayerClass::Warrior, realm: "Area 52" },
        Player { name: "Philfishh", class: PlayerClass::Monk, realm: "Area 52" },
        Player { name: "Ovtlaw", class: PlayerClass::Rogue, realm: "Dalaran" },
        Player { name: "Oldmanzand", class: PlayerClass::Shaman, realm: "Illidan" },
        Player { name: "Ppddk", class: PlayerClass::DeathKnight, realm: "Mal'Ganis" },
        Player { name: "Delusionol", class: PlayerClass::Priest, realm: "Stormrage" },
        Player { name: "Evelianne", class: PlayerClass::Monk, realm: "Stormrage" },
        Player { name: "Fliptwisty", class: PlayerClass::DemonHunter, realm: "Stormrage" },
        Player { name: "Infilicious", class: PlayerClass::Mage, realm: "Stormrage" },
        Player { name: "Notshodo", class: PlayerClass::Evoker, realm: "Stormrage" },
        Player { name: "Nuzzler", class: PlayerClass::Druid, realm: "Stormrage" },
        Player { name: "Nyanslok", class: PlayerClass::Warlock, realm: "Stormrage" },
        Player { name: "Obiscuit", class: PlayerClass::DeathKnight, realm: "Stormrage" },
        Player { name: "Ppdx", class: PlayerClass::Rogue, realm: "Stormrage" },
        Player { name: "Purpleheal", class: PlayerClass::Priest, realm: "Stormrage" },
        Player { name: "Rogerport", class: PlayerClass::Mage, realm: "Stormrage" },
        Player { name: "Whare", class: PlayerClass::Paladin, realm: "Stormrage" },
        Player { name: "Prankdaddy", class: PlayerClass::Evoker, realm: "Thrall" },
        Player { name: "Rektribute", class: PlayerClass::Paladin, realm: "Thrall" },
        Player { name: "Stormbreed", class: PlayerClass::Hunter, realm: "Thrall" },
        Player { name: "Piptide", class: PlayerClass::Shaman, realm: "Tichondrius" },
        Player { name: "Kolzane", class: PlayerClass::Hunter, realm: "Ysera" },
        Player { name: "Indico", class: PlayerClass::Evoker, realm: "Zul'jin" },
    ]
}

/// Builds the list of the Mythic+ page.
pub fn build_keys_players() -> (r: Vec<Player>)
    ensures
        r@ == keys_table(),
{
    vec![
        Player { name: "Aphitari", class: PlayerClass::Warrior, realm: "Area 52" },
        Player { name: "Philfishh", class: PlayerClass::Monk, realm: "Area 52" },
        Player { name: "Ovtlaw", class: PlayerClass::Rogue, realm: "Dalaran" },
        Player { name: "Oldmanzand", class: PlayerClass::Shaman, realm: "Illidan" },
        Player { name: "Ppddk", class: PlayerClass::DeathKnight, realm: "Mal'Ganis" },
        Player { name: "Delusionol", class: PlayerClass::Priest, realm: "Stormrage" },
        Player { name: "Evelianne", class: PlayerClass::Monk, realm: "Stormrage" },
        Player { name: "Fliptwisty", class: PlayerClass::DemonHunter, realm: "Stormrage" },
        Player { name: "Infilicious", class: PlayerClass::Mage, realm: "Stormrage" },
        Player { name: "Notshodo", class: PlayerClass::Evoker, realm: "Stormrage" },
        Player { name: "Nuzzler", class: PlayerClass::Druid, realm: "Stormrage" },
        Player { name: "Nyanslok", class: PlayerClass::Warlock, realm: "Stormrage" },
        Player { name: "Obiscuit", class: PlayerClass::DeathKnight, realm: "Stormrage" },
        Player { name: "Ppdx", class: PlayerClass::Rogue, realm: "Stormrage" },
        Player { name: "Purpleheal", class: PlayerClass::Priest, realm: "Stormrage" },
        Player { name: "Rogerport", class: PlayerClass::Mage, realm: "Stormrage" },
        Player { name: "Whare", class: PlayerClass::Paladin, realm: "Stormrage" },
        Player { name: "Prankdaddy", class: PlayerClass::Evoker, realm: "Thrall" },
        Player { name: "Rektribute", class: PlayerClass::Paladin, realm: "Thrall" },
        Player { name: "Stormbreed", class: PlayerClass::Hunter, realm: "Thrall" },
        Player { name: "Piptide", class: PlayerClass::Shaman, realm: "Tichondrius" },
        Player { name: "Kolzane", class: PlayerClass::Hunter, realm: "Ysera" },
        Player { name: "Indico", class: PlayerClass::Evoker, realm: "Zul'jin" },
    ]
}

} // verus!
