use vstd::prelude::*;

use crate::player_metadata::PlayerClass;

verus! {

/// A player on the damage simulations page, with the address of their simulation report.
#[derive(Clone, Copy, Debug)]
pub struct Player {
    pub name: &'static str,
    pub class: PlayerClass,
    pub sim_url: &'static str,
}

/// The players listed on the damage simulations page.
pub open spec fn sim_table() -> Seq<Player> {
    seq![
        Player { name: "Nuzz", class: PlayerClass::Rogue, sim_url: "https://r2.seemsgood.org/roster/Nuzzsin.html" },
        Player { name: "Infi", class: PlayerClass::Mage, sim_url: "https://r2.seemsgood.org/roster/Infilicious.html" },
        Player { name: "Shodo", class: PlayerClass::Evoker, sim_url: "https://r2.seemsgood.org/roster/Notshodo.html" },
        Player { name: "Chint", class: PlayerClass::DemonHunter, sim_url: "https://r2.seemsgood.org/roster/Chinterfel.html" },
        Player { name: "Roger", class: PlayerClass::Druid, sim_url: "https://r2.seemsgood.org/roster/Bigtittyrog.html" },
        Player { name: "Chuubers", class: PlayerClass::Warrior, sim_url: "https://r2.seemsgood.org/roster/Chuubers.html" },
        Player { name: "Delulu", class: PlayerClass::Priest, sim_url: "https://r2.seemsgood.org/roster/Delusionil.html" },
        Player { name: "Filio", class: PlayerClass::Monk, sim_url: "https://r2.seemsgood.org/roster/Filio.html" },
        Player { name: "Jakk", class: PlayerClass::Paladin, sim_url: "https://r2.seemsgood.org/roster/Jakksparrow.html" },
        Player { name: "Dub", class: PlayerClass::Shaman, sim_url: "https://r2.seemsgood.org/roster/Dubshamm.html" },
        Player { name: "Hek", class: PlayerClass::Mage, sim_url: "https://r2.seemsgood.org/roster/Hekthuzad.html" },
        Player { name: "Lan", class: PlayerClass::Warlock, sim_url: "https://r2.seemsgood.org/roster/Lanathallan.html" },
        Player { name: "James", class: PlayerClass::Warrior, sim_url: "https://r2.seemsgood.org/roster/Jaemsy.html" },
        Player { name: "Ppd", class: PlayerClass::Rogue, sim_url: "https://r2.seemsgood.org/roster/Ppdx.html" },
        Player { name: "Vinnea", class: PlayerClass::Shaman, sim_url: "https://r2.seemsgood.org/roster/Vinnea.html" },
        Player { name: "Ladora", class: PlayerClass::Evoker, sim_url: "https://r2.seemsgood.org/roster/Spyrodora.html" },
        Player { name: "Kael", class: PlayerClass::Hunter, sim_url: "https://r2.seemsgood.org/roster/Kaelirious.html" },
        Player { name: "Nyans", class: PlayerClass::Warlock, sim_url: "https://r2.seemsgood.org/roster/Nyanslok.html" },
        Player { name: "Cryptic", class: PlayerClass::DeathKnight, sim_url: "https://r2.seemsgood.org/roster/Sodo.html" },
    ]
}

/// Builds the list of the damage simulations page.
pub fn build_sim_players() -> (r: Vec<Player>)
    ensures
        r@ == sim_table(),
{
    vec![
        Player { name: "Nuzz", class: PlayerClass::Rogue, sim_url: "https://r2.seemsgood.org/roster/Nuzzsin.html" },
        Player { name: "Infi", class: PlayerClass::Mage, sim_url: "https://r2.seemsgood.org/roster/Infilicious.html" },
        Player { name: "Shodo", class: PlayerClass::Evoker, sim_url: "https://r2.seemsgood.org/roster/Notshodo.html" },
        Player { name: "Chint", class: PlayerClass::DemonHunter, sim_url: "https://r2.seemsgood.org/roster/Chinterfel.html" },
        Player { name: "Roger", class: PlayerClass::Druid, sim_url: "https://r2.seemsgood.org/roster/Bigtittyrog.html" },
        Player { name: "Chuubers", class: PlayerClass::Warrior, sim_url: "https://r2.seemsgood.org/roster/Chuubers.html" },
        Player { name: "Delulu", class: PlayerClass::Priest, sim_url: "https://r2.seemsgood.org/roster/Delusionil.html" },
        Player { name: "Filio", class: PlayerClass::Monk, sim_url: "https://r2.seemsgood.org/roster/Filio.html" },
        Player { name: "Jakk", class: PlayerClass::Paladin, sim_url: "https://r2.seemsgood.org/roster/Jakksparrow.html" },
        Player { name: "Dub", class: PlayerClass::Shaman, sim_url: "https://r2.seemsgood.org/roster/Dubshamm.html" },
        Player { name: "Hek", class: PlayerClass::Mage, sim_url: "https://r2.seemsgood.org/roster/Hekthuzad.html" },
        Player { name: "Lan", class: PlayerClass::Warlock, sim_url: "https://r2.seemsgood.org/roster/Lanathallan.html" },
        Player { name: "James", class: PlayerClass::Warrior, sim_url: "https://r2.seemsgood.org/roster/Jaemsy.html" },
        Player { name: "Ppd", class: PlayerClass::Rogue, sim_url: "https://r2.seemsgood.org/roster/Ppdx.html" },
        Player { name: "Vinnea", class: PlayerClass::Shaman, sim_url: "https://r2.seemsgood.org/roster/Vinnea.html" },
        Player { name: "Ladora", class: PlayerClass::Evoker, sim_url: "https://r2.seemsgood.org/roster/Spyrodora.html" },
        Player { name: "Kael", class: PlayerClass::Hunter, sim_url: "https://r2.seemsgood.org/roster/Kaelirious.html" },
        Player { name: "Nyans", class: PlayerClass::Warlock, sim_url: "https://r2.seemsgood.org/roster/Nyanslok.html" },
        Player { name: "Cryptic", class: PlayerClass::DeathKnight, sim_url: "https://r2.seemsgood.org/roster/Sodo.html" },
    ]
}

} // verus!
