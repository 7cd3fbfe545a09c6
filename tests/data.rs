use seemsgood::about_data::build_contacts;
use seemsgood::dps_sims::build_sim_players;
use seemsgood::layout::{BaseTemplate, DateInfo, GitInfo};
use seemsgood::mythic_plus::build_keys_players;
use seemsgood::player_metadata::{build_raid, build_roster, PlayerClass, PlayerRole};

#[test]
fn role_icons_and_names() {
    assert_eq!(PlayerRole::Tank.icon_url(), "https://r2.seemsgood.org/content/icons/tank.png");
    assert_eq!(PlayerRole::Healer.icon_url(), "https://r2.seemsgood.org/content/icons/healer.png");
    assert_eq!(PlayerRole::Dps.icon_url(), "https://r2.seemsgood.org/content/icons/dps.png");
    assert_eq!(PlayerRole::Healer.to_string(), "Healer");
}

#[test]
fn class_colours_and_names() {
    assert_eq!(PlayerClass::DeathKnight.rgb(), "rgb(196, 30, 58)");
    assert_eq!(PlayerClass::Monk.rgb(), "rgb(0, 255, 152)");
    assert_eq!(PlayerClass::Warrior.rgb(), "rgb(198, 155, 109)");
    assert_eq!(PlayerClass::DemonHunter.to_string(), "DemonHunter");
}

#[test]
fn rosters_by_raid() {
    for id in ["Dimensius", "Gallywix", "Kyvesa", "Fyrakk"] {
        assert_eq!(build_roster(id).len(), 20);
    }
    let r = build_roster("Fyrakk");
    assert_eq!(r[0].name, "Jugsmcgee");
    assert_eq!(r[0].class, PlayerClass::DeathKnight);
    assert_eq!(r[0].role, PlayerRole::Tank);
    assert_eq!(build_roster("Dimensius")[4].realm, "Area-52");
    let d = build_roster("Nobody");
    assert_eq!(d.len(), 1);
    assert_eq!(d[0].name, "DefaultName");
    assert_eq!(d[0].class, PlayerClass::Paladin);
    assert_eq!(build_roster("fyrakk")[0].name, "DefaultName");
}

#[test]
fn raids_newest_first() {
    let r = build_raid();
    assert_eq!(r.len(), 4);
    assert_eq!(r[0].fight_name, "Dimensius");
    assert!(r[0].fight_is_video);
    assert_eq!(r[3].fight_key, "Fyrakk");
    assert!(!r[3].fight_is_video);
}

#[test]
fn contacts_list() {
    let c = build_contacts();
    assert_eq!(c.len(), 5);
    assert!(c[0].is_gm && c[1].is_gm && !c[2].is_gm);
    assert_eq!(c[1].battlenet, "Ladora#1644");
    assert!(c.iter().all(|x| x.discord_icon == "nf nf-fa-discord"));
}

#[test]
fn page_lists() {
    let s = build_sim_players();
    assert_eq!(s.len(), 19);
    assert_eq!(s[0].sim_url, "https://r2.seemsgood.org/roster/Nuzzsin.html");
    let k = build_keys_players();
    assert_eq!(k.len(), 23);
    assert_eq!(k[22].realm, "Zul'jin");
}

#[test]
fn layout_state() {
    let b = BaseTemplate::new(true, GitInfo::current("abc123", "main"), DateInfo::current("2024-2026"));
    assert!(b.show_noti);
    assert_eq!(b.git.hash, "abc123");
    assert_eq!(b.git.branch, "main");
    assert_eq!(b.date.date, "2024-2026");
}
