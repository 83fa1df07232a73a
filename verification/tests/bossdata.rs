use revtc::bossdata::{BossId, EliteSpec, GameMode, Profession, Ruleset};
use revtc::evtc::CbtStateChange;

#[test]
fn boss_from_header_id_known_values() {
    assert_eq!(BossId::from_header_id(15438), BossId::ValeGuardian);
    assert_eq!(BossId::from_header_id(19450), BossId::Dhuum);
    assert_eq!(BossId::from_header_id(43974), BossId::ConjuredAmalgamate);
    assert_eq!(BossId::from_header_id(1378), BossId::DragonVoid2);
    assert_eq!(BossId::from_header_id(1), BossId::Wvw);
    assert_eq!(BossId::from_header_id(2), BossId::Instance);
}

#[test]
fn boss_from_header_id_unknown_values() {
    assert_eq!(BossId::from_header_id(0), BossId::Unknown);
    assert_eq!(BossId::from_header_id(3), BossId::Unknown);
    assert_eq!(BossId::from_header_id(65535), BossId::Unknown);
}

#[test]
fn boss_names() {
    assert_eq!(BossId::ValeGuardian.name(), "Vale Guardian");
    assert_eq!(BossId::Mo.name(), "Mursaat Overseer");
    assert_eq!(BossId::Nikare.name(), "Twin Largos");
    assert_eq!(BossId::Kenut.name(), "Twin Largos");
    assert_eq!(BossId::PrototypeIndigoCm.name(), "Old Lion's Court");
    assert_eq!(BossId::Unknown.name(), "Unknown");
}

#[test]
fn profession_from_evtc() {
    assert_eq!(Profession::from_evtc(1), Profession::Guardian);
    assert_eq!(Profession::from_evtc(9), Profession::Revenant);
    assert_eq!(Profession::from_evtc(0), Profession::Unknown);
    assert_eq!(Profession::from_evtc(10), Profession::Unknown);
    assert_eq!(Profession::from_evtc(0xFFFF_FFFF), Profession::Unknown);
}

#[test]
fn profession_names() {
    assert_eq!(Profession::Guardian.name(), "Guardian");
    assert_eq!(Profession::Elementalist.name(), "Elementalist");
    assert_eq!(Profession::Unknown.name(), "Unknown");
}

#[test]
fn elite_spec_from_evtc() {
    assert_eq!(EliteSpec::from_evtc(27), EliteSpec::Dragonhunter);
    assert_eq!(EliteSpec::from_evtc(70), EliteSpec::Mechanist);
    assert_eq!(EliteSpec::from_evtc(0), EliteSpec::Unknown);
    assert_eq!(EliteSpec::from_evtc(1), EliteSpec::Unknown);
    assert_eq!(EliteSpec::from_evtc(0xFFFF_FFFF), EliteSpec::Unknown);
}

#[test]
fn elite_spec_profession() {
    assert_eq!(EliteSpec::Dragonhunter.profession(), Profession::Guardian);
    assert_eq!(EliteSpec::Firebrand.profession(), Profession::Guardian);
    assert_eq!(EliteSpec::Willbender.profession(), Profession::Guardian);
    assert_eq!(EliteSpec::Bladesworn.profession(), Profession::Warrior);
    assert_eq!(EliteSpec::Mechanist.profession(), Profession::Engineer);
    assert_eq!(EliteSpec::Untamed.profession(), Profession::Ranger);
    assert_eq!(EliteSpec::Specter.profession(), Profession::Thief);
    assert_eq!(EliteSpec::Catalyst.profession(), Profession::Elementalist);
    assert_eq!(EliteSpec::Virtuoso.profession(), Profession::Mesmer);
    assert_eq!(EliteSpec::Harbinger.profession(), Profession::Necromancer);
    assert_eq!(EliteSpec::Vindicator.profession(), Profession::Revenant);
    assert_eq!(EliteSpec::Unknown.profession(), Profession::Unknown);
}

#[test]
fn elite_spec_names() {
    assert_eq!(EliteSpec::Dragonhunter.name(), "Dragonhunter");
    assert_eq!(EliteSpec::Mechanist.name(), "Mechanist");
    assert_eq!(EliteSpec::Unknown.name(), "Unknown");
}

#[test]
fn statechange_codes() {
    assert_eq!(CbtStateChange::NoChange.code(), 0);
    assert_eq!(CbtStateChange::EnterCombat.code(), 1);
    assert_eq!(CbtStateChange::PointOfView.code(), 13);
    assert_eq!(CbtStateChange::LogEnd.code(), 10);
    assert_eq!(CbtStateChange::StunBreak.code(), 56);
    assert_eq!(CbtStateChange::Unknown.code(), 57);
}

#[test]
fn enums_are_plain_data() {
    assert_ne!(Ruleset::PvE, Ruleset::WvW);
    assert_ne!(GameMode::Raid, GameMode::Fractal);
    assert_eq!(GameMode::WvW, GameMode::WvW);
}
