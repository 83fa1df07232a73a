//! Static game data: boss, profession and elite-specialization identifiers,
//! and their display names.
//!
//! The numeric identifiers come straight from the wire format; every lookup
//! is total, mapping unrecognized identifiers to an `Unknown` sentinel.

use vstd::prelude::*;

verus! {

/// The different rulesets, affecting skill and trait balancing.
#[derive(Copy, Clone, Debug, PartialEq, Eq, Hash, Structural)]
pub enum Ruleset {
    /// Player-versus-Environment.
    PvE,
    /// World-versus-World.
    WvW,
    /// (Structured) Player-versus-Player.
    PvP,
}

/// The game mode in which a log was produced.
#[derive(Copy, Clone, Debug, PartialEq, Eq, Hash, Structural)]
pub enum GameMode {
    /// The log is from a raid encounter.
    Raid,
    /// The log is from a fractal fight.
    Fractal,
    /// The log is from a strike mission.
    Strike,
    /// The log is from a training golem.
    Golem,
    /// The log is from a world-versus-world fight.
    WvW,
}

/// Enum containing all boss IDs.
///
/// The header of a log names the encounter by one of these numeric IDs;
/// [`spec_boss_from_id`] gives the exact correspondence.
#[derive(Debug, Copy, Clone, PartialEq, Eq, Hash, Structural)]
#[non_exhaustive]
pub enum BossId {
    ValeGuardian,
    Gorseval,
    Sabetha,
    Slothasor,
    Matthias,
    KeepConstruct,
    Xera,
    Cairn,
    Mo,
    Samarog,
    Deimos,
    SoullessHorror,
    Dhuum,
    ConjuredAmalgamate,
    Nikare,
    Kenut,
    Qadim,
    Adina,
    Sabir,
    QadimThePeerless,
    Berg,
    Zane,
    Nurella,
    McLeod,
    TwistedCastle,
    River,
    BrokenKing,
    SoulEater,
    EyeOfJudgement,
    EyeOfFate,
    Mama,
    Siax,
    Ensolyss,
    Skorvald,
    Artsariiv,
    Arkk,
    SorrowfulSpellcaster,
    Kanaxai,
    CerusLonelyTower,
    DeimosLonelyTower,
    EparchLonelyTower,
    Icebrood,
    TheVoice,
    TheClaw,
    Fraenir,
    FraenirConstruct,
    Boneskinner,
    WhisperOfJormag,
    VariniaStormsounder,
    CaptainMaiTrin,
    CaptainMaiTrin2,
    CaptainMaiTrin3,
    Ankka,
    MinisterLi,
    MinisterLiCm,
    DragonVoid1,
    DragonVoid2,
    DragonVoid3,
    PrototypeVermilion,
    PrototypeIndigo,
    PrototypeArsenite,
    PrototypeVermilionCm,
    PrototypeArseniteCm,
    PrototypeIndigoCm,
    Freezie,
    Dagda,
    Cerus,
    StandardGolem,
    MediumGolem,
    LargeGolem,
    MassiveGolem,
    AverageGolem,
    VitalGolem,
    Wvw,
    Instance,
    Unknown,
}

/// The boss a header ID stands for; unrecognized IDs map to `Unknown`.
pub open spec fn spec_boss_from_id(id: u16) -> BossId {
    if id == 15438 {
        BossId::ValeGuardian
    } else if id == 15429 {
        BossId::Gorseval
    } else if id == 15375 {
        BossId::Sabetha
    } else if id == 16123 {
        BossId::Slothasor
    } else if id == 16115 {
        BossId::Matthias
    } else if id == 16235 {
        BossId::KeepConstruct
    } else if id == 16246 {
        BossId::Xera
    } else if id == 17194 {
        BossId::Cairn
    } else if id == 17172 {
        BossId::Mo
    } else if id == 17188 {
        BossId::Samarog
    } else if id == 17154 {
        BossId::Deimos
    } else if id == 19767 {
        BossId::SoullessHorror
    } else if id == 19450 {
        BossId::Dhuum
    } else if id == 43974 {
        BossId::ConjuredAmalgamate
    } else if id == 21105 {
        BossId::Nikare
    } else if id == 21089 {
        BossId::Kenut
    } else if id == 20934 {
        BossId::Qadim
    } else if id == 22006 {
        BossId::Adina
    } else if id == 21964 {
        BossId::Sabir
    } else if id == 22000 {
        BossId::QadimThePeerless
    } else if id == 16088 {
        BossId::Berg
    } else if id == 16137 {
        BossId::Zane
    } else if id == 16125 {
        BossId::Nurella
    } else if id == 16253 {
        BossId::McLeod
    } else if id == 16247 {
        BossId::TwistedCastle
    } else if id == 19828 {
        BossId::River
    } else if id == 19691 {
        BossId::BrokenKing
    } else if id == 19536 {
        BossId::SoulEater
    } else if id == 19651 {
        BossId::EyeOfJudgement
    } else if id == 19844 {
        BossId::EyeOfFate
    } else if id == 17021 {
        BossId::Mama
    } else if id == 17028 {
        BossId::Siax
    } else if id == 16948 {
        BossId::Ensolyss
    } else if id == 17632 {
        BossId::Skorvald
    } else if id == 17949 {
        BossId::Artsariiv
    } else if id == 17759 {
        BossId::Arkk
    } else if id == 23254 {
        BossId::SorrowfulSpellcaster
    } else if id == 25577 {
        BossId::Kanaxai
    } else if id == 26257 {
        BossId::CerusLonelyTower
    } else if id == 26226 {
        BossId::DeimosLonelyTower
    } else if id == 26231 {
        BossId::EparchLonelyTower
    } else if id == 22154 {
        BossId::Icebrood
    } else if id == 22343 {
        BossId::TheVoice
    } else if id == 22481 {
        BossId::TheClaw
    } else if id == 22492 {
        BossId::Fraenir
    } else if id == 22436 {
        BossId::FraenirConstruct
    } else if id == 22521 {
        BossId::Boneskinner
    } else if id == 22711 {
        BossId::WhisperOfJormag
    } else if id == 22836 {
        BossId::VariniaStormsounder
    } else if id == 24033 {
        BossId::CaptainMaiTrin
    } else if id == 24768 {
        BossId::CaptainMaiTrin2
    } else if id == 25247 {
        BossId::CaptainMaiTrin3
    } else if id == 23957 {
        BossId::Ankka
    } else if id == 24485 {
        BossId::MinisterLi
    } else if id == 24266 {
        BossId::MinisterLiCm
    } else if id == 24375 {
        BossId::DragonVoid1
    } else if id == 1378 {
        BossId::DragonVoid2
    } else if id == 43488 {
        BossId::DragonVoid3
    } else if id == 25413 {
        BossId::PrototypeVermilion
    } else if id == 25419 {
        BossId::PrototypeIndigo
    } else if id == 25415 {
        BossId::PrototypeArsenite
    } else if id == 25414 {
        BossId::PrototypeVermilionCm
    } else if id == 25416 {
        BossId::PrototypeArseniteCm
    } else if id == 25423 {
        BossId::PrototypeIndigoCm
    } else if id == 21333 {
        BossId::Freezie
    } else if id == 25705 {
        BossId::Dagda
    } else if id == 25989 {
        BossId::Cerus
    } else if id == 16199 {
        BossId::StandardGolem
    } else if id == 19645 {
        BossId::MediumGolem
    } else if id == 19676 {
        BossId::LargeGolem
    } else if id == 16202 {
        BossId::MassiveGolem
    } else if id == 16177 {
        BossId::AverageGolem
    } else if id == 16198 {
        BossId::VitalGolem
    } else if id == 1 {
        BossId::Wvw
    } else if id == 2 {
        BossId::Instance
    } else {
        BossId::Unknown
    }
}

impl BossId {
    /// The boss named by a header's category ID.
    pub fn from_header_id(id: u16) -> (r: Self)
        ensures
            r == spec_boss_from_id(id),
    {
        if id == 15438 {
            BossId::ValeGuardian
        } else if id == 15429 {
            BossId::Gorseval
        } else if id == 15375 {
            BossId::Sabetha
        } else if id == 16123 {
            BossId::Slothasor
        } else if id == 16115 {
            BossId::Matthias
        } else if id == 16235 {
            BossId::KeepConstruct
        } else if id == 16246 {
            BossId::Xera
        } else if id == 17194 {
            BossId::Cairn
        } else if id == 17172 {
            BossId::Mo
        } else if id == 17188 {
            BossId::Samarog
        } else if id == 17154 {
            BossId::Deimos
        } else if id == 19767 {
            BossId::SoullessHorror
        } else if id == 19450 {
            BossId::Dhuum
        } else if id == 43974 {
            BossId::ConjuredAmalgamate
        } else if id == 21105 {
            BossId::Nikare
        } else if id == 21089 {
            BossId::Kenut
        } else if id == 20934 {
            BossId::Qadim
        } else if id == 22006 {
            BossId::Adina
        } else if id == 21964 {
            BossId::Sabir
        } else if id == 22000 {
            BossId::QadimThePeerless
        } else if id == 16088 {
            BossId::Berg
        } else if id == 16137 {
            BossId::Zane
        } else if id == 16125 {
            BossId::Nurella
        } else if id == 16253 {
            BossId::McLeod
        } else if id == 16247 {
            BossId::TwistedCastle
        } else if id == 19828 {
            BossId::River
        } else if id == 19691 {
            BossId::BrokenKing
        } else if id == 19536 {
            BossId::SoulEater
        } else if id == 19651 {
            BossId::EyeOfJudgement
        } else if id == 19844 {
            BossId::EyeOfFate
        } else if id == 17021 {
            BossId::Mama
        } else if id == 17028 {
            BossId::Siax
        } else if id == 16948 {
            BossId::Ensolyss
        } else if id == 17632 {
            BossId::Skorvald
        } else if id == 17949 {
            BossId::Artsariiv
        } else if id == 17759 {
            BossId::Arkk
        } else if id == 23254 {
            BossId::SorrowfulSpellcaster
        } else if id == 25577 {
            BossId::Kanaxai
        } else if id == 26257 {
            BossId::CerusLonelyTower
        } else if id == 26226 {
            BossId::DeimosLonelyTower
        } else if id == 26231 {
            BossId::EparchLonelyTower
        } else if id == 22154 {
            BossId::Icebrood
        } else if id == 22343 {
            BossId::TheVoice
        } else if id == 22481 {
            BossId::TheClaw
        } else if id == 22492 {
            BossId::Fraenir
        } else if id == 22436 {
            BossId::FraenirConstruct
        } else if id == 22521 {
            BossId::Boneskinner
        } else if id == 22711 {
            BossId::WhisperOfJormag
        } else if id == 22836 {
            BossId::VariniaStormsounder
        } else if id == 24033 {
            BossId::CaptainMaiTrin
        } else if id == 24768 {
            BossId::CaptainMaiTrin2
        } else if id == 25247 {
            BossId::CaptainMaiTrin3
        } else if id == 23957 {
            BossId::Ankka
        } else if id == 24485 {
            BossId::MinisterLi
        } else if id == 24266 {
            BossId::MinisterLiCm
        } else if id == 24375 {
            BossId::DragonVoid1
        } else if id == 1378 {
            BossId::DragonVoid2
        } else if id == 43488 {
            BossId::DragonVoid3
        } else if id == 25413 {
            BossId::PrototypeVermilion
        } else if id == 25419 {
            BossId::PrototypeIndigo
        } else if id == 25415 {
            BossId::PrototypeArsenite
        } else if id == 25414 {
            BossId::PrototypeVermilionCm
        } else if id == 25416 {
            BossId::PrototypeArseniteCm
        } else if id == 25423 {
            BossId::PrototypeIndigoCm
        } else if id == 21333 {
            BossId::Freezie
        } else if id == 25705 {
            BossId::Dagda
        } else if id == 25989 {
            BossId::Cerus
        } else if id == 16199 {
            BossId::StandardGolem
        } else if id == 19645 {
            BossId::MediumGolem
        } else if id == 19676 {
            BossId::LargeGolem
        } else if id == 16202 {
            BossId::MassiveGolem
        } else if id == 16177 {
            BossId::AverageGolem
        } else if id == 16198 {
            BossId::VitalGolem
        } else if id == 1 {
            BossId::Wvw
        } else if id == 2 {
            BossId::Instance
        } else {
            BossId::Unknown
        }
    }
}

/// The display name of a boss.
pub open spec fn spec_boss_name(b: BossId) -> Seq<char> {
    match b {
        BossId::ValeGuardian => "Vale Guardian"@,
        BossId::Gorseval => "Gorseval"@,
        BossId::Sabetha => "Sabetha"@,
        BossId::Slothasor => "Slothasor"@,
        BossId::Matthias => "Matthias"@,
        BossId::KeepConstruct => "Keep Construct"@,
        BossId::Xera => "Xera"@,
        BossId::Cairn => "Cairn"@,
        BossId::Mo => "Mursaat Overseer"@,
        BossId::Samarog => "Samarog"@,
        BossId::Deimos => "Deimos"@,
        BossId::SoullessHorror => "Soulless Horror"@,
        BossId::Dhuum => "Dhuum"@,
        BossId::ConjuredAmalgamate => "Conjured Amalgamate"@,
        BossId::Nikare | BossId::Kenut => "Twin Largos"@,
        BossId::Qadim => "Qadim"@,
        BossId::Adina => "Cardinal Adina"@,
        BossId::Sabir => "Cardinal Sabir"@,
        BossId::QadimThePeerless => "Qadim The Peerless"@,
        BossId::Berg | BossId::Zane | BossId::Nurella => "Bandit Trio"@,
        BossId::McLeod => "Escort"@,
        BossId::TwistedCastle => "Twisted Castle"@,
        BossId::River => "River of Souls"@,
        BossId::BrokenKing => "Broken King"@,
        BossId::SoulEater => "Soul Eater"@,
        BossId::EyeOfJudgement | BossId::EyeOfFate => "Eyes"@,
        BossId::Mama => "Mama"@,
        BossId::Siax => "Siax"@,
        BossId::Ensolyss => "Ensolyss"@,
        BossId::Skorvald => "Skorvald"@,
        BossId::Artsariiv => "Artsariiv"@,
        BossId::Arkk => "Arkk"@,
        BossId::SorrowfulSpellcaster => "Ai"@,
        BossId::Kanaxai => "Kanaxai"@,
        BossId::CerusLonelyTower | BossId::DeimosLonelyTower => "Cerus and Deimos"@,
        BossId::EparchLonelyTower => "Eparch"@,
        BossId::Icebrood => "Icebrood"@,
        BossId::TheVoice | BossId::TheClaw => "Voice and Claw"@,
        BossId::Fraenir | BossId::FraenirConstruct => "Fraenir of Jormag"@,
        BossId::Boneskinner => "Boneskinner"@,
        BossId::WhisperOfJormag => "Whisper of Jormag"@,
        BossId::VariniaStormsounder => "Varinia Stormsounder"@,
        BossId::CaptainMaiTrin | BossId::CaptainMaiTrin2 | BossId::CaptainMaiTrin3 => (
        "Captain Mai Trin"@),
        BossId::Ankka => "Ankka"@,
        BossId::MinisterLi | BossId::MinisterLiCm => "Minister Li"@,
        BossId::DragonVoid1 | BossId::DragonVoid2 | BossId::DragonVoid3 => "Dragon Void"@,
        BossId::PrototypeVermilion
        | BossId::PrototypeIndigo
        | BossId::PrototypeArsenite
        | BossId::PrototypeVermilionCm
        | BossId::PrototypeArseniteCm
        | BossId::PrototypeIndigoCm => "Old Lion's Court"@,
        BossId::Freezie => "Freezie"@,
        BossId::Dagda => "Dagda"@,
        BossId::Cerus => "Cerus"@,
        BossId::StandardGolem => "Standard Golem"@,
        BossId::MediumGolem => "Medium Golem"@,
        BossId::LargeGolem => "Large Golem"@,
        BossId::MassiveGolem => "Massive Golem"@,
        BossId::AverageGolem => "Average Golem"@,
        BossId::VitalGolem => "Vital Golem"@,
        BossId::Wvw => "WvW"@,
        BossId::Instance => "Instance"@,
        BossId::Unknown => "Unknown"@,
    }
}

impl BossId {
    /// The display name of the boss.
    pub fn name(self) -> (r: &'static str)
        ensures
            r@ == spec_boss_name(self),
    {
        match self {
            BossId::ValeGuardian => "Vale Guardian",
            BossId::Gorseval => "Gorseval",
            BossId::Sabetha => "Sabetha",
            BossId::Slothasor => "Slothasor",
            BossId::Matthias => "Matthias",
            BossId::KeepConstruct => "Keep Construct",
            BossId::Xera => "Xera",
            BossId::Cairn => "Cairn",
            BossId::Mo => "Mursaat Overseer",
            BossId::Samarog => "Samarog",
            BossId::Deimos => "Deimos",
            BossId::SoullessHorror => "Soulless Horror",
            BossId::Dhuum => "Dhuum",
            BossId::ConjuredAmalgamate => "Conjured Amalgamate",
            BossId::Nikare | BossId::Kenut => "Twin Largos",
            BossId::Qadim => "Qadim",
            BossId::Adina => "Cardinal Adina",
            BossId::Sabir => "Cardinal Sabir",
            BossId::QadimThePeerless => "Qadim The Peerless",
            BossId::Berg | BossId::Zane | BossId::Nurella => "Bandit Trio",
            BossId::McLeod => "Escort",
            BossId::TwistedCastle => "Twisted Castle",
            BossId::River => "River of Souls",
            BossId::BrokenKing => "Broken King",
            BossId::SoulEater => "Soul Eater",
            BossId::EyeOfJudgement | BossId::EyeOfFate => "Eyes",
            BossId::Mama => "Mama",
            BossId::Siax => "Siax",
            BossId::Ensolyss => "Ensolyss",
            BossId::Skorvald => "Skorvald",
            BossId::Artsariiv => "Artsariiv",
            BossId::Arkk => "Arkk",
            BossId::SorrowfulSpellcaster => "Ai",
            BossId::Kanaxai => "Kanaxai",
            BossId::CerusLonelyTower | BossId::DeimosLonelyTower => "Cerus and Deimos",
            BossId::EparchLonelyTower => "Eparch",
            BossId::Icebrood => "Icebrood",
            BossId::TheVoice | BossId::TheClaw => "Voice and Claw",
            BossId::Fraenir | BossId::FraenirConstruct => "Fraenir of Jormag",
            BossId::Boneskinner => "Boneskinner",
            BossId::WhisperOfJormag => "Whisper of Jormag",
            BossId::VariniaStormsounder => "Varinia Stormsounder",
            BossId::CaptainMaiTrin | BossId::CaptainMaiTrin2 | BossId::CaptainMaiTrin3 => {
                "Captain Mai Trin"
            },
            BossId::Ankka => "Ankka",
            BossId::MinisterLi | BossId::MinisterLiCm => "Minister Li",
            BossId::DragonVoid1 | BossId::DragonVoid2 | BossId::DragonVoid3 => "Dragon Void",
            BossId::PrototypeVermilion
            | BossId::PrototypeIndigo
            | BossId::PrototypeArsenite
            | BossId::PrototypeVermilionCm
            | BossId::PrototypeArseniteCm
            | BossId::PrototypeIndigoCm => "Old Lion's Court",
            BossId::Freezie => "Freezie",
            BossId::Dagda => "Dagda",
            BossId::Cerus => "Cerus",
            BossId::StandardGolem => "Standard Golem",
            BossId::MediumGolem => "Medium Golem",
            BossId::LargeGolem => "Large Golem",
            BossId::MassiveGolem => "Massive Golem",
            BossId::AverageGolem => "Average Golem",
            BossId::VitalGolem => "Vital Golem",
            BossId::Wvw => "WvW",
            BossId::Instance => "Instance",
            BossId::Unknown => "Unknown",
        }
    }
}

/// An in-game profession.
///
/// This only contains the base professions.  For elite specializations, see
/// [`EliteSpec`].
#[derive(Debug, Copy, Clone, Hash, PartialEq, Eq, Structural)]
pub enum Profession {
    Guardian,
    Warrior,
    Engineer,
    Ranger,
    Thief,
    Elementalist,
    Mesmer,
    Necromancer,
    Revenant,
    Unknown,
}

/// The profession a wire-format profession ID stands for; unrecognized IDs
/// map to `Unknown`.
pub open spec fn spec_profession_from_id(id: u32) -> Profession {
    if id == 1 {
        Profession::Guardian
    } else if id == 2 {
        Profession::Warrior
    } else if id == 3 {
        Profession::Engineer
    } else if id == 4 {
        Profession::Ranger
    } else if id == 5 {
        Profession::Thief
    } else if id == 6 {
        Profession::Elementalist
    } else if id == 7 {
        Profession::Mesmer
    } else if id == 8 {
        Profession::Necromancer
    } else if id == 9 {
        Profession::Revenant
    } else {
        Profession::Unknown
    }
}

/// The display name of a profession.
pub open spec fn spec_profession_name(p: Profession) -> Seq<char> {
    match p {
        Profession::Guardian => "Guardian"@,
        Profession::Warrior => "Warrior"@,
        Profession::Engineer => "Engineer"@,
        Profession::Ranger => "Ranger"@,
        Profession::Thief => "Thief"@,
        Profession::Elementalist => "Elementalist"@,
        Profession::Mesmer => "Mesmer"@,
        Profession::Necromancer => "Necromancer"@,
        Profession::Revenant => "Revenant"@,
        Profession::Unknown => "Unknown"@,
    }
}

impl Profession {
    /// The profession named by an agent record's profession ID.
    pub fn from_evtc(id: u32) -> (r: Self)
        ensures
            r == spec_profession_from_id(id),
    {
        if id == 1 {
            Profession::Guardian
        } else if id == 2 {
            Profession::Warrior
        } else if id == 3 {
            Profession::Engineer
        } else if id == 4 {
            Profession::Ranger
        } else if id == 5 {
            Profession::Thief
        } else if id == 6 {
            Profession::Elementalist
        } else if id == 7 {
            Profession::Mesmer
        } else if id == 8 {
            Profession::Necromancer
        } else if id == 9 {
            Profession::Revenant
        } else {
            Profession::Unknown
        }
    }

    /// The display name of the profession.
    pub fn name(self) -> (r: &'static str)
        ensures
            r@ == spec_profession_name(self),
    {
        match self {
            Profession::Guardian => "Guardian",
            Profession::Warrior => "Warrior",
            Profession::Engineer => "Engineer",
            Profession::Ranger => "Ranger",
            Profession::Thief => "Thief",
            Profession::Elementalist => "Elementalist",
            Profession::Mesmer => "Mesmer",
            Profession::Necromancer => "Necromancer",
            Profession::Revenant => "Revenant",
            Profession::Unknown => "Unknown",
        }
    }
}

/// All elite specializations.
#[derive(Debug, Copy, Clone, Hash, PartialEq, Eq, Structural)]
pub enum EliteSpec {
    Dragonhunter,
    Berserker,
    Scrapper,
    Druid,
    Daredevil,
    Tempest,
    Chronomancer,
    Reaper,
    Herald,
    Firebrand,
    Spellbreaker,
    Holosmith,
    Soulbeast,
    Deadeye,
    Weaver,
    Mirage,
    Scourge,
    Renegade,
    Willbender,
    Bladesworn,
    Untamed,
    Specter,
    Catalyst,
    Virtuoso,
    Harbinger,
    Vindicator,
    Mechanist,
    Unknown,
}

/// The elite specialization a wire-format specialization ID stands for;
/// unrecognized IDs map to `Unknown`.
pub open spec fn spec_elite_spec_from_id(id: u32) -> EliteSpec {
    if id == 27 {
        EliteSpec::Dragonhunter
    } else if id == 18 {
        EliteSpec::Berserker
    } else if id == 43 {
        EliteSpec::Scrapper
    } else if id == 5 {
        EliteSpec::Druid
    } else if id == 7 {
        EliteSpec::Daredevil
    } else if id == 48 {
        EliteSpec::Tempest
    } else if id == 40 {
        EliteSpec::Chronomancer
    } else if id == 34 {
        EliteSpec::Reaper
    } else if id == 52 {
        EliteSpec::Herald
    } else if id == 62 {
        EliteSpec::Firebrand
    } else if id == 61 {
        EliteSpec::Spellbreaker
    } else if id == 57 {
        EliteSpec::Holosmith
    } else if id == 55 {
        EliteSpec::Soulbeast
    } else if id == 58 {
        EliteSpec::Deadeye
    } else if id == 56 {
        EliteSpec::Weaver
    } else if id == 59 {
        EliteSpec::Mirage
    } else if id == 60 {
        EliteSpec::Scourge
    } else if id == 63 {
        EliteSpec::Renegade
    } else if id == 65 {
        EliteSpec::Willbender
    } else if id == 68 {
        EliteSpec::Bladesworn
    } else if id == 72 {
        EliteSpec::Untamed
    } else if id == 71 {
        EliteSpec::Specter
    } else if id == 67 {
        EliteSpec::Catalyst
    } else if id == 66 {
        EliteSpec::Virtuoso
    } else if id == 64 {
        EliteSpec::Harbinger
    } else if id == 69 {
        EliteSpec::Vindicator
    } else if id == 70 {
        EliteSpec::Mechanist
    } else {
        EliteSpec::Unknown
    }
}

/// The base profession an elite specialization belongs to.
pub open spec fn spec_elite_profession(e: EliteSpec) -> Profession {
    match e {
        EliteSpec::Dragonhunter | EliteSpec::Firebrand | EliteSpec::Willbender => (
        Profession::Guardian),
        EliteSpec::Berserker | EliteSpec::Spellbreaker | EliteSpec::Bladesworn => (
        Profession::Warrior),
        EliteSpec::Scrapper | EliteSpec::Holosmith | EliteSpec::Mechanist => Profession::Engineer,
        EliteSpec::Druid | EliteSpec::Soulbeast | EliteSpec::Untamed => Profession::Ranger,
        EliteSpec::Daredevil | EliteSpec::Deadeye | EliteSpec::Specter => Profession::Thief,
        EliteSpec::Tempest | EliteSpec::Weaver | EliteSpec::Catalyst => Profession::Elementalist,
        EliteSpec::Chronomancer | EliteSpec::Mirage | EliteSpec::Virtuoso => Profession::Mesmer,
        EliteSpec::Reaper | EliteSpec::Scourge | EliteSpec::Harbinger => Profession::Necromancer,
        EliteSpec::Herald | EliteSpec::Renegade | EliteSpec::Vindicator => Profession::Revenant,
        EliteSpec::Unknown => Profession::Unknown,
    }
}

/// The display name of an elite specialization.
pub open spec fn spec_elite_spec_name(e: EliteSpec) -> Seq<char> {
    match e {
        EliteSpec::Dragonhunter => "Dragonhunter"@,
        EliteSpec::Berserker => "Berserker"@,
        EliteSpec::Scrapper => "Scrapper"@,
        EliteSpec::Druid => "Druid"@,
        EliteSpec::Daredevil => "Daredevil"@,
        EliteSpec::Tempest => "Tempest"@,
        EliteSpec::Chronomancer => "Chronomancer"@,
        EliteSpec::Reaper => "Reaper"@,
        EliteSpec::Herald => "Herald"@,
        EliteSpec::Firebrand => "Firebrand"@,
        EliteSpec::Spellbreaker => "Spellbreaker"@,
        EliteSpec::Holosmith => "Holosmith"@,
        EliteSpec::Soulbeast => "Soulbeast"@,
        EliteSpec::Deadeye => "Deadeye"@,
        EliteSpec::Weaver => "Weaver"@,
        EliteSpec::Mirage => "Mirage"@,
        EliteSpec::Scourge => "Scourge"@,
        EliteSpec::Renegade => "Renegade"@,
        EliteSpec::Willbender => "Willbender"@,
        EliteSpec::Bladesworn => "Bladesworn"@,
        EliteSpec::Untamed => "Untamed"@,
        EliteSpec::Specter => "Specter"@,
        EliteSpec::Catalyst => "Catalyst"@,
        EliteSpec::Virtuoso => "Virtuoso"@,
        EliteSpec::Harbinger => "Harbinger"@,
        EliteSpec::Vindicator => "Vindicator"@,
        EliteSpec::Mechanist => "Mechanist"@,
        EliteSpec::Unknown => "Unknown"@,
    }
}

impl EliteSpec {
    /// The elite specialization named by an agent record's specialization ID.
    pub fn from_evtc(id: u32) -> (r: Self)
        ensures
            r == spec_elite_spec_from_id(id),
    {
        if id == 27 {
            EliteSpec::Dragonhunter
        } else if id == 18 {
            EliteSpec::Berserker
        } else if id == 43 {
            EliteSpec::Scrapper
        } else if id == 5 {
            EliteSpec::Druid
        } else if id == 7 {
            EliteSpec::Daredevil
        } else if id == 48 {
            EliteSpec::Tempest
        } else if id == 40 {
            EliteSpec::Chronomancer
        } else if id == 34 {
            EliteSpec::Reaper
        } else if id == 52 {
            EliteSpec::Herald
        } else if id == 62 {
            EliteSpec::Firebrand
        } else if id == 61 {
            EliteSpec::Spellbreaker
        } else if id == 57 {
            EliteSpec::Holosmith
        } else if id == 55 {
            EliteSpec::Soulbeast
        } else if id == 58 {
            EliteSpec::Deadeye
        } else if id == 56 {
            EliteSpec::Weaver
        } else if id == 59 {
            EliteSpec::Mirage
        } else if id == 60 {
            EliteSpec::Scourge
        } else if id == 63 {
            EliteSpec::Renegade
        } else if id == 65 {
            EliteSpec::Willbender
        } else if id == 68 {
            EliteSpec::Bladesworn
        } else if id == 72 {
            EliteSpec::Untamed
        } else if id == 71 {
            EliteSpec::Specter
        } else if id == 67 {
            EliteSpec::Catalyst
        } else if id == 66 {
            EliteSpec::Virtuoso
        } else if id == 64 {
            EliteSpec::Harbinger
        } else if id == 69 {
            EliteSpec::Vindicator
        } else if id == 70 {
            EliteSpec::Mechanist
        } else {
            EliteSpec::Unknown
        }
    }

    /// The base profession that this elite specialization belongs to.
    ///
    /// This value is hardcoded and does not require a network connection or
    /// API access.
    pub fn profession(self) -> (r: Profession)
        ensures
            r == spec_elite_profession(self),
    {
        match self {
            EliteSpec::Dragonhunter | EliteSpec::Firebrand | EliteSpec::Willbender => {
                Profession::Guardian
            },
            EliteSpec::Berserker | EliteSpec::Spellbreaker | EliteSpec::Bladesworn => {
                Profession::Warrior
            },
            EliteSpec::Scrapper | EliteSpec::Holosmith | EliteSpec::Mechanist => {
                Profession::Engineer
            },
            EliteSpec::Druid | EliteSpec::Soulbeast | EliteSpec::Untamed => Profession::Ranger,
            EliteSpec::Daredevil | EliteSpec::Deadeye | EliteSpec::Specter => Profession::Thief,
            EliteSpec::Tempest | EliteSpec::Weaver | EliteSpec::Catalyst => {
                Profession::Elementalist
            },
            EliteSpec::Chronomancer | EliteSpec::Mirage | EliteSpec::Virtuoso => {
                Profession::Mesmer
            },
            EliteSpec::Reaper | EliteSpec::Scourge | EliteSpec::Harbinger => {
                Profession::Necromancer
            },
            EliteSpec::Herald | EliteSpec::Renegade | EliteSpec::Vindicator => {
                Profession::Revenant
            },
            EliteSpec::Unknown => Profession::Unknown,
        }
    }

    /// The display name of the elite specialization.
    pub fn name(self) -> (r: &'static str)
        ensures
            r@ == spec_elite_spec_name(self),
    {
        match self {
            EliteSpec::Dragonhunter => "Dragonhunter",
            EliteSpec::Berserker => "Berserker",
            EliteSpec::Scrapper => "Scrapper",
            EliteSpec::Druid => "Druid",
            EliteSpec::Daredevil => "Daredevil",
            EliteSpec::Tempest => "Tempest",
            EliteSpec::Chronomancer => "Chronomancer",
            EliteSpec::Reaper => "Reaper",
            EliteSpec::Herald => "Herald",
            EliteSpec::Firebrand => "Firebrand",
            EliteSpec::Spellbreaker => "Spellbreaker",
            EliteSpec::Holosmith => "Holosmith",
            EliteSpec::Soulbeast => "Soulbeast",
            EliteSpec::Deadeye => "Deadeye",
            EliteSpec::Weaver => "Weaver",
            EliteSpec::Mirage => "Mirage",
            EliteSpec::Scourge => "Scourge",
            EliteSpec::Renegade => "Renegade",
            EliteSpec::Willbender => "Willbender",
            EliteSpec::Bladesworn => "Bladesworn",
            EliteSpec::Untamed => "Untamed",
            EliteSpec::Specter => "Specter",
            EliteSpec::Catalyst => "Catalyst",
            EliteSpec::Virtuoso => "Virtuoso",
            EliteSpec::Harbinger => "Harbinger",
            EliteSpec::Vindicator => "Vindicator",
            EliteSpec::Mechanist => "Mechanist",
            EliteSpec::Unknown => "Unknown",
        }
    }
}

} // verus!
