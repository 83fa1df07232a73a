use revtc::bossdata::{EliteSpec, Profession};
use revtc::evtc::{find_pov, read_encounter, Agent, CbtEvent, Encounter, EvtcSkill, Header};
use revtc::encode::encode_encounter;

fn agent(addr: u64, prof: Profession, elite: EliteSpec, name: &str, account: &str, sub: &str) -> Agent {
    Agent {
        addr,
        prof,
        elite_spec: elite,
        character_name: name.to_string(),
        account_name: account.to_string(),
        subgroup: sub.to_string(),
    }
}

fn event(src_agent: u64, is_statechange: u8) -> CbtEvent {
    CbtEvent {
        time: 123456,
        src_agent,
        dst_agent: 42,
        value: -77,
        buff_dmg: 15,
        overstack_value: 3,
        skillid: 9000,
        src_instid: 1,
        dst_instid: 2,
        src_master_instid: 0,
        dst_master_instid: 0,
        iff: 1,
        buff: 0,
        result: 0,
        is_activation: 0,
        is_buffremove: 0,
        is_ninety: 1,
        is_fifty: 0,
        is_moving: 1,
        is_statechange,
        is_flanking: 0,
        is_shields: 0,
        is_offcycle: 0,
        pad61: 0,
        pad62: 0,
        pad63: 0,
        pad64: 0,
    }
}

fn sample_encounter() -> Encounter {
    let agents = vec![
        agent(0xAB, Profession::Guardian, EliteSpec::Dragonhunter, "Foo", "Bar.1234", "1"),
        agent(0xCD, Profession::Mesmer, EliteSpec::Unknown, "Qux", ":StartsWithColon", "2"),
    ];
    let skills = vec![
        EvtcSkill { id: -3, name: vec![1u8; 64] },
        EvtcSkill { id: 9283, name: vec![0u8; 64] },
    ];
    let combat_log = vec![event(0x999, 0), event(0xCD, 13), event(0xAB, 13)];
    let pov = find_pov(&combat_log, &agents);
    Encounter {
        header: Header { version: "EVTC2024".to_string(), revision: 1, boss_id: 15438 },
        agents,
        skills,
        combat_log,
        pov,
    }
}

fn assert_agents_equal(a: &Agent, b: &Agent) {
    assert_eq!(a.addr, b.addr);
    assert_eq!(a.prof, b.prof);
    assert_eq!(a.elite_spec, b.elite_spec);
    assert_eq!(a.character_name, b.character_name);
    assert_eq!(a.account_name, b.account_name);
    assert_eq!(a.subgroup, b.subgroup);
}

#[test]
fn decode_of_encode_is_identity() {
    let x = sample_encounter();
    let bytes = encode_encounter(&x).expect("sample is representable");
    let y = read_encounter(&bytes).expect("encoded stream decodes");
    assert_eq!(y.header.version, x.header.version);
    assert_eq!(y.header.revision, x.header.revision);
    assert_eq!(y.header.boss_id, x.header.boss_id);
    assert_eq!(y.agents.len(), x.agents.len());
    for (a, b) in x.agents.iter().zip(y.agents.iter()) {
        assert_agents_equal(a, b);
    }
    assert_eq!(y.skills.len(), x.skills.len());
    for (a, b) in x.skills.iter().zip(y.skills.iter()) {
        assert_eq!(a.id, b.id);
        assert_eq!(a.name, b.name);
    }
    assert_eq!(y.combat_log, x.combat_log);
    let pov_x = x.pov.as_ref().expect("sample has a pov");
    let pov_y = y.pov.as_ref().expect("round trip keeps the pov");
    assert_agents_equal(pov_x, pov_y);
    assert_eq!(pov_x.addr, 0xCD);
}

#[test]
fn round_trip_keeps_account_with_leading_colon() {
    let mut x = sample_encounter();
    x.agents.truncate(1);
    x.agents[0].account_name = ":Colon.1".to_string();
    x.combat_log.clear();
    x.pov = None;
    let bytes = encode_encounter(&x).expect("representable");
    let y = read_encounter(&bytes).expect("decodes");
    assert_eq!(y.agents[0].account_name, ":Colon.1");
}

#[test]
fn encode_rejects_oversized_name() {
    let mut x = sample_encounter();
    x.agents[0].character_name = "X".repeat(62);
    assert!(encode_encounter(&x).is_none());
}

#[test]
fn encode_rejects_nul_in_name() {
    let mut x = sample_encounter();
    x.agents[0].character_name = "A\0B".to_string();
    assert!(encode_encounter(&x).is_none());
}

#[test]
fn encode_rejects_wrong_version_length() {
    let mut x = sample_encounter();
    x.header.version = "short".to_string();
    assert!(encode_encounter(&x).is_none());
}

#[test]
fn encode_rejects_wrong_skill_name_width() {
    let mut x = sample_encounter();
    x.skills[0].name = vec![1u8; 63];
    assert!(encode_encounter(&x).is_none());
}

#[test]
fn round_trip_of_empty_encounter() {
    let x = Encounter {
        header: Header { version: "EVTC2024".to_string(), revision: 0, boss_id: 0 },
        agents: Vec::new(),
        skills: Vec::new(),
        combat_log: Vec::new(),
        pov: None,
    };
    let bytes = encode_encounter(&x).expect("representable");
    assert_eq!(bytes.len(), 24);
    let y = read_encounter(&bytes).expect("decodes");
    assert!(y.agents.is_empty());
    assert!(y.skills.is_empty());
    assert!(y.combat_log.is_empty());
    assert!(y.pov.is_none());
}

#[test]
fn round_trip_of_non_ascii_names() {
    let mut x = sample_encounter();
    x.agents.truncate(1);
    x.agents[0].character_name = "Zo\u{eb} \u{4f60}\u{597d}".to_string();
    x.combat_log.clear();
    x.pov = None;
    let bytes = encode_encounter(&x).expect("representable");
    let y = read_encounter(&bytes).expect("decodes");
    assert_eq!(y.agents[0].character_name, "Zo\u{eb} \u{4f60}\u{597d}");
}
