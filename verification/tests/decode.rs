use revtc::bossdata::{EliteSpec, Profession};
use revtc::evtc::{read_encounter, DecodeError};
use revtc::names::extract_names;

fn push_u16(out: &mut Vec<u8>, v: u16) {
    out.extend_from_slice(&v.to_le_bytes());
}

fn push_u32(out: &mut Vec<u8>, v: u32) {
    out.extend_from_slice(&v.to_le_bytes());
}

fn push_u64(out: &mut Vec<u8>, v: u64) {
    out.extend_from_slice(&v.to_le_bytes());
}

fn header_bytes(version: &[u8; 8], revision: u8, boss_id: u16) -> Vec<u8> {
    let mut out = Vec::new();
    out.extend_from_slice(b"EVTC");
    out.extend_from_slice(version);
    out.push(revision);
    push_u16(&mut out, boss_id);
    out.push(0);
    out
}

fn name_buffer(character: &str, account: &str, subgroup: &str) -> [u8; 64] {
    let mut buf = [0u8; 64];
    let mut i = 0;
    for b in character.bytes() {
        buf[i] = b;
        i += 1;
    }
    i += 1;
    buf[i] = b':';
    i += 1;
    for b in account.bytes() {
        buf[i] = b;
        i += 1;
    }
    i += 1;
    for b in subgroup.bytes() {
        buf[i] = b;
        i += 1;
    }
    buf
}

fn agent_record(addr: u64, prof: u32, is_elite: u32, name: &[u8; 64]) -> Vec<u8> {
    let mut out = Vec::new();
    push_u64(&mut out, addr);
    push_u32(&mut out, prof);
    push_u32(&mut out, is_elite);
    for _ in 0..6 {
        push_u16(&mut out, 0);
    }
    out.extend_from_slice(name);
    out.extend_from_slice(&[0u8; 4]);
    assert_eq!(out.len(), 96);
    out
}

fn skill_record(id: i32, name: &[u8; 64]) -> Vec<u8> {
    let mut out = Vec::new();
    push_u32(&mut out, id as u32);
    out.extend_from_slice(name);
    assert_eq!(out.len(), 68);
    out
}

fn event_record(src_agent: u64, is_statechange: u8) -> Vec<u8> {
    let mut out = vec![0u8; 64];
    out[8..16].copy_from_slice(&src_agent.to_le_bytes());
    out[56] = is_statechange;
    out
}

/// A complete small stream: one player agent, one non-player agent, one
/// skill, and the given event tail.
fn sample_stream(events: &[Vec<u8>]) -> Vec<u8> {
    let mut data = header_bytes(b"EVTC2024", 1, 15438);
    push_u32(&mut data, 2);
    data.extend_from_slice(&agent_record(
        0xAB,
        1,
        27,
        &name_buffer("Foo", "Bar.1234", "1"),
    ));
    data.extend_from_slice(&agent_record(0xCD, 99, 0xFFFF_FFFF, &name_buffer("Boss", "", "")));
    push_u32(&mut data, 1);
    data.extend_from_slice(&skill_record(9283, &[7u8; 64]));
    for ev in events {
        data.extend_from_slice(ev);
    }
    data
}

#[test]
fn decodes_sample_stream() {
    let data = sample_stream(&[event_record(0xAB, 13)]);
    let enc = read_encounter(&data).expect("decode should succeed");
    assert_eq!(enc.header.version, "EVTC2024");
    assert_eq!(enc.header.revision, 1);
    assert_eq!(enc.header.boss_id, 15438);
    assert_eq!(enc.agents.len(), 1);
    assert_eq!(enc.agents[0].addr, 0xAB);
    assert!(matches!(enc.agents[0].prof, Profession::Guardian));
    assert!(matches!(enc.agents[0].elite_spec, EliteSpec::Dragonhunter));
    assert_eq!(enc.agents[0].character_name, "Foo");
    assert_eq!(enc.agents[0].account_name, "Bar.1234");
    assert_eq!(enc.agents[0].subgroup, "1");
    assert_eq!(enc.skills.len(), 1);
    assert_eq!(enc.skills[0].id, 9283);
    assert_eq!(enc.skills[0].name, vec![7u8; 64]);
    assert_eq!(enc.combat_log.len(), 1);
    assert_eq!(enc.combat_log[0].src_agent, 0xAB);
    assert_eq!(enc.combat_log[0].is_statechange, 13);
}

#[test]
fn wrong_magic_is_bad_magic() {
    let mut data = sample_stream(&[]);
    data[0..4].copy_from_slice(b"XXXX");
    match read_encounter(&data) {
        Err(DecodeError::BadMagic) => {}
        other => panic!("expected BadMagic, got {:?}", other),
    }
}

#[test]
fn truncated_header_is_truncated_input() {
    let data = b"EVTC2024".to_vec();
    match read_encounter(&data) {
        Err(DecodeError::TruncatedInput) => {}
        other => panic!("expected TruncatedInput, got {:?}", other),
    }
}

#[test]
fn truncated_agent_table_is_truncated_input() {
    let mut data = header_bytes(b"EVTC2024", 1, 1);
    push_u32(&mut data, 3);
    data.extend_from_slice(&agent_record(1, 1, 27, &name_buffer("A", "B", "1")));
    match read_encounter(&data) {
        Err(DecodeError::TruncatedInput) => {}
        other => panic!("expected TruncatedInput, got {:?}", other),
    }
}

#[test]
fn sentinel_agent_is_excluded() {
    let data = sample_stream(&[]);
    let enc = read_encounter(&data).expect("decode should succeed");
    assert_eq!(enc.agents.len(), 1);
    assert!(enc.agents.iter().all(|a| a.addr != 0xCD));
}

#[test]
fn zero_agent_count_is_empty_list_not_error() {
    let mut data = header_bytes(b"EVTC2024", 1, 1);
    push_u32(&mut data, 0);
    push_u32(&mut data, 0);
    let enc = read_encounter(&data).expect("decode should succeed");
    assert!(enc.agents.is_empty());
    assert!(enc.skills.is_empty());
    assert!(enc.combat_log.is_empty());
    assert!(enc.pov.is_none());
}

#[test]
fn ragged_event_tail_is_malformed_event_log() {
    let mut data = sample_stream(&[event_record(0xAB, 13)]);
    data.push(0);
    match read_encounter(&data) {
        Err(DecodeError::MalformedEventLog) => {}
        other => panic!("expected MalformedEventLog, got {:?}", other),
    }
}

#[test]
fn invalid_utf8_name_is_invalid_text() {
    let mut name = name_buffer("Foo", "Bar", "1");
    name[0] = 0xFF;
    name[1] = 0xFE;
    let mut data = header_bytes(b"EVTC2024", 1, 1);
    push_u32(&mut data, 1);
    data.extend_from_slice(&agent_record(1, 1, 27, &name));
    push_u32(&mut data, 0);
    match read_encounter(&data) {
        Err(DecodeError::InvalidText) => {}
        other => panic!("expected InvalidText, got {:?}", other),
    }
}

#[test]
fn non_ascii_name_decodes() {
    let mut data = header_bytes(b"EVTC2024", 1, 1);
    push_u32(&mut data, 1);
    data.extend_from_slice(&agent_record(1, 4, 5, &name_buffer("Zo\u{eb}", "Acc\u{e9}.1", "2")));
    push_u32(&mut data, 0);
    let enc = read_encounter(&data).expect("decode should succeed");
    assert_eq!(enc.agents[0].character_name, "Zo\u{eb}");
    assert_eq!(enc.agents[0].account_name, "Acc\u{e9}.1");
    assert_eq!(enc.agents[0].subgroup, "2");
}

#[test]
fn pov_resolves_to_known_agent() {
    let data = sample_stream(&[event_record(0x999, 0), event_record(0xAB, 13)]);
    let enc = read_encounter(&data).expect("decode should succeed");
    let pov = enc.pov.expect("pov should be present");
    assert_eq!(pov.addr, 0xAB);
    assert_eq!(pov.character_name, "Foo");
}

#[test]
fn no_pov_event_means_no_pov() {
    let data = sample_stream(&[event_record(0xAB, 1), event_record(0xAB, 2)]);
    let enc = read_encounter(&data).expect("decode should succeed");
    assert!(enc.pov.is_none());
}

#[test]
fn pov_with_unknown_address_means_no_pov() {
    let data = sample_stream(&[event_record(0x999, 13)]);
    let enc = read_encounter(&data).expect("decode should succeed");
    assert!(enc.pov.is_none());
}

#[test]
fn shrink_empties_and_releases_collections() {
    let data = sample_stream(&[event_record(0xAB, 13)]);
    let mut enc = read_encounter(&data).expect("decode should succeed");
    assert!(!enc.skills.is_empty());
    assert!(!enc.combat_log.is_empty());
    enc.shrink();
    assert!(enc.skills.is_empty());
    assert!(enc.combat_log.is_empty());
    assert_eq!(enc.skills.capacity(), 0);
    assert_eq!(enc.combat_log.capacity(), 0);
    assert_eq!(enc.header.version, "EVTC2024");
    assert_eq!(enc.agents.len(), 1);
    assert_eq!(enc.agents[0].character_name, "Foo");
    assert_eq!(enc.pov.as_ref().map(|a| a.addr), Some(0xAB));
}

#[test]
fn name_field_splitting() {
    let mut buf = [0u8; 64];
    buf[..16].copy_from_slice(b"Foo\0:Bar\0Party1\0");
    let (character, account, subgroup) = extract_names(&buf).expect("valid UTF-8 fields");
    assert_eq!(character, "Foo");
    assert_eq!(account, "Bar");
    assert_eq!(subgroup, "Party1");
}

#[test]
fn name_field_splitting_without_nulls() {
    let buf = [b'A'; 64];
    let (character, account, subgroup) = extract_names(&buf).expect("valid UTF-8 fields");
    assert_eq!(character.len(), 64);
    assert_eq!(account, "");
    assert_eq!(subgroup, "");
}

#[test]
fn account_name_strips_one_leading_colon() {
    let mut buf = [0u8; 64];
    buf[..12].copy_from_slice(b"A\0::Acc\0Sub\0");
    let (_, account, _) = extract_names(&buf).expect("valid UTF-8 fields");
    assert_eq!(account, ":Acc");
}

#[test]
fn independent_decodes_are_deterministic() {
    let data1 = sample_stream(&[event_record(0xAB, 13)]);
    let data2 = sample_stream(&[event_record(0xAB, 1)]);
    let first1 = read_encounter(&data1).expect("decode should succeed");
    let first2 = read_encounter(&data2).expect("decode should succeed");
    let second1 = read_encounter(&data1).expect("decode should succeed");
    let second2 = read_encounter(&data2).expect("decode should succeed");
    assert_eq!(first1.agents.len(), second1.agents.len());
    assert_eq!(first1.combat_log, second1.combat_log);
    assert_eq!(
        first1.pov.as_ref().map(|a| a.addr),
        second1.pov.as_ref().map(|a| a.addr)
    );
    assert_eq!(first2.combat_log, second2.combat_log);
    assert!(first1.pov.is_some());
    assert!(first2.pov.is_none());
}

#[test]
fn little_endian_fields_have_exact_values() {
    let mut data = header_bytes(b"EVTC2024", 1, 0x3C4E);
    push_u32(&mut data, 0);
    push_u32(&mut data, 0);
    let mut ev = vec![0u8; 64];
    ev[0..8].copy_from_slice(&[0x01, 0x02, 0x03, 0x04, 0x05, 0x06, 0x07, 0x08]);
    ev[24..28].copy_from_slice(&(-5i32).to_le_bytes());
    data.extend_from_slice(&ev);
    let enc = read_encounter(&data).expect("decode should succeed");
    assert_eq!(enc.header.boss_id, 15438);
    assert_eq!(enc.combat_log[0].time, 0x0807060504030201);
    assert_eq!(enc.combat_log[0].value, -5);
}

#[test]
fn invalid_utf8_version_is_lossy_decoded_to_empty() {
    let mut data = header_bytes(b"EVTC2024", 1, 1);
    data[4] = 0xFF;
    push_u32(&mut data, 0);
    push_u32(&mut data, 0);
    let enc = read_encounter(&data).expect("decode should succeed");
    assert_eq!(enc.header.version, "");
}

#[test]
fn missing_agent_count_is_truncated_input() {
    let data = header_bytes(b"EVTC2024", 1, 1);
    match read_encounter(&data) {
        Err(DecodeError::TruncatedInput) => {}
        other => panic!("expected TruncatedInput, got {:?}", other),
    }
}
