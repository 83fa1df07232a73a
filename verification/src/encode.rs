//! An encoder for synthetic EVTC streams, and the proof that decoding an
//! encoded encounter gives the encounter back.
//!
//! The encoder is the test-side inverse of the decoder: it lays an
//! [`EncounterView`] out exactly as [`crate::evtc::spec_decode`] expects,
//! writing one record per player agent, zeroed stat fields, and the combat
//! log as the event tail.  [`lemma_decode_encode`] states the round trip.

use vstd::prelude::*;
use vstd::bytes::{
    lemma_auto_spec_u16_to_from_le_bytes,
    lemma_auto_spec_u32_to_from_le_bytes,
    lemma_auto_spec_u64_to_from_le_bytes,
    spec_u16_to_le_bytes,
    spec_u32_to_le_bytes,
    spec_u64_to_le_bytes,
};
use vstd::utf8::{encode_utf8, valid_utf8};

use crate::bossdata::{
    spec_elite_spec_from_id,
    spec_profession_from_id,
    EliteSpec,
    Profession,
};
use crate::evtc::{
    agent_views,
    Agent,
    skill_views,
    spec_decode,
    spec_decode_agent,
    spec_decode_agents,
    spec_event,
    spec_events,
    spec_find_pov,
    spec_header_record,
    spec_magic,
    spec_skill,
    spec_skills,
    AgentView,
    CbtEvent,
    DecodeError,
    Encounter,
    EncounterView,
    HeaderView,
    SkillView,
    AGENT_RECORD_LEN,
    EVENT_RECORD_LEN,
    HEADER_LEN,
    SKILL_RECORD_LEN,
};
use crate::names::{lemma_first_nul_from, spec_extract_names};

verus! {

broadcast use vstd::utf8::encode_utf8_valid_utf8, vstd::utf8::encode_utf8_decode_utf8;

/// The wire profession ID written for a profession; `from` and `to` are
/// mutually inverse on the named professions, with `Unknown` written as 0.
pub open spec fn spec_prof_id(p: Profession) -> u32 {
    match p {
        Profession::Guardian => 1,
        Profession::Warrior => 2,
        Profession::Engineer => 3,
        Profession::Ranger => 4,
        Profession::Thief => 5,
        Profession::Elementalist => 6,
        Profession::Mesmer => 7,
        Profession::Necromancer => 8,
        Profession::Revenant => 9,
        Profession::Unknown => 0,
    }
}

/// The wire elite-specialization ID written for an elite specialization.
pub open spec fn spec_elite_id(e: EliteSpec) -> u32 {
    match e {
        EliteSpec::Dragonhunter => 27,
        EliteSpec::Berserker => 18,
        EliteSpec::Scrapper => 43,
        EliteSpec::Druid => 5,
        EliteSpec::Daredevil => 7,
        EliteSpec::Tempest => 48,
        EliteSpec::Chronomancer => 40,
        EliteSpec::Reaper => 34,
        EliteSpec::Herald => 52,
        EliteSpec::Firebrand => 62,
        EliteSpec::Spellbreaker => 61,
        EliteSpec::Holosmith => 57,
        EliteSpec::Soulbeast => 55,
        EliteSpec::Deadeye => 58,
        EliteSpec::Weaver => 56,
        EliteSpec::Mirage => 59,
        EliteSpec::Scourge => 60,
        EliteSpec::Renegade => 63,
        EliteSpec::Willbender => 65,
        EliteSpec::Bladesworn => 68,
        EliteSpec::Untamed => 72,
        EliteSpec::Specter => 71,
        EliteSpec::Catalyst => 67,
        EliteSpec::Virtuoso => 66,
        EliteSpec::Harbinger => 64,
        EliteSpec::Vindicator => 69,
        EliteSpec::Mechanist => 70,
        EliteSpec::Unknown => 0,
    }
}

/// A sequence of `n` zero bytes.
pub open spec fn zeros(n: nat) -> Seq<u8> {
    Seq::new(n, |i: int| 0u8)
}

/// The 16 header bytes for a header value.
pub open spec fn spec_encode_header(h: HeaderView) -> Seq<u8> {
    spec_magic() + encode_utf8(h.version) + seq![h.revision] + spec_u16_to_le_bytes(h.boss_id)
        + seq![0u8]
}

/// The 64-byte name buffer for three raw field byte strings: each field
/// null-terminated, the account field preceded by its `:` separator, zero
/// padding to the fixed width.
pub open spec fn spec_name_buffer(c: Seq<u8>, a: Seq<u8>, sub: Seq<u8>) -> Seq<u8>
    recommends
        c.len() + a.len() + sub.len() + 3 <= 64,
{
    let used = c + seq![0u8] + seq![0x3au8] + a + seq![0u8] + sub;
    used + zeros((64 - used.len()) as nat)
}

/// The 96 bytes of one player-agent record: address, profession ID,
/// elite-specialization ID, zeroed stat fields, the name buffer, and the
/// four bytes of trailing alignment padding.
pub open spec fn spec_encode_agent(a: AgentView) -> Seq<u8> {
    spec_u64_to_le_bytes(a.addr) + spec_u32_to_le_bytes(spec_prof_id(a.prof))
        + spec_u32_to_le_bytes(spec_elite_id(a.elite_spec)) + zeros(12) + spec_name_buffer(
        encode_utf8(a.character_name),
        encode_utf8(a.account_name),
        encode_utf8(a.subgroup),
    ) + zeros(4)
}

/// The concatenated records of an agent table.
pub open spec fn spec_encode_agents(agents: Seq<AgentView>) -> Seq<u8>
    decreases agents.len(),
{
    if agents.len() == 0 {
        Seq::empty()
    } else {
        spec_encode_agents(agents.drop_last()) + spec_encode_agent(agents.last())
    }
}

/// The 68 bytes of one skill record.
pub open spec fn spec_encode_skill(k: SkillView) -> Seq<u8> {
    spec_u32_to_le_bytes(k.id as u32) + k.name
}

/// The concatenated records of a skill table.
pub open spec fn spec_encode_skills(skills: Seq<SkillView>) -> Seq<u8>
    decreases skills.len(),
{
    if skills.len() == 0 {
        Seq::empty()
    } else {
        spec_encode_skills(skills.drop_last()) + spec_encode_skill(skills.last())
    }
}

/// The 64 bytes of one combat-event record.
pub open spec fn spec_encode_event(ev: CbtEvent) -> Seq<u8> {
    spec_u64_to_le_bytes(ev.time) + spec_u64_to_le_bytes(ev.src_agent) + spec_u64_to_le_bytes(
        ev.dst_agent,
    ) + spec_u32_to_le_bytes(ev.value as u32) + spec_u32_to_le_bytes(ev.buff_dmg as u32)
        + spec_u32_to_le_bytes(ev.overstack_value) + spec_u32_to_le_bytes(ev.skillid)
        + spec_u16_to_le_bytes(ev.src_instid) + spec_u16_to_le_bytes(ev.dst_instid)
        + spec_u16_to_le_bytes(ev.src_master_instid) + spec_u16_to_le_bytes(ev.dst_master_instid)
        + seq![
        ev.iff,
        ev.buff,
        ev.result,
        ev.is_activation,
        ev.is_buffremove,
        ev.is_ninety,
        ev.is_fifty,
        ev.is_moving,
        ev.is_statechange,
        ev.is_flanking,
        ev.is_shields,
        ev.is_offcycle,
        ev.pad61,
        ev.pad62,
        ev.pad63,
        ev.pad64,
    ]
}

/// The concatenated records of the event tail.
pub open spec fn spec_encode_events(evts: Seq<CbtEvent>) -> Seq<u8>
    decreases evts.len(),
{
    if evts.len() == 0 {
        Seq::empty()
    } else {
        spec_encode_events(evts.drop_last()) + spec_encode_event(evts.last())
    }
}

/// The whole encoded stream of an encounter, in wire order.
pub open spec fn spec_encode(x: EncounterView) -> Seq<u8> {
    spec_encode_header(x.header) + spec_u32_to_le_bytes(x.agents.len() as u32) + spec_encode_agents(
        x.agents,
    ) + spec_u32_to_le_bytes(x.skills.len() as u32) + spec_encode_skills(x.skills)
        + spec_encode_events(x.combat_log)
}

/// No byte of `b` is a null.
pub open spec fn nul_free(b: Seq<u8>) -> bool {
    forall|i: int| 0 <= i < b.len() ==> b[i] != 0
}

/// An agent the encoder can represent: its three name fields, as UTF-8
/// bytes, are free of null bytes and fit the 64-byte buffer together with
/// their separators.
pub open spec fn agent_encodable(a: AgentView) -> bool {
    &&& nul_free(encode_utf8(a.character_name))
    &&& nul_free(encode_utf8(a.account_name))
    &&& nul_free(encode_utf8(a.subgroup))
    &&& encode_utf8(a.character_name).len() + encode_utf8(a.account_name).len() + encode_utf8(
        a.subgroup,
    ).len() + 3 <= 64
}

/// An encounter the encoder can represent: an 8-byte version text, table
/// sizes that fit their count prefixes, encodable agents, and fixed-width
/// skill names.
pub open spec fn encounter_representable(x: EncounterView) -> bool {
    &&& encode_utf8(x.header.version).len() == 8
    &&& x.agents.len() <= u32::MAX
    &&& x.skills.len() <= u32::MAX
    &&& (forall|i: int| 0 <= i < x.agents.len() ==> agent_encodable(#[trigger] x.agents[i]))
    &&& (forall|i: int| 0 <= i < x.skills.len() ==> (#[trigger] x.skills[i]).name.len() == 64)
}

/// An encounter the round trip holds for: representable, with a
/// point-of-view field consistent with its own combat log, as decoding
/// always recomputes it.
pub open spec fn encounter_encodable(x: EncounterView) -> bool {
    &&& encounter_representable(x)
    &&& x.pov == spec_find_pov(x.combat_log, x.agents)
}

/// The profession IDs the encoder writes map back to the profession.
proof fn lemma_prof_id_round(p: Profession)
    ensures
        spec_profession_from_id(spec_prof_id(p)) == p,
{
}

/// The elite-specialization IDs the encoder writes map back, and none of
/// them is the non-player sentinel.
proof fn lemma_elite_id_round(e: EliteSpec)
    ensures
        spec_elite_spec_from_id(spec_elite_id(e)) == e,
        spec_elite_id(e) != crate::evtc::NON_PLAYER_SENTINEL,
{
}

/// A `u32` round-trips through an `i32` reinterpretation.
proof fn lemma_i32_cast_round(v: i32)
    ensures
        (v as u32) as i32 == v,
{
    assert((v as u32) as i32 == v) by (bit_vector);
}

/// An encoded name buffer splits back into its three fields.
proof fn lemma_name_buffer_round_trip(c: Seq<u8>, a: Seq<u8>, sub: Seq<u8>)
    requires
        nul_free(c),
        nul_free(a),
        nul_free(sub),
        c.len() + a.len() + sub.len() + 3 <= 64,
    ensures
        spec_name_buffer(c, a, sub).len() == 64,
        ({
            let (s1, raw2, s3) = crate::names::spec_name_segments(spec_name_buffer(c, a, sub));
            s1 == c && crate::names::spec_strip_leading_colon(raw2) == a && s3 == sub
        }),
{
    let buf = spec_name_buffer(c, a, sub);
    let n1 = c.len() as int;
    let n2 = n1 + 2 + a.len();
    let n3 = n2 + 1 + sub.len();
    assert(buf.len() == 64);
    assert forall|k: int| 0 <= k < n1 implies buf[k] != 0 by {
        assert(buf[k] == c[k]);
    }
    assert(buf[n1] == 0);
    assert(buf[n1 + 1] == 0x3a);
    assert forall|k: int| n1 + 1 <= k < n2 implies buf[k] != 0 by {
        if k > n1 + 1 {
            assert(buf[k] == a[k - n1 - 2]);
        }
    }
    assert(buf[n2] == 0);
    assert forall|k: int| n2 + 1 <= k < n3 implies buf[k] != 0 by {
        assert(buf[k] == sub[k - n2 - 1]);
    }
    assert(n3 == 64 || buf[n3] == 0);
    lemma_first_nul_from(buf, 0, n1);
    lemma_first_nul_from(buf, n1 + 1, n2);
    lemma_first_nul_from(buf, n2 + 1, n3);
    let (s1, raw2, s3) = crate::names::spec_name_segments(buf);
    assert(s1 =~= c);
    assert(raw2 =~= seq![0x3au8] + a);
    assert(raw2[0] == 0x3a);
    assert(crate::names::spec_strip_leading_colon(raw2) =~= a);
    assert(s3 =~= sub);
}

/// Decoding an encoded player-agent record gives the agent back.
proof fn lemma_agent_round_trip(a: AgentView)
    requires
        agent_encodable(a),
    ensures
        spec_encode_agent(a).len() == AGENT_RECORD_LEN,
        spec_decode_agent(spec_encode_agent(a)) == Ok::<Option<AgentView>, DecodeError>(Some(a)),
{
    lemma_auto_spec_u64_to_from_le_bytes();
    lemma_auto_spec_u32_to_from_le_bytes();
    lemma_auto_spec_u16_to_from_le_bytes();
    let c = encode_utf8(a.character_name);
    let ac = encode_utf8(a.account_name);
    let sub = encode_utf8(a.subgroup);
    let buf = spec_name_buffer(c, ac, sub);
    lemma_name_buffer_round_trip(c, ac, sub);
    let enc = spec_encode_agent(a);
    assert(enc.len() == 96);
    let raw = crate::evtc::spec_raw_agent(enc);
    assert(enc.subrange(0, 8) =~= spec_u64_to_le_bytes(a.addr));
    assert(enc.subrange(8, 12) =~= spec_u32_to_le_bytes(spec_prof_id(a.prof)));
    assert(enc.subrange(12, 16) =~= spec_u32_to_le_bytes(spec_elite_id(a.elite_spec)));
    assert(enc.subrange(28, 92) =~= buf);
    assert(raw.addr == a.addr);
    assert(raw.prof == spec_prof_id(a.prof));
    assert(raw.is_elite == spec_elite_id(a.elite_spec));
    assert(raw.name == buf);
    lemma_prof_id_round(a.prof);
    lemma_elite_id_round(a.elite_spec);
    let (s1, raw2, s3) = crate::names::spec_name_segments(buf);
    assert(valid_utf8(s1) && valid_utf8(crate::names::spec_strip_leading_colon(raw2)) && valid_utf8(
        s3,
    ));
    assert(spec_extract_names(buf) == Ok::<_, DecodeError>(
        (a.character_name, a.account_name, a.subgroup),
    ));
}

/// Each encoded agent table has one record per agent.
proof fn lemma_encode_agents_len(agents: Seq<AgentView>)
    requires
        forall|i: int| 0 <= i < agents.len() ==> agent_encodable(#[trigger] agents[i]),
    ensures
        spec_encode_agents(agents).len() == AGENT_RECORD_LEN * agents.len(),
    decreases agents.len(),
{
    if agents.len() > 0 {
        lemma_encode_agents_len(agents.drop_last());
        lemma_agent_round_trip(agents.last());
    }
}

/// Decoding an encoded agent table gives exactly the agents back.
proof fn lemma_agents_round_trip(s: Seq<u8>, off: int, agents: Seq<AgentView>)
    requires
        forall|i: int| 0 <= i < agents.len() ==> agent_encodable(#[trigger] agents[i]),
        0 <= off,
        off + AGENT_RECORD_LEN * agents.len() <= s.len(),
        s.subrange(off, off + AGENT_RECORD_LEN * agents.len()) == spec_encode_agents(agents),
    ensures
        spec_decode_agents(s, off, agents.len() as nat) == Ok::<Seq<AgentView>, DecodeError>(
            agents,
        ),
    decreases agents.len(),
{
    if agents.len() > 0 {
        let n = agents.len() as int;
        let pre = agents.drop_last();
        lemma_encode_agents_len(pre);
        lemma_agent_round_trip(agents.last());
        let whole = s.subrange(off, off + AGENT_RECORD_LEN * n);
        assert(whole.subrange(0, AGENT_RECORD_LEN * (n - 1)) =~= spec_encode_agents(pre));
        assert(s.subrange(off, off + AGENT_RECORD_LEN * pre.len()) =~= whole.subrange(
            0,
            AGENT_RECORD_LEN * (n - 1),
        ));
        lemma_agents_round_trip(s, off, pre);
        assert(whole.subrange(AGENT_RECORD_LEN * (n - 1), AGENT_RECORD_LEN * n)
            =~= spec_encode_agent(agents.last()));
        assert(s.subrange(off + AGENT_RECORD_LEN * (n - 1), off + AGENT_RECORD_LEN * n)
            =~= whole.subrange(AGENT_RECORD_LEN * (n - 1), AGENT_RECORD_LEN * n));
        assert(pre.push(agents.last()) =~= agents);
    } else {
        assert(agents =~= Seq::<AgentView>::empty());
    }
}

/// Decoding an encoded skill record gives the skill back.
proof fn lemma_skill_round_trip(k: SkillView)
    requires
        k.name.len() == 64,
    ensures
        spec_encode_skill(k).len() == SKILL_RECORD_LEN,
        spec_skill(spec_encode_skill(k)) == k,
{
    lemma_auto_spec_u32_to_from_le_bytes();
    lemma_i32_cast_round(k.id);
    let enc = spec_encode_skill(k);
    assert(enc.subrange(0, 4) =~= spec_u32_to_le_bytes(k.id as u32));
    assert(enc.subrange(4, 68) =~= k.name);
}

/// Each encoded skill table has one record per skill.
proof fn lemma_encode_skills_len(skills: Seq<SkillView>)
    requires
        forall|i: int| 0 <= i < skills.len() ==> (#[trigger] skills[i]).name.len() == 64,
    ensures
        spec_encode_skills(skills).len() == SKILL_RECORD_LEN * skills.len(),
    decreases skills.len(),
{
    if skills.len() > 0 {
        lemma_encode_skills_len(skills.drop_last());
        lemma_skill_round_trip(skills.last());
    }
}

/// Record `i` of an encoded skill table is the encoding of skill `i`.
proof fn lemma_encode_skills_index(skills: Seq<SkillView>, i: int)
    requires
        forall|j: int| 0 <= j < skills.len() ==> (#[trigger] skills[j]).name.len() == 64,
        0 <= i < skills.len(),
    ensures
        spec_encode_skills(skills).subrange(
            SKILL_RECORD_LEN * i,
            SKILL_RECORD_LEN * (i + 1),
        ) == spec_encode_skill(skills[i]),
    decreases skills.len(),
{
    let n = skills.len() as int;
    lemma_encode_skills_len(skills.drop_last());
    lemma_skill_round_trip(skills.last());
    if i == n - 1 {
        assert(spec_encode_skills(skills).subrange(SKILL_RECORD_LEN * i, SKILL_RECORD_LEN * (i + 1))
            =~= spec_encode_skill(skills.last()));
    } else {
        lemma_encode_skills_index(skills.drop_last(), i);
        assert(spec_encode_skills(skills).subrange(SKILL_RECORD_LEN * i, SKILL_RECORD_LEN * (i + 1))
            =~= spec_encode_skills(skills.drop_last()).subrange(
            SKILL_RECORD_LEN * i,
            SKILL_RECORD_LEN * (i + 1),
        ));
    }
}

/// Decoding an encoded skill table gives exactly the skills back.
proof fn lemma_skills_round_trip(s: Seq<u8>, off: int, skills: Seq<SkillView>)
    requires
        forall|i: int| 0 <= i < skills.len() ==> (#[trigger] skills[i]).name.len() == 64,
        0 <= off,
        off + SKILL_RECORD_LEN * skills.len() <= s.len(),
        s.subrange(off, off + SKILL_RECORD_LEN * skills.len()) == spec_encode_skills(skills),
    ensures
        spec_skills(s, off, skills.len() as nat) == skills,
{
    let n = skills.len() as int;
    let dec = spec_skills(s, off, skills.len() as nat);
    assert forall|i: int| 0 <= i < n implies dec[i] == skills[i] by {
        lemma_encode_skills_index(skills, i);
        lemma_skill_round_trip(skills[i]);
        assert(s.subrange(off + SKILL_RECORD_LEN * i, off + SKILL_RECORD_LEN * (i + 1))
            =~= spec_encode_skills(skills).subrange(SKILL_RECORD_LEN * i, SKILL_RECORD_LEN * (i + 1)));
    }
    assert(dec =~= skills);
}

/// Decoding an encoded event record gives the event back.
proof fn lemma_event_round_trip(ev: CbtEvent)
    ensures
        spec_encode_event(ev).len() == EVENT_RECORD_LEN,
        spec_event(spec_encode_event(ev)) == ev,
{
    lemma_auto_spec_u64_to_from_le_bytes();
    lemma_auto_spec_u32_to_from_le_bytes();
    lemma_auto_spec_u16_to_from_le_bytes();
    lemma_i32_cast_round(ev.value);
    lemma_i32_cast_round(ev.buff_dmg);
    let enc = spec_encode_event(ev);
    assert(enc.subrange(0, 8) =~= spec_u64_to_le_bytes(ev.time));
    assert(enc.subrange(8, 16) =~= spec_u64_to_le_bytes(ev.src_agent));
    assert(enc.subrange(16, 24) =~= spec_u64_to_le_bytes(ev.dst_agent));
    assert(enc.subrange(24, 28) =~= spec_u32_to_le_bytes(ev.value as u32));
    assert(enc.subrange(28, 32) =~= spec_u32_to_le_bytes(ev.buff_dmg as u32));
    assert(enc.subrange(32, 36) =~= spec_u32_to_le_bytes(ev.overstack_value));
    assert(enc.subrange(36, 40) =~= spec_u32_to_le_bytes(ev.skillid));
    assert(enc.subrange(40, 42) =~= spec_u16_to_le_bytes(ev.src_instid));
    assert(enc.subrange(42, 44) =~= spec_u16_to_le_bytes(ev.dst_instid));
    assert(enc.subrange(44, 46) =~= spec_u16_to_le_bytes(ev.src_master_instid));
    assert(enc.subrange(46, 48) =~= spec_u16_to_le_bytes(ev.dst_master_instid));
}

/// Each encoded event tail has one record per event.
proof fn lemma_encode_events_len(evts: Seq<CbtEvent>)
    ensures
        spec_encode_events(evts).len() == EVENT_RECORD_LEN * evts.len(),
    decreases evts.len(),
{
    if evts.len() > 0 {
        lemma_encode_events_len(evts.drop_last());
        lemma_event_round_trip(evts.last());
    }
}

/// Record `i` of an encoded event tail is the encoding of event `i`.
proof fn lemma_encode_events_index(evts: Seq<CbtEvent>, i: int)
    requires
        0 <= i < evts.len(),
    ensures
        spec_encode_events(evts).subrange(
            EVENT_RECORD_LEN * i,
            EVENT_RECORD_LEN * (i + 1),
        ) == spec_encode_event(evts[i]),
    decreases evts.len(),
{
    let n = evts.len() as int;
    lemma_encode_events_len(evts.drop_last());
    lemma_event_round_trip(evts.last());
    if i == n - 1 {
        assert(spec_encode_events(evts).subrange(EVENT_RECORD_LEN * i, EVENT_RECORD_LEN * (i + 1))
            =~= spec_encode_event(evts.last()));
    } else {
        lemma_encode_events_index(evts.drop_last(), i);
        assert(spec_encode_events(evts).subrange(EVENT_RECORD_LEN * i, EVENT_RECORD_LEN * (i + 1))
            =~= spec_encode_events(evts.drop_last()).subrange(
            EVENT_RECORD_LEN * i,
            EVENT_RECORD_LEN * (i + 1),
        ));
    }
}

/// Decoding an encoded event tail gives exactly the events back.
proof fn lemma_events_round_trip(t: Seq<u8>, evts: Seq<CbtEvent>)
    requires
        t == spec_encode_events(evts),
    ensures
        spec_events(t) == Ok::<Seq<CbtEvent>, DecodeError>(evts),
{
    lemma_encode_events_len(evts);
    let n = evts.len() as int;
    assert((t.len() as int) % (EVENT_RECORD_LEN as int) == 0) by {
        assert(t.len() == EVENT_RECORD_LEN * n);
        assert((EVENT_RECORD_LEN * n) % (EVENT_RECORD_LEN as int) == 0) by (nonlinear_arith);
    }
    assert((t.len() as int) / (EVENT_RECORD_LEN as int) == n) by {
        assert(t.len() == EVENT_RECORD_LEN * n);
        assert((EVENT_RECORD_LEN * n) / (EVENT_RECORD_LEN as int) == n) by (nonlinear_arith);
    }
    let dec = spec_events(t)->Ok_0;
    assert forall|i: int| 0 <= i < n implies dec[i] == evts[i] by {
        lemma_encode_events_index(evts, i);
        lemma_event_round_trip(evts[i]);
    }
    assert(dec =~= evts);
}

/// Decoding an encoded header gives the header back.
proof fn lemma_header_round_trip(h: HeaderView)
    requires
        encode_utf8(h.version).len() == 8,
    ensures
        spec_encode_header(h).len() == HEADER_LEN,
        spec_encode_header(h).subrange(0, 4) == spec_magic(),
        spec_header_record(spec_encode_header(h)) == h,
{
    lemma_auto_spec_u16_to_from_le_bytes();
    let enc = spec_encode_header(h);
    assert(enc.subrange(0, 4) =~= spec_magic());
    assert(enc.subrange(4, 12) =~= encode_utf8(h.version));
    assert(enc[12] == h.revision);
    assert(enc.subrange(13, 15) =~= spec_u16_to_le_bytes(h.boss_id));
}

/// Round trip: decoding an encoded encounter yields exactly that encounter.
///
/// This holds for every encounter the encoder can represent whose
/// point-of-view field agrees with its own combat log, as the decoder always
/// recomputes it.
pub proof fn lemma_decode_encode(x: EncounterView)
    requires
        encounter_encodable(x),
    ensures
        spec_decode(spec_encode(x)) == Ok::<EncounterView, DecodeError>(x),
{
    lemma_auto_spec_u32_to_from_le_bytes();
    let s = spec_encode(x);
    let h = spec_encode_header(x.header);
    let ac = spec_u32_to_le_bytes(x.agents.len() as u32);
    let ags = spec_encode_agents(x.agents);
    let sc = spec_u32_to_le_bytes(x.skills.len() as u32);
    let sks = spec_encode_skills(x.skills);
    let evs = spec_encode_events(x.combat_log);
    lemma_header_round_trip(x.header);
    lemma_encode_agents_len(x.agents);
    lemma_encode_skills_len(x.skills);
    lemma_encode_events_len(x.combat_log);
    let na = x.agents.len() as int;
    let ns = x.skills.len() as int;
    let ne = x.combat_log.len() as int;
    let agents_end = 20 + AGENT_RECORD_LEN * na;
    let skills_end = agents_end + 4 + SKILL_RECORD_LEN * ns;
    assert(s.len() == skills_end + EVENT_RECORD_LEN * ne);
    assert(s.subrange(0, 4) =~= spec_magic());
    assert(s.subrange(0, HEADER_LEN as int) =~= h);
    assert(s.subrange(16, 20) =~= ac);
    assert(s.subrange(20, 20 + AGENT_RECORD_LEN * na) =~= ags);
    lemma_agents_round_trip(s, 20, x.agents);
    assert(s.subrange(agents_end, agents_end + 4) =~= sc);
    assert(s.subrange(agents_end + 4, skills_end) =~= sks);
    lemma_skills_round_trip(s, agents_end + 4, x.skills);
    assert(s.subrange(skills_end, s.len() as int) =~= evs);
    lemma_events_round_trip(s.subrange(skills_end, s.len() as int), x.combat_log);
}


/// The wire profession ID for a profession.
fn prof_id(p: Profession) -> (r: u32)
    ensures
        r == spec_prof_id(p),
{
    match p {
        Profession::Guardian => 1,
        Profession::Warrior => 2,
        Profession::Engineer => 3,
        Profession::Ranger => 4,
        Profession::Thief => 5,
        Profession::Elementalist => 6,
        Profession::Mesmer => 7,
        Profession::Necromancer => 8,
        Profession::Revenant => 9,
        Profession::Unknown => 0,
    }
}

/// The wire elite-specialization ID for an elite specialization.
fn elite_id(e: EliteSpec) -> (r: u32)
    ensures
        r == spec_elite_id(e),
{
    match e {
        EliteSpec::Dragonhunter => 27,
        EliteSpec::Berserker => 18,
        EliteSpec::Scrapper => 43,
        EliteSpec::Druid => 5,
        EliteSpec::Daredevil => 7,
        EliteSpec::Tempest => 48,
        EliteSpec::Chronomancer => 40,
        EliteSpec::Reaper => 34,
        EliteSpec::Herald => 52,
        EliteSpec::Firebrand => 62,
        EliteSpec::Spellbreaker => 61,
        EliteSpec::Holosmith => 57,
        EliteSpec::Soulbeast => 55,
        EliteSpec::Deadeye => 58,
        EliteSpec::Weaver => 56,
        EliteSpec::Mirage => 59,
        EliteSpec::Scourge => 60,
        EliteSpec::Renegade => 63,
        EliteSpec::Willbender => 65,
        EliteSpec::Bladesworn => 68,
        EliteSpec::Untamed => 72,
        EliteSpec::Specter => 71,
        EliteSpec::Catalyst => 67,
        EliteSpec::Virtuoso => 66,
        EliteSpec::Harbinger => 64,
        EliteSpec::Vindicator => 69,
        EliteSpec::Mechanist => 70,
        EliteSpec::Unknown => 0,
    }
}

/// Append every byte of `s` to `out`.
fn push_bytes(out: &mut Vec<u8>, s: &[u8])
    ensures
        final(out)@ == old(out)@ + s@,
{
    let len = s.len();
    let mut i: usize = 0;
    while i < len
        invariant
            len == s@.len(),
            i <= len,
            out@ == old(out)@ + s@.subrange(0, i as int),
        decreases len - i,
    {
        let ghost prev = out@;
        out.push(s[i]);
        proof {
            assert(prev.push(s@[i as int]) =~= old(out)@ + s@.subrange(0, i as int + 1));
        }
        i = i + 1;
    }
    proof {
        assert(s@.subrange(0, len as int) =~= s@);
    }
}

/// Append `n` zero bytes to `out`.
fn push_zeros(out: &mut Vec<u8>, n: usize)
    ensures
        final(out)@ == old(out)@ + zeros(n as nat),
{
    let mut i: usize = 0;
    while i < n
        invariant
            i <= n,
            out@ == old(out)@ + zeros(i as nat),
        decreases n - i,
    {
        let ghost prev = out@;
        out.push(0u8);
        proof {
            assert(prev.push(0u8) =~= old(out)@ + zeros(i as nat + 1));
        }
        i = i + 1;
    }
}

/// Whether no byte of `s` is a null.
fn is_nul_free(s: &[u8]) -> (b: bool)
    ensures
        b == nul_free(s@),
{
    let len = s.len();
    let mut i: usize = 0;
    while i < len
        invariant
            len == s@.len(),
            i <= len,
            forall|j: int| 0 <= j < i ==> s@[j] != 0,
        decreases len - i,
    {
        if s[i] == 0 {
            return false;
        }
        i = i + 1;
    }
    true
}

/// Append the 96 bytes of one player-agent record to `out`.
fn push_agent(out: &mut Vec<u8>, a: &Agent)
    requires
        agent_encodable(a@),
    ensures
        final(out)@ == old(out)@ + spec_encode_agent(a@),
{
    let ghost rec_base = out@;
    push_bytes(out, vstd::bytes::u64_to_le_bytes(a.addr).as_slice());
    push_bytes(out, vstd::bytes::u32_to_le_bytes(prof_id(a.prof)).as_slice());
    push_bytes(out, vstd::bytes::u32_to_le_bytes(elite_id(a.elite_spec)).as_slice());
    push_zeros(out, 12);
    let c = a.character_name.as_str().as_bytes();
    let ac = a.account_name.as_str().as_bytes();
    let sub = a.subgroup.as_str().as_bytes();
    push_bytes(out, c);
    out.push(0u8);
    out.push(0x3a);
    push_bytes(out, ac);
    out.push(0u8);
    push_bytes(out, sub);
    push_zeros(out, 64 - (c.len() + ac.len() + sub.len() + 3));
    push_zeros(out, 4);
    proof {
        assert(out@ =~= rec_base + spec_encode_agent(a@));
    }
}

/// Append the 64 bytes of one combat-event record to `out`.
fn push_event(out: &mut Vec<u8>, ev: CbtEvent)
    ensures
        final(out)@ == old(out)@ + spec_encode_event(ev),
{
    let ghost rec_base = out@;
    push_bytes(out, vstd::bytes::u64_to_le_bytes(ev.time).as_slice());
    push_bytes(out, vstd::bytes::u64_to_le_bytes(ev.src_agent).as_slice());
    push_bytes(out, vstd::bytes::u64_to_le_bytes(ev.dst_agent).as_slice());
    let value_u32 = #[verifier::truncate] (ev.value as u32);
    push_bytes(out, vstd::bytes::u32_to_le_bytes(value_u32).as_slice());
    let buff_dmg_u32 = #[verifier::truncate] (ev.buff_dmg as u32);
    push_bytes(out, vstd::bytes::u32_to_le_bytes(buff_dmg_u32).as_slice());
    push_bytes(out, vstd::bytes::u32_to_le_bytes(ev.overstack_value).as_slice());
    push_bytes(out, vstd::bytes::u32_to_le_bytes(ev.skillid).as_slice());
    push_bytes(out, vstd::bytes::u16_to_le_bytes(ev.src_instid).as_slice());
    push_bytes(out, vstd::bytes::u16_to_le_bytes(ev.dst_instid).as_slice());
    push_bytes(out, vstd::bytes::u16_to_le_bytes(ev.src_master_instid).as_slice());
    push_bytes(out, vstd::bytes::u16_to_le_bytes(ev.dst_master_instid).as_slice());
    out.push(ev.iff);
    out.push(ev.buff);
    out.push(ev.result);
    out.push(ev.is_activation);
    out.push(ev.is_buffremove);
    out.push(ev.is_ninety);
    out.push(ev.is_fifty);
    out.push(ev.is_moving);
    out.push(ev.is_statechange);
    out.push(ev.is_flanking);
    out.push(ev.is_shields);
    out.push(ev.is_offcycle);
    out.push(ev.pad61);
    out.push(ev.pad62);
    out.push(ev.pad63);
    out.push(ev.pad64);
    proof {
        assert(out@ =~= rec_base + spec_encode_event(ev));
    }
}

/// Encode an encounter as an EVTC byte stream, or `None` if the encoder
/// cannot represent it: a version text that is not exactly 8 UTF-8 bytes, a
/// table too large for its count prefix, an agent name field with a null
/// byte or too long for the name buffer, or a skill name buffer that is not
/// exactly 64 bytes.
pub fn encode_encounter(e: &Encounter) -> (res: Option<Vec<u8>>)
    ensures
        res is Some <==> encounter_representable(e@),
        (res matches Some(v) ==> v@ == spec_encode(e@)),
{
    let na = e.agents.len();
    let ns = e.skills.len();
    if e.header.version.as_str().as_bytes().len() != 8 {
        return None;
    }
    if na > (u32::MAX as usize) {
        return None;
    }
    if ns > (u32::MAX as usize) {
        return None;
    }
    let mut i: usize = 0;
    while i < na
        invariant
            na == e.agents@.len(),
            i <= na,
            forall|j: int|
                0 <= j < i ==> agent_encodable(#[trigger] agent_views(e.agents@)[j]),
        decreases na - i,
    {
        let a = &e.agents[i];
        let c = a.character_name.as_str().as_bytes();
        let ac = a.account_name.as_str().as_bytes();
        let sub = a.subgroup.as_str().as_bytes();
        if !is_nul_free(c) || !is_nul_free(ac) || !is_nul_free(sub) {
            proof {
                assert(!agent_encodable(e@.agents[i as int]));
            }
            return None;
        }
        if c.len() > 64 || ac.len() > 64 || sub.len() > 64 {
            proof {
                assert(!agent_encodable(e@.agents[i as int]));
            }
            return None;
        }
        if c.len() + ac.len() + sub.len() + 3 > 64 {
            proof {
                assert(!agent_encodable(e@.agents[i as int]));
            }
            return None;
        }
        i = i + 1;
    }
    let mut i: usize = 0;
    while i < ns
        invariant
            ns == e.skills@.len(),
            i <= ns,
            forall|j: int| 0 <= j < i ==> (#[trigger] skill_views(e.skills@)[j]).name.len() == 64,
        decreases ns - i,
    {
        if e.skills[i].name.len() != 64 {
            proof {
                assert(e@.skills[i as int].name.len() != 64);
            }
            return None;
        }
        i = i + 1;
    }
    proof {
        assert(encounter_representable(e@));
    }
    let mut out: Vec<u8> = Vec::new();
    out.push(0x45);
    out.push(0x56);
    out.push(0x54);
    out.push(0x43);
    push_bytes(&mut out, e.header.version.as_str().as_bytes());
    out.push(e.header.revision);
    push_bytes(&mut out, vstd::bytes::u16_to_le_bytes(e.header.boss_id).as_slice());
    out.push(0u8);
    proof {
        assert(out@ =~= spec_encode_header(e@.header));
    }
    push_bytes(&mut out, vstd::bytes::u32_to_le_bytes(na as u32).as_slice());
    let ghost agents_base = out@;
    let mut i: usize = 0;
    while i < na
        invariant
            na == e.agents@.len(),
            i <= na,
            encounter_representable(e@),
            agents_base == spec_encode_header(e@.header) + spec_u32_to_le_bytes(
                e@.agents.len() as u32,
            ),
            out@ == agents_base + spec_encode_agents(agent_views(e.agents@).take(i as int)),
        decreases na - i,
    {
        proof {
            assert(agent_views(e.agents@)[i as int] == e.agents@[i as int]@);
            assert(agent_encodable(e@.agents[i as int]));
        }
        push_agent(&mut out, &e.agents[i]);
        proof {
            let views = agent_views(e.agents@);
            assert(views.take(i as int + 1).drop_last() =~= views.take(i as int));
            assert(views.take(i as int + 1).last() == views[i as int]);
            assert(out@ =~= agents_base + spec_encode_agents(views.take(i as int + 1)));
        }
        i = i + 1;
    }
    proof {
        assert(agent_views(e.agents@).take(na as int) =~= agent_views(e.agents@));
    }
    push_bytes(&mut out, vstd::bytes::u32_to_le_bytes(ns as u32).as_slice());
    let ghost skills_base = out@;
    let mut i: usize = 0;
    while i < ns
        invariant
            ns == e.skills@.len(),
            i <= ns,
            encounter_representable(e@),
            out@ == skills_base + spec_encode_skills(skill_views(e.skills@).take(i as int)),
        decreases ns - i,
    {
        let ghost rec_base = out@;
        let k = &e.skills[i];
        proof {
            assert(skill_views(e.skills@)[i as int] == e.skills@[i as int]@);
        }
        let id_u32 = #[verifier::truncate] (k.id as u32);
        push_bytes(&mut out, vstd::bytes::u32_to_le_bytes(id_u32).as_slice());
        push_bytes(&mut out, k.name.as_slice());
        proof {
            assert(out@ =~= rec_base + spec_encode_skill(e.skills@[i as int]@));
            let views = skill_views(e.skills@);
            assert(views.take(i as int + 1).drop_last() =~= views.take(i as int));
            assert(views.take(i as int + 1).last() == views[i as int]);
            assert(out@ =~= skills_base + spec_encode_skills(views.take(i as int + 1)));
        }
        i = i + 1;
    }
    proof {
        assert(skill_views(e.skills@).take(ns as int) =~= skill_views(e.skills@));
    }
    let ghost events_base = out@;
    let ne = e.combat_log.len();
    let mut i: usize = 0;
    while i < ne
        invariant
            ne == e.combat_log@.len(),
            i <= ne,
            out@ == events_base + spec_encode_events(e.combat_log@.take(i as int)),
        decreases ne - i,
    {
        push_event(&mut out, e.combat_log[i]);
        proof {
            let evs = e.combat_log@;
            assert(evs.take(i as int + 1).drop_last() =~= evs.take(i as int));
            assert(evs.take(i as int + 1).last() == evs[i as int]);
            assert(out@ =~= events_base + spec_encode_events(evs.take(i as int + 1)));
        }
        i = i + 1;
    }
    proof {
        assert(e.combat_log@.take(ne as int) =~= e.combat_log@);
        assert(out@ =~= spec_encode(e@));
    }
    Some(out)
}

} // verus!
