//! The EVTC wire format: record layouts, decoding, and the derived
//! point-of-view agent.
//!
//! A stream is decoded in a fixed order: 16-byte header (fail fast on a bad
//! magic), little-endian `u32` agent count, that many 96-byte agent records
//! (non-player records are dropped), little-endian `u32` skill count, that
//! many 68-byte skill records, and all remaining bytes as 64-byte combat
//! events.  The whole pipeline is pinned down by [`spec_decode`]; decoding is
//! atomic, so any failure yields an error and no partial result.

use vstd::prelude::*;
use vstd::bytes::{
    spec_u16_from_le_bytes,
    spec_u32_from_le_bytes,
    spec_u64_from_le_bytes,
    u16_from_le_bytes,
    u32_from_le_bytes,
    u64_from_le_bytes,
};
use vstd::slice::{slice_subrange, slice_to_vec};
use vstd::utf8::{decode_utf8, valid_utf8};

use crate::bossdata::{
    spec_elite_spec_from_id,
    spec_profession_from_id,
    EliteSpec,
    Profession,
};
use crate::names::{extract_names, spec_extract_names, string_from_utf8};
use crate::reader::Reader;

verus! {

/// Why a decode failed.  Every failure is fatal: no partial result is
/// returned.
#[derive(Debug, Clone, Copy, PartialEq, Eq, Structural)]
pub enum DecodeError {
    /// The stream does not start with the `EVTC` magic bytes.
    BadMagic,
    /// The stream ended before an expected fixed-size region was fully read.
    TruncatedInput,
    /// The event tail length is not a multiple of the event record width.
    MalformedEventLog,
    /// An agent name segment is not valid UTF-8.
    InvalidText,
}

/// Width of the header record: magic, version text, revision, category ID,
/// one reserved byte.
pub const HEADER_LEN: usize = 16;

/// Width of one agent record on the wire, trailing alignment padding
/// included.
pub const AGENT_RECORD_LEN: usize = 96;

/// Width of one skill record on the wire.
pub const SKILL_RECORD_LEN: usize = 68;

/// Width of one combat-event record on the wire.
pub const EVENT_RECORD_LEN: usize = 64;

/// The agent-record value marking a non-player agent (NPC or gadget).
pub const NON_PLAYER_SENTINEL: u32 = 0xFFFF_FFFF;

/// The four magic bytes every EVTC stream starts with: `E`, `V`, `T`, `C`.
pub open spec fn spec_magic() -> Seq<u8> {
    seq![0x45u8, 0x56u8, 0x54u8, 0x43u8]
}

/// The decoded file header.
#[derive(Debug)]
pub struct Header {
    /// The build version text (8 raw bytes, lossily decoded).
    pub version: String,
    /// The format revision.
    pub revision: u8,
    /// The numeric category (boss) ID; its meaning is resolved externally.
    pub boss_id: u16,
}

/// The mathematical content of a [`Header`].
#[verifier::ext_equal]
pub struct HeaderView {
    pub version: Seq<char>,
    pub revision: u8,
    pub boss_id: u16,
}

impl View for Header {
    type V = HeaderView;

    open spec fn view(&self) -> HeaderView {
        HeaderView { version: self.version@, revision: self.revision, boss_id: self.boss_id }
    }
}

/// One raw agent record, exactly as laid out on the wire.
#[derive(Debug)]
pub struct EvtcAgent {
    pub addr: u64,
    pub prof: u32,
    pub is_elite: u32,
    pub toughness: u16,
    pub concentration: u16,
    pub healing: u16,
    pub hitbox_width: u16,
    pub condition: u16,
    pub hitbox_height: u16,
    /// The packed 64-byte name buffer.
    pub name: Vec<u8>,
}

/// The mathematical content of an [`EvtcAgent`].
#[verifier::ext_equal]
pub struct EvtcAgentView {
    pub addr: u64,
    pub prof: u32,
    pub is_elite: u32,
    pub toughness: u16,
    pub concentration: u16,
    pub healing: u16,
    pub hitbox_width: u16,
    pub condition: u16,
    pub hitbox_height: u16,
    pub name: Seq<u8>,
}

impl View for EvtcAgent {
    type V = EvtcAgentView;

    open spec fn view(&self) -> EvtcAgentView {
        EvtcAgentView {
            addr: self.addr,
            prof: self.prof,
            is_elite: self.is_elite,
            toughness: self.toughness,
            concentration: self.concentration,
            healing: self.healing,
            hitbox_width: self.hitbox_width,
            condition: self.condition,
            hitbox_height: self.hitbox_height,
            name: self.name@,
        }
    }
}

/// A decoded player agent.  Non-player records never become an `Agent`.
#[derive(Debug)]
pub struct Agent {
    pub addr: u64,
    pub prof: Profession,
    pub elite_spec: EliteSpec,
    pub character_name: String,
    pub account_name: String,
    pub subgroup: String,
}

/// The mathematical content of an [`Agent`].
#[verifier::ext_equal]
pub struct AgentView {
    pub addr: u64,
    pub prof: Profession,
    pub elite_spec: EliteSpec,
    pub character_name: Seq<char>,
    pub account_name: Seq<char>,
    pub subgroup: Seq<char>,
}

impl View for Agent {
    type V = AgentView;

    open spec fn view(&self) -> AgentView {
        AgentView {
            addr: self.addr,
            prof: self.prof,
            elite_spec: self.elite_spec,
            character_name: self.character_name@,
            account_name: self.account_name@,
            subgroup: self.subgroup@,
        }
    }
}

impl Clone for Agent {
    fn clone(&self) -> (res: Self)
        ensures
            res@ == self@,
    {
        Agent {
            addr: self.addr,
            prof: self.prof,
            elite_spec: self.elite_spec,
            character_name: self.character_name.clone(),
            account_name: self.account_name.clone(),
            subgroup: self.subgroup.clone(),
        }
    }
}

/// One skill-table record.  The name is kept as the raw 64-byte buffer; it
/// is not string-decoded at this layer.
#[derive(Debug)]
pub struct EvtcSkill {
    pub id: i32,
    /// The packed 64-byte name buffer, kept raw.
    pub name: Vec<u8>,
}

/// The mathematical content of an [`EvtcSkill`].
#[verifier::ext_equal]
pub struct SkillView {
    pub id: i32,
    pub name: Seq<u8>,
}

impl View for EvtcSkill {
    type V = SkillView;

    open spec fn view(&self) -> SkillView {
        SkillView { id: self.id, name: self.name@ }
    }
}

/// The views of a sequence of agents.
pub open spec fn agent_views(s: Seq<Agent>) -> Seq<AgentView> {
    s.map_values(|a: Agent| a@)
}

/// The views of a sequence of skills.
pub open spec fn skill_views(s: Seq<EvtcSkill>) -> Seq<SkillView> {
    s.map_values(|k: EvtcSkill| k@)
}

/// Represents a combat event.  All fields are raw numeric wire values; the
/// core exposes them without interpreting event payloads.
#[derive(Debug, Clone, Copy, PartialEq, Eq, Structural)]
pub struct CbtEvent {
    /// Time of the event.
    pub time: u64,
    /// Source agent address.
    pub src_agent: u64,
    /// Destination agent address.
    pub dst_agent: u64,
    /// Event-specific value.
    pub value: i32,
    /// Buff damage, if applicable.
    pub buff_dmg: i32,
    /// Overstack value for buffs.
    pub overstack_value: u32,
    /// Skill ID related to the event.
    pub skillid: u32,
    /// Source agent's instance ID.
    pub src_instid: u16,
    /// Destination agent's instance ID.
    pub dst_instid: u16,
    /// Source agent's master instance ID (for pets and the like).
    pub src_master_instid: u16,
    /// Destination agent's master instance ID.
    pub dst_master_instid: u16,
    /// Friend-or-foe indicator.
    pub iff: u8,
    /// Whether this event is related to a buff.
    pub buff: u8,
    /// The result of the event.
    pub result: u8,
    /// Whether this event represents a skill activation.
    pub is_activation: u8,
    /// Whether this event represents the removal of a buff.
    pub is_buffremove: u8,
    /// Whether the source agent was at 90% or more health.
    pub is_ninety: u8,
    /// Whether the source agent was at 50% or less health.
    pub is_fifty: u8,
    /// Whether the source agent was moving.
    pub is_moving: u8,
    /// The state-change code of the event; compare against
    /// [`CbtStateChange::code`].
    pub is_statechange: u8,
    /// Whether the source agent was flanking the target.
    pub is_flanking: u8,
    /// Whether shields were involved.
    pub is_shields: u8,
    /// Whether the event occurred off the main skill cycle.
    pub is_offcycle: u8,
    /// Reserved byte.
    pub pad61: u8,
    /// Reserved byte.
    pub pad62: u8,
    /// Reserved byte.
    pub pad63: u8,
    /// Reserved byte.
    pub pad64: u8,
}

/// The state-change kinds a combat event can carry in `is_statechange`.
/// The wire codes are given by [`CbtStateChange::code`].
#[derive(Debug, Clone, Copy, PartialEq, Eq, Structural)]
pub enum CbtStateChange {
    /// Not used - not this kind of event.
    NoChange,
    /// Agent entered combat.
    EnterCombat,
    /// Agent left combat.
    ExitCombat,
    /// Agent is alive at time of event.
    ChangeUp,
    /// Agent is dead at time of event.
    ChangeDead,
    /// Agent is down at time of event.
    ChangeDown,
    /// Agent entered tracking.
    Spawn,
    /// Agent left tracking.
    Despawn,
    /// Agent health percentage changed.
    HealthPctUpdate,
    /// Squad combat start, first player enters combat.
    SqCombatStart,
    /// Squad combat stop, last player left combat.
    LogEnd,
    /// Agent weapon set changed.
    WeapSwap,
    /// Agent maximum health changed.
    MaxHealthUpdate,
    /// "Recording" player.
    PointOfView,
    /// Text language ID.
    Language,
    /// Game build.
    GwBuild,
    /// Server shard ID.
    ShardId,
    /// Wiggly box reward.
    Reward,
    /// Buff application for buffs already existing at time of event.
    BuffInitial,
    /// Agent position changed.
    Position,
    /// Agent velocity changed.
    Velocity,
    /// Agent facing direction changed.
    Facing,
    /// Agent team ID changed.
    TeamChange,
    /// Attack target to gadget association.
    AttackTarget,
    /// Agent targetable state.
    Targetable,
    /// Map ID.
    MapId,
    /// Internal use.
    ReplInfo,
    /// Buff instance is now active.
    StackActive,
    /// Buff instance duration changed.
    StackReset,
    /// Agent is a member of guild.
    Guild,
    /// Buff information.
    BuffInfo,
    /// Buff formula.
    BuffFormula,
    /// Skill information.
    SkillInfo,
    /// Skill timing.
    SkillTiming,
    /// Agent breakbar state changed.
    BreakbarState,
    /// Agent breakbar percentage changed.
    BreakbarPercent,
    /// One event per message, used for integrity checks.
    Integrity,
    /// One event per marker on an agent.
    Marker,
    /// Agent barrier percentage changed.
    BarrierPctUpdate,
    /// Stats reset.
    StatReset,
    /// For extension use.
    Extension,
    /// Event deemed unsafe for realtime.
    ApiDelayed,
    /// Map instance start.
    InstanceStart,
    /// Tick health.
    RateHealth,
    /// Retired event.
    Last90BeforeDown,
    /// Retired event.
    Effect,
    /// Content ID to GUID association.
    IdToGuid,
    /// Log boss agent changed.
    LogNpcUpdate,
    /// Internal use.
    IdleEvent,
    /// For extension use.
    ExtensionCombat,
    /// Fractal scale for fractals.
    FractalScale,
    /// Play graphical effect.
    Effect2,
    /// Ruleset for self.
    Ruleset,
    /// Squad ground markers.
    SquadMarker,
    /// Arc build info.
    ArcBuild,
    /// Glider status change.
    Glider,
    /// Disable stopped early.
    StunBreak,
    /// Unknown or unsupported type newer than this list.
    Unknown,
}

/// The wire code of a state-change kind.
pub open spec fn spec_statechange_code(c: CbtStateChange) -> u8 {
    match c {
        CbtStateChange::NoChange => 0,
        CbtStateChange::EnterCombat => 1,
        CbtStateChange::ExitCombat => 2,
        CbtStateChange::ChangeUp => 3,
        CbtStateChange::ChangeDead => 4,
        CbtStateChange::ChangeDown => 5,
        CbtStateChange::Spawn => 6,
        CbtStateChange::Despawn => 7,
        CbtStateChange::HealthPctUpdate => 8,
        CbtStateChange::SqCombatStart => 9,
        CbtStateChange::LogEnd => 10,
        CbtStateChange::WeapSwap => 11,
        CbtStateChange::MaxHealthUpdate => 12,
        CbtStateChange::PointOfView => 13,
        CbtStateChange::Language => 14,
        CbtStateChange::GwBuild => 15,
        CbtStateChange::ShardId => 16,
        CbtStateChange::Reward => 17,
        CbtStateChange::BuffInitial => 18,
        CbtStateChange::Position => 19,
        CbtStateChange::Velocity => 20,
        CbtStateChange::Facing => 21,
        CbtStateChange::TeamChange => 22,
        CbtStateChange::AttackTarget => 23,
        CbtStateChange::Targetable => 24,
        CbtStateChange::MapId => 25,
        CbtStateChange::ReplInfo => 26,
        CbtStateChange::StackActive => 27,
        CbtStateChange::StackReset => 28,
        CbtStateChange::Guild => 29,
        CbtStateChange::BuffInfo => 30,
        CbtStateChange::BuffFormula => 31,
        CbtStateChange::SkillInfo => 32,
        CbtStateChange::SkillTiming => 33,
        CbtStateChange::BreakbarState => 34,
        CbtStateChange::BreakbarPercent => 35,
        CbtStateChange::Integrity => 36,
        CbtStateChange::Marker => 37,
        CbtStateChange::BarrierPctUpdate => 38,
        CbtStateChange::StatReset => 39,
        CbtStateChange::Extension => 40,
        CbtStateChange::ApiDelayed => 41,
        CbtStateChange::InstanceStart => 42,
        CbtStateChange::RateHealth => 43,
        CbtStateChange::Last90BeforeDown => 44,
        CbtStateChange::Effect => 45,
        CbtStateChange::IdToGuid => 46,
        CbtStateChange::LogNpcUpdate => 47,
        CbtStateChange::IdleEvent => 48,
        CbtStateChange::ExtensionCombat => 49,
        CbtStateChange::FractalScale => 50,
        CbtStateChange::Effect2 => 51,
        CbtStateChange::Ruleset => 52,
        CbtStateChange::SquadMarker => 53,
        CbtStateChange::ArcBuild => 54,
        CbtStateChange::Glider => 55,
        CbtStateChange::StunBreak => 56,
        CbtStateChange::Unknown => 57,
    }
}

impl CbtStateChange {
    /// The wire code of this state-change kind.
    pub fn code(self) -> (r: u8)
        ensures
            r == spec_statechange_code(self),
    {
        match self {
            CbtStateChange::NoChange => 0,
            CbtStateChange::EnterCombat => 1,
            CbtStateChange::ExitCombat => 2,
            CbtStateChange::ChangeUp => 3,
            CbtStateChange::ChangeDead => 4,
            CbtStateChange::ChangeDown => 5,
            CbtStateChange::Spawn => 6,
            CbtStateChange::Despawn => 7,
            CbtStateChange::HealthPctUpdate => 8,
            CbtStateChange::SqCombatStart => 9,
            CbtStateChange::LogEnd => 10,
            CbtStateChange::WeapSwap => 11,
            CbtStateChange::MaxHealthUpdate => 12,
            CbtStateChange::PointOfView => 13,
            CbtStateChange::Language => 14,
            CbtStateChange::GwBuild => 15,
            CbtStateChange::ShardId => 16,
            CbtStateChange::Reward => 17,
            CbtStateChange::BuffInitial => 18,
            CbtStateChange::Position => 19,
            CbtStateChange::Velocity => 20,
            CbtStateChange::Facing => 21,
            CbtStateChange::TeamChange => 22,
            CbtStateChange::AttackTarget => 23,
            CbtStateChange::Targetable => 24,
            CbtStateChange::MapId => 25,
            CbtStateChange::ReplInfo => 26,
            CbtStateChange::StackActive => 27,
            CbtStateChange::StackReset => 28,
            CbtStateChange::Guild => 29,
            CbtStateChange::BuffInfo => 30,
            CbtStateChange::BuffFormula => 31,
            CbtStateChange::SkillInfo => 32,
            CbtStateChange::SkillTiming => 33,
            CbtStateChange::BreakbarState => 34,
            CbtStateChange::BreakbarPercent => 35,
            CbtStateChange::Integrity => 36,
            CbtStateChange::Marker => 37,
            CbtStateChange::BarrierPctUpdate => 38,
            CbtStateChange::StatReset => 39,
            CbtStateChange::Extension => 40,
            CbtStateChange::ApiDelayed => 41,
            CbtStateChange::InstanceStart => 42,
            CbtStateChange::RateHealth => 43,
            CbtStateChange::Last90BeforeDown => 44,
            CbtStateChange::Effect => 45,
            CbtStateChange::IdToGuid => 46,
            CbtStateChange::LogNpcUpdate => 47,
            CbtStateChange::IdleEvent => 48,
            CbtStateChange::ExtensionCombat => 49,
            CbtStateChange::FractalScale => 50,
            CbtStateChange::Effect2 => 51,
            CbtStateChange::Ruleset => 52,
            CbtStateChange::SquadMarker => 53,
            CbtStateChange::ArcBuild => 54,
            CbtStateChange::Glider => 55,
            CbtStateChange::StunBreak => 56,
            CbtStateChange::Unknown => 57,
        }
    }
}

/// A fully decoded encounter.  It exclusively owns its collections; `pov`,
/// when present, is a value copy of one element of `agents`.
#[derive(Debug)]
pub struct Encounter {
    pub header: Header,
    pub agents: Vec<Agent>,
    pub skills: Vec<EvtcSkill>,
    pub combat_log: Vec<CbtEvent>,
    pub pov: Option<Agent>,
}

/// The mathematical content of an [`Encounter`].
#[verifier::ext_equal]
pub struct EncounterView {
    pub header: HeaderView,
    pub agents: Seq<AgentView>,
    pub skills: Seq<SkillView>,
    pub combat_log: Seq<CbtEvent>,
    pub pov: Option<AgentView>,
}

impl View for Encounter {
    type V = EncounterView;

    open spec fn view(&self) -> EncounterView {
        EncounterView {
            header: self.header@,
            agents: agent_views(self.agents@),
            skills: skill_views(self.skills@),
            combat_log: self.combat_log@,
            pov: (match self.pov {
                Some(a) => Some(a@),
                None => None,
            }),
        }
    }
}

/// The eight version bytes decoded as UTF-8, or empty if they are not valid
/// UTF-8.
pub open spec fn spec_lossy_utf8(bytes: Seq<u8>) -> Seq<char> {
    if valid_utf8(bytes) {
        decode_utf8(bytes)
    } else {
        Seq::empty()
    }
}

/// What a 16-byte header record holds: 4 magic bytes, 8 version bytes, the
/// revision byte, a little-endian `u16` category ID, one reserved byte.
pub open spec fn spec_header_record(r: Seq<u8>) -> HeaderView
    recommends
        r.len() == HEADER_LEN,
{
    HeaderView {
        version: spec_lossy_utf8(r.subrange(4, 12)),
        revision: r[12],
        boss_id: spec_u16_from_le_bytes(r.subrange(13, 15)),
    }
}

/// What a 96-byte agent record holds, field by field at its wire offsets.
/// The final four bytes are alignment padding and carry no data.
pub open spec fn spec_raw_agent(r: Seq<u8>) -> EvtcAgentView
    recommends
        r.len() == AGENT_RECORD_LEN,
{
    EvtcAgentView {
        addr: spec_u64_from_le_bytes(r.subrange(0, 8)),
        prof: spec_u32_from_le_bytes(r.subrange(8, 12)),
        is_elite: spec_u32_from_le_bytes(r.subrange(12, 16)),
        toughness: spec_u16_from_le_bytes(r.subrange(16, 18)),
        concentration: spec_u16_from_le_bytes(r.subrange(18, 20)),
        healing: spec_u16_from_le_bytes(r.subrange(20, 22)),
        hitbox_width: spec_u16_from_le_bytes(r.subrange(22, 24)),
        condition: spec_u16_from_le_bytes(r.subrange(24, 26)),
        hitbox_height: spec_u16_from_le_bytes(r.subrange(26, 28)),
        name: r.subrange(28, 92),
    }
}

/// The player agent a raw record yields: `None` for a non-player record,
/// `InvalidText` if a name segment is not valid UTF-8.
pub open spec fn spec_agent_from_raw(raw: EvtcAgentView) -> Result<Option<AgentView>, DecodeError> {
    if raw.is_elite == NON_PLAYER_SENTINEL {
        Ok(None)
    } else {
        match spec_extract_names(raw.name) {
            Ok((c, a, s)) => Ok(
                Some(
                    AgentView {
                        addr: raw.addr,
                        prof: spec_profession_from_id(raw.prof),
                        elite_spec: spec_elite_spec_from_id(raw.is_elite),
                        character_name: c,
                        account_name: a,
                        subgroup: s,
                    },
                ),
            ),
            Err(e) => Err(e),
        }
    }
}

/// The player agent a 96-byte record on the wire yields.
pub open spec fn spec_decode_agent(r: Seq<u8>) -> Result<Option<AgentView>, DecodeError>
    recommends
        r.len() == AGENT_RECORD_LEN,
{
    spec_agent_from_raw(spec_raw_agent(r))
}

/// The player agents of an `n`-record agent table starting at `off`,
/// in table order; the first failing record's error otherwise.
pub open spec fn spec_decode_agents(s: Seq<u8>, off: int, n: nat) -> Result<
    Seq<AgentView>,
    DecodeError,
>
    decreases n,
{
    if n == 0 {
        Ok(Seq::empty())
    } else {
        match spec_decode_agents(s, off, (n - 1) as nat) {
            Err(e) => Err(e),
            Ok(pre) => match spec_decode_agent(
                s.subrange(
                    off + AGENT_RECORD_LEN * ((n - 1) as int),
                    off + AGENT_RECORD_LEN * (n as int),
                ),
            ) {
                Err(e) => Err(e),
                Ok(Some(a)) => Ok(pre.push(a)),
                Ok(None) => Ok(pre),
            },
        }
    }
}

/// What a 68-byte skill record holds: a little-endian `i32` skill ID and the
/// raw 64-byte name buffer.
pub open spec fn spec_skill(r: Seq<u8>) -> SkillView
    recommends
        r.len() == SKILL_RECORD_LEN,
{
    SkillView {
        id: spec_u32_from_le_bytes(r.subrange(0, 4)) as i32,
        name: r.subrange(4, 68),
    }
}

/// The skills of an `n`-record skill table starting at `off`.
pub open spec fn spec_skills(s: Seq<u8>, off: int, n: nat) -> Seq<SkillView> {
    Seq::new(
        n,
        |i: int|
            spec_skill(
                s.subrange(off + SKILL_RECORD_LEN * i, off + SKILL_RECORD_LEN * (i + 1)),
            ),
    )
}

/// What a 64-byte combat-event record holds, field by field at its packed
/// wire offsets.
pub open spec fn spec_event(r: Seq<u8>) -> CbtEvent
    recommends
        r.len() == EVENT_RECORD_LEN,
{
    CbtEvent {
        time: spec_u64_from_le_bytes(r.subrange(0, 8)),
        src_agent: spec_u64_from_le_bytes(r.subrange(8, 16)),
        dst_agent: spec_u64_from_le_bytes(r.subrange(16, 24)),
        value: spec_u32_from_le_bytes(r.subrange(24, 28)) as i32,
        buff_dmg: spec_u32_from_le_bytes(r.subrange(28, 32)) as i32,
        overstack_value: spec_u32_from_le_bytes(r.subrange(32, 36)),
        skillid: spec_u32_from_le_bytes(r.subrange(36, 40)),
        src_instid: spec_u16_from_le_bytes(r.subrange(40, 42)),
        dst_instid: spec_u16_from_le_bytes(r.subrange(42, 44)),
        src_master_instid: spec_u16_from_le_bytes(r.subrange(44, 46)),
        dst_master_instid: spec_u16_from_le_bytes(r.subrange(46, 48)),
        iff: r[48],
        buff: r[49],
        result: r[50],
        is_activation: r[51],
        is_buffremove: r[52],
        is_ninety: r[53],
        is_fifty: r[54],
        is_moving: r[55],
        is_statechange: r[56],
        is_flanking: r[57],
        is_shields: r[58],
        is_offcycle: r[59],
        pad61: r[60],
        pad62: r[61],
        pad63: r[62],
        pad64: r[63],
    }
}

/// The events of the byte tail `t`, or `MalformedEventLog` if its length is
/// not a multiple of the event record width.
pub open spec fn spec_events(t: Seq<u8>) -> Result<Seq<CbtEvent>, DecodeError> {
    if (t.len() as int) % (EVENT_RECORD_LEN as int) != 0 {
        Err(DecodeError::MalformedEventLog)
    } else {
        Ok(
            Seq::new(
                ((t.len() as int) / (EVENT_RECORD_LEN as int)) as nat,
                |i: int|
                    spec_event(
                        t.subrange(EVENT_RECORD_LEN * i, EVENT_RECORD_LEN * (i + 1)),
                    ),
            ),
        )
    }
}

/// The first agent of `agents` whose address is `addr`, if any.
pub open spec fn spec_find_agent(agents: Seq<AgentView>, addr: u64) -> Option<AgentView>
    decreases agents.len(),
{
    if agents.len() == 0 {
        None
    } else if agents[0].addr == addr {
        Some(agents[0])
    } else {
        spec_find_agent(agents.drop_first(), addr)
    }
}

/// The point-of-view agent: the first event carrying the point-of-view
/// state-change code names it by its source-agent address; `None` if no such
/// event exists or the address matches no decoded agent.
pub open spec fn spec_find_pov(evts: Seq<CbtEvent>, agents: Seq<AgentView>) -> Option<AgentView>
    decreases evts.len(),
{
    if evts.len() == 0 {
        None
    } else if evts[0].is_statechange == spec_statechange_code(CbtStateChange::PointOfView) {
        spec_find_agent(agents, evts[0].src_agent)
    } else {
        spec_find_pov(evts.drop_first(), agents)
    }
}

/// The whole decode pipeline, stage by stage in wire order.  This is the
/// specification [`read_encounter`] is proved against, error cases included.
pub open spec fn spec_decode(s: Seq<u8>) -> Result<EncounterView, DecodeError> {
    if s.len() < HEADER_LEN {
        Err(DecodeError::TruncatedInput)
    } else if s.subrange(0, 4) != spec_magic() {
        Err(DecodeError::BadMagic)
    } else {
        let header = spec_header_record(s.subrange(0, HEADER_LEN as int));
        if s.len() < HEADER_LEN + 4 {
            Err(DecodeError::TruncatedInput)
        } else {
            let agent_count = spec_u32_from_le_bytes(
                s.subrange(HEADER_LEN as int, HEADER_LEN + 4),
            );
            let agents_end = HEADER_LEN + 4 + AGENT_RECORD_LEN * (agent_count as int);
            if s.len() < agents_end {
                Err(DecodeError::TruncatedInput)
            } else {
                match spec_decode_agents(s, HEADER_LEN + 4, agent_count as nat) {
                    Err(e) => Err(e),
                    Ok(agents) => {
                        if s.len() < agents_end + 4 {
                            Err(DecodeError::TruncatedInput)
                        } else {
                            let skill_count = spec_u32_from_le_bytes(
                                s.subrange(agents_end, agents_end + 4),
                            );
                            let skills_end = agents_end + 4 + SKILL_RECORD_LEN * (
                            skill_count as int);
                            if s.len() < skills_end {
                                Err(DecodeError::TruncatedInput)
                            } else {
                                let skills = spec_skills(s, agents_end + 4, skill_count as nat);
                                match spec_events(s.subrange(skills_end, s.len() as int)) {
                                    Err(e) => Err(e),
                                    Ok(evts) => Ok(
                                        EncounterView {
                                            header,
                                            agents,
                                            skills,
                                            combat_log: evts,
                                            pov: spec_find_pov(evts, agents),
                                        },
                                    ),
                                }
                            }
                        }
                    },
                }
            }
        }
    }
}


/// A little-endian `i32` read from four bytes: the two's-complement
/// reinterpretation of the unsigned little-endian value.
fn i32_from_le_bytes(s: &[u8]) -> (x: i32)
    requires
        s@.len() == 4,
    ensures
        x == spec_u32_from_le_bytes(s@) as i32,
{
    let u = u32_from_le_bytes(s);
    #[verifier::truncate] (u as i32)
}

/// Decode a 16-byte header record.  The magic bytes are checked by
/// [`read_header`]; this only extracts the fields.
fn decode_header_record(rec: &[u8]) -> (h: Header)
    requires
        rec@.len() == HEADER_LEN,
    ensures
        h@ == spec_header_record(rec@),
{
    let version = (match string_from_utf8(slice_to_vec(slice_subrange(rec, 4, 12))) {
        Some(s) => s,
        None => String::new(),
    });
    let revision = rec[12];
    let boss_id = u16_from_le_bytes(slice_subrange(rec, 13, 15));
    Header { version, revision, boss_id }
}

/// Read and validate the 16-byte header: fail with `TruncatedInput` if fewer
/// than 16 bytes remain, with `BadMagic` if the stream does not start with
/// the `EVTC` magic.
pub fn read_header(r: &mut Reader) -> (res: Result<Header, DecodeError>)
    requires
        old(r).wf(),
    ensures
        final(r).wf(),
        final(r).bytes() == old(r).bytes(),
        old(r).remaining() < HEADER_LEN ==> (res == Err::<Header, DecodeError>(
            DecodeError::TruncatedInput,
        ) && final(r).position() == old(r).position()),
        old(r).remaining() >= HEADER_LEN ==> {
            if old(r).bytes().subrange(old(r).position(), old(r).position() + 4)
                == spec_magic() {
                &&& (res matches Ok(h) && h@ == spec_header_record(
                    old(r).bytes().subrange(
                        old(r).position(),
                        old(r).position() + HEADER_LEN,
                    ),
                ))
                &&& final(r).position() == old(r).position() + HEADER_LEN
            } else {
                res == Err::<Header, DecodeError>(DecodeError::BadMagic)
            }
        },
{
    let ghost base = r.position();
    let rec = (match r.read_exact(HEADER_LEN) {
        Ok(v) => v,
        Err(e) => {
            return Err(e);
        },
    });
    proof {
        assert(rec@.subrange(0, 4) =~= old(r).bytes().subrange(base, base + 4));
    }
    if rec[0] == 0x45 && rec[1] == 0x56 && rec[2] == 0x54 && rec[3] == 0x43 {
        proof {
            assert(rec@.subrange(0, 4) =~= spec_magic());
        }
        Ok(decode_header_record(rec.as_slice()))
    } else {
        proof {
            if rec@.subrange(0, 4) == spec_magic() {
                assert(rec@[0] == spec_magic()[0]);
                assert(rec@[1] == spec_magic()[1]);
                assert(rec@[2] == spec_magic()[2]);
                assert(rec@[3] == spec_magic()[3]);
            }
        }
        Err(DecodeError::BadMagic)
    }
}

/// Decode one 96-byte agent record into its raw fields.
fn decode_agent_record(rec: &[u8]) -> (a: EvtcAgent)
    requires
        rec@.len() == AGENT_RECORD_LEN,
    ensures
        a@ == spec_raw_agent(rec@),
{
    EvtcAgent {
        addr: u64_from_le_bytes(slice_subrange(rec, 0, 8)),
        prof: u32_from_le_bytes(slice_subrange(rec, 8, 12)),
        is_elite: u32_from_le_bytes(slice_subrange(rec, 12, 16)),
        toughness: u16_from_le_bytes(slice_subrange(rec, 16, 18)),
        concentration: u16_from_le_bytes(slice_subrange(rec, 18, 20)),
        healing: u16_from_le_bytes(slice_subrange(rec, 20, 22)),
        hitbox_width: u16_from_le_bytes(slice_subrange(rec, 22, 24)),
        condition: u16_from_le_bytes(slice_subrange(rec, 24, 26)),
        hitbox_height: u16_from_le_bytes(slice_subrange(rec, 26, 28)),
        name: slice_to_vec(slice_subrange(rec, 28, 92)),
    }
}

impl Agent {
    /// The player agent a raw record yields: `Ok(None)` for a non-player
    /// record (sentinel elite-specialization value), `InvalidText` if a name
    /// segment is not valid UTF-8.
    pub fn from_raw(raw: &EvtcAgent) -> (res: Result<Option<Agent>, DecodeError>)
        ensures
            (match res {
                Ok(Some(a)) => spec_agent_from_raw(raw@) == Ok::<Option<AgentView>, DecodeError>(
                    Some(a@),
                ),
                Ok(None) => spec_agent_from_raw(raw@) == Ok::<Option<AgentView>, DecodeError>(None),
                Err(e) => spec_agent_from_raw(raw@) == Err::<Option<AgentView>, DecodeError>(e),
            }),
    {
        if raw.is_elite != NON_PLAYER_SENTINEL {
            match extract_names(raw.name.as_slice()) {
                Ok((character_name, account_name, subgroup)) => Ok(
                    Some(
                        Agent {
                            addr: raw.addr,
                            prof: Profession::from_evtc(raw.prof),
                            elite_spec: EliteSpec::from_evtc(raw.is_elite),
                            character_name,
                            account_name,
                            subgroup,
                        },
                    ),
                ),
                Err(e) => Err(e),
            }
        } else {
            Ok(None)
        }
    }
}

/// An error among the first `m` records is an error for any longer prefix.
proof fn lemma_decode_agents_error(s: Seq<u8>, off: int, m: nat, n: nat, e: DecodeError)
    requires
        m <= n,
        spec_decode_agents(s, off, m) == Err::<Seq<AgentView>, DecodeError>(e),
    ensures
        spec_decode_agents(s, off, n) == Err::<Seq<AgentView>, DecodeError>(e),
    decreases n,
{
    if n > m {
        lemma_decode_agents_error(s, off, m, (n - 1) as nat, e);
    }
}

/// Read the `count`-record agent table, keeping only player agents.
///
/// The table region is checked as a whole first: if fewer than
/// `count * AGENT_RECORD_LEN` bytes remain the result is `TruncatedInput`
/// and the position does not move.
pub fn read_agents(r: &mut Reader, count: u32) -> (res: Result<Vec<Agent>, DecodeError>)
    requires
        old(r).wf(),
    ensures
        final(r).wf(),
        final(r).bytes() == old(r).bytes(),
        old(r).remaining() < AGENT_RECORD_LEN * (count as int) ==> (res == Err::<
            Vec<Agent>,
            DecodeError,
        >(DecodeError::TruncatedInput) && final(r).position() == old(r).position()),
        old(r).remaining() >= AGENT_RECORD_LEN * (count as int) ==> (match spec_decode_agents(
            old(r).bytes(),
            old(r).position(),
            count as nat,
        ) {
            Ok(views) => {
                &&& (res matches Ok(v) && agent_views(v@) == views)
                &&& final(r).position() == old(r).position() + AGENT_RECORD_LEN * (count as int)
            },
            Err(e) => res == Err::<Vec<Agent>, DecodeError>(e),
        }),
{
    let rem = r.remaining_len();
    if (rem as u64) < (AGENT_RECORD_LEN as u64) * (count as u64) {
        return Err(DecodeError::TruncatedInput);
    }
    let ghost base = r.position();
    let mut agents: Vec<Agent> = Vec::new();
    proof {
        assert(agent_views(agents@) =~= Seq::<AgentView>::empty());
    }
    let mut i: u32 = 0;
    while i < count
        invariant
            r.wf(),
            r.bytes() == old(r).bytes(),
            i <= count,
            base == old(r).position(),
            r.position() == base + AGENT_RECORD_LEN * (i as int),
            base + AGENT_RECORD_LEN * (count as int) <= r.bytes().len(),
            spec_decode_agents(r.bytes(), base, i as nat) == Ok::<Seq<AgentView>, DecodeError>(
                agent_views(agents@),
            ),
        decreases count - i,
    {
        let rec = (match r.read_exact(AGENT_RECORD_LEN) {
            Ok(v) => v,
            Err(e) => {
                return Err(e);
            },
        });
        let raw = decode_agent_record(rec.as_slice());
        proof {
            assert(r.bytes().subrange(
                base + AGENT_RECORD_LEN * (i as int),
                base + AGENT_RECORD_LEN * ((i + 1) as int),
            ) == rec@);
        }
        let ghost pre = agent_views(agents@);
        match Agent::from_raw(&raw) {
            Ok(Some(a)) => {
                let ghost av = a@;
                agents.push(a);
                proof {
                    assert(agent_views(agents@) =~= pre.push(av));
                }
            },
            Ok(None) => {},
            Err(e) => {
                proof {
                    lemma_decode_agents_error(r.bytes(), base, (i + 1) as nat, count as nat, e);
                }
                return Err(e);
            },
        }
        i = i + 1;
    }
    Ok(agents)
}

/// Decode one 68-byte skill record.
fn decode_skill_record(rec: &[u8]) -> (k: EvtcSkill)
    requires
        rec@.len() == SKILL_RECORD_LEN,
    ensures
        k@ == spec_skill(rec@),
{
    EvtcSkill {
        id: i32_from_le_bytes(slice_subrange(rec, 0, 4)),
        name: slice_to_vec(slice_subrange(rec, 4, 68)),
    }
}

/// Read the `count`-record skill table.  Skills are kept as opaque fixed
/// records; their names are not string-decoded at this layer.
pub fn read_skills(r: &mut Reader, count: u32) -> (res: Result<Vec<EvtcSkill>, DecodeError>)
    requires
        old(r).wf(),
    ensures
        final(r).wf(),
        final(r).bytes() == old(r).bytes(),
        old(r).remaining() < SKILL_RECORD_LEN * (count as int) ==> (res == Err::<
            Vec<EvtcSkill>,
            DecodeError,
        >(DecodeError::TruncatedInput) && final(r).position() == old(r).position()),
        old(r).remaining() >= SKILL_RECORD_LEN * (count as int) ==> {
            &&& (res matches Ok(v) && skill_views(v@) == spec_skills(
                old(r).bytes(),
                old(r).position(),
                count as nat,
            ))
            &&& final(r).position() == old(r).position() + SKILL_RECORD_LEN * (count as int)
        },
{
    let rem = r.remaining_len();
    if (rem as u64) < (SKILL_RECORD_LEN as u64) * (count as u64) {
        return Err(DecodeError::TruncatedInput);
    }
    let ghost base = r.position();
    let mut skills: Vec<EvtcSkill> = Vec::new();
    let mut i: u32 = 0;
    while i < count
        invariant
            r.wf(),
            r.bytes() == old(r).bytes(),
            i <= count,
            base == old(r).position(),
            r.position() == base + SKILL_RECORD_LEN * (i as int),
            base + SKILL_RECORD_LEN * (count as int) <= r.bytes().len(),
            skill_views(skills@) =~= spec_skills(r.bytes(), base, i as nat),
        decreases count - i,
    {
        let rec = (match r.read_exact(SKILL_RECORD_LEN) {
            Ok(v) => v,
            Err(e) => {
                return Err(e);
            },
        });
        let k = decode_skill_record(rec.as_slice());
        let ghost kv = k@;
        let ghost prev = skill_views(skills@);
        skills.push(k);
        proof {
            assert(skill_views(skills@) =~= prev.push(kv));
            assert(skill_views(skills@) =~= spec_skills(r.bytes(), base, (i + 1) as nat));
        }
        i = i + 1;
    }
    proof {
        assert(skill_views(skills@) =~= spec_skills(r.bytes(), base, count as nat));
    }
    Ok(skills)
}

/// Decode one 64-byte combat-event record.
fn decode_event_record(rec: &[u8]) -> (ev: CbtEvent)
    requires
        rec@.len() == EVENT_RECORD_LEN,
    ensures
        ev == spec_event(rec@),
{
    CbtEvent {
        time: u64_from_le_bytes(slice_subrange(rec, 0, 8)),
        src_agent: u64_from_le_bytes(slice_subrange(rec, 8, 16)),
        dst_agent: u64_from_le_bytes(slice_subrange(rec, 16, 24)),
        value: i32_from_le_bytes(slice_subrange(rec, 24, 28)),
        buff_dmg: i32_from_le_bytes(slice_subrange(rec, 28, 32)),
        overstack_value: u32_from_le_bytes(slice_subrange(rec, 32, 36)),
        skillid: u32_from_le_bytes(slice_subrange(rec, 36, 40)),
        src_instid: u16_from_le_bytes(slice_subrange(rec, 40, 42)),
        dst_instid: u16_from_le_bytes(slice_subrange(rec, 42, 44)),
        src_master_instid: u16_from_le_bytes(slice_subrange(rec, 44, 46)),
        dst_master_instid: u16_from_le_bytes(slice_subrange(rec, 46, 48)),
        iff: rec[48],
        buff: rec[49],
        result: rec[50],
        is_activation: rec[51],
        is_buffremove: rec[52],
        is_ninety: rec[53],
        is_fifty: rec[54],
        is_moving: rec[55],
        is_statechange: rec[56],
        is_flanking: rec[57],
        is_shields: rec[58],
        is_offcycle: rec[59],
        pad61: rec[60],
        pad62: rec[61],
        pad63: rec[62],
        pad64: rec[63],
    }
}

/// Read the event tail: every remaining byte, as 64-byte combat events.
/// Fails with `MalformedEventLog` if the tail length is not a multiple of
/// the event record width.
pub fn read_log(r: &mut Reader) -> (res: Result<Vec<CbtEvent>, DecodeError>)
    requires
        old(r).wf(),
    ensures
        final(r).wf(),
        final(r).bytes() == old(r).bytes(),
        (match spec_events(
            old(r).bytes().subrange(old(r).position(), old(r).bytes().len() as int),
        ) {
            Ok(evs) => (res matches Ok(v) && v@ == evs) && final(r).position() == old(
                r,
            ).bytes().len(),
            Err(e) => res == Err::<Vec<CbtEvent>, DecodeError>(e),
        }),
{
    let tail = r.read_to_end();
    let tlen = tail.len();
    if tlen % EVENT_RECORD_LEN != 0 {
        return Err(DecodeError::MalformedEventLog);
    }
    let n = tlen / EVENT_RECORD_LEN;
    proof {
        vstd::arithmetic::div_mod::lemma_fundamental_div_mod(tlen as int, EVENT_RECORD_LEN as int);
    }
    let mut evts: Vec<CbtEvent> = Vec::new();
    let mut i: usize = 0;
    while i < n
        invariant
            n == (tail@.len() as int) / (EVENT_RECORD_LEN as int),
            (tail@.len() as int) % (EVENT_RECORD_LEN as int) == 0,
            tail@.len() == (EVENT_RECORD_LEN as int) * (n as int),
            tail@.len() <= usize::MAX,
            i <= n,
            evts@.len() == i as int,
            forall|j: int|
                0 <= j < i as int ==> evts@[j] == spec_event(
                    tail@.subrange(
                        (EVENT_RECORD_LEN as int) * j,
                        (EVENT_RECORD_LEN as int) * (j + 1),
                    ),
                ),
        decreases n - i,
    {
        proof {
            assert((i as int + 1) * 64 <= (n as int) * 64) by (nonlinear_arith)
                requires
                    i as int + 1 <= n as int,
            ;
            assert((i as int) * 64 <= (i as int + 1) * 64) by (nonlinear_arith)
                requires
                    0 <= i as int,
            ;
            assert((n as int) * 64 == 64 * (n as int)) by (nonlinear_arith);
            assert(EVENT_RECORD_LEN == 64);
            assert((i as int + 1) * (EVENT_RECORD_LEN as int) <= tail@.len());
        }
        let rec = slice_subrange(tail.as_slice(), i * EVENT_RECORD_LEN, (i + 1) * EVENT_RECORD_LEN);
        let ev = decode_event_record(rec);
        evts.push(ev);
        i = i + 1;
    }
    proof {
        let t = old(r).bytes().subrange(old(r).position(), old(r).bytes().len() as int);
        assert(spec_events(t) matches Ok(evs) && evts@ =~= evs);
    }
    Ok(evts)
}

/// Find the first agent of `agents` whose address is `addr`, returning a
/// copy of it.
fn find_agent(agents: &[Agent], addr: u64) -> (res: Option<Agent>)
    ensures
        (match res {
            Some(a) => spec_find_agent(agent_views(agents@), addr) == Some(a@),
            None => spec_find_agent(agent_views(agents@), addr) is None,
        }),
{
    let ghost full = agent_views(agents@);
    let n = agents.len();
    proof {
        assert(full.skip(0) =~= full);
    }
    let mut j: usize = 0;
    while j < n
        invariant
            n == agents@.len(),
            j <= n,
            full == agent_views(agents@),
            spec_find_agent(full, addr) == spec_find_agent(full.skip(j as int), addr),
        decreases n - j,
    {
        if agents[j].addr == addr {
            proof {
                assert(full.skip(j as int)[0] == full[j as int]);
            }
            return Some(agents[j].clone());
        }
        proof {
            assert(full.skip(j as int)[0] == full[j as int]);
            assert(full.skip(j as int).drop_first() =~= full.skip(j as int + 1));
        }
        j = j + 1;
    }
    proof {
        assert(full.skip(n as int) =~= Seq::<AgentView>::empty());
    }
    None
}

/// Scan the combat events in stored order for the first point-of-view
/// state-change event and resolve its source-agent address against the
/// decoded agent list.  Absence of such an event, or an address matching no
/// agent, is a normal outcome, not an error.
pub fn find_pov(evts: &[CbtEvent], agents: &[Agent]) -> (res: Option<Agent>)
    ensures
        (match res {
            Some(a) => spec_find_pov(evts@, agent_views(agents@)) == Some(a@),
            None => spec_find_pov(evts@, agent_views(agents@)) is None,
        }),
{
    let pov_code = CbtStateChange::PointOfView.code();
    let n = evts.len();
    proof {
        assert(evts@.skip(0) =~= evts@);
    }
    let mut i: usize = 0;
    while i < n
        invariant
            n == evts@.len(),
            i <= n,
            pov_code == spec_statechange_code(CbtStateChange::PointOfView),
            spec_find_pov(evts@, agent_views(agents@)) == spec_find_pov(
                evts@.skip(i as int),
                agent_views(agents@),
            ),
        decreases n - i,
    {
        proof {
            assert(evts@.skip(i as int)[0] == evts@[i as int]);
        }
        if evts[i].is_statechange == pov_code {
            return find_agent(agents, evts[i].src_agent);
        }
        proof {
            assert(evts@.skip(i as int).drop_first() =~= evts@.skip(i as int + 1));
        }
        i = i + 1;
    }
    proof {
        assert(evts@.skip(n as int) =~= Seq::<CbtEvent>::empty());
    }
    None
}

impl Encounter {
    /// Deletes the combat log and the skill table, releasing their backing
    /// storage; header, agents and point of view are unchanged.
    pub fn shrink(&mut self)
        ensures
            final(self).header == old(self).header,
            final(self).agents == old(self).agents,
            final(self).pov == old(self).pov,
            final(self).skills@ == Seq::<EvtcSkill>::empty(),
            final(self).combat_log@ == Seq::<CbtEvent>::empty(),
    {
        self.combat_log = Vec::new();
        self.skills = Vec::new();
    }
}

/// Decode a whole EVTC byte stream into an [`Encounter`].
///
/// The result is a function of the input bytes alone, exactly
/// [`spec_decode`]: independent calls on distinct inputs cannot affect one
/// another.  A header whose magic bytes are wrong always yields
/// [`DecodeError::BadMagic`], whatever the remaining content.
pub fn read_encounter(data: &[u8]) -> (res: Result<Encounter, DecodeError>)
    ensures
        (match res {
            Ok(enc) => spec_decode(data@) == Ok::<EncounterView, DecodeError>(enc@),
            Err(e) => spec_decode(data@) == Err::<EncounterView, DecodeError>(e),
        }),
        data@.len() >= HEADER_LEN && data@.subrange(0, 4) != spec_magic() ==> res == Err::<
            Encounter,
            DecodeError,
        >(DecodeError::BadMagic),
{
    let mut r = Reader::new(data);
    let header = (match read_header(&mut r) {
        Ok(h) => h,
        Err(e) => {
            proof {
                if data@.len() >= HEADER_LEN {
                    assert(data@.subrange(0, HEADER_LEN as int).subrange(0, 4) =~= data@.subrange(
                        0,
                        4,
                    ));
                }
            }
            return Err(e);
        },
    });
    proof {
        assert(data@.subrange(0, HEADER_LEN as int).subrange(0, 4) =~= data@.subrange(0, 4));
    }
    let agent_count = (match r.read_u32_le() {
        Ok(c) => c,
        Err(e) => {
            return Err(e);
        },
    });
    let agents = (match read_agents(&mut r, agent_count) {
        Ok(v) => v,
        Err(e) => {
            return Err(e);
        },
    });
    let skill_count = (match r.read_u32_le() {
        Ok(c) => c,
        Err(e) => {
            return Err(e);
        },
    });
    let skills = (match read_skills(&mut r, skill_count) {
        Ok(v) => v,
        Err(e) => {
            return Err(e);
        },
    });
    let combat_log = (match read_log(&mut r) {
        Ok(v) => v,
        Err(e) => {
            return Err(e);
        },
    });
    let pov = find_pov(combat_log.as_slice(), agents.as_slice());
    Ok(Encounter { header, agents, skills, combat_log, pov })
}


/// A stream of at least header length whose first four bytes are not the
/// magic always decodes to `BadMagic`, whatever the remaining content.
pub proof fn lemma_bad_magic(s: Seq<u8>)
    requires
        s.len() >= HEADER_LEN,
        s.subrange(0, 4) != spec_magic(),
    ensures
        spec_decode(s) == Err::<EncounterView, DecodeError>(DecodeError::BadMagic),
{
}

/// A non-player agent record, marked by the sentinel value in its
/// elite-specialization field, decodes to no agent at all - and to no error.
pub proof fn lemma_sentinel_agent_excluded(r: Seq<u8>)
    requires
        r.len() == AGENT_RECORD_LEN,
        spec_u32_from_le_bytes(r.subrange(12, 16)) == NON_PLAYER_SENTINEL,
    ensures
        spec_decode_agent(r) == Ok::<Option<AgentView>, DecodeError>(None),
{
}

/// A table whose last record is a non-player record decodes to the same
/// agent list as the table without it: sentinel records are always excluded.
pub proof fn lemma_sentinel_record_excluded(s: Seq<u8>, off: int, n: nat)
    requires
        n >= 1,
        spec_u32_from_le_bytes(
            s.subrange(
                off + AGENT_RECORD_LEN * ((n - 1) as int) + 12,
                off + AGENT_RECORD_LEN * ((n - 1) as int) + 16,
            ),
        ) == NON_PLAYER_SENTINEL,
        off + AGENT_RECORD_LEN * (n as int) <= s.len(),
        0 <= off,
    ensures
        spec_decode_agents(s, off, n) == spec_decode_agents(s, off, (n - 1) as nat),
{
    let r = s.subrange(
        off + AGENT_RECORD_LEN * ((n - 1) as int),
        off + AGENT_RECORD_LEN * (n as int),
    );
    assert(r.subrange(12, 16) =~= s.subrange(
        off + AGENT_RECORD_LEN * ((n - 1) as int) + 12,
        off + AGENT_RECORD_LEN * ((n - 1) as int) + 16,
    ));
    lemma_sentinel_agent_excluded(r);
}

/// An agent count of zero yields an empty agent list, not an error.
pub proof fn lemma_empty_agent_table(s: Seq<u8>, off: int)
    ensures
        spec_decode_agents(s, off, 0) == Ok::<Seq<AgentView>, DecodeError>(
            Seq::<AgentView>::empty(),
        ),
{
}

/// The event tail decodes successfully exactly when its length is a
/// multiple of the event record width; any other length fails with
/// `MalformedEventLog`.
pub proof fn lemma_event_tail_multiple(t: Seq<u8>)
    ensures
        (t.len() as int) % (EVENT_RECORD_LEN as int) == 0 <==> spec_events(t) is Ok,
        (t.len() as int) % (EVENT_RECORD_LEN as int) != 0 ==> spec_events(t) == Err::<
            Seq<CbtEvent>,
            DecodeError,
        >(DecodeError::MalformedEventLog),
{
}

/// If no event carries the point-of-view code, there is no POV agent.
pub proof fn lemma_no_pov_event(evts: Seq<CbtEvent>, agents: Seq<AgentView>)
    requires
        forall|i: int|
            0 <= i < evts.len() ==> evts[i].is_statechange != spec_statechange_code(
                CbtStateChange::PointOfView,
            ),
    ensures
        spec_find_pov(evts, agents) is None,
    decreases evts.len(),
{
    if evts.len() > 0 {
        lemma_no_pov_event(evts.drop_first(), agents);
    }
}

/// The first agent with the sought address is the one found.
proof fn lemma_find_agent_first(agents: Seq<AgentView>, addr: u64, j: int)
    requires
        0 <= j < agents.len(),
        agents[j].addr == addr,
        forall|k: int| 0 <= k < j ==> agents[k].addr != addr,
    ensures
        spec_find_agent(agents, addr) == Some(agents[j]),
    decreases j,
{
    if j > 0 {
        lemma_find_agent_first(agents.drop_first(), addr, j - 1);
    }
}

/// An address no agent has resolves to no agent.
proof fn lemma_find_agent_none(agents: Seq<AgentView>, addr: u64)
    requires
        forall|k: int| 0 <= k < agents.len() ==> agents[k].addr != addr,
    ensures
        spec_find_agent(agents, addr) is None,
    decreases agents.len(),
{
    if agents.len() > 0 {
        lemma_find_agent_none(agents.drop_first(), addr);
    }
}

/// Point-of-view resolution: if event `i` is the first event carrying the
/// POV code and agent `j` is the first agent with that event's source
/// address, the POV is exactly that agent.
pub proof fn lemma_pov_resolution(evts: Seq<CbtEvent>, agents: Seq<AgentView>, i: int, j: int)
    requires
        0 <= i < evts.len(),
        evts[i].is_statechange == spec_statechange_code(CbtStateChange::PointOfView),
        forall|k: int|
            0 <= k < i ==> evts[k].is_statechange != spec_statechange_code(
                CbtStateChange::PointOfView,
            ),
        0 <= j < agents.len(),
        agents[j].addr == evts[i].src_agent,
        forall|k: int| 0 <= k < j ==> agents[k].addr != evts[i].src_agent,
    ensures
        spec_find_pov(evts, agents) == Some(agents[j]),
    decreases i,
{
    if i == 0 {
        lemma_find_agent_first(agents, evts[0].src_agent, j);
    } else {
        lemma_pov_resolution(evts.drop_first(), agents, i - 1, j);
    }
}

/// Point-of-view resolution with an unknown address: if the first event
/// carrying the POV code names an address no decoded agent has, there is no
/// POV agent.
pub proof fn lemma_pov_unmatched(evts: Seq<CbtEvent>, agents: Seq<AgentView>, i: int)
    requires
        0 <= i < evts.len(),
        evts[i].is_statechange == spec_statechange_code(CbtStateChange::PointOfView),
        forall|k: int|
            0 <= k < i ==> evts[k].is_statechange != spec_statechange_code(
                CbtStateChange::PointOfView,
            ),
        forall|k: int| 0 <= k < agents.len() ==> agents[k].addr != evts[i].src_agent,
    ensures
        spec_find_pov(evts, agents) is None,
    decreases i,
{
    if i == 0 {
        lemma_find_agent_none(agents, evts[0].src_agent);
    } else {
        lemma_pov_unmatched(evts.drop_first(), agents, i - 1);
    }
}

} // verus!
