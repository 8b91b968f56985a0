//! Applying what the server says to the client's state.
//!
//! [`Client::apply_event`] takes one report and does what it calls for: it changes the state that is
//! kept here, and says what is to be done beyond it. The bodies of many reports belong to other parts
//! of the client; such a report is handed on under its ticket, in its turn, and where it drives an
//! animation it is stamped first, so that animations play in the order in which the server caused
//! them.
//!
//! A report is described against the state that it meets, and what is done for one may change what
//! the next one meets: a login brings our guid, an object that comes or goes changes the index, and so
//! can the end of a session. So reports are applied one at a time: what one calls for is done before
//! the next is described.
pub mod chat;
pub mod group;
pub mod laws;
pub mod mail;
pub mod quests;

use vstd::prelude::*;
use std::collections::HashMap;

use crate::net::apply::chat::{
    channel_list, chat_player_not_found, chat_wrong_faction, notification, played_text, played_time,
    system_line, ChatEventKind, ChatLine, ChatLog,
};
use crate::net::apply::group::{push_group_lines, system_lines};
use crate::net::apply::mail::{
    codes_after_result, deletions, kept_rows, list_request, mail_after_result, mail_item_text,
    mail_list, next_mail_time, pending_after_list, received_mail, refresh_after_result,
    send_mail_result, EquipErrors, MailListEntry, MailOpen, MailPending, MailView,
};
use crate::net::apply::quests::{
    failed_text, quest_complete, quest_detail, quest_failed, quest_giver_refused,
    quest_giver_status, quest_greeting, quest_log_full, quest_offer, quest_progress, quest_template,
    refused_text, bumped, QuestGiver, QuestGiverView, QuestLog, QuestRecord,
    QuestView,
};
use crate::net::ClientCommand;
use crate::single::{zero, Double, Point, Single};
use crate::text::decimal;

verus! {

broadcast use vstd::std_specs::hash::group_hash_axioms;

/// The chat type of a whisper.
pub const CHAT_MSG_WHISPER: u8 = 0x6;

/// The level from which a level brings a talent point.
pub const FIRST_TALENT_LEVEL: u32 = 10;

/// The result code of a mount that went well.
pub const MOUNTED_OK: u32 = 10;

/// The result code of a dismount that went well.
pub const DISMOUNTED_OK: u32 = 3;

/// What is known of a creature by its entry.
pub struct CreatureRecord {
    pub name: String,
    pub subname: Option<String>,
    pub creature_type: u32,
    pub rank: u32,
    pub type_flags: u32,
    pub civilian: bool,
    pub racial_leader: bool,
}

/// The part of a creature's record that is on it whatever its name.
#[derive(Clone, Copy, Debug, PartialEq, Eq, Structural)]
pub struct CreatureTraits {
    pub creature_type: Option<u32>,
    pub rank: u32,
    pub type_flags: u32,
    pub civilian: bool,
    pub racial_leader: bool,
}

/// Where our corpse lies.
#[derive(Clone, Copy, Debug, PartialEq, Eq, Structural)]
pub struct CorpsePoint {
    pub display_map: u32,
    /// In the wire's axes, as it came.
    pub position: Point,
    pub corpse_map: u32,
}

/// An offer to resurrect us.
pub struct ResurrectOffer {
    pub caster: u64,
    pub name: String,
    pub sickness: bool,
    pub has_timer: bool,
}

/// What the server has said about our death.
pub struct DeathNet {
    /// Our corpse, while it is in range.
    pub corpse_guid: Option<u64>,
    pub corpse: Option<CorpsePoint>,
    /// When the corpse can be reclaimed.
    pub reclaim_at: Option<Double>,
    /// Counts the reclaim delays, so that each is announced.
    pub reclaim_generation: u32,
    pub resurrect: Option<ResurrectOffer>,
    pub spirit_healer: Option<u64>,
    pub water_walk: bool,
}

/// A change of our cast bar.
#[derive(Clone, Copy, Debug, PartialEq, Eq, Structural)]
pub enum CastBarEdge {
    ChannelStart { spell_id: u32, duration_ms: u32 },
    ChannelUpdate { remaining_ms: u32 },
}

/// What sort of sound the server plays.
#[derive(Clone, Copy, Debug, PartialEq, Eq, Structural)]
pub enum ServerSoundKind {
    Sound2d,
    Music,
    ObjectSound,
}

/// What sort of emote a unit shows.
#[derive(Clone, Copy, Debug, PartialEq, Eq, Structural)]
pub enum EmoteKind {
    Text(u32),
    Anim(u32),
}

/// Something the server reported.
pub enum News {
    /// A report whose whole body belongs elsewhere.
    Elsewhere,
    /// One of those that drives an animation: a cast result, a swing, the start, the flight or the
    /// failure of a spell.
    Animated,
    /// A report that this client does not act on: the minimap ping and the ready check.
    Unheard,
    /// An object came into range. `other` is neither a unit nor a player nor a game object, and
    /// `corpse_owner` is whose corpse it is; it is ours only where that is us.
    ObjectCreate { guid: u64, other: bool, corpse_owner: Option<u64> },
    ObjectDestroyed { guid: u64 },
    ReputationDelta,
    BindPoint { area: u32 },
    Proficiency { item_class: u8, subclass_mask: u32 },
    PlayerName { guid: u64, name: String },
    PetName { pet_number: u32, name: String },
    CreatureName {
        entry: u32,
        name: Option<String>,
        subname: Option<String>,
        traits: CreatureTraits,
    },
    PlaySound { sound_id: u32 },
    PlayMusic { music_id: u32 },
    PlayObjectSound { sound_id: u32, guid: u64 },
    TextEmote { guid: u64, text_emote: u32 },
    Emote { guid: u64, emote_id: u32 },
    /// Someone spoke; `ignored` is whether we ignore them.
    Chat { chat_type: u8, sender: u64, ignored: bool },
    ChannelList { channel: String, members: Vec<(u64, u8)> },
    ChatPlayerNotFound { name: String },
    ChatWrongFaction,
    Notification { text: String },
    PlayedTime { total: u32, level: u32 },
    /// News of the group, as its lines.
    GroupLines { lines: Vec<String> },
    /// The roster, and the lines that its change makes.
    GroupList { lines: Vec<String> },
    CorpseQuery { found: bool, point: CorpsePoint },
    /// The corpse can be reclaimed at a time.
    CorpseReclaimDelay { at: Double },
    ResurrectRequest { caster: u64, name: String, sickness: bool, has_timer: bool },
    SpiritHealerConfirm { npc: u64 },
    DurabilityDamageDeath,
    MoveRoot { guid: u64, counter: u32, rooted: bool },
    WaterWalk { guid: u64, counter: u32, on: bool },
    LevelUp { level: u32 },
    ChannelStart { spell_id: u32, duration_ms: u32 },
    ChannelUpdate { remaining_ms: u32 },
    PlaySpellVisual { unit: u64, kit_id: u32 },
    /// Damage from the world itself; `kit_id` is the visual of its kind, where it has one.
    EnvironmentalDamageLog { victim: u64, kit_id: Option<u32> },
    /// A gossip window's text or menu; `npc` is whose window is open, where one is.
    Gossip { npc: Option<u64> },
    QuestGiverStatus { npc: u64, status: u32 },
    /// Of a questgiver's page, and of a template, what is not told here stays under the ticket, which
    /// the window or the log keeps.
    QuestGreeting { npc: u64 },
    QuestDetail { npc: u64, quest_id: u32 },
    QuestProgress { npc: u64, quest_id: u32 },
    QuestOffer { npc: u64, quest_id: u32 },
    QuestComplete,
    QuestTemplate { quest_id: u32, title: String },
    /// An objective moved on, or the last of them is done.
    QuestObjective,
    QuestFailed { quest_id: u32 },
    QuestLogFull,
    QuestGiverRefused { reason: u32 },
    /// A mount or a dismount was answered.
    MountResult { mount: bool, code: u32 },
    MountSpecial { guid: u64 },
    MailList { mails: Vec<MailListEntry> },
    SendMailResult { action: u32, error: u32, equip_error: Option<u32>, error_text: String },
    MailItemText { text_id: u32, text: String },
    ReceivedMail,
    NextMailTime { seconds: Single },
    WorldStates { states: Vec<(u32, u32)> },
}

/// A report, and the ticket under which the rest of it is kept.
pub struct SessionEvent {
    pub ticket: u64,
    pub news: News,
}

/// What is to be done beyond the state that is kept here.
#[derive(Clone, Copy, Debug, PartialEq, Eq, Structural)]
pub enum Effect {
    /// Run the rest of the report; `seq` is the stamp of one that drives an animation.
    Hand { ticket: u64, seq: Option<u64> },
    Send(ClientCommand),
    Sound { kind: ServerSoundKind, sound_id: u32, source: Option<u64> },
    Emote { source: Option<u64>, kind: EmoteKind },
    MoveRoot { guid: u64, counter: u32, rooted: bool },
    WaterWalk { guid: u64, counter: u32, on: bool },
    LevelUp { ticket: u64, talent_points: u32 },
    /// Keep the clock of our running channel.
    Channel(CastBarEdge),
    KitPush { entity: u64, kit_id: u32, seq: u64 },
    Gossip { ticket: u64, gender: u8 },
    /// Ask for a quest's template.
    AskQuest { quest_id: u32 },
    MountFlourish { unit: u64 },
}

/// The client's state, as far as it is kept here.
pub struct Client {
    pub self_guid: Option<u64>,
    /// The entities that have streamed in, by guid.
    pub index: HashMap<u64, u64>,
    /// The genders of those whose descriptors have one, by entity.
    pub genders: HashMap<u64, u8>,
    pub home_bind: Option<u32>,
    /// What we can use of each item class.
    pub proficiencies: HashMap<u8, u32>,
    pub players: HashMap<u64, String>,
    pub pets: HashMap<u32, String>,
    /// Creatures by entry; `None` for an entry that the server does not know.
    pub creatures: HashMap<u32, Option<CreatureRecord>>,
    pub death: DeathNet,
    pub quest: QuestGiver,
    pub quest_log: QuestLog,
    pub chat: ChatLog,
    pub mail: MailOpen,
    pub mail_pending: MailPending,
    pub equip_errors: EquipErrors,
    pub error_lines: Vec<String>,
    pub mount_errors: Vec<(bool, u32)>,
    pub cast_bar: Vec<CastBarEdge>,
    pub world_states: HashMap<u32, u32>,
    /// The stamp of the last report that drove an animation.
    pub play_seq: u64,
}

/// The client's state, as its contents.
#[verifier::ext_equal]
pub struct ClientView {
    pub self_guid: Option<u64>,
    pub index: Map<u64, u64>,
    pub genders: Map<u64, u8>,
    pub home_bind: Option<u32>,
    pub proficiencies: Map<u8, u32>,
    pub players: Map<u64, String>,
    pub pets: Map<u32, String>,
    pub creatures: Map<u32, Option<CreatureRecord>>,
    pub death: DeathNet,
    pub quest: QuestGiverView,
    pub quest_log: Map<u32, QuestRecord>,
    pub chat: Seq<ChatLine>,
    pub mail: MailView,
    pub mail_pending: MailPending,
    pub equip_errors: Seq<(u8, Option<u32>)>,
    pub error_lines: Seq<Seq<char>>,
    pub mount_errors: Seq<(bool, u32)>,
    pub cast_bar: Seq<CastBarEdge>,
    pub world_states: Map<u32, u32>,
    pub play_seq: u64,
}

impl View for Client {
    type V = ClientView;

    open spec fn view(&self) -> ClientView {
        ClientView {
            self_guid: self.self_guid,
            index: self.index@,
            genders: self.genders@,
            home_bind: self.home_bind,
            proficiencies: self.proficiencies@,
            players: self.players@,
            pets: self.pets@,
            creatures: self.creatures@,
            death: self.death,
            quest: self.quest@,
            quest_log: self.quest_log@,
            chat: self.chat@,
            mail: self.mail@,
            mail_pending: self.mail_pending,
            equip_errors: self.equip_errors.codes@,
            error_lines: Seq::new(self.error_lines@.len(), |i: int| self.error_lines@[i]@),
            mount_errors: self.mount_errors@,
            cast_bar: self.cast_bar@,
            world_states: self.world_states@,
            play_seq: self.play_seq,
        }
    }
}

/// A stamp one step on, wrapping round.
pub open spec fn next_seq(seq: u64) -> u64 {
    if seq == u64::MAX {
        0
    } else {
        (seq + 1) as u64
    }
}

/// What a map holds under a key, where it holds anything.
pub open spec fn found<K, V>(map: Map<K, V>, key: K) -> Option<V> {
    if map.dom().contains(key) {
        Some(map[key])
    } else {
        None
    }
}

/// A unit's gender for the text it speaks: male for one that has not streamed in or whose gender is not
/// known.
pub open spec fn gender_of(index: Map<u64, u64>, genders: Map<u64, u8>, npc: u64) -> u8 {
    match found(index, npc) {
        Some(entity) => match found(genders, entity) {
            Some(gender) => gender,
            None => 0,
        },
        None => 0,
    }
}

/// A unit's gender for the text it speaks.
pub fn npc_gender(npc: u64, index: &HashMap<u64, u64>, genders: &HashMap<u64, u8>) -> (g: u8)
    ensures
        g == gender_of(index@, genders@, npc),
{
    match index.get(&npc) {
        Some(entity) => match genders.get(entity) {
            Some(gender) => *gender,
            None => 0,
        },
        None => 0,
    }
}

/// The world states after a run of writes.
pub open spec fn states_after(table: Map<u32, u32>, states: Seq<(u32, u32)>) -> Map<u32, u32>
    decreases states.len(),
{
    if states.len() == 0 {
        table
    } else {
        states_after(table, states.drop_last()).insert(states.last().0, states.last().1)
    }
}

/// The commands, each to be sent.
pub open spec fn sends(commands: Seq<ClientCommand>) -> Seq<Effect> {
    Seq::new(commands.len(), |i: int| Effect::Send(commands[i]))
}

/// A command to be sent, where there is one.
pub open spec fn send_if(command: Option<ClientCommand>) -> Seq<Effect> {
    match command {
        Some(command) => seq![Effect::Send(command)],
        None => seq![],
    }
}

/// The effect of a visual on a unit, where the unit is in range: stamped, since it plays.
pub open spec fn kit_effects(entity: Option<u64>, kit_id: Option<u32>, play_seq: u64) -> Seq<Effect> {
    if entity is Some && kit_id is Some {
        seq![Effect::KitPush { entity: entity->0, kit_id: kit_id->0, seq: next_seq(play_seq) }]
    } else {
        seq![]
    }
}

/// The line of a death's toll on what we wear.
pub open spec fn durability_line() -> Seq<char> {
    "Your equipped items suffer a 10% durability loss."@
}

/// What a creature query answered.
pub open spec fn creature_record(
    name: Option<String>,
    subname: Option<String>,
    traits: CreatureTraits,
) -> Option<CreatureRecord> {
    match name {
        Some(name) => Some(
            CreatureRecord {
                name,
                subname,
                creature_type: match traits.creature_type {
                    Some(t) => t,
                    None => 0,
                },
                rank: traits.rank,
                type_flags: traits.type_flags,
                civilian: traits.civilian,
                racial_leader: traits.racial_leader,
            },
        ),
        None => None,
    }
}

/// The state after a report.
#[verifier::opaque]
pub open spec fn state_after(s: ClientView, ev: SessionEvent) -> ClientView {
    match ev.news {
        News::Elsewhere | News::Unheard => s,
        News::Animated => ClientView { play_seq: next_seq(s.play_seq), ..s },
        News::ObjectCreate { guid, other, corpse_owner } => if other && s.self_guid is Some
            && corpse_owner == s.self_guid {
            ClientView { death: DeathNet { corpse_guid: Some(guid), ..s.death }, ..s }
        } else {
            s
        },
        News::ObjectDestroyed { guid } => if s.death.corpse_guid == Some(guid) {
            ClientView { death: DeathNet { corpse_guid: None, ..s.death }, ..s }
        } else {
            s
        },
        News::ReputationDelta => ClientView { quest: s.quest.asking(), ..s },
        News::BindPoint { area } => ClientView { home_bind: Some(area), ..s },
        News::Proficiency { item_class, subclass_mask } => ClientView {
            proficiencies: s.proficiencies.insert(item_class, subclass_mask),
            ..s
        },
        News::PlayerName { guid, name } => ClientView { players: s.players.insert(guid, name), ..s },
        News::PetName { pet_number, name } => ClientView {
            pets: s.pets.insert(pet_number, name),
            ..s
        },
        News::CreatureName { entry, name, subname, traits } => ClientView {
            creatures: s.creatures.insert(entry, creature_record(name, subname, traits)),
            ..s
        },
        News::PlaySound { .. }
        | News::PlayMusic { .. }
        | News::PlayObjectSound { .. }
        | News::TextEmote { .. }
        | News::Emote { .. }
        | News::Chat { .. }
        | News::MoveRoot { .. }
        | News::LevelUp { .. }
        | News::Gossip { .. }
        | News::MountSpecial { .. } => s,
        News::ChannelList { channel, members } => ClientView {
            chat: s.chat.push(
                ChatLine {
                    kind: ChatEventKind::ChannelList,
                    text: decimal(members@.len()) + " member(s)"@,
                    channel: channel@,
                },
            ),
            ..s
        },
        News::ChatPlayerNotFound { name } => ClientView {
            chat: s.chat.push(
                system_line("No player named '"@ + name@ + "' is currently playing."@),
            ),
            ..s
        },
        News::ChatWrongFaction => ClientView {
            chat: s.chat.push(
                system_line("You can only whisper to members of your alliance."@),
            ),
            ..s
        },
        News::Notification { text } => ClientView { chat: s.chat.push(system_line(text@)), ..s },
        News::PlayedTime { total, level } => ClientView {
            chat: s.chat.push(system_line(played_text("Total time played"@, total))).push(
                system_line(played_text("Time played this level"@, level)),
            ),
            ..s
        },
        News::GroupLines { lines } => ClientView { chat: s.chat + system_lines(lines@), ..s },
        News::GroupList { lines } => ClientView {
            chat: s.chat + system_lines(lines@),
            quest: s.quest.asking(),
            ..s
        },
        News::CorpseQuery { found, point } => ClientView {
            death: DeathNet {
                corpse: if found {
                    Some(point)
                } else {
                    None
                },
                ..s.death
            },
            ..s
        },
        News::CorpseReclaimDelay { at } => ClientView {
            death: DeathNet {
                reclaim_at: Some(at),
                reclaim_generation: bumped(s.death.reclaim_generation),
                ..s.death
            },
            ..s
        },
        News::ResurrectRequest { caster, name, sickness, has_timer } => ClientView {
            death: DeathNet {
                resurrect: Some(ResurrectOffer { caster, name, sickness, has_timer }),
                ..s.death
            },
            ..s
        },
        News::SpiritHealerConfirm { npc } => ClientView {
            death: DeathNet { spirit_healer: Some(npc), ..s.death },
            ..s
        },
        News::DurabilityDamageDeath => ClientView {
            error_lines: s.error_lines.push(durability_line()),
            ..s
        },
        News::WaterWalk { guid, on, .. } => if s.self_guid == Some(guid) {
            ClientView { death: DeathNet { water_walk: on, ..s.death }, ..s }
        } else {
            s
        },
        News::ChannelStart { spell_id, duration_ms } => ClientView {
            cast_bar: s.cast_bar.push(CastBarEdge::ChannelStart { spell_id, duration_ms }),
            ..s
        },
        News::ChannelUpdate { remaining_ms } => ClientView {
            cast_bar: s.cast_bar.push(CastBarEdge::ChannelUpdate { remaining_ms }),
            ..s
        },
        News::PlaySpellVisual { unit, .. } => if s.index.dom().contains(unit) {
            ClientView { play_seq: next_seq(s.play_seq), ..s }
        } else {
            s
        },
        News::EnvironmentalDamageLog { victim, kit_id } => if s.index.dom().contains(victim)
            && kit_id is Some {
            ClientView { play_seq: next_seq(s.play_seq), ..s }
        } else {
            s
        },
        News::QuestGiverStatus { npc, status } => ClientView {
            quest: QuestGiverView { status: s.quest.status.insert(npc, status), ..s.quest },
            ..s
        },
        News::QuestGreeting { npc } => ClientView {
            quest: s.quest.showing(npc, QuestView::Greeting, ev.ticket),
            ..s
        },
        News::QuestDetail { npc, quest_id } => ClientView {
            quest: s.quest.showing(npc, QuestView::Detail { quest_id }, ev.ticket),
            ..s
        },
        News::QuestProgress { npc, quest_id } => ClientView {
            quest: s.quest.showing(npc, QuestView::Progress { quest_id }, ev.ticket),
            ..s
        },
        News::QuestOffer { npc, quest_id } => ClientView {
            quest: s.quest.showing(npc, QuestView::Reward { quest_id }, ev.ticket),
            ..s
        },
        News::QuestComplete => ClientView { quest: s.quest.turned_in().asking(), ..s },
        News::QuestTemplate { quest_id, title } => ClientView {
            quest_log: s.quest_log.insert(quest_id, QuestRecord { title, ticket: ev.ticket }),
            ..s
        },
        News::QuestObjective => ClientView { quest: s.quest.asking(), ..s },
        News::QuestFailed { quest_id } => ClientView {
            chat: s.chat.push(system_line(failed_text(s.quest_log, quest_id))),
            quest: s.quest.asking(),
            ..s
        },
        News::QuestLogFull => ClientView {
            chat: s.chat.push(system_line("Your quest log is full."@)),
            ..s
        },
        News::QuestGiverRefused { reason } => ClientView {
            chat: s.chat.push(system_line(refused_text(reason))),
            ..s
        },
        News::MountResult { mount, code } => if mount_went_well(mount, code) {
            s
        } else {
            ClientView { mount_errors: s.mount_errors.push((mount, code)), ..s }
        },
        News::MailList { mails } => ClientView {
            mail: MailView { mails: kept_rows(mails@), ..s.mail },
            mail_pending: pending_after_list(s.mail_pending, mails@),
            ..s
        },
        News::SendMailResult { action, error, equip_error, error_text } => ClientView {
            mail: mail_after_result(s.mail, action, error, error_text@),
            equip_errors: codes_after_result(s.equip_errors, error, equip_error),
            ..s
        },
        News::MailItemText { text_id, text } => ClientView {
            mail: MailView {
                bodies: s.mail.bodies.insert(text_id, text),
                pending_bodies: s.mail.pending_bodies.remove(text_id),
                ..s.mail
            },
            ..s
        },
        News::ReceivedMail => ClientView {
            mail_pending: MailPending { seconds: Some(zero()) },
            ..s
        },
        News::NextMailTime { seconds } => ClientView {
            mail_pending: MailPending { seconds: Some(seconds) },
            ..s
        },
        News::WorldStates { states } => ClientView {
            world_states: states_after(s.world_states, states@),
            ..s
        },
    }
}

/// Success is 10 for a mount and 3 for a dismount.
pub open spec fn mount_went_well(mount: bool, code: u32) -> bool {
    if mount {
        code == MOUNTED_OK
    } else {
        code == DISMOUNTED_OK
    }
}

/// What a report calls for beyond the state.
#[verifier::opaque]
pub open spec fn effects_of(s: ClientView, ev: SessionEvent) -> Seq<Effect> {
    let hand = seq![Effect::Hand { ticket: ev.ticket, seq: None }];
    match ev.news {
        News::Elsewhere
        | News::ObjectCreate { .. }
        | News::ObjectDestroyed { .. }
        | News::ReputationDelta => hand,
        News::Animated => seq![Effect::Hand { ticket: ev.ticket, seq: Some(next_seq(s.play_seq)) }],
        News::PlaySound { sound_id } => seq![
            Effect::Sound { kind: ServerSoundKind::Sound2d, sound_id, source: None },
        ],
        News::PlayMusic { music_id } => seq![
            Effect::Sound { kind: ServerSoundKind::Music, sound_id: music_id, source: None },
        ],
        News::PlayObjectSound { sound_id, guid } => seq![
            Effect::Sound {
                kind: ServerSoundKind::ObjectSound,
                sound_id,
                source: found(s.index, guid),
            },
        ],
        News::TextEmote { guid, text_emote } => seq![
            Effect::Emote { source: found(s.index, guid), kind: EmoteKind::Text(text_emote) },
        ],
        News::Emote { guid, emote_id } => seq![
            Effect::Emote { source: found(s.index, guid), kind: EmoteKind::Anim(emote_id) },
        ],
        News::Chat { chat_type, sender, ignored } => if !ignored {
            hand
        } else if chat_type == CHAT_MSG_WHISPER {
            seq![Effect::Send(ClientCommand::ChatIgnored { guid: sender })]
        } else {
            seq![]
        },
        News::MoveRoot { guid, counter, rooted } => if s.self_guid == Some(guid) {
            seq![Effect::MoveRoot { guid, counter, rooted }]
        } else {
            seq![]
        },
        News::WaterWalk { guid, counter, on } => if s.self_guid == Some(guid) {
            seq![Effect::WaterWalk { guid, counter, on }]
        } else {
            seq![]
        },
        News::LevelUp { level } => seq![
            Effect::LevelUp {
                ticket: ev.ticket,
                talent_points: if level >= FIRST_TALENT_LEVEL {
                    1
                } else {
                    0
                },
            },
        ],
        News::ChannelStart { spell_id, duration_ms } => seq![
            Effect::Channel(CastBarEdge::ChannelStart { spell_id, duration_ms }),
        ],
        News::ChannelUpdate { remaining_ms } => seq![
            Effect::Channel(CastBarEdge::ChannelUpdate { remaining_ms }),
        ],
        News::PlaySpellVisual { unit, kit_id } => kit_effects(
            found(s.index, unit),
            Some(kit_id),
            s.play_seq,
        ),
        News::EnvironmentalDamageLog { victim, kit_id } => kit_effects(
            found(s.index, victim),
            kit_id,
            s.play_seq,
        ),
        News::Gossip { npc } => seq![
            Effect::Gossip {
                ticket: ev.ticket,
                gender: match npc {
                    Some(npc) => gender_of(s.index, s.genders, npc),
                    None => 0,
                },
            },
        ],
        News::QuestFailed { quest_id } => if s.quest_log.dom().contains(quest_id) {
            seq![]
        } else {
            seq![Effect::AskQuest { quest_id }]
        },
        News::MountSpecial { guid } => if s.self_guid != Some(guid) && s.index.dom().contains(
            guid,
        ) {
            seq![Effect::MountFlourish { unit: s.index[guid] }]
        } else {
            seq![]
        },
        News::MailList { mails } => sends(deletions(mails@, s.mail.mailbox)),
        News::SendMailResult { action, error, .. } => send_if(
            refresh_after_result(s.mail.mailbox, action, error),
        ),
        News::ReceivedMail => send_if(list_request(s.mail.mailbox)),
        _ => seq![],
    }
}

impl Client {
    /// Nobody yet, and nothing known.
    pub fn new() -> (client: Client)
        ensures
            client@ == fresh_client(),
    {
        let client = Client {
            self_guid: None,
            index: HashMap::new(),
            genders: HashMap::new(),
            home_bind: None,
            proficiencies: HashMap::new(),
            players: HashMap::new(),
            pets: HashMap::new(),
            creatures: HashMap::new(),
            death: DeathNet {
                corpse_guid: None,
                corpse: None,
                reclaim_at: None,
                reclaim_generation: 0,
                resurrect: None,
                spirit_healer: None,
                water_walk: false,
            },
            quest: QuestGiver::new(),
            quest_log: QuestLog::new(),
            chat: ChatLog::new(),
            mail: MailOpen::new(),
            mail_pending: MailPending { seconds: None },
            equip_errors: EquipErrors { codes: Vec::new() },
            error_lines: Vec::new(),
            mount_errors: Vec::new(),
            cast_bar: Vec::new(),
            world_states: HashMap::new(),
            play_seq: 0,
        };
        assert(client@ =~= fresh_client());
        client
    }

    fn stamp(&mut self) -> (seq: u64)
        ensures
            seq == next_seq(old(self).play_seq),
            final(self)@ == (ClientView { play_seq: seq, ..old(self)@ }),
    {
        self.play_seq = self.play_seq.wrapping_add(1);
        self.play_seq
    }

    fn entity_of(&self, guid: u64) -> (entity: Option<u64>)
        ensures
            entity == found(self@.index, guid),
    {
        match self.index.get(&guid) {
            Some(entity) => Some(*entity),
            None => None,
        }
    }

    fn push_kit(&mut self, entity: Option<u64>, kit_id: Option<u32>, effects: &mut Vec<Effect>)
        ensures
            final(effects)@ == old(effects)@ + kit_effects(entity, kit_id, old(self).play_seq),
            final(self)@ == (if entity is Some && kit_id is Some {
                ClientView { play_seq: next_seq(old(self).play_seq), ..old(self)@ }
            } else {
                old(self)@
            }),
    {
        if let Some(entity) = entity {
            if let Some(kit_id) = kit_id {
                let seq: u64 = self.stamp();
                effects.push(Effect::KitPush { entity, kit_id, seq });
            }
        }
    }

    fn write_states(&mut self, states: &Vec<(u32, u32)>)
        ensures
            final(self)@ == (ClientView {
                world_states: states_after(old(self)@.world_states, states@),
                ..old(self)@
            }),
    {
        let ghost before = self@;
        for i in 0..states.len()
            invariant
                self@ == (ClientView {
                    world_states: states_after(before.world_states, states@.take(i as int)),
                    ..before
                }),
        {
            let (id, value) = states[i];
            assert(states@.take(i + 1).drop_last() == states@.take(i as int));
            self.world_states.insert(id, value);
        }
        assert(states@.take(states.len() as int) == states@);
    }

    fn hear_quests(&mut self, event: SessionEvent, effects: &mut Vec<Effect>)
        requires
            is_quest_news(event.news),
            old(effects)@.len() == 0,
        ensures
            final(self)@ == state_after(old(self)@, event),
            final(effects)@ == effects_of(old(self)@, event),
    {
        proof {
            reveal(state_after);
            reveal(effects_of);
        }
        let ticket: u64 = event.ticket;
        match event.news {
            News::QuestGiverStatus { npc, status } => quest_giver_status(
                npc,
                status,
                &mut self.quest,
            ),
            News::QuestGreeting { npc } => quest_greeting(npc, ticket, &mut self.quest),
            News::QuestDetail { npc, quest_id } => quest_detail(
                npc,
                quest_id,
                ticket,
                &mut self.quest,
            ),
            News::QuestProgress { npc, quest_id } => quest_progress(
                npc,
                quest_id,
                ticket,
                &mut self.quest,
            ),
            News::QuestOffer { npc, quest_id } => quest_offer(
                npc,
                quest_id,
                ticket,
                &mut self.quest,
            ),
            News::QuestComplete => {
                quest_complete(&mut self.quest);
                self.quest.bump_reask();
            },
            News::QuestTemplate { quest_id, title } => quest_template(
                quest_id,
                title,
                ticket,
                &mut self.quest_log,
            ),
            News::QuestObjective => self.quest.bump_reask(),
            News::QuestFailed { quest_id } => {
                if quest_failed(quest_id, &self.quest_log, &mut self.chat) {
                    effects.push(Effect::AskQuest { quest_id });
                }
                self.quest.bump_reask();
            },
            News::QuestLogFull => quest_log_full(&mut self.chat),
            News::QuestGiverRefused { reason } => quest_giver_refused(reason, &mut self.chat),
            _ => {},
        }
    }

    fn hear_mail(&mut self, event: SessionEvent, effects: &mut Vec<Effect>)
        requires
            is_mail_news(event.news),
            old(effects)@.len() == 0,
        ensures
            final(self)@ == state_after(old(self)@, event),
            final(effects)@ == effects_of(old(self)@, event),
    {
        proof {
            reveal(state_after);
            reveal(effects_of);
        }
        match event.news {
            News::MailList { mails } => {
                let commands = mail_list(&mails, &mut self.mail, &mut self.mail_pending);
                for i in 0..commands.len()
                    invariant
                        effects@ == sends(commands@.take(i as int)),
                {
                    effects.push(Effect::Send(commands[i]));
                }
                assert(commands@.take(commands.len() as int) == commands@);
            },
            News::SendMailResult { action, error, equip_error, error_text } => {
                let refresh = send_mail_result(
                    action,
                    error,
                    equip_error,
                    error_text,
                    &mut self.mail,
                    &mut self.equip_errors,
                );
                if let Some(command) = refresh {
                    effects.push(Effect::Send(command));
                }
            },
            News::MailItemText { text_id, text } => mail_item_text(text_id, text, &mut self.mail),
            News::ReceivedMail => {
                if let Some(command) = received_mail(&mut self.mail_pending, &self.mail) {
                    effects.push(Effect::Send(command));
                }
            },
            News::NextMailTime { seconds } => next_mail_time(seconds, &mut self.mail_pending),
            _ => {},
        }
    }

    fn hear_talk(&mut self, event: SessionEvent, effects: &mut Vec<Effect>)
        requires
            is_talk_news(event.news),
            old(effects)@.len() == 0,
        ensures
            final(self)@ == state_after(old(self)@, event),
            final(effects)@ == effects_of(old(self)@, event),
    {
        proof {
            reveal(state_after);
            reveal(effects_of);
        }
        match event.news {
            News::Chat { chat_type, sender, ignored } => {
                if !ignored {
                    effects.push(Effect::Hand { ticket: event.ticket, seq: None });
                } else if chat_type == CHAT_MSG_WHISPER {
                    effects.push(Effect::Send(ClientCommand::ChatIgnored { guid: sender }));
                }
            },
            News::ChannelList { channel, members } => channel_list(
                channel,
                &members,
                &mut self.chat,
            ),
            News::ChatPlayerNotFound { name } => chat_player_not_found(
                name.as_str(),
                &mut self.chat,
            ),
            News::ChatWrongFaction => chat_wrong_faction(&mut self.chat),
            News::Notification { text } => notification(text, &mut self.chat),
            News::PlayedTime { total, level } => played_time(total, level, &mut self.chat),
            News::GroupLines { lines } => push_group_lines(&mut self.chat, lines),
            News::GroupList { lines } => {
                push_group_lines(&mut self.chat, lines);
                self.quest.bump_reask();
            },
            News::Gossip { npc } => {
                let gender: u8 = match npc {
                    Some(npc) => npc_gender(npc, &self.index, &self.genders),
                    None => 0,
                };
                effects.push(Effect::Gossip { ticket: event.ticket, gender });
            },
            _ => {},
        }
    }

    fn hear_death(&mut self, event: SessionEvent, effects: &mut Vec<Effect>)
        requires
            is_death_news(event.news),
            old(effects)@.len() == 0,
        ensures
            final(self)@ == state_after(old(self)@, event),
            final(effects)@ == effects_of(old(self)@, event),
    {
        proof {
            reveal(state_after);
            reveal(effects_of);
        }
        match event.news {
            News::ObjectCreate { guid, other, corpse_owner } => {
                if other && self.self_guid.is_some() && corpse_owner == self.self_guid {
                    self.death.corpse_guid = Some(guid);
                }
                effects.push(Effect::Hand { ticket: event.ticket, seq: None });
            },
            News::ObjectDestroyed { guid } => {
                if self.death.corpse_guid == Some(guid) {
                    self.death.corpse_guid = None;
                }
                effects.push(Effect::Hand { ticket: event.ticket, seq: None });
            },
            News::CorpseQuery { found, point } => {
                self.death.corpse = if found {
                    Some(point)
                } else {
                    None
                };
            },
            News::CorpseReclaimDelay { at } => {
                self.death.reclaim_at = Some(at);
                self.death.reclaim_generation = self.death.reclaim_generation.wrapping_add(1);
            },
            News::ResurrectRequest { caster, name, sickness, has_timer } => {
                self.death.resurrect = Some(ResurrectOffer { caster, name, sickness, has_timer });
            },
            News::SpiritHealerConfirm { npc } => {
                self.death.spirit_healer = Some(npc);
            },
            News::DurabilityDamageDeath => {
                self.error_lines.push(
                    String::from_str("Your equipped items suffer a 10% durability loss."),
                );
            },
            News::MoveRoot { guid, counter, rooted } => {
                if self.self_guid == Some(guid) {
                    effects.push(Effect::MoveRoot { guid, counter, rooted });
                }
            },
            News::WaterWalk { guid, counter, on } => {
                if self.self_guid == Some(guid) {
                    self.death.water_walk = on;
                    effects.push(Effect::WaterWalk { guid, counter, on });
                }
            },
            _ => {},
        }
    }

    fn hear_names(&mut self, event: SessionEvent)
        requires
            is_name_news(event.news),
        ensures
            final(self)@ == state_after(old(self)@, event),
    {
        proof {
            reveal(state_after);
        }
        match event.news {
            News::PlayerName { guid, name } => {
                self.players.insert(guid, name);
            },
            News::PetName { pet_number, name } => {
                self.pets.insert(pet_number, name);
            },
            News::CreatureName { entry, name, subname, traits } => {
                let record = match name {
                    Some(name) => Some(
                        CreatureRecord {
                            name,
                            subname,
                            creature_type: match traits.creature_type {
                                Some(t) => t,
                                None => 0,
                            },
                            rank: traits.rank,
                            type_flags: traits.type_flags,
                            civilian: traits.civilian,
                            racial_leader: traits.racial_leader,
                        },
                    ),
                    None => None,
                };
                self.creatures.insert(entry, record);
            },
            _ => {},
        }
    }

    /// Apply one report. What it calls for is to be done, in order, before the next one is described.
    pub fn apply_event(&mut self, event: SessionEvent) -> (effects: Vec<Effect>)
        ensures
            final(self)@ == state_after(old(self)@, event),
            effects@ == effects_of(old(self)@, event),
    {
        proof {
            reveal(state_after);
            reveal(effects_of);
        }
        let mut effects: Vec<Effect> = Vec::new();
        let ticket: u64 = event.ticket;
        match &event.news {
            News::Elsewhere => {
                effects.push(Effect::Hand { ticket, seq: None });
            },
            News::Unheard => {},
            News::Animated => {
                let seq: u64 = self.stamp();
                effects.push(Effect::Hand { ticket, seq: Some(seq) });
            },
            News::ReputationDelta => {
                effects.push(Effect::Hand { ticket, seq: None });
                self.quest.bump_reask();
            },
            News::BindPoint { area } => {
                self.home_bind = Some(*area);
            },
            News::Proficiency { item_class, subclass_mask } => {
                self.proficiencies.insert(*item_class, *subclass_mask);
            },
            News::PlaySound { sound_id } => {
                effects.push(
                    Effect::Sound {
                        kind: ServerSoundKind::Sound2d,
                        sound_id: *sound_id,
                        source: None,
                    },
                );
            },
            News::PlayMusic { music_id } => {
                effects.push(
                    Effect::Sound {
                        kind: ServerSoundKind::Music,
                        sound_id: *music_id,
                        source: None,
                    },
                );
            },
            News::PlayObjectSound { sound_id, guid } => {
                effects.push(
                    Effect::Sound {
                        kind: ServerSoundKind::ObjectSound,
                        sound_id: *sound_id,
                        source: self.entity_of(*guid),
                    },
                );
            },
            News::TextEmote { guid, text_emote } => {
                effects.push(
                    Effect::Emote {
                        source: self.entity_of(*guid),
                        kind: EmoteKind::Text(*text_emote),
                    },
                );
            },
            News::Emote { guid, emote_id } => {
                effects.push(
                    Effect::Emote {
                        source: self.entity_of(*guid),
                        kind: EmoteKind::Anim(*emote_id),
                    },
                );
            },
            News::LevelUp { level } => {
                let talent_points: u32 = if *level >= FIRST_TALENT_LEVEL {
                    1
                } else {
                    0
                };
                effects.push(Effect::LevelUp { ticket, talent_points });
            },
            News::ChannelStart { spell_id, duration_ms } => {
                let edge = CastBarEdge::ChannelStart {
                    spell_id: *spell_id,
                    duration_ms: *duration_ms,
                };
                effects.push(Effect::Channel(edge));
                self.cast_bar.push(edge);
            },
            News::ChannelUpdate { remaining_ms } => {
                let edge = CastBarEdge::ChannelUpdate { remaining_ms: *remaining_ms };
                effects.push(Effect::Channel(edge));
                self.cast_bar.push(edge);
            },
            News::PlaySpellVisual { unit, kit_id } => {
                let entity = self.entity_of(*unit);
                self.push_kit(entity, Some(*kit_id), &mut effects);
            },
            News::EnvironmentalDamageLog { victim, kit_id } => {
                let entity = self.entity_of(*victim);
                self.push_kit(entity, *kit_id, &mut effects);
            },
            News::MountResult { mount, code } => {
                let well = if *mount {
                    *code == MOUNTED_OK
                } else {
                    *code == DISMOUNTED_OK
                };
                if !well {
                    self.mount_errors.push((*mount, *code));
                }
            },
            News::MountSpecial { guid } => {
                if self.self_guid != Some(*guid) {
                    if let Some(unit) = self.entity_of(*guid) {
                        effects.push(Effect::MountFlourish { unit });
                    }
                }
            },
            News::WorldStates { states } => {
                self.write_states(states);
            },
            News::PlayerName { .. } | News::PetName { .. } | News::CreatureName { .. } => {
                self.hear_names(event);
            },
            News::Chat { .. }
            | News::ChannelList { .. }
            | News::ChatPlayerNotFound { .. }
            | News::ChatWrongFaction
            | News::Notification { .. }
            | News::PlayedTime { .. }
            | News::GroupLines { .. }
            | News::GroupList { .. }
            | News::Gossip { .. } => {
                self.hear_talk(event, &mut effects);
            },
            News::ObjectCreate { .. }
            | News::ObjectDestroyed { .. }
            | News::CorpseQuery { .. }
            | News::CorpseReclaimDelay { .. }
            | News::ResurrectRequest { .. }
            | News::SpiritHealerConfirm { .. }
            | News::DurabilityDamageDeath
            | News::MoveRoot { .. }
            | News::WaterWalk { .. } => {
                self.hear_death(event, &mut effects);
            },
            News::MailList { .. }
            | News::SendMailResult { .. }
            | News::MailItemText { .. }
            | News::ReceivedMail
            | News::NextMailTime { .. } => {
                self.hear_mail(event, &mut effects);
            },
            News::QuestGiverStatus { .. }
            | News::QuestGreeting { .. }
            | News::QuestDetail { .. }
            | News::QuestProgress { .. }
            | News::QuestOffer { .. }
            | News::QuestComplete
            | News::QuestTemplate { .. }
            | News::QuestObjective
            | News::QuestFailed { .. }
            | News::QuestLogFull
            | News::QuestGiverRefused { .. } => {
                self.hear_quests(event, &mut effects);
            },
        }
        effects
    }
}

/// News of quests.
pub open spec fn is_quest_news(news: News) -> bool {
    match news {
        News::QuestGiverStatus { .. }
        | News::QuestGreeting { .. }
        | News::QuestDetail { .. }
        | News::QuestProgress { .. }
        | News::QuestOffer { .. }
        | News::QuestComplete
        | News::QuestTemplate { .. }
        | News::QuestObjective
        | News::QuestFailed { .. }
        | News::QuestLogFull
        | News::QuestGiverRefused { .. } => true,
        _ => false,
    }
}

/// News of mail.
pub open spec fn is_mail_news(news: News) -> bool {
    match news {
        News::MailList { .. }
        | News::SendMailResult { .. }
        | News::MailItemText { .. }
        | News::ReceivedMail
        | News::NextMailTime { .. } => true,
        _ => false,
    }
}

/// What is said, to us or in the group.
pub open spec fn is_talk_news(news: News) -> bool {
    match news {
        News::Chat { .. }
        | News::ChannelList { .. }
        | News::ChatPlayerNotFound { .. }
        | News::ChatWrongFaction
        | News::Notification { .. }
        | News::PlayedTime { .. }
        | News::GroupLines { .. }
        | News::GroupList { .. }
        | News::Gossip { .. } => true,
        _ => false,
    }
}

/// News that our death turns on.
pub open spec fn is_death_news(news: News) -> bool {
    match news {
        News::ObjectCreate { .. }
        | News::ObjectDestroyed { .. }
        | News::CorpseQuery { .. }
        | News::CorpseReclaimDelay { .. }
        | News::ResurrectRequest { .. }
        | News::SpiritHealerConfirm { .. }
        | News::DurabilityDamageDeath
        | News::MoveRoot { .. }
        | News::WaterWalk { .. } => true,
        _ => false,
    }
}

/// Answers to name queries.
pub open spec fn is_name_news(news: News) -> bool {
    match news {
        News::PlayerName { .. } | News::PetName { .. } | News::CreatureName { .. } => true,
        _ => false,
    }
}

/// The state of a client that knows nothing.
pub open spec fn fresh_client() -> ClientView {
    ClientView {
        self_guid: None,
        index: Map::empty(),
        genders: Map::empty(),
        home_bind: None,
        proficiencies: Map::empty(),
        players: Map::empty(),
        pets: Map::empty(),
        creatures: Map::empty(),
        death: DeathNet {
            corpse_guid: None,
            corpse: None,
            reclaim_at: None,
            reclaim_generation: 0,
            resurrect: None,
            spirit_healer: None,
            water_walk: false,
        },
        quest: QuestGiverView {
            status: Map::empty(),
            panel: None,
            completed_fanfare: false,
            reask: 0,
        },
        quest_log: Map::empty(),
        chat: Seq::empty(),
        mail: MailView {
            mailbox: None,
            mails: Seq::empty(),
            send_acks: Seq::empty(),
            errors: Seq::empty(),
            bodies: Map::empty(),
            pending_bodies: Set::empty(),
        },
        mail_pending: MailPending { seconds: None },
        equip_errors: Seq::empty(),
        error_lines: Seq::empty(),
        mount_errors: Seq::empty(),
        cast_bar: Seq::empty(),
        world_states: Map::empty(),
        play_seq: 0,
    }
}

/// The descriptors that land, as guid and entity: those whose object is there.
pub open spec fn landed(index: Map<u64, u64>, staged: Seq<u64>) -> Seq<(u64, u64)>
    decreases staged.len(),
{
    if staged.len() == 0 {
        seq![]
    } else {
        match found(index, staged.last()) {
            Some(entity) => landed(index, staged.drop_last()).push((staged.last(), entity)),
            None => landed(index, staged.drop_last()),
        }
    }
}

/// Land the descriptors that were staged during a run of reports, each given by its object's guid.
pub fn flush_staged(index: &HashMap<u64, u64>, staged: &Vec<u64>) -> (r: Vec<(u64, u64)>)
    ensures
        r@ == landed(index@, staged@),
{
    let mut r: Vec<(u64, u64)> = Vec::new();
    for i in 0..staged.len()
        invariant
            r@ == landed(index@, staged@.take(i as int)),
    {
        assert(staged@.take(i + 1).drop_last() == staged@.take(i as int));
        if let Some(entity) = index.get(&staged[i]) {
            r.push((staged[i], *entity));
        }
    }
    assert(staged@.take(staged.len() as int) == staged@);
    r
}

/// The entities that are our own avatar and are not marked as such yet: those of our guid, once we
/// know it.
pub open spec fn own_entities(me: Option<u64>, unmarked: Seq<(u64, u64)>) -> Seq<u64>
    decreases unmarked.len(),
{
    if unmarked.len() == 0 || me is None {
        seq![]
    } else if unmarked.last().1 == me->0 {
        own_entities(me, unmarked.drop_last()).push(unmarked.last().0)
    } else {
        own_entities(me, unmarked.drop_last())
    }
}

/// Find our own avatar among the unmarked entities, each given with its guid.
pub fn tag_self_player(me: Option<u64>, unmarked: &Vec<(u64, u64)>) -> (r: Vec<u64>)
    ensures
        r@ == own_entities(me, unmarked@),
{
    let mut r: Vec<u64> = Vec::new();
    if let Some(own) = me {
        for i in 0..unmarked.len()
            invariant
                me == Some(own),
                r@ == own_entities(me, unmarked@.take(i as int)),
        {
            assert(unmarked@.take(i + 1).drop_last() == unmarked@.take(i as int));
            let (entity, guid) = unmarked[i];
            if guid == own {
                r.push(entity);
            }
        }
        assert(unmarked@.take(unmarked.len() as int) == unmarked@);
    }
    r
}

/// The stamp that an effect carries.
pub open spec fn stamp_of(effect: Effect) -> Option<u64> {
    match effect {
        Effect::Hand { seq, .. } => seq,
        Effect::KitPush { seq, .. } => Some(seq),
        _ => None,
    }
}

/// Stamps that lie after `low` and up to `high`, each later one above each earlier one.
pub open spec fn stamps_ascend(effects: Seq<Effect>, low: u64, high: u64) -> bool {
    &&& forall|i: int|
        0 <= i < effects.len() ==> (stamp_of(#[trigger] effects[i]) matches Some(seq) ==> low < seq
            <= high)
    &&& forall|i: int, j: int|
        0 <= i < j < effects.len() && stamp_of(effects[i]) is Some && stamp_of(effects[j]) is Some
            ==> stamp_of(#[trigger] effects[i])->0 < stamp_of(#[trigger] effects[j])->0
}

proof fn one_report_stamps_once(s: ClientView, ev: SessionEvent)
    requires
        s.play_seq < u64::MAX,
    ensures
        s.play_seq <= state_after(s, ev).play_seq <= s.play_seq + 1,
        stamps_ascend(effects_of(s, ev), s.play_seq, state_after(s, ev).play_seq),
{
    reveal(state_after);
    reveal(effects_of);
    match ev.news {
        News::MailList { mails } => {
            let commands = deletions(mails@, s.mail.mailbox);
            assert(forall|i: int|
                0 <= i < commands.len() ==> #[trigger] sends(commands)[i] == Effect::Send(
                    commands[i],
                ));
        },
        _ => {},
    }
}

/// Reports as they are applied one after the other, each with the state that it meets. From one report
/// to the next only the stamp is carried: what is done for a report may change everything else.
pub open spec fn stamps_carry(steps: Seq<(ClientView, SessionEvent)>) -> bool {
    forall|i: int, j: int|
        0 <= i && j == i + 1 && j < steps.len() ==> (#[trigger] steps[j]).0.play_seq == state_after(
            (#[trigger] steps[i]).0,
            steps[i].1,
        ).play_seq
}

/// What the reports call for, in order.
pub open spec fn called_for(steps: Seq<(ClientView, SessionEvent)>) -> Seq<Effect>
    decreases steps.len(),
{
    if steps.len() == 0 {
        seq![]
    } else {
        called_for(steps.drop_last()) + effects_of(steps.last().0, steps.last().1)
    }
}

/// Animations play in the order in which the server caused them: over a run of reports every stamp is
/// above all the stamps before it, whatever else is done in between.
pub proof fn stamps_follow_the_order_of_reports(steps: Seq<(ClientView, SessionEvent)>)
    requires
        steps.len() > 0,
        stamps_carry(steps),
        steps[0].0.play_seq + steps.len() <= u64::MAX,
    ensures
        ({
            let start = steps[0].0.play_seq;
            let end = state_after(steps.last().0, steps.last().1).play_seq;
            &&& start <= end <= start + steps.len()
            &&& stamps_ascend(called_for(steps), start, end)
        }),
    decreases steps.len(),
{
    let start = steps[0].0.play_seq;
    let earlier = steps.drop_last();
    let (s, ev) = steps.last();
    let end = state_after(s, ev).play_seq;
    let before = called_for(earlier);
    let after = effects_of(s, ev);
    let all = before + after;
    if earlier.len() > 0 {
        assert(stamps_carry(earlier)) by {
            assert forall|i: int, j: int| 0 <= i && j == i + 1 && j < earlier.len() implies (
            #[trigger] earlier[j]).0.play_seq == state_after(
                (#[trigger] earlier[i]).0,
                earlier[i].1,
            ).play_seq by {
                assert(earlier[i] == steps[i] && earlier[j] == steps[j]);
            }
        }
        stamps_follow_the_order_of_reports(earlier);
        assert(earlier.last() == steps[steps.len() - 2]);
        assert(steps[steps.len() - 1] == steps.last());
    }
    one_report_stamps_once(s, ev);
    assert forall|i: int| 0 <= i < all.len() implies (stamp_of(#[trigger] all[i]) matches Some(seq)
        ==> start < seq <= end) by {
        if i < before.len() {
            assert(all[i] == before[i]);
        } else {
            assert(all[i] == after[i - before.len()]);
        }
    }
    assert forall|i: int, j: int|
        0 <= i < j < all.len() && stamp_of(all[i]) is Some && stamp_of(
            all[j],
        ) is Some implies stamp_of(#[trigger] all[i])->0 < stamp_of(#[trigger] all[j])->0 by {
        if j < before.len() {
            assert(all[i] == before[i] && all[j] == before[j]);
        } else if i >= before.len() {
            assert(all[i] == after[i - before.len()] && all[j] == after[j - before.len()]);
        } else {
            assert(all[i] == before[i] && all[j] == after[j - before.len()]);
        }
    }
}

/// Someone we ignore leaves no trace here: nothing is shown and nothing changes; only a whisper is
/// answered, so that its sender learns of it.
pub proof fn the_ignored_are_silent(s: ClientView, ticket: u64, chat_type: u8, sender: u64)
    ensures
        ({
            let ev = SessionEvent {
                ticket,
                news: News::Chat { chat_type, sender, ignored: true },
            };
            &&& state_after(s, ev) == s
            &&& effects_of(s, ev) == (if chat_type == CHAT_MSG_WHISPER {
                seq![Effect::Send(ClientCommand::ChatIgnored { guid: sender })]
            } else {
                seq![]
            })
        }),
{
    reveal(state_after);
    reveal(effects_of);
}

/// Our corpse is remembered while it is in range and forgotten when it is gone, so a reclaim never
/// names a corpse that is not there.
pub proof fn a_corpse_is_forgotten_when_it_goes(s: ClientView, guid: u64, first: u64, second: u64)
    requires
        s.self_guid is Some,
    ensures
        ({
            let seen = state_after(
                s,
                SessionEvent {
                    ticket: first,
                    news: News::ObjectCreate { guid, other: true, corpse_owner: s.self_guid },
                },
            );
            let gone = state_after(
                seen,
                SessionEvent { ticket: second, news: News::ObjectDestroyed { guid } },
            );
            &&& seen.death.corpse_guid == Some(guid)
            &&& gone.death.corpse_guid is None
        }),
{
    reveal(state_after);
    reveal(effects_of);
}

/// What the server says of another mover's root, water walk or flourish does not move ours: only our
/// own guid is acted on, and our own flourish, which we have shown already, is not shown again.
pub proof fn only_our_own_mover_is_moved(s: ClientView, ticket: u64, guid: u64, counter: u32, on: bool)
    ensures
        s.self_guid != Some(guid) ==> {
            let root = SessionEvent { ticket, news: News::MoveRoot { guid, counter, rooted: on } };
            let walk = SessionEvent { ticket, news: News::WaterWalk { guid, counter, on } };
            &&& effects_of(s, root) == Seq::<Effect>::empty()
            &&& effects_of(s, walk) == Seq::<Effect>::empty()
            &&& state_after(s, walk) == s
        },
        s.self_guid == Some(guid) ==> effects_of(
            s,
            SessionEvent { ticket, news: News::MountSpecial { guid } },
        ) == Seq::<Effect>::empty(),
{
    reveal(state_after);
    reveal(effects_of);
}

/// A world state holds what was written to it last, and one that was not written keeps its value.
pub proof fn the_last_world_state_stands(table: Map<u32, u32>, states: Seq<(u32, u32)>, id: u32)
    ensures
        (forall|i: int| 0 <= i < states.len() ==> (#[trigger] states[i]).0 != id) ==> (states_after(
            table,
            states,
        ).dom().contains(id) == table.dom().contains(id) && states_after(table, states)[id]
            == table[id]),
        forall|i: int|
            0 <= i < states.len() && (#[trigger] states[i]).0 == id && (forall|k: int|
                i < k < states.len() ==> (#[trigger] states[k]).0 != id) ==> states_after(
                table,
                states,
            )[id] == states[i].1,
    decreases states.len(),
{
    if states.len() > 0 {
        let before = states.drop_last();
        the_last_world_state_stands(table, before, id);
        assert forall|i: int|
            0 <= i < states.len() && (#[trigger] states[i]).0 == id && (forall|k: int|
                i < k < states.len() ==> (#[trigger] states[k]).0 != id) implies states_after(
            table,
            states,
        )[id] == states[i].1 by {
            if i < before.len() {
                assert(before[i] == states[i]);
                assert(states[states.len() - 1].0 != id);
                assert(forall|k: int| i < k < before.len() ==> (#[trigger] before[k]) == states[k]);
            }
        }
        if forall|i: int| 0 <= i < states.len() ==> (#[trigger] states[i]).0 != id {
            assert(states[states.len() - 1].0 != id);
            assert(forall|i: int| 0 <= i < before.len() ==> (#[trigger] before[i]) == states[i]);
        }
    }
}

/// A stamp goes one on, and from its greatest value round to nought.
pub proof fn stamps_go_round(seq: u64)
    ensures
        next_seq(seq) as int == (seq + 1) % 0x1_0000_0000_0000_0000,
{
}

} // verus!
