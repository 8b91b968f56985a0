//! The questgiver's window, the quest log's cache, and the lines that quest news becomes.
use vstd::prelude::*;
use std::collections::HashMap;

use crate::net::apply::chat::{system_line, ChatLog};
use crate::text::{hex_byte, push_hex_byte};

verus! {

broadcast use vstd::std_specs::hash::group_hash_axioms;

/// A page of the questgiver's window.
#[derive(Clone, Copy, Debug, PartialEq, Eq, Structural)]
pub enum QuestView {
    /// The quests on offer and in progress.
    Greeting,
    /// A quest to accept.
    Detail { quest_id: u32 },
    /// What a quest still asks for.
    Progress { quest_id: u32 },
    /// What a quest gives.
    Reward { quest_id: u32 },
}

/// The questgiver's window. What its page says is kept under the ticket of the message that opened
/// it.
#[derive(Clone, Copy, Debug, PartialEq, Eq, Structural)]
pub struct QuestPanel {
    pub npc: u64,
    pub view: QuestView,
    pub ticket: u64,
}

/// The state around questgivers.
pub struct QuestGiver {
    /// The dialog status of each one that reported it.
    pub status: HashMap<u64, u32>,
    /// The window, while it is open.
    pub panel: Option<QuestPanel>,
    /// A quest was turned in: the fanfare is to be played.
    pub completed_fanfare: bool,
    /// Counts the occasions on which every status is to be asked for again.
    pub reask: u32,
}

/// The state around questgivers, as its contents.
#[verifier::ext_equal]
pub struct QuestGiverView {
    pub status: Map<u64, u32>,
    pub panel: Option<QuestPanel>,
    pub completed_fanfare: bool,
    pub reask: u32,
}

impl View for QuestGiver {
    type V = QuestGiverView;

    open spec fn view(&self) -> QuestGiverView {
        QuestGiverView {
            status: self.status@,
            panel: self.panel,
            completed_fanfare: self.completed_fanfare,
            reask: self.reask,
        }
    }
}

impl QuestGiverView {
    /// The window shows a page of an npc's, as the message under a ticket has it.
    pub open spec fn showing(self, npc: u64, view: QuestView, ticket: u64) -> QuestGiverView {
        QuestGiverView { panel: Some(QuestPanel { npc, view, ticket }), ..self }
    }

    /// A quest was turned in: the fanfare is owed and the window closes.
    pub open spec fn turned_in(self) -> QuestGiverView {
        QuestGiverView { completed_fanfare: true, panel: None, ..self }
    }

    /// Every status is to be asked for once more.
    pub open spec fn asking(self) -> QuestGiverView {
        QuestGiverView { reask: bumped(self.reask), ..self }
    }
}

impl QuestGiver {
    /// No window, and no status known.
    pub fn new() -> (quest: QuestGiver)
        ensures
            quest@ == (QuestGiverView {
                status: Map::empty(),
                panel: None,
                completed_fanfare: false,
                reask: 0,
            }),
    {
        QuestGiver { status: HashMap::new(), panel: None, completed_fanfare: false, reask: 0 }
    }

    /// Ask for every status again.
    pub fn bump_reask(&mut self)
        ensures
            final(self)@ == old(self)@.asking(),
    {
        self.reask = self.reask.wrapping_add(1);
    }

    fn open(&mut self, npc: u64, view: QuestView, ticket: u64)
        ensures
            final(self)@ == old(self)@.showing(npc, view, ticket),
    {
        self.panel = Some(QuestPanel { npc, view, ticket });
    }

    fn clear(&mut self)
        ensures
            final(self)@ == (QuestGiverView { panel: None, ..old(self)@ }),
    {
        self.panel = None;
    }
}

/// A counter one step on, wrapping round.
pub open spec fn bumped(n: u32) -> u32 {
    if n == u32::MAX {
        0
    } else {
        (n + 1) as u32
    }
}

/// A quest's template: its title, and the ticket of the message that holds the rest of it.
pub struct QuestRecord {
    pub title: String,
    pub ticket: u64,
}

/// The templates that have come, by quest id.
pub struct QuestLog {
    pub templates: HashMap<u32, QuestRecord>,
}

impl View for QuestLog {
    type V = Map<u32, QuestRecord>;

    open spec fn view(&self) -> Map<u32, QuestRecord> {
        self.templates@
    }
}

impl QuestLog {
    /// An empty cache.
    pub fn new() -> (log: QuestLog)
        ensures
            log@ == Map::<u32, QuestRecord>::empty(),
    {
        QuestLog { templates: HashMap::new() }
    }
}

/// The dialog status of one questgiver.
pub fn quest_giver_status(npc: u64, status: u32, quest: &mut QuestGiver)
    ensures
        final(quest)@ == (QuestGiverView {
            status: old(quest)@.status.insert(npc, status),
            ..old(quest)@
        }),
{
    quest.status.insert(npc, status);
}

/// The window shows the quests on offer.
pub fn quest_greeting(npc: u64, ticket: u64, quest: &mut QuestGiver)
    ensures
        final(quest)@ == old(quest)@.showing(npc, QuestView::Greeting, ticket),
{
    quest.open(npc, QuestView::Greeting, ticket);
}

/// The window shows a quest to accept.
pub fn quest_detail(npc: u64, quest_id: u32, ticket: u64, quest: &mut QuestGiver)
    ensures
        final(quest)@ == old(quest)@.showing(npc, QuestView::Detail { quest_id }, ticket),
{
    quest.open(npc, QuestView::Detail { quest_id }, ticket);
}

/// The window shows what a quest still asks for.
pub fn quest_progress(npc: u64, quest_id: u32, ticket: u64, quest: &mut QuestGiver)
    ensures
        final(quest)@ == old(quest)@.showing(npc, QuestView::Progress { quest_id }, ticket),
{
    quest.open(npc, QuestView::Progress { quest_id }, ticket);
}

/// The window shows what a quest gives.
pub fn quest_offer(npc: u64, quest_id: u32, ticket: u64, quest: &mut QuestGiver)
    ensures
        final(quest)@ == old(quest)@.showing(npc, QuestView::Reward { quest_id }, ticket),
{
    quest.open(npc, QuestView::Reward { quest_id }, ticket);
}

/// A quest was turned in: the fanfare is owed and the window closes.
pub fn quest_complete(quest: &mut QuestGiver)
    ensures
        final(quest)@ == old(quest)@.turned_in(),
{
    quest.completed_fanfare = true;
    quest.clear();
}

/// A quest's template has come.
pub fn quest_template(quest_id: u32, title: String, ticket: u64, quest_log: &mut QuestLog)
    ensures
        final(quest_log)@ == old(quest_log)@.insert(
            quest_id,
            (QuestRecord { title, ticket }),
        ),
{
    quest_log.templates.insert(quest_id, QuestRecord { title, ticket });
}

/// The line of a failed quest: by its title where that is known.
pub open spec fn failed_text(templates: Map<u32, QuestRecord>, quest_id: u32) -> Seq<char> {
    if templates.dom().contains(quest_id) {
        templates[quest_id].title@ + " failed."@
    } else {
        "Quest failed."@
    }
}

/// A quest has failed. Is its template to be asked for?
pub fn quest_failed(quest_id: u32, quest_log: &QuestLog, chat_log: &mut ChatLog) -> (ask: bool)
    ensures
        final(chat_log)@ == old(chat_log)@.push(
            system_line(failed_text(quest_log@, quest_id)),
        ),
        ask == !quest_log@.dom().contains(quest_id),
{
    match quest_log.templates.get(&quest_id) {
        Some(template) => {
            let mut text: String = String::from_str(template.title.as_str());
            text.append(" failed.");
            chat_log.push_system(text);
            false
        },
        None => {
            chat_log.push_system(String::from_str("Quest failed."));
            true
        },
    }
}

/// There is no room for another quest.
pub fn quest_log_full(chat_log: &mut ChatLog)
    ensures
        final(chat_log)@ == old(chat_log)@.push(system_line("Your quest log is full."@)),
{
    chat_log.push_system(String::from_str("Your quest log is full."));
}

/// The line of a refused questgiver: its reason code.
pub open spec fn refused_text(reason: u32) -> Seq<char> {
    "Quest failed ("@ + hex_byte(reason as nat) + ")."@
}

/// A questgiver refused.
pub fn quest_giver_refused(reason: u32, chat_log: &mut ChatLog)
    ensures
        final(chat_log)@ == old(chat_log)@.push(system_line(refused_text(reason))),
{
    let mut text: String = String::from_str("Quest failed (");
    push_hex_byte(&mut text, reason as u64);
    text.append(").");
    chat_log.push_system(text);
}

/// A counter goes one on, and from its greatest value round to nought.
pub proof fn counters_go_round(n: u32)
    ensures
        bumped(n) as int == (n + 1) % 0x1_0000_0000,
{
}

} // verus!
