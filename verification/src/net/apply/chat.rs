//! The chat log, and the lines that the server's notices and answers become.
use vstd::prelude::*;

use crate::text::{decimal, push_decimal};

verus! {

/// What sort of line an event is.
#[derive(Clone, Copy, Debug, PartialEq, Eq, Structural)]
pub enum ChatEventKind {
    System,
    ChannelList,
}

/// One event in the chat log.
pub struct ChatEvent {
    pub kind: ChatEventKind,
    pub text: String,
    /// The channel it belongs to; empty for none.
    pub channel: String,
}

/// A chat event as its kind and characters.
#[verifier::ext_equal]
pub struct ChatLine {
    pub kind: ChatEventKind,
    pub text: Seq<char>,
    pub channel: Seq<char>,
}

impl View for ChatEvent {
    type V = ChatLine;

    open spec fn view(&self) -> ChatLine {
        ChatLine { kind: self.kind, text: self.text@, channel: self.channel@ }
    }
}

impl ChatEvent {
    /// An event of text alone, in no channel.
    pub fn text_only(kind: ChatEventKind, text: String) -> (ev: ChatEvent)
        ensures
            ev@ == text_line(kind, text@),
    {
        ChatEvent { kind, text, channel: String::new() }
    }
}

/// A line of text alone, in no channel.
pub open spec fn text_line(kind: ChatEventKind, text: Seq<char>) -> ChatLine {
    ChatLine { kind, text, channel: Seq::empty() }
}

/// A system line.
pub open spec fn system_line(text: Seq<char>) -> ChatLine {
    text_line(ChatEventKind::System, text)
}

/// A log after one more system line.
pub open spec fn told(log: Seq<ChatLine>, text: Seq<char>) -> Seq<ChatLine> {
    log.push(system_line(text))
}

/// The chat log, oldest event first.
pub struct ChatLog {
    pub events: Vec<ChatEvent>,
}

impl View for ChatLog {
    type V = Seq<ChatLine>;

    open spec fn view(&self) -> Seq<ChatLine> {
        Seq::new(self.events@.len(), |i: int| self.events@[i]@)
    }
}

impl ChatLog {
    /// An empty log.
    pub fn new() -> (log: ChatLog)
        ensures
            log@ == Seq::<ChatLine>::empty(),
    {
        ChatLog { events: Vec::new() }
    }

    /// Add an event.
    pub fn push_event(&mut self, ev: ChatEvent)
        ensures
            final(self)@ == old(self)@.push(ev@),
    {
        self.events.push(ev);
    }

    /// Add a system line.
    pub fn push_system(&mut self, text: String)
        ensures
            final(self)@ == told(old(self)@, text@),
    {
        self.push_event(ChatEvent::text_only(ChatEventKind::System, text));
    }
}

/// The roster of a channel: how many members it has.
pub fn channel_list(channel: String, members: &Vec<(u64, u8)>, chat_log: &mut ChatLog)
    ensures
        final(chat_log)@ == old(chat_log)@.push(
            ChatLine {
                kind: ChatEventKind::ChannelList,
                text: decimal(members@.len()) + " member(s)"@,
                channel: channel@,
            },
        ),
{
    let mut text: String = String::new();
    push_decimal(&mut text, members.len() as u64);
    text.append(" member(s)");
    let ghost written = text@;
    assert(written == decimal(members@.len()) + " member(s)"@);
    let mut ev = ChatEvent::text_only(ChatEventKind::ChannelList, text);
    ev.channel = channel;
    chat_log.push_event(ev);
}

/// Nobody of that name is online to whisper to.
pub fn chat_player_not_found(name: &str, chat_log: &mut ChatLog)
    ensures
        final(chat_log)@ == told(
            old(chat_log)@,
            "No player named '"@ + name@ + "' is currently playing."@,
        ),
{
    let mut text: String = String::from_str("No player named '");
    text.append(name);
    text.append("' is currently playing.");
    chat_log.push_system(text);
}

/// A whisper to the other faction was refused.
pub fn chat_wrong_faction(chat_log: &mut ChatLog)
    ensures
        final(chat_log)@ == told(
            old(chat_log)@,
            "You can only whisper to members of your alliance."@,
        ),
{
    chat_log.push_system(String::from_str("You can only whisper to members of your alliance."));
}

/// A notice from the server, word for word.
pub fn notification(text: String, chat_log: &mut ChatLog)
    ensures
        final(chat_log)@ == told(old(chat_log)@, text@),
{
    chat_log.push_system(text);
}

/// The refusal of an area trigger, word for word.
pub fn area_trigger_message(text: String, chat_log: &mut ChatLog)
    ensures
        final(chat_log)@ == told(old(chat_log)@, text@),
{
    chat_log.push_system(text);
}

/// A span of seconds in days, hours, minutes and seconds.
#[derive(Clone, Copy, Debug, PartialEq, Eq, Structural)]
pub struct Played {
    pub days: u32,
    pub hours: u32,
    pub minutes: u32,
    pub seconds: u32,
}

/// The parts of a span of seconds.
pub open spec fn played_parts(secs: u32) -> Played {
    Played {
        days: secs / 86400,
        hours: (secs % 86400) / 3600,
        minutes: (secs % 3600) / 60,
        seconds: secs % 60,
    }
}

/// A span of seconds in words.
pub open spec fn played_text(label: Seq<char>, secs: u32) -> Seq<char> {
    let p = played_parts(secs);
    label + ": "@ + decimal(p.days as nat) + " days, "@ + decimal(p.hours as nat) + " hours, "@
        + decimal(p.minutes as nat) + " minutes, "@ + decimal(p.seconds as nat) + " seconds"@
}

fn played_line(label: &str, secs: u32) -> (text: String)
    ensures
        text@ == played_text(label@, secs),
{
    let rem: u32 = secs % 86400;
    let hours: u32 = rem / 3600;
    let minutes: u32 = (rem % 3600) / 60;
    let seconds: u32 = (rem % 3600) % 60;
    assert(rem % 3600 == secs % 3600);
    assert((rem % 3600) % 60 == secs % 60);
    let mut text: String = String::from_str(label);
    text.append(": ");
    push_decimal(&mut text, (secs / 86400) as u64);
    text.append(" days, ");
    push_decimal(&mut text, hours as u64);
    text.append(" hours, ");
    push_decimal(&mut text, minutes as u64);
    text.append(" minutes, ");
    push_decimal(&mut text, seconds as u64);
    text.append(" seconds");
    text
}

/// The time played, in all and at this level.
pub fn played_time(total: u32, level: u32, chat_log: &mut ChatLog)
    ensures
        final(chat_log)@ == old(chat_log)@.push(
            system_line(played_text("Total time played"@, total)),
        ).push(system_line(played_text("Time played this level"@, level))),
{
    chat_log.push_system(played_line("Total time played", total));
    chat_log.push_system(played_line("Time played this level", level));
}

/// The parts add up to the span, and each is below the next larger unit.
pub proof fn played_parts_add_up(secs: u32)
    ensures
        ({
            let p = played_parts(secs);
            &&& p.days * 86400 + p.hours * 3600 + p.minutes * 60 + p.seconds == secs
            &&& p.hours < 24
            &&& p.minutes < 60
            &&& p.seconds < 60
        }),
{
}

/// A span has one spelling: whatever days, hours below a day, minutes below an hour and seconds below a
/// minute add up to it are its parts.
pub proof fn a_span_has_one_spelling(secs: u32, days: nat, hours: nat, minutes: nat, seconds: nat)
    requires
        days * 86400 + hours * 3600 + minutes * 60 + seconds == secs,
        hours < 24,
        minutes < 60,
        seconds < 60,
    ensures
        played_parts(secs).days == days,
        played_parts(secs).hours == hours,
        played_parts(secs).minutes == minutes,
        played_parts(secs).seconds == seconds,
{
    played_parts_add_up(secs);
}

/// Telling a thing adds one line behind those that the log holds: a system line of just that text, in no
/// channel. A line of text alone has the kind and the text it was given.
pub proof fn telling_adds_a_system_line(log: Seq<ChatLine>, text: Seq<char>, kind: ChatEventKind)
    ensures
        told(log, text).len() == log.len() + 1,
        told(log, text).drop_last() == log,
        told(log, text).last().kind == ChatEventKind::System,
        told(log, text).last().text == text,
        told(log, text).last().channel.len() == 0,
        text_line(kind, text).kind == kind,
        text_line(kind, text).text == text,
        text_line(kind, text).channel.len() == 0,
{
    assert(told(log, text).drop_last() =~= log);
}

} // verus!
