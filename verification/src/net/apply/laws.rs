//! What holds of the reports: what each changes, what it leaves alone, and what it calls for.
use vstd::prelude::*;

use crate::net::apply::chat::{
    a_span_has_one_spelling, played_text, system_line, ChatEventKind,
};
use crate::net::apply::mail::{deletions, kept_rows, MailListEntry, MailPending};
use crate::net::apply::quests::{QuestGiverView, QuestPanel, QuestRecord, QuestView};
use crate::net::apply::{
    effects_of, fresh_client, landed, own_entities, state_after, CastBarEdge, Client,
    ClientView, CorpsePoint, CreatureTraits, DeathNet, Effect, EmoteKind, News, ServerSoundKind,
    SessionEvent,
};
use crate::net::ClientCommand;
use crate::single::{zero, Double, Single};
use crate::text::{decimal, hex_byte};

verus! {

/// What someone says whom we do not ignore is handed on, whatever sort of talk it is: its ticket, with
/// no stamp, and that is all. Nothing is kept of it here and nothing is sent to the server for it.
pub proof fn talk_is_handed_on(s: ClientView, ticket: u64, chat_type: u8, sender: u64)
    ensures
        ({
            let ev = SessionEvent {
                ticket,
                news: News::Chat { chat_type, sender, ignored: false },
            };
            &&& state_after(s, ev) == s
            &&& effects_of(s, ev) == seq![Effect::Hand { ticket, seq: None }]
            &&& forall|i: int|
                0 <= i < effects_of(s, ev).len() ==> !(#[trigger] effects_of(s, ev)[i] is Send)
        }),
{
    reveal(state_after);
    reveal(effects_of);
}

/// What someone says whom we ignore is never handed on. Only a whisper is answered: its sender is told
/// that we ignore them.
pub proof fn the_ignored_are_told_of_a_whisper(
    s: ClientView,
    ticket: u64,
    chat_type: u8,
    sender: u64,
)
    ensures
        ({
            let ev = SessionEvent { ticket, news: News::Chat { chat_type, sender, ignored: true } };
            let effects = effects_of(s, ev);
            &&& state_after(s, ev) == s
            &&& chat_type != 0x6 ==> effects.len() == 0
            &&& chat_type == 0x6 ==> effects.len() == 1 && effects[0] == Effect::Send(
                ClientCommand::ChatIgnored { guid: sender },
            )
        }),
{
    reveal(state_after);
    reveal(effects_of);
}

/// A report that belongs elsewhere is handed on under its ticket and changes nothing here; one that
/// drives an animation carries the next stamp, which is then the last one given; one that nobody acts
/// on does nothing.
pub proof fn reports_for_others_are_handed_on(s: ClientView, ticket: u64)
    requires
        s.play_seq < u64::MAX,
    ensures
        ({
            let ev = SessionEvent { ticket, news: News::Elsewhere };
            &&& state_after(s, ev) == s
            &&& effects_of(s, ev) == seq![Effect::Hand { ticket, seq: None }]
        }),
        ({
            let ev = SessionEvent { ticket, news: News::Unheard };
            &&& state_after(s, ev) == s
            &&& effects_of(s, ev).len() == 0
        }),
        ({
            let ev = SessionEvent { ticket, news: News::Animated };
            let stamp = (s.play_seq + 1) as u64;
            &&& state_after(s, ev) == ClientView { play_seq: stamp, ..s }
            &&& effects_of(s, ev) == seq![Effect::Hand { ticket, seq: Some(stamp) }]
        }),
{
    reveal(state_after);
    reveal(effects_of);
}

/// An object that comes or goes is handed on. A thing that is neither unit nor player nor game object
/// and whose owner we are is our corpse, and stays it until that very object goes; nothing else here
/// changes.
pub proof fn our_corpse_comes_and_goes(
    s: ClientView,
    ticket: u64,
    guid: u64,
    other: bool,
    corpse_owner: Option<u64>,
)
    ensures
        ({
            let ev = SessionEvent {
                ticket,
                news: News::ObjectCreate { guid, other, corpse_owner },
            };
            let after = state_after(s, ev);
            &&& effects_of(s, ev) == seq![Effect::Hand { ticket, seq: None }]
            &&& other && corpse_owner is Some && s.self_guid == corpse_owner
                ==> after.death.corpse_guid == Some(guid)
            &&& !other || corpse_owner is None || s.self_guid != corpse_owner ==> after == s
            &&& after == ClientView {
                death: DeathNet { corpse_guid: after.death.corpse_guid, ..s.death },
                ..s
            }
        }),
        ({
            let ev = SessionEvent { ticket, news: News::ObjectDestroyed { guid } };
            let after = state_after(s, ev);
            &&& effects_of(s, ev) == seq![Effect::Hand { ticket, seq: None }]
            &&& s.death.corpse_guid == Some(guid) ==> after.death.corpse_guid is None
            &&& s.death.corpse_guid != Some(guid) ==> after == s
            &&& after == ClientView {
                death: DeathNet { corpse_guid: after.death.corpse_guid, ..s.death },
                ..s
            }
        }),
{
    reveal(state_after);
    reveal(effects_of);
}

/// A change of standing is handed on, and every questgiver's status is asked for once more; news of an
/// objective asks likewise.
pub proof fn statuses_are_asked_again(s: ClientView, ticket: u64)
    requires
        s.quest.reask < u32::MAX,
    ensures
        ({
            let standing = SessionEvent { ticket, news: News::ReputationDelta };
            let objective = SessionEvent { ticket, news: News::QuestObjective };
            let after = state_after(s, standing);
            &&& after.quest.reask == s.quest.reask + 1
            &&& after == ClientView {
                quest: QuestGiverView { reask: after.quest.reask, ..s.quest },
                ..s
            }
            &&& state_after(s, objective) == after
            &&& effects_of(s, standing) == seq![Effect::Hand { ticket, seq: None }]
            &&& effects_of(s, objective).len() == 0
        }),
{
    reveal(state_after);
    reveal(effects_of);
}

/// The home is the last area that was named, and what we can use of an item class is the last mask that
/// was named for it; of the other classes nothing changes.
pub proof fn home_and_skills_are_kept(
    s: ClientView,
    ticket: u64,
    area: u32,
    item_class: u8,
    subclass_mask: u32,
)
    ensures
        ({
            let ev = SessionEvent { ticket, news: News::BindPoint { area } };
            &&& state_after(s, ev) == ClientView { home_bind: Some(area), ..s }
            &&& effects_of(s, ev).len() == 0
        }),
        ({
            let ev = SessionEvent { ticket, news: News::Proficiency { item_class, subclass_mask } };
            let after = state_after(s, ev);
            &&& after == ClientView {
                proficiencies: s.proficiencies.insert(item_class, subclass_mask),
                ..s
            }
            &&& effects_of(s, ev).len() == 0
        }),
{
    reveal(state_after);
    reveal(effects_of);
}

/// A name is kept under the player, or the pet, that it was asked for; the names of all others stay.
pub proof fn names_are_kept(
    s: ClientView,
    ticket: u64,
    guid: u64,
    pet_number: u32,
    name: String,
)
    ensures
        ({
            let ev = SessionEvent { ticket, news: News::PlayerName { guid, name } };
            &&& state_after(s, ev) == ClientView { players: s.players.insert(guid, name), ..s }
            &&& effects_of(s, ev).len() == 0
        }),
        ({
            let ev = SessionEvent { ticket, news: News::PetName { pet_number, name } };
            &&& state_after(s, ev) == ClientView { pets: s.pets.insert(pet_number, name), ..s }
            &&& effects_of(s, ev).len() == 0
        }),
{
    reveal(state_after);
    reveal(effects_of);
}

/// A creature is kept under its entry with all that came of it, and with no type where none came; an
/// entry without a name is kept as unknown. Nothing else changes.
pub proof fn creatures_are_kept(
    s: ClientView,
    ticket: u64,
    entry: u32,
    name: Option<String>,
    subname: Option<String>,
    traits: CreatureTraits,
)
    ensures
        ({
            let ev = SessionEvent {
                ticket,
                news: News::CreatureName { entry, name, subname, traits },
            };
            let after = state_after(s, ev);
            &&& after.creatures.dom() == s.creatures.dom().insert(entry)
            &&& forall|e: u32| e != entry ==> #[trigger] after.creatures[e] == s.creatures[e]
            &&& name is None ==> after.creatures[entry] is None
            &&& name matches Some(called) ==> (after.creatures[entry] matches Some(record) && {
                &&& record.name == called
                &&& record.subname == subname
                &&& traits.creature_type matches Some(t) ==> record.creature_type == t
                &&& traits.creature_type is None ==> record.creature_type == 0
                &&& record.rank == traits.rank
                &&& record.type_flags == traits.type_flags
                &&& record.civilian == traits.civilian
                &&& record.racial_leader == traits.racial_leader
            })
            &&& after == ClientView { creatures: after.creatures, ..s }
            &&& effects_of(s, ev).len() == 0
        }),
{
    reveal(state_after);
    reveal(effects_of);
}

/// The server's sounds are played: each as what it is, under its own id, and at the object that makes
/// it where that one has streamed in.
pub proof fn sounds_are_played(s: ClientView, ticket: u64, id: u32, guid: u64)
    ensures
        ({
            let ev = SessionEvent { ticket, news: News::PlaySound { sound_id: id } };
            &&& state_after(s, ev) == s
            &&& effects_of(s, ev) == seq![
                Effect::Sound { kind: ServerSoundKind::Sound2d, sound_id: id, source: None },
            ]
        }),
        ({
            let ev = SessionEvent { ticket, news: News::PlayMusic { music_id: id } };
            &&& state_after(s, ev) == s
            &&& effects_of(s, ev) == seq![
                Effect::Sound { kind: ServerSoundKind::Music, sound_id: id, source: None },
            ]
        }),
        ({
            let ev = SessionEvent { ticket, news: News::PlayObjectSound { sound_id: id, guid } };
            let effects = effects_of(s, ev);
            &&& state_after(s, ev) == s
            &&& effects.len() == 1
            &&& effects[0] matches Effect::Sound { kind, sound_id, source } && {
                &&& kind == ServerSoundKind::ObjectSound
                &&& sound_id == id
                &&& s.index.dom().contains(guid) ==> source == Some(s.index[guid])
                &&& !s.index.dom().contains(guid) ==> source is None
            }
        }),
{
    reveal(state_after);
    reveal(effects_of);
}

/// An emote is shown on the unit that makes it, where that one has streamed in: one of text as text, and
/// one of movement as movement, under its own id.
pub proof fn emotes_are_shown(s: ClientView, ticket: u64, guid: u64, id: u32)
    ensures
        ({
            let text = SessionEvent { ticket, news: News::TextEmote { guid, text_emote: id } };
            let anim = SessionEvent { ticket, news: News::Emote { guid, emote_id: id } };
            &&& state_after(s, text) == s
            &&& state_after(s, anim) == s
            &&& effects_of(s, text).len() == 1
            &&& effects_of(s, anim).len() == 1
            &&& effects_of(s, text)[0] matches Effect::Emote { source, kind } && {
                &&& kind == EmoteKind::Text(id)
                &&& s.index.dom().contains(guid) ==> source == Some(s.index[guid])
                &&& !s.index.dom().contains(guid) ==> source is None
            }
            &&& effects_of(s, anim)[0] matches Effect::Emote { source, kind } && {
                &&& kind == EmoteKind::Anim(id)
                &&& s.index.dom().contains(guid) ==> source == Some(s.index[guid])
                &&& !s.index.dom().contains(guid) ==> source is None
            }
        }),
{
    reveal(state_after);
    reveal(effects_of);
}

/// A channel's roster makes one line, in that channel, that counts its members; the log keeps what it
/// held, and nothing else happens.
pub proof fn a_roster_makes_a_line(
    s: ClientView,
    ticket: u64,
    channel: String,
    members: Vec<(u64, u8)>,
)
    ensures
        ({
            let ev = SessionEvent { ticket, news: News::ChannelList { channel, members } };
            let after = state_after(s, ev);
            &&& after.chat.len() == s.chat.len() + 1
            &&& after.chat.drop_last() == s.chat
            &&& after.chat.last().kind == ChatEventKind::ChannelList
            &&& after.chat.last().text == decimal(members@.len()) + " member(s)"@
            &&& after.chat.last().channel == channel@
            &&& after == ClientView { chat: after.chat, ..s }
            &&& effects_of(s, ev).len() == 0
        }),
{
    reveal(state_after);
    reveal(effects_of);
}

/// The notices that name nobody but the player, and those that the server words itself, make one line
/// each, in no channel; the log keeps what it held, and nothing else happens.
pub proof fn notices_make_a_line(s: ClientView, ticket: u64, news: News, said: Seq<char>)
    requires
        match news {
            News::ChatPlayerNotFound { name } => said == "No player named '"@ + name@
                + "' is currently playing."@,
            News::ChatWrongFaction => said == "You can only whisper to members of your alliance."@,
            News::Notification { text } => said == text@,
            News::QuestLogFull => said == "Your quest log is full."@,
            News::QuestGiverRefused { reason } => said == "Quest failed ("@ + hex_byte(
                reason as nat,
            ) + ")."@,
            _ => false,
        },
    ensures
        ({
            let ev = SessionEvent { ticket, news };
            let after = state_after(s, ev);
            &&& after.chat.len() == s.chat.len() + 1
            &&& after.chat.drop_last() == s.chat
            &&& after.chat.last().kind == ChatEventKind::System
            &&& after.chat.last().text == said
            &&& after.chat.last().channel.len() == 0
            &&& after == ClientView { chat: after.chat, ..s }
            &&& effects_of(s, ev).len() == 0
        }),
{
    reveal(state_after);
    reveal(effects_of);
}

/// The time played makes two lines: first that in all and then that at this level, each in days, hours
/// below a day, minutes below an hour and seconds below a minute that add up to it.
pub proof fn time_played_makes_two_lines(
    s: ClientView,
    ticket: u64,
    total: u32,
    level: u32,
    parts: (nat, nat, nat, nat),
    level_parts: (nat, nat, nat, nat),
)
    requires
        parts.0 * 86400 + parts.1 * 3600 + parts.2 * 60 + parts.3 == total,
        parts.1 < 24 && parts.2 < 60 && parts.3 < 60,
        level_parts.0 * 86400 + level_parts.1 * 3600 + level_parts.2 * 60 + level_parts.3 == level,
        level_parts.1 < 24 && level_parts.2 < 60 && level_parts.3 < 60,
    ensures
        ({
            let ev = SessionEvent { ticket, news: News::PlayedTime { total, level } };
            let after = state_after(s, ev);
            let n = s.chat.len() as int;
            &&& after.chat.len() == n + 2
            &&& after.chat.take(n) == s.chat
            &&& after.chat[n].kind == ChatEventKind::System
            &&& after.chat[n].channel.len() == 0
            &&& after.chat[n].text == "Total time played"@ + ": "@ + decimal(parts.0) + " days, "@
                + decimal(parts.1) + " hours, "@ + decimal(parts.2) + " minutes, "@ + decimal(
                parts.3,
            ) + " seconds"@
            &&& after.chat[n + 1].kind == ChatEventKind::System
            &&& after.chat[n + 1].channel.len() == 0
            &&& after.chat[n + 1].text == "Time played this level"@ + ": "@ + decimal(level_parts.0)
                + " days, "@ + decimal(level_parts.1) + " hours, "@ + decimal(level_parts.2)
                + " minutes, "@ + decimal(level_parts.3) + " seconds"@
            &&& after == ClientView { chat: after.chat, ..s }
            &&& effects_of(s, ev).len() == 0
        }),
{
    a_span_has_one_spelling(total, parts.0, parts.1, parts.2, parts.3);
    a_span_has_one_spelling(level, level_parts.0, level_parts.1, level_parts.2, level_parts.3);
    let ev = SessionEvent { ticket, news: News::PlayedTime { total, level } };
    let said = s.chat.push(system_line(played_text("Total time played"@, total))).push(
        system_line(played_text("Time played this level"@, level)),
    );
    assert(state_after(s, ev) == ClientView { chat: said, ..s }) by {
        reveal(state_after);
    }
    assert(effects_of(s, ev).len() == 0) by {
        reveal(effects_of);
    }
    assert(said.take(s.chat.len() as int) =~= s.chat);
}

/// The group's lines join the log, one for each and in their order, as system lines; the log keeps what
/// it held. The roster also has every questgiver's status asked for once more.
pub proof fn group_lines_join_the_log(s: ClientView, ticket: u64, lines: Vec<String>, roster: bool)
    requires
        s.quest.reask < u32::MAX,
    ensures
        ({
            let ev = SessionEvent {
                ticket,
                news: if roster {
                    News::GroupList { lines }
                } else {
                    News::GroupLines { lines }
                },
            };
            let after = state_after(s, ev);
            let n = s.chat.len() as int;
            &&& after.chat.len() == n + lines@.len()
            &&& after.chat.take(n) == s.chat
            &&& forall|i: int|
                0 <= i < lines@.len() ==> (#[trigger] after.chat[n + i]).text == lines@[i]@
                    && after.chat[n + i].kind == ChatEventKind::System && after.chat[n
                    + i].channel.len() == 0
            &&& after.quest.reask == s.quest.reask + (if roster {
                1int
            } else {
                0
            })
            &&& after == ClientView {
                chat: after.chat,
                quest: QuestGiverView { reask: after.quest.reask, ..s.quest },
                ..s
            }
            &&& effects_of(s, ev).len() == 0
        }),
{
    reveal(state_after);
    reveal(effects_of);
}

/// Our corpse lies where the server says, and nowhere that is known where it says that there is none.
pub proof fn a_corpse_lies_where_it_was_found(
    s: ClientView,
    ticket: u64,
    found: bool,
    point: CorpsePoint,
)
    ensures
        ({
            let ev = SessionEvent { ticket, news: News::CorpseQuery { found, point } };
            let after = state_after(s, ev);
            &&& found ==> after.death.corpse == Some(point)
            &&& !found ==> after.death.corpse is None
            &&& after == ClientView {
                death: DeathNet { corpse: after.death.corpse, ..s.death },
                ..s
            }
            &&& effects_of(s, ev).len() == 0
        }),
{
    reveal(state_after);
    reveal(effects_of);
}

/// A reclaim delay is kept, and each one counts.
pub proof fn each_reclaim_delay_counts(s: ClientView, ticket: u64, at: Double)
    requires
        s.death.reclaim_generation < u32::MAX,
    ensures
        ({
            let ev = SessionEvent { ticket, news: News::CorpseReclaimDelay { at } };
            let after = state_after(s, ev);
            &&& after.death.reclaim_at == Some(at)
            &&& after.death.reclaim_generation == s.death.reclaim_generation + 1
            &&& after == ClientView {
                death: DeathNet {
                    reclaim_at: after.death.reclaim_at,
                    reclaim_generation: after.death.reclaim_generation,
                    ..s.death
                },
                ..s
            }
            &&& effects_of(s, ev).len() == 0
        }),
{
    reveal(state_after);
    reveal(effects_of);
}

/// An offer to resurrect us is kept as it was made, the last one that was made; so is the healer who
/// asks whether we are sure.
pub proof fn offers_are_kept(
    s: ClientView,
    ticket: u64,
    caster: u64,
    name: String,
    sickness: bool,
    has_timer: bool,
)
    ensures
        ({
            let ev = SessionEvent {
                ticket,
                news: News::ResurrectRequest { caster, name, sickness, has_timer },
            };
            let after = state_after(s, ev);
            &&& after.death.resurrect matches Some(offer) && offer.caster == caster && offer.name
                == name && offer.sickness == sickness && offer.has_timer == has_timer
            &&& after == ClientView {
                death: DeathNet { resurrect: after.death.resurrect, ..s.death },
                ..s
            }
            &&& effects_of(s, ev).len() == 0
        }),
        ({
            let ev = SessionEvent { ticket, news: News::SpiritHealerConfirm { npc: caster } };
            let after = state_after(s, ev);
            &&& after == ClientView {
                death: DeathNet { spirit_healer: Some(caster), ..s.death },
                ..s
            }
            &&& effects_of(s, ev).len() == 0
        }),
{
    reveal(state_after);
    reveal(effects_of);
}

/// The toll of a death on what we wear is one error line.
pub proof fn a_death_wears_us_down(s: ClientView, ticket: u64)
    ensures
        ({
            let ev = SessionEvent { ticket, news: News::DurabilityDamageDeath };
            let after = state_after(s, ev);
            &&& after.error_lines == s.error_lines.push(
                "Your equipped items suffer a 10% durability loss."@,
            )
            &&& after == ClientView { error_lines: after.error_lines, ..s }
            &&& effects_of(s, ev).len() == 0
        }),
{
    reveal(state_after);
    reveal(effects_of);
}

/// A root, and a walk on water, that is ordered of us is passed on as it was ordered: for our guid, with
/// its counter, on or off. Whether we walk on water is kept; a root is not. One that is ordered of
/// another changes nothing and calls for nothing.
pub proof fn orders_to_us_are_passed_on(
    s: ClientView,
    ticket: u64,
    guid: u64,
    counter: u32,
    on: bool,
)
    ensures
        ({
            let ev = SessionEvent { ticket, news: News::MoveRoot { guid, counter, rooted: on } };
            &&& state_after(s, ev) == s
            &&& s.self_guid == Some(guid) ==> effects_of(s, ev) == seq![
                Effect::MoveRoot { guid, counter, rooted: on },
            ]
            &&& s.self_guid != Some(guid) ==> effects_of(s, ev).len() == 0
        }),
        ({
            let ev = SessionEvent { ticket, news: News::WaterWalk { guid, counter, on } };
            let after = state_after(s, ev);
            &&& s.self_guid == Some(guid) ==> after.death.water_walk == on && effects_of(s, ev)
                == seq![Effect::WaterWalk { guid, counter, on }]
            &&& s.self_guid != Some(guid) ==> after == s && effects_of(s, ev).len() == 0
            &&& after == ClientView {
                death: DeathNet { water_walk: after.death.water_walk, ..s.death },
                ..s
            }
        }),
{
    reveal(state_after);
    reveal(effects_of);
}

/// A level brings one talent point from the tenth on, and none before it.
pub proof fn a_level_brings_a_talent_point(s: ClientView, ticket: u64, level: u32)
    ensures
        ({
            let ev = SessionEvent { ticket, news: News::LevelUp { level } };
            &&& state_after(s, ev) == s
            &&& effects_of(s, ev).len() == 1
            &&& level >= 10 ==> effects_of(s, ev)[0] == (Effect::LevelUp {
                ticket,
                talent_points: 1,
            })
            &&& level < 10 ==> effects_of(s, ev)[0] == (Effect::LevelUp {
                ticket,
                talent_points: 0,
            })
        }),
{
    reveal(state_after);
    reveal(effects_of);
}

/// The start of a channel, and each update of it, goes to the cast bar and to its clock alike, as it
/// came.
pub proof fn a_channel_shows_on_the_cast_bar(
    s: ClientView,
    ticket: u64,
    spell_id: u32,
    duration_ms: u32,
    remaining_ms: u32,
)
    ensures
        ({
            let ev = SessionEvent { ticket, news: News::ChannelStart { spell_id, duration_ms } };
            let edge = CastBarEdge::ChannelStart { spell_id, duration_ms };
            &&& state_after(s, ev) == ClientView { cast_bar: s.cast_bar.push(edge), ..s }
            &&& effects_of(s, ev) == seq![Effect::Channel(edge)]
        }),
        ({
            let ev = SessionEvent { ticket, news: News::ChannelUpdate { remaining_ms } };
            let edge = CastBarEdge::ChannelUpdate { remaining_ms };
            &&& state_after(s, ev) == ClientView { cast_bar: s.cast_bar.push(edge), ..s }
            &&& effects_of(s, ev) == seq![Effect::Channel(edge)]
        }),
{
    reveal(state_after);
    reveal(effects_of);
}

/// A visual plays on its own unit, where that has streamed in, under its own id and the next stamp,
/// which is then the last one given. Without the unit, or without a visual, nothing plays and no stamp
/// is spent.
pub proof fn a_visual_plays_on_its_unit(
    s: ClientView,
    ticket: u64,
    unit: u64,
    kit_id: u32,
    worldly: bool,
)
    requires
        s.play_seq < u64::MAX,
    ensures
        ({
            let ev = SessionEvent {
                ticket,
                news: if worldly {
                    News::EnvironmentalDamageLog { victim: unit, kit_id: Some(kit_id) }
                } else {
                    News::PlaySpellVisual { unit, kit_id }
                },
            };
            let stamp = (s.play_seq + 1) as u64;
            &&& s.index.dom().contains(unit) ==> {
                &&& state_after(s, ev) == ClientView { play_seq: stamp, ..s }
                &&& effects_of(s, ev) == seq![
                    Effect::KitPush { entity: s.index[unit], kit_id, seq: stamp },
                ]
            }
            &&& !s.index.dom().contains(unit) ==> state_after(s, ev) == s && effects_of(s, ev).len()
                == 0
        }),
        ({
            let ev = SessionEvent {
                ticket,
                news: News::EnvironmentalDamageLog { victim: unit, kit_id: None },
            };
            &&& state_after(s, ev) == s
            &&& effects_of(s, ev).len() == 0
        }),
{
    reveal(state_after);
    reveal(effects_of);
}

/// A gossip window's text is handed on with the gender of whose window it is: what its descriptor says,
/// where it has streamed in and its descriptor says anything, and male otherwise.
pub proof fn gossip_goes_by_gender(s: ClientView, ticket: u64, npc: Option<u64>)
    ensures
        ({
            let ev = SessionEvent { ticket, news: News::Gossip { npc } };
            let effects = effects_of(s, ev);
            &&& state_after(s, ev) == s
            &&& effects.len() == 1
            &&& effects[0] matches Effect::Gossip { ticket: handed, gender } && {
                &&& handed == ticket
                &&& npc is None ==> gender == 0
                &&& npc matches Some(npc) ==> {
                    let known = s.index.dom().contains(npc) && s.genders.dom().contains(
                        s.index[npc],
                    );
                    &&& known ==> gender == s.genders[s.index[npc]]
                    &&& !known ==> gender == 0
                }
            }
        }),
{
    reveal(state_after);
    reveal(effects_of);
}

/// A questgiver's status is kept under that questgiver; those of all others stay.
pub proof fn statuses_are_kept(s: ClientView, ticket: u64, npc: u64, status: u32)
    ensures
        ({
            let ev = SessionEvent { ticket, news: News::QuestGiverStatus { npc, status } };
            let after = state_after(s, ev);
            &&& after.quest.status == s.quest.status.insert(npc, status)
            &&& after == ClientView {
                quest: QuestGiverView { status: after.quest.status, ..s.quest },
                ..s
            }
            &&& effects_of(s, ev).len() == 0
        }),
{
    reveal(state_after);
    reveal(effects_of);
}

/// A questgiver's page opens the window on that npc, on the page that came and on its quest, and under
/// the ticket of its own message; whatever was open gives way, and nothing else changes.
pub proof fn a_page_opens_the_window(
    s: ClientView,
    ticket: u64,
    npc: u64,
    quest_id: u32,
    news: News,
    view: QuestView,
)
    requires
        match view {
            QuestView::Greeting => news == (News::QuestGreeting { npc }),
            QuestView::Detail { quest_id: q } => q == quest_id && news == (News::QuestDetail {
                npc,
                quest_id,
            }),
            QuestView::Progress { quest_id: q } => q == quest_id && news == (News::QuestProgress {
                npc,
                quest_id,
            }),
            QuestView::Reward { quest_id: q } => q == quest_id && news == (News::QuestOffer {
                npc,
                quest_id,
            }),
        },
    ensures
        ({
            let ev = SessionEvent { ticket, news };
            let after = state_after(s, ev);
            &&& after.quest.panel == Some(QuestPanel { npc, view, ticket })
            &&& after == ClientView {
                quest: QuestGiverView { panel: after.quest.panel, ..s.quest },
                ..s
            }
            &&& effects_of(s, ev).len() == 0
        }),
{
    reveal(state_after);
    reveal(effects_of);
}

/// A quest that is turned in owes a fanfare, closes the window and has every status asked for once more.
pub proof fn a_quest_turned_in_is_celebrated(s: ClientView, ticket: u64)
    requires
        s.quest.reask < u32::MAX,
    ensures
        ({
            let ev = SessionEvent { ticket, news: News::QuestComplete };
            let after = state_after(s, ev);
            &&& after.quest.completed_fanfare
            &&& after.quest.panel is None
            &&& after.quest.reask == s.quest.reask + 1
            &&& after.quest.status == s.quest.status
            &&& after == ClientView { quest: after.quest, ..s }
            &&& effects_of(s, ev).len() == 0
        }),
{
    reveal(state_after);
    reveal(effects_of);
}

/// A quest's template is kept under its id: its title, and the ticket of its message.
pub proof fn templates_are_kept(s: ClientView, ticket: u64, quest_id: u32, title: String)
    ensures
        ({
            let ev = SessionEvent { ticket, news: News::QuestTemplate { quest_id, title } };
            let after = state_after(s, ev);
            &&& after.quest_log == s.quest_log.insert(quest_id, QuestRecord { title, ticket })
            &&& after == ClientView { quest_log: after.quest_log, ..s }
            &&& effects_of(s, ev).len() == 0
        }),
{
    reveal(state_after);
    reveal(effects_of);
}

/// A failed quest makes one line, by its title where its template is here; where it is not, that is
/// asked for. Every status is asked for once more.
pub proof fn a_failed_quest_is_told_by_its_title(s: ClientView, ticket: u64, quest_id: u32)
    requires
        s.quest.reask < u32::MAX,
    ensures
        ({
            let ev = SessionEvent { ticket, news: News::QuestFailed { quest_id } };
            let after = state_after(s, ev);
            let known = s.quest_log.dom().contains(quest_id);
            &&& after.chat.len() == s.chat.len() + 1
            &&& after.chat.drop_last() == s.chat
            &&& after.chat.last().kind == ChatEventKind::System
            &&& after.chat.last().channel.len() == 0
            &&& known ==> after.chat.last().text == s.quest_log[quest_id].title@ + " failed."@
            &&& !known ==> after.chat.last().text == "Quest failed."@
            &&& known ==> effects_of(s, ev).len() == 0
            &&& !known ==> effects_of(s, ev) == seq![Effect::AskQuest { quest_id }]
            &&& after.quest.reask == s.quest.reask + 1
            &&& after == ClientView {
                chat: after.chat,
                quest: QuestGiverView { reask: after.quest.reask, ..s.quest },
                ..s
            }
        }),
{
    reveal(state_after);
    reveal(effects_of);
}

/// A mount, or a dismount, that did not go well is remembered with its code; one that went well is not:
/// ten for the one and three for the other.
pub proof fn failed_mounts_are_remembered(s: ClientView, ticket: u64, mount: bool, code: u32)
    ensures
        ({
            let ev = SessionEvent { ticket, news: News::MountResult { mount, code } };
            let after = state_after(s, ev);
            let well = mount && code == 10 || !mount && code == 3;
            &&& well ==> after == s
            &&& !well ==> after == ClientView {
                mount_errors: s.mount_errors.push((mount, code)),
                ..s
            }
            &&& effects_of(s, ev).len() == 0
        }),
{
    reveal(state_after);
    reveal(effects_of);
}

/// Another's mount rears where it has streamed in; ours does not rear again for the server's word.
pub proof fn anothers_mount_rears(s: ClientView, ticket: u64, guid: u64)
    ensures
        ({
            let ev = SessionEvent { ticket, news: News::MountSpecial { guid } };
            let shown = s.index.dom().contains(guid) && s.self_guid != Some(guid);
            &&& state_after(s, ev) == s
            &&& shown ==> effects_of(s, ev) == seq![Effect::MountFlourish { unit: s.index[guid] }]
            &&& !shown ==> effects_of(s, ev).len() == 0
        }),
{
    reveal(state_after);
    reveal(effects_of);
}

/// A letter that comes is kept under its id and is no longer awaited; others that are awaited still are.
pub proof fn letters_are_kept(s: ClientView, ticket: u64, text_id: u32, text: String)
    ensures
        ({
            let ev = SessionEvent { ticket, news: News::MailItemText { text_id, text } };
            let after = state_after(s, ev);
            &&& after.mail.bodies == s.mail.bodies.insert(text_id, text)
            &&& forall|id: u32| #[trigger]
                after.mail.pending_bodies.contains(id) <==> s.mail.pending_bodies.contains(id) && id
                    != text_id
            &&& after.mail.mailbox == s.mail.mailbox
            &&& after.mail.mails == s.mail.mails
            &&& after.mail.send_acks == s.mail.send_acks
            &&& after.mail.errors == s.mail.errors
            &&& after == ClientView { mail: after.mail, ..s }
            &&& effects_of(s, ev).len() == 0
        }),
{
    reveal(state_after);
    reveal(effects_of);
}

/// Mail that has arrived is waiting now, and an open mailbox asks for its own list; the time that the
/// server names for the next is kept as it is.
pub proof fn new_mail_is_waiting(s: ClientView, ticket: u64, seconds: Single)
    ensures
        ({
            let ev = SessionEvent { ticket, news: News::ReceivedMail };
            let after = state_after(s, ev);
            &&& after == ClientView { mail_pending: MailPending { seconds: Some(zero()) }, ..s }
            &&& s.mail.mailbox matches Some(mailbox) ==> effects_of(s, ev) == seq![
                Effect::Send(ClientCommand::GetMailList { mailbox }),
            ]
            &&& s.mail.mailbox is None ==> effects_of(s, ev).len() == 0
        }),
        ({
            let ev = SessionEvent { ticket, news: News::NextMailTime { seconds } };
            let after = state_after(s, ev);
            &&& after == ClientView { mail_pending: MailPending { seconds: Some(seconds) }, ..s }
            &&& effects_of(s, ev).len() == 0
        }),
{
    reveal(state_after);
    reveal(effects_of);
}

/// A result of the mail touches the mail and the inventory's failures, and nothing else.
///
/// A send is answered: well where there was no error, with the error's line for an error of the mail's
/// own, and without one otherwise. Anything else that went well has the open mailbox ask for its list,
/// and an error of the mail's own shows its line. A failure of the inventory goes where those are.
pub proof fn a_mail_result_is_answered(
    s: ClientView,
    ticket: u64,
    action: u32,
    error: u32,
    equip_error: Option<u32>,
    error_text: String,
)
    ensures
        ({
            let ev = SessionEvent {
                ticket,
                news: News::SendMailResult { action, error, equip_error, error_text },
            };
            let after = state_after(s, ev);
            let before = s.mail;
            &&& after.mail.mailbox == before.mailbox
            &&& after.mail.mails == before.mails
            &&& after.mail.bodies == before.bodies
            &&& after.mail.pending_bodies == before.pending_bodies
            &&& action == 0 ==> {
                &&& after.mail.errors == before.errors
                &&& after.mail.send_acks.len() == before.send_acks.len() + 1
                &&& after.mail.send_acks.drop_last() == before.send_acks
                &&& after.mail.send_acks.last().ok <==> error == 0
                &&& error == 0 || error == 1 ==> after.mail.send_acks.last().error_text is None
                &&& error > 1 ==> after.mail.send_acks.last().error_text == Some(error_text@)
                &&& effects_of(s, ev).len() == 0
            }
            &&& action != 0 ==> {
                &&& after.mail.send_acks == before.send_acks
                &&& error == 0 || error == 1 ==> after.mail.errors == before.errors
                &&& error > 1 ==> after.mail.errors == before.errors.push(error_text@)
                &&& error == 0 && before.mailbox is Some ==> effects_of(s, ev) == seq![
                    Effect::Send(ClientCommand::GetMailList { mailbox: before.mailbox->0 }),
                ]
                &&& error != 0 || before.mailbox is None ==> effects_of(s, ev).len() == 0
            }
            &&& error != 1 ==> after.equip_errors == s.equip_errors
            &&& error == 1 ==> {
                &&& after.equip_errors.len() == s.equip_errors.len() + 1
                &&& after.equip_errors.drop_last() == s.equip_errors
                &&& after.equip_errors.last().1 is None
                &&& equip_error is None ==> after.equip_errors.last().0 == 0
                &&& equip_error matches Some(code) ==> (code < 256 ==> after.equip_errors.last().0
                    == code)
            }
            &&& after == ClientView {
                mail: after.mail,
                equip_errors: after.equip_errors,
                ..s
            }
        }),
{
    reveal(state_after);
    reveal(effects_of);
    let ev = SessionEvent {
        ticket,
        news: News::SendMailResult { action, error, equip_error, error_text },
    };
    let after = state_after(s, ev);
    assert(after.mail.send_acks.len() > 0 && action == 0 ==> after.mail.send_acks.drop_last()
        =~= s.mail.send_acks);
    assert(error == 1 ==> after.equip_errors.drop_last() =~= s.equip_errors);
}

/// A list of the inbox keeps, of the rows that came and in their order, those that have not run out. A
/// row that has run out is deleted on the server by its own id from the mailbox that is open, and from
/// none where none is. Where every row that stays was read no mail is waiting any more; where one was
/// not, what was waiting still is.
pub proof fn an_inbox_lists_what_has_not_run_out(
    s: ClientView,
    ticket: u64,
    mails: Vec<MailListEntry>,
)
    ensures
        ({
            let ev = SessionEvent { ticket, news: News::MailList { mails } };
            let after = state_after(s, ev);
            let kept = after.mail.mails;
            let effects = effects_of(s, ev);
            &&& kept == mails@.filter(|row: MailListEntry| !row.expire_days.at_most(zero()))
            &&& s.mail.mailbox is None ==> effects.len() == 0
            &&& s.mail.mailbox matches Some(mailbox) ==> effects == mails@.filter(
                |row: MailListEntry| row.expire_days.at_most(zero()),
            ).map_values(
                |row: MailListEntry|
                    Effect::Send(ClientCommand::MailDelete { mailbox, mail_id: row.message_id }),
            )
            &&& (forall|i: int| 0 <= i < kept.len() ==> (#[trigger] kept[i]).checked & 0x1 != 0)
                ==> after.mail_pending.seconds is None
            &&& (exists|i: int| 0 <= i < kept.len() && (#[trigger] kept[i]).checked & 0x1 == 0)
                ==> after.mail_pending == s.mail_pending
            &&& after.mail.mailbox == s.mail.mailbox
            &&& after.mail.bodies == s.mail.bodies
            &&& after.mail.pending_bodies == s.mail.pending_bodies
            &&& after.mail.send_acks == s.mail.send_acks
            &&& after.mail.errors == s.mail.errors
            &&& after == ClientView { mail: after.mail, mail_pending: after.mail_pending, ..s }
        }),
{
    reveal(state_after);
    reveal(effects_of);
    let ev = SessionEvent { ticket, news: News::MailList { mails } };
    let kept = state_after(s, ev).mail.mails;
    assert(kept =~= mails@.filter(|row: MailListEntry| !row.expire_days.at_most(zero()))) by {
        rows_stay_in_order(mails@);
    }
    if let Some(mailbox) = s.mail.mailbox {
        rows_run_out_in_order(mails@, mailbox);
        assert(effects_of(s, ev) =~= mails@.filter(
            |row: MailListEntry| row.expire_days.at_most(zero()),
        ).map_values(
            |row: MailListEntry|
                Effect::Send(ClientCommand::MailDelete { mailbox, mail_id: row.message_id }),
        ));
    }
}

proof fn rows_stay_in_order(rows: Seq<MailListEntry>)
    ensures
        kept_rows(rows) == rows.filter(|row: MailListEntry| !row.expire_days.at_most(zero())),
    decreases rows.len(),
{
    reveal(Seq::filter);
    if rows.len() > 0 {
        rows_stay_in_order(rows.drop_last());
    }
}

proof fn rows_run_out_in_order(rows: Seq<MailListEntry>, mailbox: u64)
    ensures
        deletions(rows, Some(mailbox)) == rows.filter(
            |row: MailListEntry| row.expire_days.at_most(zero()),
        ).map_values(
            |row: MailListEntry| ClientCommand::MailDelete { mailbox, mail_id: row.message_id },
        ),
    decreases rows.len(),
{
    reveal(Seq::filter);
    if rows.len() > 0 {
        rows_run_out_in_order(rows.drop_last(), mailbox);
    }
    assert(deletions(rows, Some(mailbox)) =~= rows.filter(
        |row: MailListEntry| row.expire_days.at_most(zero()),
    ).map_values(
        |row: MailListEntry| ClientCommand::MailDelete { mailbox, mail_id: row.message_id },
    ));
}

/// A descriptor that was staged lands on the entity of its own guid where that has streamed in, and not
/// otherwise; those that land do so in the order in which they were staged.
pub proof fn descriptors_land_on_their_own(index: Map<u64, u64>, staged: Seq<u64>)
    ensures
        landed(index, staged).map_values(|pair: (u64, u64)| pair.0) == staged.filter(
            |guid: u64| index.dom().contains(guid),
        ),
        forall|i: int|
            0 <= i < landed(index, staged).len() ==> index.dom().contains(
                (#[trigger] landed(index, staged)[i]).0,
            ) && landed(index, staged)[i].1 == index[landed(index, staged)[i].0],
    decreases staged.len(),
{
    reveal(Seq::filter);
    if staged.len() > 0 {
        descriptors_land_on_their_own(index, staged.drop_last());
    }
    assert(landed(index, staged).map_values(|pair: (u64, u64)| pair.0) =~= staged.filter(
        |guid: u64| index.dom().contains(guid),
    ));
}

/// Until we know our guid nobody is us; from then on just those of the unmarked entities are that carry
/// it.
pub proof fn we_are_those_of_our_guid(me: Option<u64>, unmarked: Seq<(u64, u64)>)
    ensures
        me is None ==> own_entities(me, unmarked).len() == 0,
        me matches Some(own) ==> own_entities(me, unmarked) == unmarked.filter(
            |pair: (u64, u64)| pair.1 == own,
        ).map_values(|pair: (u64, u64)| pair.0),
    decreases unmarked.len(),
{
    reveal(Seq::filter);
    if unmarked.len() > 0 {
        we_are_those_of_our_guid(me, unmarked.drop_last());
    }
    if let Some(own) = me {
        assert(own_entities(me, unmarked) =~= unmarked.filter(
            |pair: (u64, u64)| pair.1 == own,
        ).map_values(|pair: (u64, u64)| pair.0));
    }
}

/// A fresh client is nobody and knows of nothing: every table, log and queue is empty, and no stamp has
/// been given.
pub proof fn a_fresh_client_knows_nothing()
    ensures
        ({
            let s = fresh_client();
            &&& s.self_guid is None && s.home_bind is None
            &&& s.index.dom() == Set::<u64>::empty() && s.genders.dom() == Set::<u64>::empty()
            &&& s.proficiencies.dom() == Set::<u8>::empty() && s.players.dom() == Set::<
                u64,
            >::empty()
            &&& s.pets.dom() == Set::<u32>::empty() && s.creatures.dom() == Set::<u32>::empty()
            &&& s.death.corpse_guid is None && s.death.corpse is None && s.death.reclaim_at is None
            &&& s.death.reclaim_generation == 0 && s.death.resurrect is None
            &&& s.death.spirit_healer is None && !s.death.water_walk
            &&& s.quest.status.dom() == Set::<u64>::empty() && s.quest.panel is None
            &&& !s.quest.completed_fanfare && s.quest.reask == 0
            &&& s.quest_log.dom() == Set::<u32>::empty() && s.chat.len() == 0
            &&& s.mail.mailbox is None && s.mail.mails.len() == 0 && s.mail.send_acks.len() == 0
            &&& s.mail.errors.len() == 0 && s.mail.bodies.dom() == Set::<u32>::empty()
            &&& s.mail.pending_bodies == Set::<u32>::empty() && s.mail_pending.seconds is None
            &&& s.equip_errors.len() == 0 && s.error_lines.len() == 0 && s.mount_errors.len() == 0
            &&& s.cast_bar.len() == 0 && s.world_states.dom() == Set::<u32>::empty()
            &&& s.play_seq == 0
        }),
{
}

/// The state that the laws speak of is what the client holds, line for line.
pub proof fn the_view_shows_what_is_held(client: Client)
    ensures
        client@.self_guid == client.self_guid,
        client@.index == client.index@,
        client@.genders == client.genders@,
        client@.home_bind == client.home_bind,
        client@.proficiencies == client.proficiencies@,
        client@.players == client.players@,
        client@.pets == client.pets@,
        client@.creatures == client.creatures@,
        client@.death == client.death,
        client@.quest.status == client.quest.status@,
        client@.quest.panel == client.quest.panel,
        client@.quest.completed_fanfare == client.quest.completed_fanfare,
        client@.quest.reask == client.quest.reask,
        client@.quest_log == client.quest_log.templates@,
        client@.chat.len() == client.chat.events@.len(),
        forall|i: int|
            0 <= i < client@.chat.len() ==> (#[trigger] client@.chat[i]).kind
                == client.chat.events@[i].kind && client@.chat[i].text
                == client.chat.events@[i].text@ && client@.chat[i].channel
                == client.chat.events@[i].channel@,
        client@.mail.mailbox == client.mail.mailbox,
        client@.mail.mails == client.mail.mails@,
        client@.mail.bodies == client.mail.bodies@,
        client@.mail.pending_bodies == client.mail.pending_bodies@,
        client@.mail.errors.len() == client.mail.errors@.len(),
        forall|i: int|
            0 <= i < client@.mail.errors.len() ==> #[trigger] client@.mail.errors[i]
                == client.mail.errors@[i]@,
        client@.mail.send_acks.len() == client.mail.send_acks@.len(),
        forall|i: int|
            0 <= i < client@.mail.send_acks.len() ==> (#[trigger] client@.mail.send_acks[i]).ok
                == client.mail.send_acks@[i].ok && (client@.mail.send_acks[i].error_text is Some
                <==> client.mail.send_acks@[i].error_text is Some) && (
            client.mail.send_acks@[i].error_text matches Some(text)
                ==> client@.mail.send_acks[i].error_text == Some(text@)),
        client@.mail_pending == client.mail_pending,
        client@.equip_errors == client.equip_errors.codes@,
        client@.error_lines.len() == client.error_lines@.len(),
        forall|i: int|
            0 <= i < client@.error_lines.len() ==> #[trigger] client@.error_lines[i]
                == client.error_lines@[i]@,
        client@.mount_errors == client.mount_errors@,
        client@.cast_bar == client.cast_bar@,
        client@.world_states == client.world_states@,
        client@.play_seq == client.play_seq,
{
}

} // verus!
