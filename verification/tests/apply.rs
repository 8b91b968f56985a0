use std::collections::HashMap;

use benilla::net::apply::chat::{
    area_trigger_message, channel_list, chat_player_not_found, chat_wrong_faction, notification,
    played_time, ChatEventKind, ChatLog,
};
use benilla::net::apply::group::push_group_lines;
use benilla::net::apply::mail::{
    mail_item_text, mail_list, next_mail_time, received_mail, send_mail_result, EquipErrors,
    MailListEntry, MailOpen, MailPending, ACTION_SEND, MAIL_EQUIP_ERROR, MAIL_OK,
};
use benilla::net::apply::quests::{
    quest_complete, quest_detail, quest_failed, quest_giver_refused, quest_giver_status,
    quest_greeting, quest_log_full, quest_offer, quest_progress, quest_template, QuestGiver, QuestLog,
    QuestView,
};
use benilla::net::apply::{
    flush_staged, npc_gender, tag_self_player, CastBarEdge, Client, CorpsePoint, CreatureTraits,
    Effect, EmoteKind, News, ServerSoundKind, SessionEvent, CHAT_MSG_WHISPER,
};
use benilla::net::ClientCommand;
use benilla::single::{origin, Double, Single};

fn s(x: f32) -> Single {
    Single::from_bits(x.to_bits())
}

fn texts(log: &ChatLog) -> Vec<&str> {
    log.events.iter().map(|e| e.text.as_str()).collect()
}

#[test]
fn a_channel_says_how_many_are_in_it() {
    let mut log = ChatLog::new();
    channel_list("Trade".to_string(), &vec![(1, 0), (2, 0), (3, 1)], &mut log);
    assert_eq!(log.events[0].kind, ChatEventKind::ChannelList);
    assert_eq!(log.events[0].channel, "Trade");
    assert_eq!(texts(&log), ["3 member(s)"]);
}

#[test]
fn system_lines_are_worded() {
    let mut log = ChatLog::new();
    chat_player_not_found("Thrall", &mut log);
    chat_wrong_faction(&mut log);
    notification("Server restarts".to_string(), &mut log);
    area_trigger_message("You must be level 10".to_string(), &mut log);
    push_group_lines(&mut log, vec!["a joins".to_string(), "b leaves".to_string()]);
    assert_eq!(
        texts(&log),
        [
            "No player named 'Thrall' is currently playing.",
            "You can only whisper to members of your alliance.",
            "Server restarts",
            "You must be level 10",
            "a joins",
            "b leaves",
        ]
    );
    assert!(log.events.iter().all(|e| e.kind == ChatEventKind::System && e.channel.is_empty()));
}

#[test]
fn time_played_is_split_into_its_units() {
    let mut log = ChatLog::new();
    played_time(2 * 86400 + 3 * 3600 + 4 * 60 + 5, 59, &mut log);
    assert_eq!(
        texts(&log),
        [
            "Total time played: 2 days, 3 hours, 4 minutes, 5 seconds",
            "Time played this level: 0 days, 0 hours, 0 minutes, 59 seconds",
        ]
    );
}

fn row(message_id: u32, days: f32, checked: u32) -> MailListEntry {
    MailListEntry { message_id, expire_days: s(days), checked }
}

#[test]
fn expired_mail_is_dropped_and_deleted() {
    let mut mail = MailOpen::new();
    let mut pending = MailPending { seconds: Some(s(0.0)) };
    mail.mailbox = Some(9);
    let rows = vec![row(1, 3.0, 1), row(2, 0.0, 0), row(3, -1.0, 0), row(4, 0.5, 1)];
    let sent = mail_list(&rows, &mut mail, &mut pending);
    assert_eq!(mail.mails, vec![row(1, 3.0, 1), row(4, 0.5, 1)]);
    assert_eq!(
        sent,
        vec![
            ClientCommand::MailDelete { mailbox: 9, mail_id: 2 },
            ClientCommand::MailDelete { mailbox: 9, mail_id: 3 },
        ]
    );
    assert_eq!(pending.seconds, None, "everything that stays was read");
    mail.mailbox = None;
    pending.seconds = Some(s(0.0));
    assert!(mail_list(&vec![row(5, 0.0, 0), row(6, 1.0, 0)], &mut mail, &mut pending).is_empty());
    assert_eq!(pending.seconds, Some(s(0.0)), "an unread one is still waiting");
}

#[test]
fn mail_results_are_answered() {
    let mut mail = MailOpen::new();
    let mut errors = EquipErrors { codes: Vec::new() };
    mail.mailbox = Some(9);
    let mut tell = |mail: &mut MailOpen, action, error, equip| {
        send_mail_result(action, error, equip, "No such player".to_string(), mail, &mut errors)
    };
    assert_eq!(tell(&mut mail, ACTION_SEND, MAIL_OK, None), None);
    assert!(mail.send_acks[0].ok && mail.send_acks[0].error_text.is_none());
    assert_eq!(tell(&mut mail, ACTION_SEND, 4, None), None);
    assert_eq!(mail.send_acks[1].error_text.as_deref(), Some("No such player"));
    assert!(!mail.send_acks[1].ok);
    assert_eq!(tell(&mut mail, ACTION_SEND, MAIL_EQUIP_ERROR, Some(0x132)), None);
    assert!(!mail.send_acks[2].ok && mail.send_acks[2].error_text.is_none());
    assert_eq!(
        tell(&mut mail, 2, MAIL_OK, None),
        Some(ClientCommand::GetMailList { mailbox: 9 })
    );
    assert_eq!(tell(&mut mail, 2, 4, None), None);
    assert_eq!(mail.errors, vec!["No such player".to_string()]);
    assert_eq!(errors.codes, vec![(0x32, None)]);
}

#[test]
fn bodies_and_new_mail_arrive() {
    let mut mail = MailOpen::new();
    mail.pending_bodies.insert(7);
    mail_item_text(7, "Dear X".to_string(), &mut mail);
    assert_eq!(mail.bodies.get(&7).map(|t| t.as_str()), Some("Dear X"));
    assert!(mail.pending_bodies.is_empty());
    let mut pending = MailPending { seconds: None };
    assert_eq!(received_mail(&mut pending, &mail), None);
    assert_eq!(pending.seconds, Some(s(0.0)));
    mail.mailbox = Some(9);
    assert_eq!(
        received_mail(&mut pending, &mail),
        Some(ClientCommand::GetMailList { mailbox: 9 })
    );
    next_mail_time(s(30.0), &mut pending);
    assert_eq!(pending.seconds, Some(s(30.0)));
}

#[test]
fn quest_panels_open_and_close() {
    let mut quest = QuestGiver::new();
    quest_giver_status(5, 3, &mut quest);
    assert_eq!(quest.status.get(&5), Some(&3));
    let view = |q: &QuestGiver| q.panel.as_ref().map(|p| (p.npc, p.view, p.ticket));
    quest_greeting(5, 31, &mut quest);
    assert_eq!(view(&quest), Some((5, QuestView::Greeting, 31)));
    quest_detail(5, 70, 32, &mut quest);
    assert_eq!(view(&quest), Some((5, QuestView::Detail { quest_id: 70 }, 32)));
    quest_progress(5, 70, 33, &mut quest);
    assert_eq!(view(&quest), Some((5, QuestView::Progress { quest_id: 70 }, 33)));
    quest_offer(5, 70, 34, &mut quest);
    assert_eq!(view(&quest), Some((5, QuestView::Reward { quest_id: 70 }, 34)));
    quest_complete(&mut quest);
    assert!(quest.panel.is_none() && quest.completed_fanfare);
}

#[test]
fn quest_failures_are_worded() {
    let mut log = ChatLog::new();
    let mut quests = QuestLog::new();
    assert!(quest_failed(70, &quests, &mut log), "an unknown quest is asked for");
    quest_template(70, "The Lost Sword".to_string(), 35, &mut quests);
    assert_eq!(quests.templates.get(&70).map(|t| t.ticket), Some(35));
    assert!(!quest_failed(70, &quests, &mut log));
    quest_log_full(&mut log);
    quest_giver_refused(5, &mut log);
    quest_giver_refused(0x1c, &mut log);
    assert_eq!(
        texts(&log),
        [
            "Quest failed.",
            "The Lost Sword failed.",
            "Your quest log is full.",
            "Quest failed (0x05).",
            "Quest failed (0x1c).",
        ]
    );
}

fn hear(client: &mut Client, news: News) -> Vec<Effect> {
    client.apply_event(SessionEvent { ticket: 1, news })
}

#[test]
fn stamps_rise_with_the_reports() {
    let mut client = Client::new();
    client.index.insert(80, 8);
    let mut effects = Vec::new();
    for event in [
        SessionEvent { ticket: 1, news: News::Animated },
        SessionEvent { ticket: 2, news: News::Elsewhere },
        SessionEvent { ticket: 3, news: News::PlaySpellVisual { unit: 80, kit_id: 4 } },
        SessionEvent { ticket: 4, news: News::PlaySpellVisual { unit: 81, kit_id: 4 } },
        SessionEvent {
            ticket: 5,
            news: News::EnvironmentalDamageLog { victim: 80, kit_id: None },
        },
    ] {
        effects.extend(client.apply_event(event));
    }
    assert_eq!(
        effects,
        vec![
            Effect::Hand { ticket: 1, seq: Some(1) },
            Effect::Hand { ticket: 2, seq: None },
            Effect::KitPush { entity: 8, kit_id: 4, seq: 2 },
        ]
    );
    assert_eq!(client.play_seq, 2);
}

#[test]
fn the_ignored_are_not_heard() {
    let mut client = Client::new();
    let chat = |chat_type, ignored| News::Chat { chat_type, sender: 6, ignored };
    assert_eq!(hear(&mut client, chat(1, false)), vec![Effect::Hand { ticket: 1, seq: None }]);
    assert!(hear(&mut client, chat(1, true)).is_empty());
    assert_eq!(
        hear(&mut client, chat(CHAT_MSG_WHISPER, true)),
        vec![Effect::Send(ClientCommand::ChatIgnored { guid: 6 })]
    );
}

#[test]
fn our_corpse_is_remembered_while_it_is_there() {
    let mut client = Client::new();
    client.self_guid = Some(2);
    let create =
        |owner| News::ObjectCreate { guid: 50, other: true, corpse_owner: owner };
    hear(&mut client, create(Some(3)));
    assert_eq!(client.death.corpse_guid, None);
    // Before we know who we are, nothing is ours.
    client.self_guid = None;
    hear(&mut client, create(None));
    assert_eq!(client.death.corpse_guid, None);
    client.self_guid = Some(2);
    hear(&mut client, create(Some(2)));
    assert_eq!(client.death.corpse_guid, Some(50));
    hear(&mut client, News::ObjectDestroyed { guid: 51 });
    assert_eq!(client.death.corpse_guid, Some(50));
    hear(&mut client, News::ObjectDestroyed { guid: 50 });
    assert_eq!(client.death.corpse_guid, None);
    let point = CorpsePoint { display_map: 0, position: origin(), corpse_map: 1 };
    hear(&mut client, News::CorpseQuery { found: true, point });
    assert_eq!(client.death.corpse.as_ref().map(|c| c.corpse_map), Some(1));
    let at = Double::from_bits(30.0_f64.to_bits());
    hear(&mut client, News::CorpseReclaimDelay { at });
    assert_eq!((client.death.reclaim_at, client.death.reclaim_generation), (Some(at), 1));
    hear(&mut client, News::SpiritHealerConfirm { npc: 77 });
    assert_eq!(client.death.spirit_healer, Some(77));
    hear(
        &mut client,
        News::ResurrectRequest {
            caster: 5,
            name: "Priest".to_string(),
            sickness: false,
            has_timer: true,
        },
    );
    assert_eq!(client.death.resurrect.as_ref().map(|r| r.caster), Some(5));
}

#[test]
fn only_our_own_mover_is_rooted() {
    let mut client = Client::new();
    client.self_guid = Some(2);
    assert!(hear(&mut client, News::MoveRoot { guid: 3, counter: 1, rooted: true }).is_empty());
    assert_eq!(
        hear(&mut client, News::MoveRoot { guid: 2, counter: 1, rooted: true }),
        vec![Effect::MoveRoot { guid: 2, counter: 1, rooted: true }]
    );
    assert_eq!(
        hear(&mut client, News::WaterWalk { guid: 2, counter: 4, on: true }),
        vec![Effect::WaterWalk { guid: 2, counter: 4, on: true }]
    );
    assert!(client.death.water_walk);
    client.index = HashMap::from([(2, 7), (3, 9)]);
    assert!(hear(&mut client, News::MountSpecial { guid: 2 }).is_empty());
    assert!(hear(&mut client, News::MountSpecial { guid: 4 }).is_empty());
    assert_eq!(
        hear(&mut client, News::MountSpecial { guid: 3 }),
        vec![Effect::MountFlourish { unit: 9 }]
    );
}

#[test]
fn caches_hold_what_was_told_last() {
    let mut client = Client::new();
    hear(&mut client, News::PlayerName { guid: 1, name: "A".to_string() });
    hear(&mut client, News::PlayerName { guid: 1, name: "B".to_string() });
    assert_eq!(client.players.get(&1).map(|n| n.as_str()), Some("B"));
    hear(&mut client, News::PetName { pet_number: 4, name: "Rex".to_string() });
    assert_eq!(client.pets.get(&4).map(|n| n.as_str()), Some("Rex"));
    let creature = |name: Option<&str>| News::CreatureName {
        entry: 9,
        name: name.map(|n| n.to_string()),
        subname: None,
        traits: CreatureTraits {
            creature_type: None,
            rank: 2,
            type_flags: 5,
            civilian: false,
            racial_leader: true,
        },
    };
    hear(&mut client, creature(Some("Wolf")));
    let wolf = client.creatures.get(&9).and_then(|c| c.as_ref()).expect("a wolf");
    assert_eq!((wolf.name.as_str(), wolf.creature_type, wolf.rank), ("Wolf", 0, 2));
    assert_eq!((wolf.type_flags, wolf.civilian, wolf.racial_leader), (5, false, true));
    hear(&mut client, creature(None));
    assert!(client.creatures.get(&9).expect("known").is_none());
    hear(&mut client, News::WorldStates { states: vec![(1, 5), (2, 6), (1, 7)] });
    assert_eq!((client.world_states.get(&1), client.world_states.get(&2)), (Some(&7), Some(&6)));
    hear(&mut client, News::Proficiency { item_class: 2, subclass_mask: 9 });
    assert_eq!(client.proficiencies.get(&2), Some(&9));
    hear(&mut client, News::BindPoint { area: 12 });
    assert_eq!(client.home_bind, Some(12));
}

#[test]
fn sounds_emotes_and_channels_are_passed_on() {
    let mut client = Client::new();
    client.index.insert(80, 8);
    assert_eq!(
        hear(&mut client, News::PlaySound { sound_id: 3 }),
        vec![Effect::Sound { kind: ServerSoundKind::Sound2d, sound_id: 3, source: None }]
    );
    assert_eq!(
        hear(&mut client, News::PlayObjectSound { sound_id: 3, guid: 80 }),
        vec![Effect::Sound { kind: ServerSoundKind::ObjectSound, sound_id: 3, source: Some(8) }]
    );
    assert_eq!(
        hear(&mut client, News::Emote { guid: 80, emote_id: 10 }),
        vec![Effect::Emote { source: Some(8), kind: EmoteKind::Anim(10) }]
    );
    let channel = CastBarEdge::ChannelStart { spell_id: 7, duration_ms: 3000 };
    assert_eq!(
        hear(&mut client, News::ChannelStart { spell_id: 7, duration_ms: 3000 }),
        vec![Effect::Channel(channel)]
    );
    assert_eq!(client.cast_bar, vec![channel]);
}

#[test]
fn mounting_fails_aloud_and_levels_bring_talents() {
    let mut client = Client::new();
    hear(&mut client, News::MountResult { mount: true, code: 10 });
    hear(&mut client, News::MountResult { mount: false, code: 3 });
    assert!(client.mount_errors.is_empty());
    hear(&mut client, News::MountResult { mount: true, code: 3 });
    assert_eq!(client.mount_errors, vec![(true, 3)]);
    assert_eq!(
        hear(&mut client, News::LevelUp { level: 9 }),
        vec![Effect::LevelUp { ticket: 1, talent_points: 0 }]
    );
    assert_eq!(
        hear(&mut client, News::LevelUp { level: 10 }),
        vec![Effect::LevelUp { ticket: 1, talent_points: 1 }]
    );
}

#[test]
fn a_window_speaks_in_the_gender_of_its_npc() {
    let mut client = Client::new();
    client.index = HashMap::from([(5, 50), (6, 60)]);
    client.genders = HashMap::from([(50, 1)]);
    assert_eq!(npc_gender(5, &client.index, &client.genders), 1);
    assert_eq!(npc_gender(6, &client.index, &client.genders), 0);
    assert_eq!(npc_gender(7, &client.index, &client.genders), 0);
    let gossip = |npc| News::Gossip { npc };
    assert_eq!(
        hear(&mut client, gossip(Some(5))),
        vec![Effect::Gossip { ticket: 1, gender: 1 }]
    );
    assert_eq!(hear(&mut client, gossip(None)), vec![Effect::Gossip { ticket: 1, gender: 0 }]);
}

#[test]
fn staged_reports_wait_for_their_entity() {
    let index = HashMap::from([(1, 10), (3, 30)]);
    assert_eq!(flush_staged(&index, &vec![1, 2, 3]), vec![(1, 10), (3, 30)]);
    assert_eq!(tag_self_player(Some(3), &vec![(10, 1), (30, 3)]), vec![30]);
    assert!(tag_self_player(None, &vec![(10, 1)]).is_empty());
}

#[test]
fn what_a_report_calls_for_is_there_for_the_next() {
    let mut client = Client::new();
    let create = News::ObjectCreate { guid: 80, other: true, corpse_owner: None };
    let handed = client.apply_event(SessionEvent { ticket: 8, news: create });
    assert!(handed.contains(&Effect::Hand { ticket: 8, seq: None }));
    let visual = || News::PlaySpellVisual { unit: 80, kit_id: 4 };
    // Before the object has been put into the index its visual finds nobody.
    assert!(hear(&mut client, visual()).is_empty());
    client.index.insert(80, 8);
    assert_eq!(
        hear(&mut client, visual()),
        vec![Effect::KitPush { entity: 8, kit_id: 4, seq: 1 }]
    );
}

#[test]
fn a_quest_message_stays_reachable_by_its_ticket() {
    let mut client = Client::new();
    let mut tell = |ticket, news| client.apply_event(SessionEvent { ticket, news });
    assert!(tell(41, News::QuestDetail { npc: 5, quest_id: 70 }).is_empty());
    let title = "The Lost Sword".to_string();
    assert!(tell(42, News::QuestTemplate { quest_id: 70, title }).is_empty());
    assert_eq!(client.quest.panel.map(|p| p.ticket), Some(41));
    assert_eq!(client.quest_log.templates.get(&70).map(|t| t.ticket), Some(42));
}
