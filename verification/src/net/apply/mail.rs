//! The inbox: its rows, what became of the mail we sent, the letters we asked for, and whether new
//! mail is waiting.
use vstd::prelude::*;
use std::collections::{HashMap, HashSet};

use crate::net::ClientCommand;
use crate::single::{zero, Single};

verus! {

broadcast use vstd::std_specs::hash::group_hash_axioms;

/// The row was read.
pub const CHECKED_READ: u32 = 0x1;

/// The action of a send, in a mail result.
pub const ACTION_SEND: u32 = 0;

/// Success, in a mail result.
pub const MAIL_OK: u32 = 0;

/// A failure of the inventory rather than of the mail.
pub const MAIL_EQUIP_ERROR: u32 = 1;

/// What the inbox rules read of a row.
#[derive(Clone, Copy, Debug, PartialEq, Eq, Structural)]
pub struct MailListEntry {
    pub message_id: u32,
    /// Days until it expires.
    pub expire_days: Single,
    pub checked: u32,
}

/// What became of a mail we sent.
pub struct MailSendAck {
    pub ok: bool,
    pub error_text: Option<String>,
}

/// The mailbox session.
pub struct MailOpen {
    /// The mailbox that is open.
    pub mailbox: Option<u64>,
    pub mails: Vec<MailListEntry>,
    pub send_acks: Vec<MailSendAck>,
    pub errors: Vec<String>,
    /// Letters by text id.
    pub bodies: HashMap<u32, String>,
    /// Letters asked for and not here yet.
    pub pending_bodies: HashSet<u32>,
}

/// What became of a mail we sent, as its characters.
#[verifier::ext_equal]
pub struct SendAckView {
    pub ok: bool,
    pub error_text: Option<Seq<char>>,
}

impl View for MailSendAck {
    type V = SendAckView;

    open spec fn view(&self) -> SendAckView {
        SendAckView {
            ok: self.ok,
            error_text: match self.error_text {
                Some(text) => Some(text@),
                None => None,
            },
        }
    }
}

/// The mailbox session, as its contents.
#[verifier::ext_equal]
pub struct MailView {
    pub mailbox: Option<u64>,
    pub mails: Seq<MailListEntry>,
    pub send_acks: Seq<SendAckView>,
    pub errors: Seq<Seq<char>>,
    pub bodies: Map<u32, String>,
    pub pending_bodies: Set<u32>,
}

impl View for MailOpen {
    type V = MailView;

    open spec fn view(&self) -> MailView {
        MailView {
            mailbox: self.mailbox,
            mails: self.mails@,
            send_acks: Seq::new(self.send_acks@.len(), |i: int| self.send_acks@[i]@),
            errors: Seq::new(self.errors@.len(), |i: int| self.errors@[i]@),
            bodies: self.bodies@,
            pending_bodies: self.pending_bodies@,
        }
    }
}

impl MailOpen {
    /// No mailbox open, and nothing known.
    pub fn new() -> (mail: MailOpen)
        ensures
            mail@ == (MailView {
                mailbox: None,
                mails: Seq::empty(),
                send_acks: Seq::empty(),
                errors: Seq::empty(),
                bodies: Map::empty(),
                pending_bodies: Set::empty(),
            }),
    {
        MailOpen {
            mailbox: None,
            mails: Vec::new(),
            send_acks: Vec::new(),
            errors: Vec::new(),
            bodies: HashMap::new(),
            pending_bodies: HashSet::new(),
        }
    }
}

/// When mail will be waiting: `None` for none that is known of, zero for now.
#[derive(Clone, Copy, Debug, PartialEq, Eq, Structural)]
pub struct MailPending {
    pub seconds: Option<Single>,
}

/// Inventory failures to show: a code, and the level it asks for.
pub struct EquipErrors {
    pub codes: Vec<(u8, Option<u32>)>,
}

/// The row has run out.
pub open spec fn expired(row: MailListEntry) -> bool {
    row.expire_days.at_most(zero())
}

/// The rows that stay.
pub open spec fn kept_rows(rows: Seq<MailListEntry>) -> Seq<MailListEntry> {
    rows.filter(|row: MailListEntry| !expired(row))
}

/// One deletion per row that has run out, where a mailbox is open to delete it from.
pub open spec fn deletions(rows: Seq<MailListEntry>, mailbox: Option<u64>) -> Seq<ClientCommand>
    decreases rows.len(),
{
    if rows.len() == 0 || mailbox is None {
        seq![]
    } else if expired(rows.last()) {
        deletions(rows.drop_last(), mailbox).push(
            ClientCommand::MailDelete { mailbox: mailbox->0, mail_id: rows.last().message_id },
        )
    } else {
        deletions(rows.drop_last(), mailbox)
    }
}

/// Every row was read.
pub open spec fn all_read(rows: Seq<MailListEntry>) -> bool {
    forall|i: int| 0 <= i < rows.len() ==> (#[trigger] rows[i]).checked & CHECKED_READ != 0
}

/// What is waiting after a list: nothing, where every row that stays was read.
pub open spec fn pending_after_list(pending: MailPending, rows: Seq<MailListEntry>) -> MailPending {
    if all_read(kept_rows(rows)) {
        MailPending { seconds: None }
    } else {
        pending
    }
}

/// A fresh list of the inbox. Rows that have run out are dropped, and deleted on the server while the
/// mailbox is open; with nothing left unread no new mail is waiting.
pub fn mail_list(rows: &Vec<MailListEntry>, mail: &mut MailOpen, pending: &mut MailPending) -> (commands:
    Vec<ClientCommand>)
    ensures
        final(mail)@ == (MailView { mails: kept_rows(rows@), ..old(mail)@ }),
        *final(pending) == pending_after_list(*old(pending), rows@),
        commands@ == deletions(rows@, old(mail).mailbox),
{
    let mut kept: Vec<MailListEntry> = Vec::new();
    let mut commands: Vec<ClientCommand> = Vec::new();
    let mailbox = mail.mailbox;
    let mut unread = false;
    proof {
        reveal(Seq::filter);
    }
    for i in 0..rows.len()
        invariant
            kept@ == kept_rows(rows@.take(i as int)),
            commands@ == deletions(rows@.take(i as int), mailbox),
            unread == !all_read(kept@),
    {
        proof {
            reveal(Seq::filter);
            assert(rows@.take(i + 1).drop_last() == rows@.take(i as int));
        }
        let row = rows[i];
        let ghost before = kept@;
        if row.expire_days.is_at_most(zero()) {
            if let Some(mailbox) = mailbox {
                commands.push(ClientCommand::MailDelete { mailbox, mail_id: row.message_id });
            }
        } else {
            kept.push(row);
            if row.checked & CHECKED_READ == 0 {
                unread = true;
                assert(kept@[kept@.len() - 1].checked & CHECKED_READ == 0);
            }
            proof {
                assert(forall|k: int| 0 <= k < before.len() ==> kept@[k] == before[k]);
                if !all_read(before) {
                    let k = choose|k: int|
                        0 <= k < before.len() && !((#[trigger] before[k]).checked & CHECKED_READ
                            != 0);
                    assert(kept@[k].checked & CHECKED_READ == 0);
                }
            }
        }
    }
    assert(rows@.take(rows.len() as int) == rows@);
    mail.mails = kept;
    if !unread {
        pending.seconds = None;
    }
    commands
}

/// An inventory code as it is shown: its low byte, zero where none came.
pub open spec fn shown_code(equip_error: Option<u32>) -> (u8, Option<u32>) {
    (
        (match equip_error {
            Some(code) => code,
            None => 0,
        }) as u8,
        None,
    )
}

fn show_code(equip_error: Option<u32>) -> (r: (u8, Option<u32>))
    ensures
        r == shown_code(equip_error),
{
    let code: u32 = match equip_error {
        Some(code) => code,
        None => 0,
    };
    (#[verifier::truncate] (code as u8), None)
}

/// A failure that has a line of its own.
pub open spec fn has_line(error: u32) -> bool {
    error != MAIL_OK && error != MAIL_EQUIP_ERROR
}

/// The inventory failures after a result.
pub open spec fn codes_after_result(
    codes: Seq<(u8, Option<u32>)>,
    error: u32,
    equip_error: Option<u32>,
) -> Seq<(u8, Option<u32>)> {
    if error == MAIL_EQUIP_ERROR {
        codes.push(shown_code(equip_error))
    } else {
        codes
    }
}

/// The session after a result.
pub open spec fn mail_after_result(
    mail: MailView,
    action: u32,
    error: u32,
    error_text: Seq<char>,
) -> MailView {
    if action == ACTION_SEND {
        MailView {
            send_acks: mail.send_acks.push(
                SendAckView {
                    ok: error == MAIL_OK,
                    error_text: if has_line(error) {
                        Some(error_text)
                    } else {
                        None
                    },
                },
            ),
            ..mail
        }
    } else if has_line(error) {
        MailView { errors: mail.errors.push(error_text), ..mail }
    } else {
        mail
    }
}

/// The list is asked for again after something other than a send went well at an open mailbox.
pub open spec fn refresh_after_result(mailbox: Option<u64>, action: u32, error: u32) -> Option<
    ClientCommand,
> {
    if action != ACTION_SEND && error == MAIL_OK && mailbox is Some {
        Some(ClientCommand::GetMailList { mailbox: mailbox->0 })
    } else {
        None
    }
}

/// The result of something we did with mail. A send is answered either way, with a line of text for a
/// failure that has one; for anything else success asks for the list again while the mailbox is open,
/// and a failure shows its line. A failure of the inventory is shown where those are. `error_text` is
/// the line for `error`.
pub fn send_mail_result(
    action: u32,
    error: u32,
    equip_error: Option<u32>,
    error_text: String,
    mail: &mut MailOpen,
    equip_errors: &mut EquipErrors,
) -> (refresh: Option<ClientCommand>)
    ensures
        final(equip_errors).codes@ == codes_after_result(
            old(equip_errors).codes@,
            error,
            equip_error,
        ),
        final(mail)@ == mail_after_result(old(mail)@, action, error, error_text@),
        refresh == refresh_after_result(old(mail).mailbox, action, error),
{
    if action == ACTION_SEND {
        if error == MAIL_EQUIP_ERROR {
            equip_errors.codes.push(show_code(equip_error));
        }
        let shown = if error != MAIL_OK && error != MAIL_EQUIP_ERROR {
            Some(error_text)
        } else {
            None
        };
        mail.send_acks.push(MailSendAck { ok: error == MAIL_OK, error_text: shown });
        return None;
    }
    if error == MAIL_OK {
        return match mail.mailbox {
            Some(mailbox) => Some(ClientCommand::GetMailList { mailbox }),
            None => None,
        };
    }
    if error == MAIL_EQUIP_ERROR {
        equip_errors.codes.push(show_code(equip_error));
    } else {
        mail.errors.push(error_text);
    }
    None
}

/// A letter that we asked for has come.
pub fn mail_item_text(text_id: u32, text: String, mail: &mut MailOpen)
    ensures
        final(mail)@ == (MailView {
            bodies: old(mail)@.bodies.insert(text_id, text),
            pending_bodies: old(mail)@.pending_bodies.remove(text_id),
            ..old(mail)@
        }),
{
    mail.bodies.insert(text_id, text);
    mail.pending_bodies.remove(&text_id);
}

/// The request for the list of an open mailbox.
pub open spec fn list_request(mailbox: Option<u64>) -> Option<ClientCommand> {
    match mailbox {
        Some(mailbox) => Some(ClientCommand::GetMailList { mailbox }),
        None => None,
    }
}

/// Mail has arrived: it is waiting now, and an open mailbox asks for its list again.
pub fn received_mail(pending: &mut MailPending, mail: &MailOpen) -> (refresh: Option<ClientCommand>)
    ensures
        final(pending).seconds == Some(zero()),
        refresh == list_request(mail.mailbox),
{
    pending.seconds = Some(zero());
    match mail.mailbox {
        Some(mailbox) => Some(ClientCommand::GetMailList { mailbox }),
        None => None,
    }
}

/// The server's answer to when mail will be waiting.
pub fn next_mail_time(seconds: Single, pending: &mut MailPending)
    ensures
        final(pending).seconds == Some(seconds),
{
    pending.seconds = Some(seconds);
}

/// Every row either stays or, while a mailbox is open, is deleted: none is lost and none is both.
pub proof fn rows_stay_or_are_deleted(rows: Seq<MailListEntry>, mailbox: Option<u64>)
    requires
        mailbox is Some,
    ensures
        kept_rows(rows).len() + deletions(rows, mailbox).len() == rows.len(),
    decreases rows.len(),
{
    reveal(Seq::filter);
    if rows.len() > 0 {
        rows_stay_or_are_deleted(rows.drop_last(), mailbox);
    }
}

/// Without an open mailbox nothing is deleted.
pub proof fn a_closed_mailbox_deletes_nothing(rows: Seq<MailListEntry>)
    ensures
        deletions(rows, None) == Seq::<ClientCommand>::empty(),
{
}

/// An empty inbox, or one of rows that have all run out, leaves no mail waiting.
pub proof fn an_empty_inbox_is_read(rows: Seq<MailListEntry>)
    requires
        forall|i: int| 0 <= i < rows.len() ==> expired(#[trigger] rows[i]),
    ensures
        kept_rows(rows).len() == 0,
        all_read(kept_rows(rows)),
    decreases rows.len(),
{
    reveal(Seq::filter);
    if rows.len() > 0 {
        let before = rows.drop_last();
        assert forall|i: int| 0 <= i < before.len() implies expired(#[trigger] before[i]) by {
            assert(rows[i] == before[i]);
        }
        an_empty_inbox_is_read(before);
    }
}

/// An inventory failure is shown by the low byte of its code, and by nought where it has none.
pub proof fn codes_show_their_low_byte(code: u32)
    ensures
        shown_code(Some(code)).0 == code % 256,
        shown_code(None).0 == 0,
        shown_code(Some(code)).1 is None && shown_code(None).1 is None,
{
    assert(code as u8 == code % 256) by (bit_vector);
}

} // verus!
