//! The lines that a change in the group becomes.
use vstd::prelude::*;

use crate::net::apply::chat::{system_line, ChatLine, ChatLog};

verus! {

/// One system line per string.
pub open spec fn system_lines(lines: Seq<String>) -> Seq<ChatLine> {
    Seq::new(lines.len(), |i: int| system_line(lines[i]@))
}

/// Add finished lines to the log, in order, as system lines.
pub fn push_group_lines(chat_log: &mut ChatLog, lines: Vec<String>)
    ensures
        final(chat_log)@ == old(chat_log)@ + system_lines(lines@),
{
    let ghost before = chat_log@;
    for line in it: lines
        invariant
            it.seq() == lines@,
            chat_log@ == before + system_lines(lines@.take(it.index() as int)),
    {
        chat_log.push_system(line);
    }
    assert(lines@.take(lines@.len() as int) == lines@);
}

} // verus!
