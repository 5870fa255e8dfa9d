//! The request channel: the commands the presentation process sends, and
//! the reply the daemon owes to each.
use vstd::prelude::*;

use crate::codec::{encode_history, ron_text};
use crate::history::History;
use crate::text::{chars_of, same_chars, trimmed, trimmed_range};

verus! {

/// The command that asks for the whole history.
pub const GET_HISTORY: &'static str = "GET_HISTORY";

/// The command that empties the history and removes the history file.
pub const RESET_HISTORY: &'static str = "RESET_HISTORY";

/// The reply to a reset.
pub const ACK_TOKEN: &'static str = "OK";

/// The reply to a command that is not known.
pub const BAD_REQUEST_TOKEN: &'static str = "BAD_REQUEST";

/// The most bytes of a request that are read.
pub const REQUEST_BUFFER_SIZE: usize = 512;

/// A request of the presentation process.
#[derive(Clone, Copy, Debug, PartialEq, Eq)]
pub enum Command {
    GetHistory,
    ResetHistory,
    Unknown,
}

/// The command a request's text stands for: its text without leading and
/// trailing whitespace names it.
pub open spec fn command_of(s: Seq<char>) -> Command {
    if trimmed(s) == GET_HISTORY@ {
        Command::GetHistory
    } else if trimmed(s) == RESET_HISTORY@ {
        Command::ResetHistory
    } else {
        Command::Unknown
    }
}

/// The text that `String::from_utf8_lossy` makes of some bytes.
pub uninterp spec fn lossy_text(b: Seq<u8>) -> Seq<char>;

/// Relies on `String::from_utf8_lossy`: the text depends on the bytes alone,
/// and valid UTF-8 is decoded as it stands.
#[verifier::external_body]
fn utf8_lossy(b: &[u8]) -> (r: String)
    ensures
        r@ == lossy_text(b@),
        vstd::utf8::valid_utf8(b@) ==> r@ == vstd::utf8::decode_utf8(b@),
{
    String::from_utf8_lossy(b).into_owned()
}

/// The command a request's text stands for.
pub fn parse_command(request: &str) -> (r: Command)
    ensures
        r == command_of(request@),
{
    let cs = chars_of(request);
    let (from, to) = trimmed_range(&cs);
    if same_chars(&cs, from, to, &chars_of(GET_HISTORY)) {
        Command::GetHistory
    } else if same_chars(&cs, from, to, &chars_of(RESET_HISTORY)) {
        Command::ResetHistory
    } else {
        Command::Unknown
    }
}

/// The command that the bytes of a request stand for, read as UTF-8 with
/// any invalid sequence replaced.
pub fn read_command(request: &[u8]) -> (r: Command)
    ensures
        r == command_of(lossy_text(request@)),
{
    let text = utf8_lossy(request);
    parse_command(text.as_str())
}

/// The history after the daemon handled command `c`.
pub open spec fn after_command(c: Command, h: Seq<Seq<char>>) -> Seq<Seq<char>> {
    match c {
        Command::ResetHistory => Seq::empty(),
        _ => h,
    }
}

/// The reply the daemon sends for command `c` on history `h`.
pub open spec fn reply_body(c: Command, h: Seq<Seq<char>>) -> Seq<char> {
    match c {
        Command::GetHistory => ron_text(h),
        Command::ResetHistory => ACK_TOKEN@,
        Command::Unknown => BAD_REQUEST_TOKEN@,
    }
}

/// The history after the daemon handled the commands `cs`, in order.
pub open spec fn after_commands(cs: Seq<Command>, h: Seq<Seq<char>>) -> Seq<Seq<char>>
    decreases cs.len(),
{
    if cs.len() == 0 {
        h
    } else {
        after_commands(cs.drop_first(), after_command(cs[0], h))
    }
}

/// What the daemon sends back for a command, and whether the history file
/// is to be removed before it is sent.
pub struct Reply {
    pub body: String,
    pub clears_store: bool,
}

/// Handles a command on the daemon's history. A reset empties the history
/// here, whatever then becomes of the history file.
pub fn handle_command(history: &mut History, c: Command) -> (r: Reply)
    ensures
        final(history)@ == after_command(c, old(history)@),
        r.body@ == reply_body(c, old(history)@),
        r.clears_store == (c == Command::ResetHistory),
{
    match c {
        Command::GetHistory => Reply { body: encode_history(history), clears_store: false },
        Command::ResetHistory => {
            history.clear();
            Reply { body: ACK_TOKEN.to_owned(), clears_store: true }
        },
        Command::Unknown => Reply { body: BAD_REQUEST_TOKEN.to_owned(), clears_store: false },
    }
}

/// Once a reset is handled, the history stays empty whatever other commands
/// of the request channel follow, and a fetch then receives the document of
/// an empty history.
pub proof fn lemma_reset_then_fetch(h: Seq<Seq<char>>, cs: Seq<Command>)
    ensures
        after_commands(cs, after_command(Command::ResetHistory, h)) == Seq::<Seq<char>>::empty(),
        reply_body(
            Command::GetHistory,
            after_commands(cs, after_command(Command::ResetHistory, h)),
        ) == ron_text(Seq::empty()),
    decreases cs.len(),
{
    if cs.len() > 0 {
        lemma_reset_then_fetch(h, cs.drop_first());
        lemma_empty_stays_empty(cs);
    }
}

/// Commands of the request channel never fill an empty history.
pub proof fn lemma_empty_stays_empty(cs: Seq<Command>)
    ensures
        after_commands(cs, Seq::empty()) == Seq::<Seq<char>>::empty(),
    decreases cs.len(),
{
    if cs.len() > 0 {
        lemma_empty_stays_empty(cs.drop_first());
    }
}

} // verus!
