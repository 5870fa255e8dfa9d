//! The history document: the text that is written to the history file and
//! sent over both channels, in RON (Rusty Object Notation), an ordered
//! sequence of strings.
use vstd::prelude::*;

use crate::history::{texts, valid_history, History};

verus! {

/// The RON text of a sequence of strings, as `ron::ser::to_string` writes it.
pub uninterp spec fn ron_text(v: Seq<Seq<char>>) -> Seq<char>;

/// The sequence of strings that `ron::de::from_str` reads from a text, or
/// `None` where it fails.
pub uninterp spec fn ron_parse(s: Seq<char>) -> Option<Seq<Seq<char>>>;

#[verifier::external_type_specification]
#[verifier::external_body]
pub struct ExRonError(ron::error::Error);

#[verifier::external_type_specification]
#[verifier::external_body]
pub struct ExRonSpannedError(ron::error::SpannedError);

/// Relies on `ron::ser::to_string` on a `Vec<String>`: the text it writes
/// depends on the strings alone, and it does not fail on them (it writes
/// into a `Vec`, and a sequence of strings nests once, far below the default
/// recursion limit).
#[verifier::external_body]
fn ron_to_string(v: &Vec<String>) -> (r: Result<String, ron::error::Error>)
    ensures
        r is Ok,
        r matches Ok(s) ==> s@ == ron_text(texts(v@)),
{
    ron::ser::to_string(v)
}

/// Relies on `ron::de::from_str` into a `Vec<String>`: what it reads depends
/// on the text alone, and it reads back every sequence of strings from the
/// text that `ron::ser::to_string` writes for it (strings are written quoted,
/// with `char::escape_debug`, and every such escape is read back).
#[verifier::external_body]
fn ron_from_str(s: &str) -> (r: Result<Vec<String>, ron::error::SpannedError>)
    ensures
        r is Ok <==> ron_parse(s@) is Some,
        r matches Ok(v) ==> ron_parse(s@) == Some(texts(v@)),
        forall|v: Seq<Seq<char>>|
            #[trigger] ron_text(v) == s@ ==> (r is Ok && texts(r->Ok_0@) == v),
{
    ron::de::from_str::<Vec<String>>(s)
}

/// Why a history document could not be read.
#[derive(Clone, Copy, Debug, PartialEq, Eq)]
pub enum CodecError {
    /// The text is not the RON text of a sequence of strings.
    Malformed,
    /// The text holds a sequence of strings that is no history: two entries
    /// are equal, or there are more than the bound.
    NotAHistory,
}

/// What `decode_history` returns for a text.
pub open spec fn decoded(s: Seq<char>) -> Result<Seq<Seq<char>>, CodecError> {
    match ron_parse(s) {
        Some(v) => if valid_history(v) {
            Ok(v)
        } else {
            Err(CodecError::NotAHistory)
        },
        None => Err(CodecError::Malformed),
    }
}

/// The history document of `h`, which like every history is well formed.
pub fn encode_history(h: &History) -> (r: String)
    ensures
        valid_history(h@),
        r@ == ron_text(h@),
{
    let entries = h.snapshot();
    match ron_to_string(&entries) {
        Ok(s) => s,
        Err(_) => String::new(),
    }
}

/// The history that a history document holds. Reading the document that
/// `encode_history` wrote for a history gives that history back, with its
/// order and its contents.
pub fn decode_history(s: &str) -> (r: Result<History, CodecError>)
    ensures
        match decoded(s@) {
            Ok(v) => r matches Ok(h) && h@ == v,
            Err(e) => r == Err::<History, CodecError>(e),
        },
        forall|h: Seq<Seq<char>>|
            valid_history(h) && #[trigger] ron_text(h) == s@ ==> (r matches Ok(g) && g@ == h),
{
    match ron_from_str(s) {
        Ok(entries) => match History::from_entries(entries) {
            Some(h) => Ok(h),
            None => Err(CodecError::NotAHistory),
        },
        Err(_) => Err(CodecError::Malformed),
    }
}

/// The history the daemon starts with, from the contents of the history
/// file (`None` where it is missing or unreadable): the history it holds,
/// or an empty one where there is none, with the reason to report then.
/// Loading the document that `encode_history` wrote gives the history back.
pub fn load_history(stored: Option<&str>) -> (r: (History, Option<CodecError>))
    ensures
        match stored {
            None => r.0@ == Seq::<Seq<char>>::empty() && r.1 is None,
            Some(s) => match decoded(s@) {
                Ok(v) => r.0@ == v && r.1 is None,
                Err(e) => r.0@ == Seq::<Seq<char>>::empty() && r.1 == Some(e),
            },
        },
        forall|h: Seq<Seq<char>>|
            stored matches Some(s) && valid_history(h) && #[trigger] ron_text(h) == s@ ==> r.0@
                == h && r.1 is None,
{
    match stored {
        None => (History::new(), None),
        Some(s) => match decode_history(s) {
            Ok(h) => (h, None),
            Err(e) => (History::new(), Some(e)),
        },
    }
}

} // verus!
