//! The parsed form of one frame received on the channel: the raw text plus
//! the four fields the engine reads. A frame with an `id` and a `result` or
//! `error` field is a correlated response; a frame with a `method` field is
//! an event; a frame with neither is matched by nothing and is discarded by
//! the wait loop.

use vstd::prelude::*;
use crate::codec::decoded_frame;

verus! {

/// One decoded frame. `text` is the frame exactly as it was delivered, kept
/// so a caller can inspect what the engine did not model.
#[derive(Debug, Clone)]
pub struct Frame {
    /// The raw frame text as delivered by the channel.
    pub text: String,
    /// The correlation id, when the frame has an integer `id` field.
    pub id: Option<i64>,
    /// The event name, when the frame has a string `method` field.
    pub method: Option<String>,
    /// Whether the frame has a `result` field.
    pub has_result: bool,
    /// Whether the frame has an `error` field.
    pub has_error: bool,
}

/// The frame `f` is what decoding `text` yields: the text is kept verbatim
/// and the four fields are the decoded ones.
pub open spec fn frame_decodes(f: Frame, text: Seq<char>) -> bool {
    let d = decoded_frame(text)->0;
    &&& decoded_frame(text) is Some
    &&& f.text@ == text
    &&& f.id == d.0
    &&& (match d.1 {
        Some(m) => f.method is Some && f.method->0@ == m,
        None => f.method is None,
    })
    &&& f.has_result == d.2
    &&& f.has_error == d.3
}

/// What one wait loop looks for in each arriving frame: either the response
/// to a given request id, or an event of a given name.
#[derive(Debug, Clone)]
pub enum Matcher {
    /// A frame whose `id` equals the given id and that has a `result` or an
    /// `error` field.
    Response(i64),
    /// A frame whose `method` equals the given event name.
    Event(String),
}

/// The ghost form of a `Matcher`, over plain sequences.
pub enum MatcherV {
    Response(i64),
    Event(Seq<char>),
}

impl Matcher {
    pub open spec fn view(&self) -> MatcherV {
        match self {
            Matcher::Response(k) => MatcherV::Response(*k),
            Matcher::Event(name) => MatcherV::Event(name@),
        }
    }
}

/// Whether a decoded frame satisfies a matcher: a response must carry the
/// awaited id together with a `result` or `error` field; an event must carry
/// exactly the awaited name.
pub open spec fn decoded_matches(
    m: MatcherV,
    d: (Option<i64>, Option<Seq<char>>, bool, bool),
) -> bool {
    match m {
        MatcherV::Response(k) => d.0 == Some(k) && (d.2 || d.3),
        MatcherV::Event(name) => d.1 == Some(name),
    }
}

/// The same test on the parsed frame itself.
pub open spec fn frame_matches_spec(m: MatcherV, f: Frame) -> bool {
    match m {
        MatcherV::Response(k) => f.id == Some(k) && (f.has_result || f.has_error),
        MatcherV::Event(name) => f.method is Some && f.method->0@ == name,
    }
}

/// Evaluates a matcher on a frame.
pub fn frame_matches(m: &Matcher, f: &Frame) -> (b: bool)
    ensures
        b == frame_matches_spec(m@, *f),
{
    match m {
        Matcher::Response(k) => (f.has_result || f.has_error) && (match f.id {
            Some(i) => i == *k,
            None => false,
        }),
        Matcher::Event(name) => (match &f.method {
            Some(method) => *method == *name,
            None => false,
        }),
    }
}

/// A frame that decodes from its text matches a matcher exactly when its
/// decoded fields do: the two tests above agree.
pub proof fn lemma_frame_matches_decoded(m: MatcherV, f: Frame, text: Seq<char>)
    requires
        frame_decodes(f, text),
    ensures
        frame_matches_spec(m, f) == decoded_matches(m, decoded_frame(text)->0),
{
}

} // verus!
