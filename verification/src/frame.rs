//! Decoding one received frame.

use adsb_deku::deku::DekuContainerRead;
use adsb_deku::Frame;
use vstd::prelude::*;

verus! {

/// Number of bytes in one received frame.
pub const FRAME_LEN: usize = 14;

/// What the ADS-B decoder makes of a buffer: the text it renders for the
/// frame it parsed, or `None` where the bytes do not parse as a frame.
pub uninterp spec fn frame_text(bytes: Seq<u8>) -> Option<Seq<char>>;

/// A successfully decoded frame, kept in its rendered form.
#[derive(Debug)]
pub struct DecodedFrame {
    rendered: String,
}

impl DecodedFrame {
    /// The rendered text as a sequence of characters.
    pub closed spec fn view(&self) -> Seq<char> {
        self.rendered@
    }

    /// The human-readable rendering of the frame.
    pub fn rendered(&self) -> (text: &String)
        ensures
            text@ == self@,
    {
        &self.rendered
    }

    /// Gives the rendering up to the caller.
    pub fn into_rendered(self) -> (text: String)
        ensures
            text@ == self@,
    {
        self.rendered
    }
}

/// The result of one decode attempt. Nothing is carried over between attempts.
#[derive(Debug)]
pub enum DecodeOutcome {
    DecodedFrame(DecodedFrame),
    NotAFrame,
}

impl DecodeOutcome {
    /// `Some` of the rendered text for a decoded frame, `None` otherwise.
    pub open spec fn view(&self) -> Option<Seq<char>> {
        match self {
            DecodeOutcome::DecodedFrame(frame) => Some(frame@),
            DecodeOutcome::NotAFrame => None,
        }
    }

    /// Whether a frame was decoded.
    pub fn is_frame(&self) -> (yes: bool)
        ensures
            yes == self@.is_some(),
    {
        match self {
            DecodeOutcome::DecodedFrame(_) => true,
            DecodeOutcome::NotAFrame => false,
        }
    }
}

/// Calls `adsb_deku::Frame::from_bytes` on the buffer, read from its first bit,
/// and renders the frame it returns with the frame's `Display` impl. Trusted:
/// the decoder reads nothing but the bytes it is given, so its answer is a
/// function of them, which `frame_text` names; a parse error gives `None`.
#[verifier::external_body]
fn parse_and_render(bytes: &[u8; 14]) -> (text: Option<String>)
    ensures
        match text {
            Some(s) => frame_text(bytes@) == Some(s@),
            None => frame_text(bytes@).is_none(),
        },
{
    match Frame::from_bytes((bytes, 0)) {
        Ok((_, frame)) => Some(format!("{}", frame)),
        Err(_) => None,
    }
}

/// Turns the decoder's answer into an outcome: a rendering is a decoded
/// frame, its absence is not a frame.
pub fn outcome_of(parsed: Option<String>) -> (outcome: DecodeOutcome)
    ensures
        outcome@ == match parsed {
            Some(s) => Some(s@),
            None => None,
        },
{
    match parsed {
        Some(rendered) => DecodeOutcome::DecodedFrame(DecodedFrame { rendered }),
        None => DecodeOutcome::NotAFrame,
    }
}

/// Attempts to decode one frame from a full buffer. Every buffer gives an
/// outcome: a decode failure is absorbed here as `NotAFrame`.
pub fn decode(bytes: &[u8; 14]) -> (outcome: DecodeOutcome)
    ensures
        outcome@ == frame_text(bytes@),
{
    outcome_of(parse_and_render(bytes))
}

/// Decoding is deterministic: two outcomes decoded from the same bytes carry
/// the same rendering, or are both `NotAFrame`.
pub proof fn decode_is_deterministic(bytes: Seq<u8>, first: DecodeOutcome, second: DecodeOutcome)
    requires
        first@ == frame_text(bytes),
        second@ == frame_text(bytes),
    ensures
        first@ == second@,
{
}

} // verus!
