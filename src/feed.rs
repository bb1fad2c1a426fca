//! Decisions of the gaze feed: which OSC messages carry a gaze sample, and
//! whether the latest sample is still fresh.
use vstd::prelude::*;
use crate::text::str_eq;

verus! {

/// OSC address of the message that carries four angles in degrees
/// (left pitch, left yaw, right pitch, right yaw).
pub const PITCH_YAW_ADDRESS: &'static str = "/tracking/eye/LeftRightPitchYaw";

/// OSC address of the message that carries two gaze direction vectors
/// (left x, y, z, then right x, y, z).
pub const DIRECTION_VECTORS_ADDRESS: &'static str = "/tracking/eye/LeftRightVec";

/// Largest datagram handed to the OSC decoder, the decoder's MTU: the
/// decoder recurses once per nested bundle, so its input is kept bounded.
pub const MAX_DATAGRAM_LEN: usize = 1536;

/// A sample older than this many nanoseconds reports the gaze as inactive.
pub const STALENESS_THRESHOLD_NS: u64 = 50_000_000;

/// The shape of an accepted gaze message.
#[derive(PartialEq, Eq, Structural, Clone, Copy, Debug)]
pub enum GazePayload {
    /// Four angles in degrees, negated and converted to radians.
    PitchYaw,
    /// Two direction vectors, converted to pitch and yaw per eye.
    DirectionVectors,
}

pub open spec fn pitch_yaw_address() -> Seq<char> {
    "/tracking/eye/LeftRightPitchYaw"@
}

pub open spec fn direction_vectors_address() -> Seq<char> {
    "/tracking/eye/LeftRightVec"@
}

/// The payload that a message with this address and these argument kinds
/// (`true` for a float argument) carries, if it is a gaze message.
pub open spec fn payload_of(addr: Seq<char>, arg_is_float: Seq<bool>) -> Option<GazePayload> {
    if addr == pitch_yaw_address() && arg_is_float.len() == 4 && (forall|i: int|
        0 <= i < 4 ==> #[trigger] arg_is_float[i]) {
        Some(GazePayload::PitchYaw)
    } else if addr == direction_vectors_address() && arg_is_float.len() >= 6 && (forall|i: int|
        0 <= i < 6 ==> #[trigger] arg_is_float[i]) {
        Some(GazePayload::DirectionVectors)
    } else {
        None
    }
}

/// Whether a sample captured at `captured_at` is still fresh at `now`.
pub open spec fn spec_is_fresh(captured_at: u64, now: u64) -> bool {
    (now as int) - (captured_at as int) < STALENESS_THRESHOLD_NS as int
}

/// Whether the first `n` argument kinds are all floats.
fn all_floats(arg_is_float: &Vec<bool>, n: usize) -> (r: bool)
    requires
        n <= arg_is_float@.len(),
    ensures
        r == (forall|i: int| 0 <= i < n ==> #[trigger] arg_is_float@[i]),
{
    let mut i: usize = 0;
    while i < n
        invariant
            n <= arg_is_float@.len(),
            i <= n,
            forall|j: int| 0 <= j < i ==> #[trigger] arg_is_float@[j],
        decreases n - i,
    {
        if !arg_is_float[i] {
            return false;
        }
        i = i + 1;
    }
    true
}

/// Classifies an OSC message by its address and the kinds of its arguments
/// (`true` for each float argument). Messages that are not gaze samples,
/// or whose arguments do not fit, are dropped (`None`).
pub fn classify_message(addr: &str, arg_is_float: &Vec<bool>) -> (r: Option<GazePayload>)
    ensures
        r == payload_of(addr@, arg_is_float@),
{
    proof {
        reveal_strlit("/tracking/eye/LeftRightPitchYaw");
        reveal_strlit("/tracking/eye/LeftRightVec");
        assert(pitch_yaw_address().len() != direction_vectors_address().len());
    }
    if str_eq(addr, PITCH_YAW_ADDRESS) {
        if arg_is_float.len() == 4 && all_floats(arg_is_float, 4) {
            return Some(GazePayload::PitchYaw);
        }
        return None;
    }
    if str_eq(addr, DIRECTION_VECTORS_ADDRESS) {
        if arg_is_float.len() >= 6 && all_floats(arg_is_float, 6) {
            return Some(GazePayload::DirectionVectors);
        }
    }
    None
}

/// The address and argument kinds (`true` for each float argument) of the
/// OSC message that a datagram holds; `None` where the datagram does not
/// decode to a single message.
pub uninterp spec fn osc_message_of(datagram: Seq<u8>) -> Option<(Seq<char>, Seq<bool>)>;

/// Relies on rosc::decoder::decode_udp: the packet it decodes depends on the
/// bytes alone.
#[verifier::external_body]
fn decode_osc_message(datagram: &[u8]) -> (r: Option<(String, Vec<bool>)>)
    requires
        datagram@.len() <= MAX_DATAGRAM_LEN,
    ensures
        match r {
            Some(m) => osc_message_of(datagram@) == Some((m.0@, m.1@)),
            None => osc_message_of(datagram@) is None,
        },
{
    match rosc::decoder::decode_udp(datagram) {
        Ok((_, rosc::OscPacket::Message(msg))) => {
            let kinds = msg.args.iter().map(|a| matches!(a, rosc::OscType::Float(_))).collect();
            Some((msg.addr, kinds))
        },
        _ => None,
    }
}

/// The gaze payload that a received datagram of at most `MAX_DATAGRAM_LEN`
/// bytes carries, if any: datagrams
/// that do not decode, bundles, other addresses and ill-fitting arguments
/// are all dropped (`None`).
pub fn classify_datagram(datagram: &[u8]) -> (r: Option<GazePayload>)
    requires
        datagram@.len() <= MAX_DATAGRAM_LEN,
    ensures
        r == (match osc_message_of(datagram@) {
            Some(m) => payload_of(m.0, m.1),
            None => None,
        }),
{
    match decode_osc_message(datagram) {
        Some((addr, kinds)) => classify_message(addr.as_str(), &kinds),
        None => None,
    }
}

/// Whether a sample captured at `captured_at` (nanoseconds) is fresh at `now`:
/// its age is below the staleness threshold. A sample stamped after `now`
/// counts as fresh.
pub fn is_sample_fresh(captured_at: u64, now: u64) -> (r: bool)
    ensures
        r == spec_is_fresh(captured_at, now),
{
    if now <= captured_at {
        true
    } else {
        now - captured_at < STALENESS_THRESHOLD_NS
    }
}

} // verus!
