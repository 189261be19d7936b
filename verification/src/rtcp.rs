//! What the answers of the RTCP functions of Janus mean. Janus reads and
//! writes the packets; a plugin hands it a buffer and interprets the answer.

use vstd::prelude::*;

verus! {

/// The size of the buffer that Janus writes a FIR packet to.
pub const FIR_BUFFER: usize = 20;

/// The size of the buffer that Janus writes a PLI packet to.
pub const PLI_BUFFER: usize = 12;

/// The size of the buffer that Janus writes a REMB packet to.
pub const REMB_BUFFER: usize = 24;

/// Whether Janus answered yes: its answer to a question is 1 for yes.
pub fn is_yes(answer: i32) -> (yes: bool)
    ensures
        yes == (answer == 1),
{
    answer == 1
}

/// The bitrate of a REMB packet, from what Janus read in the packet:
/// Janus answers 0 where the packet is no REMB packet.
pub fn remb_of_answer(answer: u32) -> (bitrate: Option<u32>)
    ensures
        bitrate == if answer == 0 {
            None
        } else {
            Some(answer)
        },
{
    if answer == 0 {
        None
    } else {
        Some(answer)
    }
}

/// The packet that Janus wrote, where it answered `answer` after it was
/// handed `buffer`: Janus answers with the length of the packet, which
/// starts the buffer, or with a negative number where it could not write
/// one. There is no packet either where the answer is more than the buffer
/// holds.
pub fn packet_of_answer(buffer: &[i8], answer: i32) -> (packet: Option<Vec<i8>>)
    ensures
        packet is Some <==> 0 <= answer <= buffer@.len(),
        packet matches Some(p) ==> p@ == buffer@.take(answer as int),
{
    if answer < 0 {
        return None;
    }
    let length = answer as usize;
    if length > buffer.len() {
        return None;
    }
    let mut packet: Vec<i8> = Vec::new();
    let mut i: usize = 0;
    while i < length
        invariant
            i <= length <= buffer@.len(),
            packet@ == buffer@.take(i as int),
        decreases length - i,
    {
        packet.push(buffer[i]);
        assert(buffer@.take(i + 1) =~= buffer@.take(i as int).push(buffer@[i as int]));
        i += 1;
    }
    Some(packet)
}

} // verus!
