//! The messages exchanged with the tone device. Multi-byte fields are sent
//! big-endian; the first byte of a message gives its type.
use vstd::prelude::*;

verus! {

/// First byte of a tone update.
pub const TONE_UPDATE: u8 = 0x01;

/// First byte, and whole, of a reset.
pub const RESET: u8 = 0x02;

/// First byte, and whole, of an identity request.
pub const GET_ID: u8 = 0x03;

/// Last byte of a tone update.
pub const TONE_TRAILER: u8 = 0x01;

/// The four bytes a genuine device answers to an identity request.
pub open spec fn magic_id() -> Seq<u8> {
    seq![0x61u8, 0xd8u8, 0x6eu8, 0x1cu8]
}

/// The identity a genuine device answers with.
pub fn magic_id_bytes() -> (r: [u8; 4])
    ensures
        r@ == magic_id(),
{
    let r: [u8; 4] = [0x61, 0xd8, 0x6e, 0x1c];
    assert(r@ =~= magic_id());
    r
}

/// The message that sets the device's tone to `frequency` at velocity `vel`:
/// type, frequency high byte, frequency low byte, velocity, trailer.
pub fn tone_message(frequency: u16, vel: u8) -> (r: [u8; 5])
    ensures
        r@ == seq![TONE_UPDATE, (frequency / 256) as u8, (frequency % 256) as u8, vel, TONE_TRAILER],
{
    let r: [u8; 5] = [TONE_UPDATE, (frequency / 256) as u8, (frequency % 256) as u8, vel, TONE_TRAILER];
    assert(r@ =~= seq![TONE_UPDATE, (frequency / 256) as u8, (frequency % 256) as u8, vel, TONE_TRAILER]);
    r
}

/// The message that silences the device.
pub fn reset_message() -> (r: [u8; 1])
    ensures
        r@ == seq![RESET],
{
    let r: [u8; 1] = [RESET];
    assert(r@ =~= seq![RESET]);
    r
}

/// The message that asks the device for its identity.
pub fn id_request() -> (r: [u8; 1])
    ensures
        r@ == seq![GET_ID],
{
    let r: [u8; 1] = [GET_ID];
    assert(r@ =~= seq![GET_ID]);
    r
}

/// Accepts the device's answer to an identity request where it is the
/// genuine identity, else hands the answer back.
pub fn check_id(answer: [u8; 4]) -> (r: Result<(), [u8; 4]>)
    ensures
        r is Ok <==> answer@ == magic_id(),
        r is Err ==> r->Err_0 == answer,
{
    let magic = magic_id_bytes();
    let mut i: usize = 0;
    while i < 4
        invariant
            i <= 4,
            magic@ == magic_id(),
            forall|j: int| 0 <= j < i ==> answer@[j] == magic@[j],
        decreases 4 - i,
    {
        if answer[i] != magic[i] {
            return Err(answer);
        }
        i = i + 1;
    }
    assert(answer@ =~= magic_id());
    Ok(())
}

/// What follows one attempt to write a command to the device.
#[derive(Clone, Copy, Debug, PartialEq, Eq, Structural)]
pub enum WriteNext {
    /// The command went out.
    Done,
    /// The link timed out: write the same command again.
    Retry,
    /// Any other failure: give the command up and report the error.
    Fail,
}

/// A written command is done; one whose write timed out is tried again, as
/// often as it takes; any other failure ends it.
pub fn after_write(written: bool, timed_out: bool) -> (r: WriteNext)
    ensures
        r == (if written {
            WriteNext::Done
        } else if timed_out {
            WriteNext::Retry
        } else {
            WriteNext::Fail
        }),
{
    if written {
        WriteNext::Done
    } else if timed_out {
        WriteNext::Retry
    } else {
        WriteNext::Fail
    }
}

} // verus!
