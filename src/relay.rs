use vstd::prelude::*;
use vstd::utf8::valid_utf8;

verus! {

/// Largest payload, in bytes, that one radio packet carries.
pub const RADIO_PAYLOAD_MAX: usize = 255;

/// How long one receive poll waits for a packet, in milliseconds.
pub const LISTEN_TIMEOUT_MS: i32 = 30;

/// The bytes that go on air for `message`: cut at byte 255, no marker added.
pub open spec fn radio_bytes(message: Seq<u8>) -> Seq<u8> {
    if message.len() <= RADIO_PAYLOAD_MAX {
        message
    } else {
        message.take(RADIO_PAYLOAD_MAX as int)
    }
}

/// What the transceiver reports when a poll or a transfer fails.
#[derive(Clone, Copy, Debug, PartialEq, Eq, Structural)]
pub enum RadioFault {
    /// Nothing arrived before the poll's timeout.
    Uninformative,
    VersionMismatch(u8),
    ChipSelect,
    Reset,
    Spi,
    Transmitting,
}

/// What the receive task does after one poll of the transceiver.
#[derive(Clone, Copy, Debug, PartialEq, Eq, Structural)]
pub enum ListenStep {
    /// A packet of this many bytes is waiting: read it.
    Read(usize),
    /// Nothing arrived: go back to sleep.
    Idle,
    /// The transceiver failed: report it and go on.
    Report(RadioFault),
}

/// A packet that was read off the radio.
#[derive(Clone, Debug)]
pub enum Inbound {
    Text(Vec<u8>),
    NonText,
}

pub open spec fn listen_step(poll: Result<usize, RadioFault>) -> ListenStep {
    match poll {
        Ok(size) => ListenStep::Read(size),
        Err(RadioFault::Uninformative) => ListenStep::Idle,
        Err(f) => ListenStep::Report(f),
    }
}

/// The payload handed to the transceiver for `message`.
pub fn radio_payload(message: &[u8]) -> (r: Vec<u8>)
    ensures
        r@ == radio_bytes(message@),
        r@.len() <= RADIO_PAYLOAD_MAX,
{
    let n: usize = if message.len() <= RADIO_PAYLOAD_MAX {
        message.len()
    } else {
        RADIO_PAYLOAD_MAX
    };
    let mut out: Vec<u8> = Vec::new();
    let mut i: usize = 0;
    while i < n
        invariant
            n <= message@.len(),
            n <= RADIO_PAYLOAD_MAX,
            i <= n,
            out@ == message@.take(i as int),
        decreases n - i,
    {
        out.push(message[i]);
        i = i + 1;
        assert(out@ =~= message@.take(i as int));
    }
    assert(message@.take(message@.len() as int) =~= message@);
    out
}

/// Decides the receive task's next step from the outcome of a poll.
pub fn after_poll(poll: Result<usize, RadioFault>) -> (r: ListenStep)
    ensures
        r == listen_step(poll),
{
    match poll {
        Ok(size) => ListenStep::Read(size),
        Err(RadioFault::Uninformative) => ListenStep::Idle,
        Err(f) => ListenStep::Report(f),
    }
}

/// Relies on core::str::from_utf8: it accepts exactly the well-formed UTF-8 sequences.
#[verifier::external_body]
fn is_utf8(bytes: &[u8]) -> (r: bool)
    ensures
        r == valid_utf8(bytes@),
{
    core::str::from_utf8(bytes).is_ok()
}

/// The first `size` bytes of a received buffer, as text when they are
/// well-formed UTF-8, else marked as not text.
pub fn inbound_message(buffer: &[u8], size: usize) -> (r: Inbound)
    requires
        size <= buffer@.len(),
    ensures
        r matches Inbound::Text(t) ==> t@ == buffer@.take(size as int),
        r is Text <==> valid_utf8(buffer@.take(size as int)),
{
    let mut packet: Vec<u8> = Vec::new();
    let mut i: usize = 0;
    while i < size
        invariant
            size <= buffer@.len(),
            i <= size,
            packet@ == buffer@.take(i as int),
        decreases size - i,
    {
        packet.push(buffer[i]);
        i = i + 1;
        assert(packet@ =~= buffer@.take(i as int));
    }
    if is_utf8(packet.as_slice()) {
        Inbound::Text(packet)
    } else {
        Inbound::NonText
    }
}

} // verus!
