use vstd::prelude::*;
use crate::text::{int_text, nat_text, push_all, push_int};

verus! {

/// Identifier of a CAN frame: 11-bit standard or 29-bit extended.
#[derive(Clone, Copy, Debug, PartialEq, Eq, Structural)]
pub enum FrameId {
    Standard(u16),
    Extended(u32),
}

/// A frame as the CAN peripheral hands it over: the mailbox it was read
/// from, its identifier and its payload (`None` for a remote frame).
#[derive(Clone, Debug)]
pub struct MailboxData {
    pub mailbox_number: u8,
    pub id: FrameId,
    pub data: Option<Vec<u8>>,
}

/// Standard identifier of the gyroscope frame.
pub const GYROSCOPE_ID: u16 = 0x470;

/// Standard identifier of the accelerometer frame.
pub const ACCELEROMETER_ID: u16 = 0x471;

/// Standard identifier of the GPS frame.
pub const GPS_ID: u16 = 0x480;

/// Linear acceleration along the three vehicle axes.
#[derive(Clone, Copy, Debug, PartialEq, Eq, Structural)]
pub struct Accelerometer {
    pub lateral: i16,
    pub longitudinal: i16,
    pub vertical: i16,
}

/// Rotation rates about the three vehicle axes.
#[derive(Clone, Copy, Debug, PartialEq, Eq, Structural)]
pub struct Gyroscope {
    pub yaw: i16,
    pub pitch: i16,
    pub roll: i16,
}

/// A GPS fix: position, heading and speed.
#[derive(Clone, Copy, Debug, PartialEq, Eq, Structural)]
pub struct GPSModule {
    pub lat: i16,
    pub long: i16,
    pub heading: i16,
    pub speed: i16,
}

/// Speed readings from the hall-effect sensors.
#[derive(Clone, Copy, Debug, PartialEq, Eq, Structural)]
pub struct HallEffect {
    pub engine_rpm: i16,
    pub rr_wheel_rpm: i16,
    pub trottle: i16,
}

/// A decoded sensor record.
#[derive(Clone, Copy, Debug, PartialEq, Eq, Structural)]
pub enum CanMessage {
    Accelerometer(Accelerometer),
    Gyroscope(Gyroscope),
    GPS(GPSModule),
}

/// Big-endian two's-complement value of the byte pair `hi`, `lo`.
pub open spec fn be16(hi: u8, lo: u8) -> int {
    let v = hi as int * 256 + lo as int;
    if v >= 32768 {
        v - 65536
    } else {
        v
    }
}

/// Field `k` of a payload: its `k`-th two-byte chunk, read big-endian.
pub open spec fn chunk(p: Seq<u8>, k: int) -> i16 {
    be16(p[2 * k], p[2 * k + 1]) as i16
}

/// Number of whole two-byte chunks in a payload; a trailing odd byte is not one.
pub open spec fn chunk_count(p: Seq<u8>) -> nat {
    p.len() / 2
}

pub open spec fn accelerometer_of(p: Seq<u8>) -> Accelerometer {
    Accelerometer { lateral: chunk(p, 0), longitudinal: chunk(p, 1), vertical: chunk(p, 2) }
}

pub open spec fn gyroscope_of(p: Seq<u8>) -> Gyroscope {
    Gyroscope { yaw: chunk(p, 0), pitch: chunk(p, 1), roll: chunk(p, 2) }
}

pub open spec fn gps_of(p: Seq<u8>) -> GPSModule {
    GPSModule { lat: chunk(p, 0), long: chunk(p, 1), heading: chunk(p, 2), speed: chunk(p, 3) }
}

/// Whether `id` is one of the standard identifiers that carry a sensor record.
pub open spec fn known_id(id: FrameId) -> bool {
    match id {
        FrameId::Standard(raw) => raw == GYROSCOPE_ID || raw == ACCELEROMETER_ID || raw == GPS_ID,
        FrameId::Extended(_) => false,
    }
}

/// Payload length, in bytes, that the record of a known standard identifier needs.
pub open spec fn required_len(raw: u16) -> nat {
    if raw == GPS_ID {
        8
    } else {
        6
    }
}

/// The record that a frame with identifier `id` and payload `data` decodes to.
pub open spec fn decode(id: FrameId, data: Option<Seq<u8>>) -> Option<CanMessage> {
    match (id, data) {
        (FrameId::Standard(raw), Some(p)) => {
            if raw == GYROSCOPE_ID && chunk_count(p) >= 3 {
                Some(CanMessage::Gyroscope(gyroscope_of(p)))
            } else if raw == ACCELEROMETER_ID && chunk_count(p) >= 3 {
                Some(CanMessage::Accelerometer(accelerometer_of(p)))
            } else if raw == GPS_ID && chunk_count(p) >= 4 {
                Some(CanMessage::GPS(gps_of(p)))
            } else {
                None
            }
        },
        _ => None,
    }
}

impl FrameId {
    /// Whether a sensor record is defined for this identifier.
    pub fn is_known(&self) -> (r: bool)
        ensures
            r == known_id(*self),
    {
        match self {
            FrameId::Standard(raw) => *raw == GYROSCOPE_ID || *raw == ACCELEROMETER_ID || *raw
                == GPS_ID,
            FrameId::Extended(_) => false,
        }
    }
}

pub open spec fn payload_view(d: MailboxData) -> Option<Seq<u8>> {
    match d.data {
        Some(v) => Some(v@),
        None => None,
    }
}

/// Reads chunk `k` of `data` as a big-endian `i16`.
fn chunk_at(data: &[u8], k: usize) -> (r: i16)
    requires
        2 * k + 1 < data@.len(),
    ensures
        r == chunk(data@, k as int),
{
    let n = data.len();
    assert(2 * k + 1 < n);
    let hi = data[2 * k];
    let lo = data[2 * k + 1];
    let v: i32 = hi as i32 * 256 + lo as i32;
    if v >= 32768 {
        (v - 65536) as i16
    } else {
        v as i16
    }
}

impl Accelerometer {
    /// Decodes lateral, longitudinal and vertical from the first three chunks.
    pub fn new(data: &[u8]) -> (r: Option<Accelerometer>)
        ensures
            r == (if chunk_count(data@) >= 3 {
                Some(accelerometer_of(data@))
            } else {
                None
            }),
    {
        if data.len() / 2 < 3 {
            return None;
        }
        Some(
            Accelerometer {
                lateral: chunk_at(data, 0),
                longitudinal: chunk_at(data, 1),
                vertical: chunk_at(data, 2),
            },
        )
    }
}

impl Gyroscope {
    /// Decodes yaw, pitch and roll from the first three chunks.
    pub fn new(data: &[u8]) -> (r: Option<Gyroscope>)
        ensures
            r == (if chunk_count(data@) >= 3 {
                Some(gyroscope_of(data@))
            } else {
                None
            }),
    {
        if data.len() / 2 < 3 {
            return None;
        }
        Some(Gyroscope { yaw: chunk_at(data, 0), pitch: chunk_at(data, 1), roll: chunk_at(data, 2) })
    }
}

impl GPSModule {
    /// Decodes latitude, longitude, heading and speed from the first four chunks.
    pub fn new(data: &[u8]) -> (r: Option<GPSModule>)
        ensures
            r == (if chunk_count(data@) >= 4 {
                Some(gps_of(data@))
            } else {
                None
            }),
    {
        if data.len() / 2 < 4 {
            return None;
        }
        Some(
            GPSModule {
                lat: chunk_at(data, 0),
                long: chunk_at(data, 1),
                heading: chunk_at(data, 2),
                speed: chunk_at(data, 3),
            },
        )
    }
}

impl CanMessage {
    /// Decodes a received frame by its identifier; `None` for an unknown or
    /// extended identifier, a remote frame, or a payload too short for its record.
    pub fn new(data: MailboxData) -> (r: Option<CanMessage>)
        ensures
            r == decode(data.id, payload_view(data)),
    {
        let payload = match &data.data {
            Some(p) => p,
            None => {
                return None;
            },
        };
        match data.id {
            FrameId::Standard(raw) => {
                if raw == GYROSCOPE_ID {
                    match Gyroscope::new(payload.as_slice()) {
                        Some(h) => Some(CanMessage::Gyroscope(h)),
                        None => None,
                    }
                } else if raw == ACCELEROMETER_ID {
                    match Accelerometer::new(payload.as_slice()) {
                        Some(h) => Some(CanMessage::Accelerometer(h)),
                        None => None,
                    }
                } else if raw == GPS_ID {
                    match GPSModule::new(payload.as_slice()) {
                        Some(h) => Some(CanMessage::GPS(h)),
                        None => None,
                    }
                } else {
                    None
                }
            },
            FrameId::Extended(_) => None,
        }
    }
}

pub open spec fn lat_label() -> Seq<u8> {
    seq![62u8, 108u8, 97u8, 116u8, 58u8]
}

pub open spec fn long_label() -> Seq<u8> {
    seq![10u8, 62u8, 108u8, 111u8, 110u8, 103u8, 58u8]
}

pub open spec fn vert_label() -> Seq<u8> {
    seq![10u8, 62u8, 118u8, 101u8, 114u8, 116u8, 58u8]
}

pub open spec fn yaw_label() -> Seq<u8> {
    seq![62u8, 121u8, 97u8, 119u8, 58u8]
}

pub open spec fn pitch_label() -> Seq<u8> {
    seq![10u8, 62u8, 112u8, 105u8, 116u8, 99u8, 104u8, 58u8]
}

pub open spec fn roll_label() -> Seq<u8> {
    seq![10u8, 62u8, 114u8, 111u8, 108u8, 108u8, 58u8]
}

pub open spec fn gps_lat_label() -> Seq<u8> {
    seq![71u8, 80u8, 83u8, 77u8, 111u8, 100u8, 117u8, 108u8, 101u8, 32u8, 123u8, 32u8, 108u8, 97u8, 116u8, 58u8, 32u8]
}

pub open spec fn gps_long_label() -> Seq<u8> {
    seq![44u8, 32u8, 108u8, 111u8, 110u8, 103u8, 58u8, 32u8]
}

pub open spec fn gps_heading_label() -> Seq<u8> {
    seq![44u8, 32u8, 104u8, 101u8, 97u8, 100u8, 105u8, 110u8, 103u8, 58u8, 32u8]
}

pub open spec fn gps_speed_label() -> Seq<u8> {
    seq![44u8, 32u8, 115u8, 112u8, 101u8, 101u8, 100u8, 58u8, 32u8]
}

pub open spec fn gps_end_label() -> Seq<u8> {
    seq![32u8, 125u8]
}

/// `>lat:<lateral>\n>long:<longitudinal>\n>vert:<vertical>`
pub open spec fn accelerometer_text(a: Accelerometer) -> Seq<u8> {
    lat_label() + int_text(a.lateral as int) + long_label() + int_text(a.longitudinal as int)
        + vert_label() + int_text(a.vertical as int)
}

/// `>yaw:<yaw>\n>pitch:<pitch>\n>roll:<roll>`
pub open spec fn gyroscope_text(g: Gyroscope) -> Seq<u8> {
    yaw_label() + int_text(g.yaw as int) + pitch_label() + int_text(g.pitch as int) + roll_label()
        + int_text(g.roll as int)
}

/// `GPSModule { lat: <lat>, long: <long>, heading: <heading>, speed: <speed> }`
pub open spec fn gps_text(g: GPSModule) -> Seq<u8> {
    gps_lat_label() + int_text(g.lat as int) + gps_long_label() + int_text(g.long as int)
        + gps_heading_label() + int_text(g.heading as int) + gps_speed_label() + int_text(
        g.speed as int,
    ) + gps_end_label()
}

/// Text of a decoded record, as sent over the radio and logged.
pub open spec fn message_text(m: CanMessage) -> Seq<u8> {
    match m {
        CanMessage::Accelerometer(a) => accelerometer_text(a),
        CanMessage::Gyroscope(g) => gyroscope_text(g),
        CanMessage::GPS(g) => gps_text(g),
    }
}

/// The decimal text of an `i16` takes at most six bytes.
pub proof fn lemma_i16_text_len(v: i16)
    ensures
        int_text(v as int).len() <= 6,
{
    let n: nat = if v < 0 { (-(v as int)) as nat } else { v as nat };
    lemma_nat_text_len(n);
}

/// Digit counts of naturals below 10^5.
pub proof fn lemma_nat_text_len(n: nat)
    ensures
        n < 10 ==> nat_text(n).len() == 1,
        n < 100 ==> nat_text(n).len() <= 2,
        n < 1000 ==> nat_text(n).len() <= 3,
        n < 10000 ==> nat_text(n).len() <= 4,
        n < 100000 ==> nat_text(n).len() <= 5,
    decreases n,
{
    if n >= 10 {
        lemma_nat_text_len(n / 10);
    }
}

/// Every record renders to at most 71 bytes.
pub proof fn lemma_message_text_len(m: CanMessage)
    ensures
        message_text(m).len() <= 71,
{
    match m {
        CanMessage::Accelerometer(a) => {
            lemma_i16_text_len(a.lateral);
            lemma_i16_text_len(a.longitudinal);
            lemma_i16_text_len(a.vertical);
        },
        CanMessage::Gyroscope(g) => {
            lemma_i16_text_len(g.yaw);
            lemma_i16_text_len(g.pitch);
            lemma_i16_text_len(g.roll);
        },
        CanMessage::GPS(g) => {
            lemma_i16_text_len(g.lat);
            lemma_i16_text_len(g.long);
            lemma_i16_text_len(g.heading);
            lemma_i16_text_len(g.speed);
        },
    }
}

impl Accelerometer {
    /// Appends this record's text.
    pub fn write_text(&self, out: &mut Vec<u8>)
        ensures
            final(out)@ == old(out)@ + accelerometer_text(*self),
    {
        let l1: [u8; 5] = [62u8, 108u8, 97u8, 116u8, 58u8];
        let l2: [u8; 7] = [10u8, 62u8, 108u8, 111u8, 110u8, 103u8, 58u8];
        let l3: [u8; 7] = [10u8, 62u8, 118u8, 101u8, 114u8, 116u8, 58u8];
        assert(l1@ =~= lat_label());
        assert(l2@ =~= long_label());
        assert(l3@ =~= vert_label());
        push_all(out, &l1);
        push_int(out, self.lateral as i32);
        push_all(out, &l2);
        push_int(out, self.longitudinal as i32);
        push_all(out, &l3);
        push_int(out, self.vertical as i32);
        assert(out@ =~= old(out)@ + accelerometer_text(*self));
    }
}

impl Gyroscope {
    /// Appends this record's text.
    pub fn write_text(&self, out: &mut Vec<u8>)
        ensures
            final(out)@ == old(out)@ + gyroscope_text(*self),
    {
        let l1: [u8; 5] = [62u8, 121u8, 97u8, 119u8, 58u8];
        let l2: [u8; 8] = [10u8, 62u8, 112u8, 105u8, 116u8, 99u8, 104u8, 58u8];
        let l3: [u8; 7] = [10u8, 62u8, 114u8, 111u8, 108u8, 108u8, 58u8];
        assert(l1@ =~= yaw_label());
        assert(l2@ =~= pitch_label());
        assert(l3@ =~= roll_label());
        push_all(out, &l1);
        push_int(out, self.yaw as i32);
        push_all(out, &l2);
        push_int(out, self.pitch as i32);
        push_all(out, &l3);
        push_int(out, self.roll as i32);
        assert(out@ =~= old(out)@ + gyroscope_text(*self));
    }
}

impl GPSModule {
    /// Appends this record's text.
    pub fn write_text(&self, out: &mut Vec<u8>)
        ensures
            final(out)@ == old(out)@ + gps_text(*self),
    {
        let l1: [u8; 17] = [
            71u8, 80u8, 83u8, 77u8, 111u8, 100u8, 117u8, 108u8, 101u8, 32u8, 123u8, 32u8, 108u8,
            97u8, 116u8, 58u8, 32u8,
        ];
        let l2: [u8; 8] = [44u8, 32u8, 108u8, 111u8, 110u8, 103u8, 58u8, 32u8];
        let l3: [u8; 11] = [44u8, 32u8, 104u8, 101u8, 97u8, 100u8, 105u8, 110u8, 103u8, 58u8, 32u8];
        let l4: [u8; 9] = [44u8, 32u8, 115u8, 112u8, 101u8, 101u8, 100u8, 58u8, 32u8];
        let l5: [u8; 2] = [32u8, 125u8];
        assert(l1@ =~= gps_lat_label());
        assert(l2@ =~= gps_long_label());
        assert(l3@ =~= gps_heading_label());
        assert(l4@ =~= gps_speed_label());
        assert(l5@ =~= gps_end_label());
        push_all(out, &l1);
        push_int(out, self.lat as i32);
        push_all(out, &l2);
        push_int(out, self.long as i32);
        push_all(out, &l3);
        push_int(out, self.heading as i32);
        push_all(out, &l4);
        push_int(out, self.speed as i32);
        push_all(out, &l5);
        assert(out@ =~= old(out)@ + gps_text(*self));
    }
}

impl CanMessage {
    /// Appends this record's text.
    pub fn write_text(&self, out: &mut Vec<u8>)
        ensures
            final(out)@ == old(out)@ + message_text(*self),
    {
        match self {
            CanMessage::Accelerometer(a) => a.write_text(out),
            CanMessage::Gyroscope(g) => g.write_text(out),
            CanMessage::GPS(g) => g.write_text(out),
        }
    }

    /// This record's text; never longer than a radio payload (255 bytes).
    pub fn to_text(&self) -> (r: Vec<u8>)
        ensures
            r@ == message_text(*self),
            r@.len() <= 255,
    {
        let mut out: Vec<u8> = Vec::new();
        self.write_text(&mut out);
        assert(out@ =~= message_text(*self));
        proof {
            lemma_message_text_len(*self);
        }
        out
    }
}

/// Two's-complement bit pattern of `v` as an unsigned 16-bit number.
pub open spec fn bits16(v: i16) -> nat {
    if v < 0 {
        (v as int + 65536) as nat
    } else {
        v as nat
    }
}

/// `v` as two bytes, low byte first.
pub open spec fn le_bytes(v: i16) -> Seq<u8> {
    seq![(bits16(v) % 256) as u8, (bits16(v) / 256) as u8]
}

fn push_le(out: &mut Vec<u8>, v: i16)
    ensures
        final(out)@ == old(out)@ + le_bytes(v),
{
    let u: u16 = if v < 0 {
        (v as i32 + 65536) as u16
    } else {
        v as u16
    };
    out.push((u % 256) as u8);
    out.push((u / 256) as u8);
    assert(out@ =~= old(out)@ + le_bytes(v));
}

impl GPSModule {
    /// The record as an 8-byte frame payload: the four fields in order, each
    /// low byte first (the byte order of the little-endian controller).
    pub fn into_data(self) -> (r: Vec<u8>)
        ensures
            r@ == le_bytes(self.lat) + le_bytes(self.long) + le_bytes(self.heading) + le_bytes(
                self.speed,
            ),
            r@.len() == 8,
    {
        let mut out: Vec<u8> = Vec::new();
        push_le(&mut out, self.lat);
        push_le(&mut out, self.long);
        push_le(&mut out, self.heading);
        push_le(&mut out, self.speed);
        assert(out@ =~= le_bytes(self.lat) + le_bytes(self.long) + le_bytes(self.heading) + le_bytes(self.speed));
        out
    }
}

/// A payload of exactly the length its record needs decodes, under a known
/// standard identifier, to the record whose fields are the payload's
/// big-endian chunks in declared order.
pub proof fn lemma_exact_payload_decodes(raw: u16, p: Seq<u8>)
    requires
        known_id(FrameId::Standard(raw)),
        p.len() == required_len(raw),
    ensures
        raw == GYROSCOPE_ID ==> decode(FrameId::Standard(raw), Some(p)) == Some(
            CanMessage::Gyroscope(Gyroscope { yaw: chunk(p, 0), pitch: chunk(p, 1), roll: chunk(p, 2) }),
        ),
        raw == ACCELEROMETER_ID ==> decode(FrameId::Standard(raw), Some(p)) == Some(
            CanMessage::Accelerometer(
                Accelerometer { lateral: chunk(p, 0), longitudinal: chunk(p, 1), vertical: chunk(p, 2) },
            ),
        ),
        raw == GPS_ID ==> decode(FrameId::Standard(raw), Some(p)) == Some(
            CanMessage::GPS(
                GPSModule { lat: chunk(p, 0), long: chunk(p, 1), heading: chunk(p, 2), speed: chunk(p, 3) },
            ),
        ),
{
}

/// A payload shorter than its record needs decodes to no record, under
/// every known standard identifier.
pub proof fn lemma_short_payload_rejected(raw: u16, p: Seq<u8>)
    requires
        known_id(FrameId::Standard(raw)),
        p.len() < required_len(raw),
    ensures
        decode(FrameId::Standard(raw), Some(p)) is None,
{
}

/// An unknown standard identifier, and every extended identifier, decodes to
/// no record whatever the payload.
pub proof fn lemma_unknown_id_rejected(id: FrameId, data: Option<Seq<u8>>)
    requires
        !known_id(id),
    ensures
        decode(id, data) is None,
{
}

/// Two equal records render to the same text.
pub proof fn lemma_equal_messages_same_text(a: CanMessage, b: CanMessage)
    requires
        a == b,
    ensures
        message_text(a) == message_text(b),
{
}

} // verus!
