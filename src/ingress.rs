use vstd::prelude::*;
use crate::can_types::{known_id, decode, message_text, lemma_message_text_len, payload_view, CanMessage, FrameId, MailboxData};
use crate::text::{int_text, nat_text, push_all, push_int, push_nat};

verus! {

pub open spec fn rx_label() -> Seq<u8> {
    seq![82u8, 88u8, 58u8, 32u8, 77u8, 66u8]
}

pub open spec fn rx_separator() -> Seq<u8> {
    seq![32u8, 45u8, 32u8]
}

pub open spec fn id_label() -> Seq<u8> {
    seq![73u8, 68u8, 58u8, 32u8]
}

pub open spec fn data_label() -> Seq<u8> {
    seq![44u8, 32u8, 100u8, 97u8, 116u8, 97u8, 58u8]
}

/// `RX: MB<mailbox> - <record text>`
pub open spec fn ingress_text(mailbox: u8, m: CanMessage) -> Seq<u8> {
    rx_label() + int_text(mailbox as int) + rx_separator() + message_text(m)
}

/// The line handed to the radio for a received frame: present exactly when
/// the frame decodes to a record.
pub open spec fn ingress_spec(d: MailboxData) -> Option<Seq<u8>> {
    match decode(d.id, payload_view(d)) {
        Some(m) => Some(ingress_text(d.mailbox_number, m)),
        None => None,
    }
}

/// Numeric value of an identifier.
pub open spec fn id_value(id: FrameId) -> nat {
    match id {
        FrameId::Standard(raw) => raw as nat,
        FrameId::Extended(raw) => raw as nat,
    }
}

/// Each byte of `p` as ` <decimal>`.
pub open spec fn bytes_text(p: Seq<u8>) -> Seq<u8>
    decreases p.len(),
{
    if p.len() == 0 {
        Seq::empty()
    } else {
        bytes_text(p.drop_last()) + seq![32u8] + int_text(p.last() as int)
    }
}

/// `ID: <identifier>, data: <b0> <b1> ...` (no bytes for a remote frame).
pub open spec fn diagnostic_text(id: FrameId, data: Option<Seq<u8>>) -> Seq<u8> {
    id_label() + nat_text(id_value(id)) + data_label() + match data {
        Some(p) => bytes_text(p),
        None => Seq::empty(),
    }
}

/// Builds the radio line for a received frame: `None` when the frame does not
/// decode to a record; the line always fits a radio payload.
pub fn ingress_line(data: MailboxData) -> (r: Option<Vec<u8>>)
    ensures
        r matches Some(v) ==> ingress_spec(data) == Some(v@) && v@.len() <= 255,
        r is None <==> ingress_spec(data) is None,
{
    let mailbox = data.mailbox_number;
    match CanMessage::new(data) {
        Some(m) => {
            let mut out: Vec<u8> = Vec::new();
            let l1: [u8; 6] = [82u8, 88u8, 58u8, 32u8, 77u8, 66u8];
            let l2: [u8; 3] = [32u8, 45u8, 32u8];
            assert(l1@ =~= rx_label());
            assert(l2@ =~= rx_separator());
            push_all(&mut out, &l1);
            push_int(&mut out, mailbox as i32);
            push_all(&mut out, &l2);
            m.write_text(&mut out);
            assert(out@ =~= ingress_text(mailbox, m));
            proof {
                lemma_message_text_len(m);
                crate::can_types::lemma_i16_text_len(mailbox as i16);
            }
            Some(out)
        },
        None => None,
    }
}

/// Appends ` <decimal>` for each byte of `p`.
fn push_bytes(out: &mut Vec<u8>, p: &[u8])
    ensures
        final(out)@ == old(out)@ + bytes_text(p@),
{
    let mut i: usize = 0;
    while i < p.len()
        invariant
            i <= p@.len(),
            out@ == old(out)@ + bytes_text(p@.take(i as int)),
        decreases p@.len() - i,
    {
        out.push(32u8);
        push_int(out, p[i] as i32);
        assert(p@.take(i + 1).drop_last() =~= p@.take(i as int));
        i = i + 1;
        assert(out@ =~= old(out)@ + bytes_text(p@.take(i as int)));
    }
    assert(p@.take(p@.len() as int) =~= p@);
}

/// The diagnostic line for a frame that no record is defined for: `Some`
/// exactly when the identifier is unknown or extended, and then it names
/// the identifier and the payload bytes.
pub fn diagnostic_line(data: &MailboxData) -> (r: Option<Vec<u8>>)
    ensures
        r matches Some(v) ==> v@ == diagnostic_text(data.id, payload_view(*data)),
        r is None <==> known_id(data.id),
{
    let id = data.id;
    if id.is_known() {
        return None;
    }
    let mut out: Vec<u8> = Vec::new();
    let l1: [u8; 4] = [73u8, 68u8, 58u8, 32u8];
    let l2: [u8; 7] = [44u8, 32u8, 100u8, 97u8, 116u8, 97u8, 58u8];
    assert(l1@ =~= id_label());
    assert(l2@ =~= data_label());
    push_all(&mut out, &l1);
    match id {
        FrameId::Standard(raw) => push_nat(&mut out, raw as u32),
        FrameId::Extended(raw) => push_nat(&mut out, raw),
    }
    push_all(&mut out, &l2);
    match &data.data {
        Some(p) => push_bytes(&mut out, p.as_slice()),
        None => {},
    }
    assert(out@ =~= diagnostic_text(data.id, payload_view(*data)));
    Some(out)
}

} // verus!
