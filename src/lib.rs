//! Decoding of sensor frames read off a CAN bus, their text form, and the
//! decisions of the radio link that relays them.
//!
//! `can_types` maps an identifier and a payload to a typed record,
//! `ingress` builds the lines sent for received frames, `relay` holds what
//! the transmit and receive tasks decide, and `text` renders integers.

pub mod can_types;
pub mod ingress;
pub mod relay;
pub mod text;
