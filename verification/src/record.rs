//! The record that one decoded frame yields.

use vstd::prelude::*;

use crate::mac::colon_hex;

verus! {

/// The largest identifier that the twelve bits of a VLAN tag can hold.
pub const MAX_VLAN_ID: u16 = 4095;

/// One decoded frame: both hardware addresses as text, and the identifier
/// of the outermost VLAN tag where the frame carries one.
#[derive(Debug, Clone, PartialEq, Eq)]
pub struct Data {
    pub src: String,
    pub dst: String,
    pub vlan: Option<u16>,
}

/// What a `Data` holds, as mathematical values.
pub struct DataView {
    pub src: Seq<char>,
    pub dst: Seq<char>,
    pub vlan: Option<u16>,
}

impl View for Data {
    type V = DataView;

    open spec fn view(&self) -> DataView {
        DataView { src: self.src@, dst: self.dst@, vlan: self.vlan }
    }
}

impl DataView {
    /// A record as decoding produces it: both addresses are the text of six
    /// octets, and an identifier fits in twelve bits.
    pub open spec fn well_formed(self) -> bool {
        &&& exists|octets: Seq<u8>| octets.len() == 6 && self.src == #[trigger] colon_hex(octets)
        &&& exists|octets: Seq<u8>| octets.len() == 6 && self.dst == #[trigger] colon_hex(octets)
        &&& self.vlan matches Some(id) ==> id <= MAX_VLAN_ID
    }
}

/// Why a captured buffer gave no record.
#[derive(Debug, Clone, Copy, PartialEq, Eq, Structural)]
pub enum DecodeError {
    /// The buffer is shorter than an Ethernet header.
    TooShort,
    /// A header behind the first fourteen octets is truncated or malformed.
    Malformed,
    /// The slices hold no link-layer header. Slicing from the Ethernet
    /// header always yields one, so `decode` never gives this error.
    UnsupportedLink,
}

} // verus!
