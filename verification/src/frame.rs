//! The frame decoder: from the octets of one captured Ethernet frame to a
//! record, or to the reason why there is none.

use vstd::prelude::*;

use crate::mac::{colon_hex, mac_text};
use crate::record::{Data, DataView, DecodeError};

verus! {

/// Length of an Ethernet II header: two addresses and the ether type.
pub const MIN_FRAME_LEN: usize = 14;

/// Length of one 802.1Q tag.
pub const TAG_LEN: usize = 4;

/// Both hardware addresses of an Ethernet II header.
#[derive(Debug, Clone, Copy, PartialEq, Eq)]
pub struct Addresses {
    pub source: [u8; 6],
    pub destination: [u8; 6],
}

/// The 802.1Q tags in front of a frame's payload, by their identifiers.
#[derive(Debug, Clone, Copy, PartialEq, Eq, Structural)]
pub enum VlanTag {
    /// One tag.
    Single(u16),
    /// Two stacked tags: the outer one first, then the inner one.
    Double(u16, u16),
}

/// What the decoder reads of a sliced frame.
#[derive(Debug, Clone, Copy, PartialEq, Eq)]
pub struct LinkSlices {
    pub link: Option<Addresses>,
    pub vlan: Option<VlanTag>,
}

/// `etherparse::ReadError`, the error of the slicing. Nothing is read of it.
#[verifier::external_type_specification]
#[verifier::external_body]
pub struct ExReadError(etherparse::ReadError);

/// The big-endian number in the two octets at `at`.
pub open spec fn u16_at(bytes: Seq<u8>, at: int) -> int {
    bytes[at] as int * 256 + bytes[at + 1] as int
}

/// The ether types that announce an 802.1Q tag.
pub open spec fn is_vlan_ether_type(ether_type: int) -> bool {
    ether_type == 0x8100 || ether_type == 0x88A8 || ether_type == 0x9100
}

/// The ether types of IPv4 and IPv6.
pub open spec fn is_ip_ether_type(ether_type: int) -> bool {
    ether_type == 0x0800 || ether_type == 0x86DD
}

/// The identifier in the tag whose control field starts at `at`: the low
/// twelve bits of that field.
pub open spec fn vlan_id_at(bytes: Seq<u8>, at: int) -> u16 {
    ((bytes[at] as int % 16) * 256 + bytes[at + 1] as int) as u16
}

/// How many tags a frame announces behind its addresses: none, one or two.
/// A third tag counts as payload.
pub open spec fn tag_count(bytes: Seq<u8>) -> nat {
    if !is_vlan_ether_type(u16_at(bytes, 12)) {
        0
    } else if bytes.len() < MIN_FRAME_LEN + TAG_LEN || !is_vlan_ether_type(u16_at(bytes, 16)) {
        1
    } else {
        2
    }
}

/// Whether the buffer holds the Ethernet header and every tag it announces.
pub open spec fn link_headers_fit(bytes: Seq<u8>) -> bool {
    bytes.len() >= MIN_FRAME_LEN && bytes.len() >= MIN_FRAME_LEN + TAG_LEN * tag_count(bytes)
}

/// The tags of a frame whose link headers fit.
pub open spec fn vlan_tag_of(bytes: Seq<u8>) -> Option<VlanTag> {
    if tag_count(bytes) == 0 {
        None
    } else if tag_count(bytes) == 1 {
        Some(VlanTag::Single(vlan_id_at(bytes, 14)))
    } else {
        Some(VlanTag::Double(vlan_id_at(bytes, 14), vlan_id_at(bytes, 18)))
    }
}

/// The ether type that names the payload behind the last tag.
pub open spec fn payload_ether_type(bytes: Seq<u8>) -> int {
    u16_at(bytes, 12 + TAG_LEN * tag_count(bytes))
}

/// Whether `etherparse::SlicedPacket::from_ethernet` accepts these octets.
/// For a frame that carries IPv4 or IPv6 this depends on the headers of the
/// network and transport layers, which this library does not describe.
pub uninterp spec fn ethernet_slicing_succeeds(bytes: Seq<u8>) -> bool;

/// Calls `etherparse::SlicedPacket::from_ethernet` and copies out the
/// addresses and the tag identifiers.
///
/// Claimed of it: the slicing accepts no buffer whose Ethernet header or
/// announced tags are cut short, and accepts every buffer that holds them and
/// carries neither IPv4 nor IPv6. Where it accepts, the link slice is there
/// with the destination in octets 0 to 5 and the source in octets 6 to 11,
/// and the tags are those that the ether types at octets 12 and 16 announce,
/// each with the low twelve bits of its control field as identifier.
#[verifier::external_body]
fn slice_ethernet(data: &[u8]) -> (res: Result<LinkSlices, etherparse::ReadError>)
    ensures
        res is Ok <==> ethernet_slicing_succeeds(data@),
        res is Ok ==> link_headers_fit(data@),
        link_headers_fit(data@) && !is_ip_ether_type(payload_ether_type(data@)) ==> res is Ok,
        res matches Ok(slices) ==> {
            &&& slices.vlan == vlan_tag_of(data@)
            &&& slices.link matches Some(addresses)
            &&& addresses.source@ == data@.subrange(6, 12)
            &&& addresses.destination@ == data@.subrange(0, 6)
        },
{
    let packet = etherparse::SlicedPacket::from_ethernet(data)?;
    let link = packet.link.map(|l| l.to_header()).map(
        |h| Addresses { source: h.source, destination: h.destination },
    );
    let vlan = packet.vlan.map(
        |v| match v {
            etherparse::VlanSlice::SingleVlan(x) => VlanTag::Single(x.vlan_identifier()),
            etherparse::VlanSlice::DoubleVlan(x) => VlanTag::Double(
                x.outer().vlan_identifier(),
                x.inner().vlan_identifier(),
            ),
        },
    );
    Ok(LinkSlices { link, vlan })
}

/// The identifier that a record reports: that of the outermost tag.
pub open spec fn outer_id(vlan: Option<VlanTag>) -> Option<u16> {
    match vlan {
        None => None,
        Some(VlanTag::Single(id)) => Some(id),
        Some(VlanTag::Double(outer, _)) => Some(outer),
    }
}

/// The record of a frame with these addresses and tags.
pub open spec fn record_view(source: Seq<u8>, destination: Seq<u8>, vlan: Option<VlanTag>) -> DataView {
    DataView { src: colon_hex(source), dst: colon_hex(destination), vlan: outer_id(vlan) }
}

/// The record of sliced link headers, or the error where the link slice is
/// missing.
pub open spec fn record_spec(slices: LinkSlices) -> Result<DataView, DecodeError> {
    match slices.link {
        None => Err(DecodeError::UnsupportedLink),
        Some(addresses) => Ok(
            record_view(addresses.source@, addresses.destination@, slices.vlan),
        ),
    }
}

/// What `decode` returns for a buffer.
pub open spec fn decode_spec(bytes: Seq<u8>) -> Result<DataView, DecodeError> {
    if bytes.len() < MIN_FRAME_LEN {
        Err(DecodeError::TooShort)
    } else if !ethernet_slicing_succeeds(bytes) {
        Err(DecodeError::Malformed)
    } else {
        Ok(record_view(bytes.subrange(6, 12), bytes.subrange(0, 6), vlan_tag_of(bytes)))
    }
}

/// A decoding result with its record taken by view.
pub open spec fn decoded_view(res: Result<Data, DecodeError>) -> Result<DataView, DecodeError> {
    match res {
        Ok(record) => Ok(record@),
        Err(error) => Err(error),
    }
}

/// Builds the record of sliced link headers: the addresses as text, and the
/// identifier of the outermost tag.
pub fn record_of(slices: &LinkSlices) -> (res: Result<Data, DecodeError>)
    ensures
        decoded_view(res) == record_spec(*slices),
{
    match slices.link {
        None => Err(DecodeError::UnsupportedLink),
        Some(addresses) => {
            let vlan = match slices.vlan {
                None => None,
                Some(VlanTag::Single(id)) => Some(id),
                Some(VlanTag::Double(outer, _)) => Some(outer),
            };
            Ok(Data { src: mac_text(&addresses.source), dst: mac_text(&addresses.destination), vlan })
        },
    }
}

/// Decodes one captured frame.
///
/// A buffer shorter than an Ethernet header is `TooShort`; one that the
/// slicing rejects is `Malformed`; every other buffer gives its record.
/// A record is owed for every frame that holds its link headers and carries
/// neither IPv4 nor IPv6, and none comes for a frame whose link headers are
/// cut short.
pub fn decode(raw: &[u8]) -> (res: Result<Data, DecodeError>)
    ensures
        decoded_view(res) == decode_spec(raw@),
        res is Ok ==> link_headers_fit(raw@),
        link_headers_fit(raw@) && !is_ip_ether_type(payload_ether_type(raw@)) ==> res is Ok,
        res matches Ok(record) ==> record@.well_formed(),
{
    if raw.len() < MIN_FRAME_LEN {
        return Err(DecodeError::TooShort);
    }
    match slice_ethernet(raw) {
        Err(_) => Err(DecodeError::Malformed),
        Ok(slices) => {
            proof {
                decoded_record_well_formed(raw@);
            }
            record_of(&slices)
        },
    }
}

/// The two octets of a big-endian number below 65536.
pub open spec fn be_octets(value: int) -> Seq<u8> {
    seq![(value / 256) as u8, (value % 256) as u8]
}

/// The control field of a tag: four bits of priority and drop eligibility,
/// then the twelve bits of the identifier.
pub open spec fn control_octets(priority: int, id: int) -> Seq<u8> {
    seq![(priority * 16 + id / 256) as u8, (id % 256) as u8]
}

/// A frame without tags: the addresses, the ether type, the payload.
pub open spec fn untagged_frame(
    destination: Seq<u8>,
    source: Seq<u8>,
    ether_type: int,
    payload: Seq<u8>,
) -> Seq<u8> {
    destination + source + be_octets(ether_type) + payload
}

/// A frame with one tag between the addresses and the ether type.
pub open spec fn single_tagged_frame(
    destination: Seq<u8>,
    source: Seq<u8>,
    tag_type: int,
    priority: int,
    id: int,
    ether_type: int,
    payload: Seq<u8>,
) -> Seq<u8> {
    destination + source + be_octets(tag_type) + control_octets(priority, id) + be_octets(
        ether_type,
    ) + payload
}

/// A frame with two stacked tags, the outer one first.
pub open spec fn double_tagged_frame(
    destination: Seq<u8>,
    source: Seq<u8>,
    outer_type: int,
    outer_priority: int,
    outer_id: int,
    inner_type: int,
    inner_priority: int,
    inner_id: int,
    ether_type: int,
    payload: Seq<u8>,
) -> Seq<u8> {
    destination + source + be_octets(outer_type) + control_octets(outer_priority, outer_id)
        + be_octets(inner_type) + control_octets(inner_priority, inner_id) + be_octets(ether_type)
        + payload
}

/// Every buffer shorter than an Ethernet header is rejected as `TooShort`.
pub proof fn short_buffer_is_rejected(bytes: Seq<u8>)
    requires
        bytes.len() < MIN_FRAME_LEN,
    ensures
        decode_spec(bytes) == Err::<DataView, DecodeError>(DecodeError::TooShort),
{
}

/// Every record that decoding gives is well formed: its addresses are the
/// text of octets 6 to 11 and 0 to 5, and its identifier fits in twelve bits.
pub proof fn decoded_record_well_formed(bytes: Seq<u8>)
    requires
        bytes.len() >= MIN_FRAME_LEN,
    ensures
        decode_spec(bytes) matches Ok(record) ==> record.well_formed(),
{
    assert(bytes.subrange(6, 12).len() == 6 && bytes.subrange(0, 6).len() == 6);
}

/// A frame without tags holds its link headers, and its record, where the
/// slicing gives one, has both addresses and no identifier.
pub proof fn untagged_frame_has_no_id(
    destination: Seq<u8>,
    source: Seq<u8>,
    ether_type: int,
    payload: Seq<u8>,
)
    requires
        destination.len() == 6,
        source.len() == 6,
        0 <= ether_type < 0x1_0000,
        !is_vlan_ether_type(ether_type),
    ensures
        ({
            let frame = untagged_frame(destination, source, ether_type, payload);
            &&& link_headers_fit(frame)
            &&& payload_ether_type(frame) == ether_type
            &&& decode_spec(frame) matches Ok(record) ==> record == DataView {
                src: colon_hex(source),
                dst: colon_hex(destination),
                vlan: None,
            }
        }),
{
    let frame = untagged_frame(destination, source, ether_type, payload);
    assert(frame.subrange(0, 6) =~= destination);
    assert(frame.subrange(6, 12) =~= source);
}

/// A frame with one tag of identifier `id` gives, where the slicing gives a
/// record, a record with that identifier.
pub proof fn single_tag_id_is_reported(
    destination: Seq<u8>,
    source: Seq<u8>,
    tag_type: int,
    priority: int,
    id: int,
    ether_type: int,
    payload: Seq<u8>,
)
    requires
        destination.len() == 6,
        source.len() == 6,
        is_vlan_ether_type(tag_type),
        0 <= priority < 16,
        0 <= id <= 4095,
        0 <= ether_type < 0x1_0000,
        !is_vlan_ether_type(ether_type),
    ensures
        ({
            let frame = single_tagged_frame(
                destination,
                source,
                tag_type,
                priority,
                id,
                ether_type,
                payload,
            );
            &&& link_headers_fit(frame)
            &&& payload_ether_type(frame) == ether_type
            &&& decode_spec(frame) matches Ok(record) ==> record == DataView {
                src: colon_hex(source),
                dst: colon_hex(destination),
                vlan: Some(id as u16),
            }
        }),
{
    let frame = single_tagged_frame(
        destination,
        source,
        tag_type,
        priority,
        id,
        ether_type,
        payload,
    );
    assert(frame.subrange(0, 6) =~= destination);
    assert(frame.subrange(6, 12) =~= source);
}

/// A frame with two stacked tags gives, where the slicing gives a record, a
/// record with the identifier of the outer tag; the inner one is dropped.
pub proof fn outer_tag_id_is_reported(
    destination: Seq<u8>,
    source: Seq<u8>,
    outer_type: int,
    outer_priority: int,
    outer_id: int,
    inner_type: int,
    inner_priority: int,
    inner_id: int,
    ether_type: int,
    payload: Seq<u8>,
)
    requires
        destination.len() == 6,
        source.len() == 6,
        is_vlan_ether_type(outer_type),
        is_vlan_ether_type(inner_type),
        0 <= outer_priority < 16,
        0 <= inner_priority < 16,
        0 <= outer_id <= 4095,
        0 <= inner_id <= 4095,
        0 <= ether_type < 0x1_0000,
    ensures
        ({
            let frame = double_tagged_frame(
                destination,
                source,
                outer_type,
                outer_priority,
                outer_id,
                inner_type,
                inner_priority,
                inner_id,
                ether_type,
                payload,
            );
            &&& link_headers_fit(frame)
            &&& payload_ether_type(frame) == ether_type
            &&& vlan_tag_of(frame) == Some(VlanTag::Double(outer_id as u16, inner_id as u16))
            &&& decode_spec(frame) matches Ok(record) ==> record == DataView {
                src: colon_hex(source),
                dst: colon_hex(destination),
                vlan: Some(outer_id as u16),
            }
        }),
{
    let frame = double_tagged_frame(
        destination,
        source,
        outer_type,
        outer_priority,
        outer_id,
        inner_type,
        inner_priority,
        inner_id,
        ether_type,
        payload,
    );
    assert(frame.subrange(0, 6) =~= destination);
    assert(frame.subrange(6, 12) =~= source);
}

} // verus!
