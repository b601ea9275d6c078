//! Tests for the OXM class dispatch, the packet-registers codec and the
//! flow match aggregate framing.

use ofpkt::oxm::flow_match::{field, MatchType};
use ofpkt::oxm::{FlowMatch, FlowMatchField, InPort, Oxm, PacketRegisters, TunnelId, VlanId};
use ofpkt::{Error, Repr};

// A dummy experimenter payload: the flow matches in these tests never use
// the experimenter class, so none of its methods is ever reached.
#[derive(Debug, PartialEq, Eq, Clone)]
struct OxmExperimenter;

impl Repr for OxmExperimenter {
    fn wf(&self) -> bool {
        unreachable!()
    }

    fn wire(&self) -> vstd::seq::Seq<u8> {
        unreachable!()
    }

    fn parse(_buffer: &[u8]) -> Result<Self, Error> {
        unreachable!()
    }

    fn buffer_len(&self) -> usize {
        unreachable!()
    }

    fn emit(&self, _buffer: &mut [u8]) -> Result<(), Error> {
        unreachable!()
    }

    fn emit_at(&self, _buffer: &mut [u8], _offset: usize) -> Result<(), Error> {
        unreachable!()
    }
}

fn flow_match_bytes() -> [u8; 32] {
    [
        // header
        0x00, 0x01, // match type (1 = oxm)
        0x00, 0x1e, // length = 30
        // first oxm tlv (len = 8)
        0x80, 0x00, // class = 0x8000 = openflow basic
        0x00, // field (0 = in_port), no mask
        0x04, // value length = 4
        0x00, 0x00, 0xab, 0xcd, // value = 43981
        // second oxm tlv (len = 12)
        0x80, 0x00, // class = 0x8000 = openflow basic
        38 << 1, // field = 38 = tunnel id, no mask
        0x08, // value length = 8
        0x00, 0x00, 0x00, 0x00, 0x00, 0x00, 0xc3, 0x50, // value = 50000
        // third oxm tlv (len = 6)
        0x80, 0x00, // class = 0x8000 = openflow basic
        6 << 1, // field = 6 = vlan id, no mask
        0x02, // value length = 2
        0x07, 0x77, // value = 0x0777
        // padding (flow match packets are padded to an 8-byte boundary)
        0x00, 0x00,
    ]
}

#[test]
fn flow_match_test_deconstruct() {
    let bytes = flow_match_bytes();
    let packet = ofpkt::oxm::flow_match::Packet::new(&bytes[..]);
    assert_eq!(packet.match_type(), MatchType::OXM);
    assert_eq!(packet.length(), 30);

    assert_eq!(field::OXM_FIELDS(30), 4..30);
    assert_eq!(field::PADDING(30), 30..32);
}

#[test]
fn test_padding_field() {
    assert_eq!(field::PADDING(4), 4..8);
    assert_eq!(field::PADDING(4), 4..8);
    assert_eq!(field::PADDING(8), 8..8);
    assert_eq!(field::PADDING(15), 15..16);
    assert_eq!(field::PADDING(24), 24..24);
    assert_eq!(field::PADDING(25), 25..32);
}

#[test]
fn flow_match_test_parse() {
    let bytes = flow_match_bytes();
    let parsed = FlowMatch::<OxmExperimenter>::parse(&bytes).unwrap();
    let expected = FlowMatch::<OxmExperimenter>(vec![
        Oxm::FlowMatchField(FlowMatchField::InPort(InPort::new(0xabcd))),
        Oxm::FlowMatchField(FlowMatchField::TunnelId(TunnelId::new(50_000, None))),
        Oxm::FlowMatchField(FlowMatchField::VlanId(VlanId::new(0x0777, None))),
    ]);
    assert_eq!(parsed, expected);
}

#[test]
fn flow_match_test_emit() {
    let repr = FlowMatch::<OxmExperimenter>(vec![
        Oxm::FlowMatchField(FlowMatchField::InPort(InPort::new(0xabcd))),
        Oxm::FlowMatchField(FlowMatchField::TunnelId(TunnelId::new(50_000, None))),
        Oxm::FlowMatchField(FlowMatchField::VlanId(VlanId::new(0x0777, None))),
    ]);
    assert_eq!(repr.buffer_len(), 32);

    let mut bytes = [0xff; 32];
    repr.emit(&mut bytes).unwrap();
    assert_eq!(&bytes[..], &flow_match_bytes()[..]);
}

#[test]
fn flow_match_roundtrip_reproduces_all_32_bytes() {
    // A 32-byte flow match with an unmasked in_port (8 bytes), an unmasked
    // tunnel_id (12 bytes) and an unmasked vlan_vid (6 bytes) plus 2 zero
    // padding bytes parses to exactly those three ordered fields, and
    // re-emitting reproduces the buffer byte for byte.
    let bytes = flow_match_bytes();
    let parsed = FlowMatch::<OxmExperimenter>::parse(&bytes).unwrap();
    assert_eq!(parsed.0.len(), 3);
    let mut out = [0xffu8; 32];
    parsed.emit(&mut out).unwrap();
    assert_eq!(&out[..], &bytes[..]);
}

#[test]
fn flow_match_buffer_len_is_a_padded_multiple_of_8() {
    let one = FlowMatch::<OxmExperimenter>(vec![Oxm::FlowMatchField(FlowMatchField::InPort(
        InPort::new(1),
    ))]);
    // 4 + 8 = 12, rounded up to 16.
    assert_eq!(one.buffer_len(), 16);
    assert_eq!(one.buffer_len() % 8, 0);

    let empty = FlowMatch::<OxmExperimenter>(vec![]);
    // 4 header bytes, rounded up to 8.
    assert_eq!(empty.buffer_len(), 8);

    let mut out = [0xffu8; 16];
    one.emit(&mut out).unwrap();
    // The length field counts the header and the fields only.
    assert_eq!(&out[0..4], &[0x00, 0x01, 0x00, 0x0c]);
    // Emitted padding bytes are all zero.
    assert_eq!(&out[12..16], &[0, 0, 0, 0]);
}

#[test]
fn flow_match_bad_match_type() {
    let mut bytes = flow_match_bytes();
    bytes[1] = 0x00;
    assert_eq!(
        FlowMatch::<OxmExperimenter>::parse(&bytes),
        Err(Error::BadMatchType)
    );
}

#[test]
fn flow_match_shorter_than_declared_is_truncated() {
    let bytes = flow_match_bytes();
    assert_eq!(
        FlowMatch::<OxmExperimenter>::parse(&bytes[..24]),
        Err(Error::Truncated)
    );
}

#[test]
fn oxm_class_errors() {
    // A class outside the known set.
    let bad = [0x12u8, 0x34, 0x00, 0x04, 0, 0, 0, 0];
    assert_eq!(Oxm::<OxmExperimenter>::parse(&bad), Err(Error::BadOxmClass));
    // The two legacy NXM classes are recognized and deliberately rejected.
    let nxm0 = [0x00u8, 0x00, 0x00, 0x04, 0, 0, 0, 0];
    assert_eq!(
        Oxm::<OxmExperimenter>::parse(&nxm0),
        Err(Error::UnsupportedOxmClass)
    );
    let nxm1 = [0x00u8, 0x01, 0x00, 0x04, 0, 0, 0, 0];
    assert_eq!(
        Oxm::<OxmExperimenter>::parse(&nxm1),
        Err(Error::UnsupportedOxmClass)
    );
    // A buffer shorter than the declared OXM length.
    let short = [0x80u8, 0x00, 0x00, 0x08, 0, 0];
    assert_eq!(Oxm::<OxmExperimenter>::parse(&short), Err(Error::Truncated));
}

#[test]
fn packet_registers_parse_unmasked() {
    // A packet-registers TLV with field index 31, an 8-byte value and
    // has-mask unset parses to that entry with no mask and occupies 12
    // bytes.
    let bytes = [
        0x80u8, 0x01, // class = 0x8001 = packet registers
        31 << 1, // field = 31, no mask
        0x08, // length = 8
        0x00, 0x00, 0x00, 0x00, 0xc0, 0xa8, 0x02, 0x03, // value
    ];
    let parsed = Oxm::<OxmExperimenter>::parse(&bytes).unwrap();
    let expected = Oxm::PacketRegisters(PacketRegisters {
        field: 31,
        value: (192 << 24) + (168 << 16) + (2 << 8) + 3,
        mask: None,
    });
    assert_eq!(parsed, expected);
    assert_eq!(parsed.buffer_len(), 12);
}

#[test]
fn packet_registers_roundtrip_masked() {
    let entry = Oxm::<OxmExperimenter>::PacketRegisters(PacketRegisters {
        field: 5,
        value: 0x1122_3344_5566_7788,
        mask: Some(0xffff_ffff_0000_0000),
    });
    assert_eq!(entry.buffer_len(), 20);
    let mut buf = [0u8; 20];
    entry.emit(&mut buf).unwrap();
    assert_eq!(&buf[0..4], &[0x80, 0x01, (5 << 1) | 1, 0x10]);
    let parsed = Oxm::<OxmExperimenter>::parse(&buf).unwrap();
    assert_eq!(parsed, entry);
}

#[test]
fn packet_registers_bad_length_is_malformed() {
    // The declared length of a packet-registers TLV must be exactly 8 or
    // 16.
    let bytes = [
        0x80u8, 0x01, 31 << 1, 0x0c, // length = 12: self-contradictory
        0, 0, 0, 0, 0, 0, 0, 0, 0, 0, 0, 0,
    ];
    assert_eq!(Oxm::<OxmExperimenter>::parse(&bytes), Err(Error::Malformed));
}
