//! Whole-message tests: each known message kind parsed from its wire bytes
//! and emitted back to them.

use ofpkt::openflow::{Kind, PacketRepr as OfPacketRepr, PayloadRepr, Version};
use ofpkt::PortNumber;
use ofpkt::{
    error, features_reply, get_config_reply, hello, oxm, packet_in, set_config, Error, Repr,
};

// A dummy experimenter payload; these messages never use the experimenter
// class.
#[derive(Debug, PartialEq, Eq, Clone)]
struct OxmExperimenter;

impl Repr for OxmExperimenter {
    fn wf(&self) -> bool {
        unreachable!()
    }

    fn wire(&self) -> vstd::seq::Seq<u8> {
        unreachable!()
    }

    fn parse(_buffer: &[u8]) -> Result<Self, Error> {
        unreachable!()
    }

    fn buffer_len(&self) -> usize {
        unreachable!()
    }

    fn emit(&self, _buffer: &mut [u8]) -> Result<(), Error> {
        unreachable!()
    }

    fn emit_at(&self, _buffer: &mut [u8], _offset: usize) -> Result<(), Error> {
        unreachable!()
    }
}

type PacketRepr = OfPacketRepr<OxmExperimenter>;

fn emit_and_compare(repr: &PacketRepr, pkt: &[u8]) {
    let mut buf: Vec<u8> = vec![0; repr.buffer_len()];
    repr.emit(buf.as_mut()).unwrap();
    assert_eq!(&buf[..], pkt);
}

fn hello_packet() -> Vec<u8> {
    vec![
        6, 0, 0x00, 0x10, 0, 0, 0, 0, // header, length = 16
        0x00, 0x01, 0x00, 0x08, // bitmap element header
        0x00, 0x00, 0x00, 0x40, // bitmap = 64
    ]
}

fn hello_repr(length: u16) -> PacketRepr {
    PacketRepr {
        version: Version::OpenFlow1Dot5,
        length,
        kind: Kind::Hello,
        xid: 0,
        payload: PayloadRepr::Hello(hello::PacketRepr::new(vec![hello::ElementRepr {
            kind: hello::Kind::Bitmap,
            payload: hello::ElementData::Bitmap(hello::BitmapRepr(64)),
        }])),
    }
}

#[test]
fn lib_hello() {
    let pkt = hello_packet();
    let repr = hello_repr(pkt.len() as u16);
    assert_eq!(PacketRepr::parse(&pkt).unwrap(), repr);
}

#[test]
fn lib_hello_emit() {
    let mut repr = hello_repr(0);
    repr.set_length_auto();
    emit_and_compare(&repr, &hello_packet());
}

fn echo_request_packet() -> Vec<u8> {
    vec![6, 2, 0x00, 0x08, 0, 0, 0, 0]
}

#[test]
fn lib_echo_request() {
    let pkt = echo_request_packet();
    let repr = PacketRepr {
        version: Version::OpenFlow1Dot5,
        length: pkt.len() as u16,
        kind: Kind::EchoRequest,
        xid: 0,
        payload: PayloadRepr::EchoRequest(vec![]),
    };
    assert_eq!(PacketRepr::parse(&pkt).unwrap(), repr);
}

#[test]
fn lib_echo_request_emit() {
    let mut repr = PacketRepr {
        version: Version::OpenFlow1Dot5,
        length: 0,
        kind: Kind::EchoRequest,
        xid: 0,
        payload: PayloadRepr::EchoRequest(vec![]),
    };
    repr.set_length_auto();
    emit_and_compare(&repr, &echo_request_packet());
}

fn echo_reply_packet() -> Vec<u8> {
    vec![6, 3, 0x00, 0x08, 0, 0, 0, 0]
}

#[test]
fn lib_echo_reply() {
    let pkt = echo_reply_packet();
    let repr = PacketRepr {
        version: Version::OpenFlow1Dot5,
        length: pkt.len() as u16,
        kind: Kind::EchoReply,
        xid: 0,
        payload: PayloadRepr::EchoReply(vec![]),
    };
    assert_eq!(PacketRepr::parse(&pkt).unwrap(), repr);
}

#[test]
fn lib_echo_reply_emit() {
    let mut repr = PacketRepr {
        version: Version::OpenFlow1Dot5,
        length: 0,
        kind: Kind::EchoReply,
        xid: 0,
        payload: PayloadRepr::EchoReply(vec![]),
    };
    repr.set_length_auto();
    emit_and_compare(&repr, &echo_reply_packet());
}

fn features_request_packet() -> Vec<u8> {
    vec![6, 5, 0x00, 0x08, 0, 0, 0, 0]
}

#[test]
fn lib_features_request() {
    let pkt = features_request_packet();
    let repr = PacketRepr {
        version: Version::OpenFlow1Dot5,
        length: pkt.len() as u16,
        kind: Kind::FeaturesRequest,
        xid: 0,
        payload: PayloadRepr::FeaturesRequest,
    };
    assert_eq!(PacketRepr::parse(&pkt).unwrap(), repr);
}

#[test]
fn lib_features_request_emit() {
    let mut repr = PacketRepr {
        version: Version::OpenFlow1Dot5,
        length: 0,
        kind: Kind::FeaturesRequest,
        xid: 0,
        payload: PayloadRepr::FeaturesRequest,
    };
    repr.set_length_auto();
    emit_and_compare(&repr, &features_request_packet());
}

fn features_reply_packet() -> Vec<u8> {
    vec![
        6, 6, 0x00, 0x20, 0, 0, 0, 0, // header, length = 32
        0, 0, 0, 0, 0, 0, 0, 1, // datapath_id = 1
        0, 0, 0, 255, // n_buffers = 255
        255, // n_tables = 255
        0, // auxiliary_id = 0
        0, 0, // padding
        0, 0, 0, 79, // capabilities = 79
        0, 0, 0, 0, // reserved = 0
    ]
}

fn features_reply_repr(length: u16) -> PacketRepr {
    PacketRepr {
        version: Version::OpenFlow1Dot5,
        length,
        kind: Kind::FeaturesReply,
        xid: 0,
        payload: PayloadRepr::FeaturesReply(features_reply::PacketRepr {
            datapath_id: 1,
            n_buffers: 255,
            n_tables: 255,
            auxiliary_id: 0,
            capabilities: features_reply::Capabilities::new(79),
            reserved: 0,
        }),
    }
}

#[test]
fn lib_features_reply() {
    let pkt = features_reply_packet();
    assert_eq!(
        PacketRepr::parse(&pkt).unwrap(),
        features_reply_repr(pkt.len() as u16)
    );
}

#[test]
fn lib_features_reply_emit() {
    let mut repr = features_reply_repr(0);
    repr.set_length_auto();
    emit_and_compare(&repr, &features_reply_packet());
}

fn error_packet() -> Vec<u8> {
    vec![
        6, 1, 0x00, 0x14, 0, 0, 0, 0, // header, length = 20
        0x00, 0x04, // type = BadMatch
        0x00, 0x06, // code = BadField
        0x06, 0x0e, 0x00, 0x08, 0x00, 0x00, 0x00, 0x00, // data
    ]
}

fn error_repr(length: u16) -> PacketRepr {
    PacketRepr {
        version: Version::OpenFlow1Dot5,
        length,
        kind: Kind::Error,
        xid: 0,
        payload: PayloadRepr::Error(error::PacketRepr {
            header: error::Header::BadMatch(error::BadMatchCode::BadField),
            data: vec![0x06, 0x0e, 0x00, 0x08, 0x00, 0x00, 0x00, 0x00],
        }),
    }
}

#[test]
fn lib_error() {
    let pkt = error_packet();
    assert_eq!(PacketRepr::parse(&pkt).unwrap(), error_repr(pkt.len() as u16));
}

#[test]
fn lib_error_emit() {
    let mut repr = error_repr(0);
    repr.set_length_auto();
    emit_and_compare(&repr, &error_packet());
}

fn get_config_request_packet() -> Vec<u8> {
    vec![6, 7, 0x00, 0x08, 0, 0, 0, 0]
}

#[test]
fn lib_get_config_request() {
    let pkt = get_config_request_packet();
    let repr = PacketRepr {
        version: Version::OpenFlow1Dot5,
        length: pkt.len() as u16,
        kind: Kind::GetConfigRequest,
        xid: 0,
        payload: PayloadRepr::GetConfigRequest,
    };
    assert_eq!(PacketRepr::parse(&pkt).unwrap(), repr);
}

#[test]
fn lib_get_config_request_emit() {
    let mut repr = PacketRepr {
        version: Version::OpenFlow1Dot5,
        length: 0,
        kind: Kind::GetConfigRequest,
        xid: 0,
        payload: PayloadRepr::GetConfigRequest,
    };
    repr.set_length_auto();
    emit_and_compare(&repr, &get_config_request_packet());
}

#[test]
fn lib_get_config_reply() {
    let pkt: Vec<u8> = vec![6, 8, 0x00, 0x0c, 0, 0, 0, 0, 0, 0, 0, 128];
    let mut repr = PacketRepr {
        version: Version::OpenFlow1Dot5,
        length: 0,
        kind: Kind::GetConfigReply,
        xid: 0,
        payload: PayloadRepr::GetConfigReply(get_config_reply::PacketRepr {
            flags: get_config_reply::Flags::FragmentNormal,
            miss_send_len: 128,
        }),
    };
    repr.set_length_auto();
    emit_and_compare(&repr, &pkt);
    assert_eq!(PacketRepr::parse(&pkt).unwrap(), repr);
}

fn set_config_packet() -> Vec<u8> {
    vec![6, 9, 0x00, 0x0c, 0, 0, 0, 0, 0, 0, 0, 128]
}

fn set_config_repr(length: u16) -> PacketRepr {
    PacketRepr {
        version: Version::OpenFlow1Dot5,
        length,
        kind: Kind::SetConfig,
        xid: 0,
        payload: PayloadRepr::SetConfig(set_config::PacketRepr {
            flags: set_config::Flags::FragmentNormal,
            miss_send_len: 128,
        }),
    }
}

#[test]
fn lib_set_config() {
    let pkt = set_config_packet();
    assert_eq!(
        PacketRepr::parse(&pkt).unwrap(),
        set_config_repr(pkt.len() as u16)
    );
}

#[test]
fn lib_set_config_emit() {
    let mut repr = set_config_repr(0);
    repr.set_length_auto();
    emit_and_compare(&repr, &set_config_packet());
}

fn packet_in_packet() -> Vec<u8> {
    vec![
        6, 10, 0x00, 0x4e, 0, 0, 0, 0, // header, length = 78
        0, 0, 0, 200, // buffer_id = 200
        0x03, 0xe8, // frame_length = 1000
        0, // reason = table miss
        100, // table_id = 100
        0, 0, 0, 0, 0, 0, 0, 0, // cookie = 0
        // flow match: header + 44 field bytes, no padding needed
        0x00, 0x01, 0x00, 0x30, // match type = 1, length = 48
        0x80, 0x00, 0x00, 0x04, 0x00, 0x00, 0xab, 0xcd, // in_port = 43981
        0x80, 0x00, 38 << 1, 0x08, // tunnel id header
        0x00, 0x00, 0x00, 0x00, 0x00, 0x00, 0xc3, 0x50, // tunnel id = 50000
        0x80, 0x01, 31 << 1, 0x08, // packet register 31
        0x00, 0x00, 0x00, 0x00, 0xc0, 0xa8, 0x02, 0x03, // value
        0x80, 0x01, 32 << 1, 0x08, // packet register 32
        0x00, 0x00, 0x00, 0x00, 0xc0, 0xa8, 0x02, 0x04, // value
        0x00, 0x00, // padding after the flow match
        0x68, 0x6f, 0x67, 0x65, // frame
    ]
}

fn packet_in_repr(length: u16) -> PacketRepr {
    PacketRepr {
        version: Version::OpenFlow1Dot5,
        length,
        kind: Kind::PacketIn,
        xid: 0,
        payload: PayloadRepr::PacketIn(packet_in::PacketRepr {
            buffer_id: 200,
            frame_length: 1000,
            table_id: 100,
            cookie: 0,
            reason: packet_in::Reason::TableMiss,
            flow_match: oxm::FlowMatch::<OxmExperimenter>(vec![
                oxm::Oxm::FlowMatchField(oxm::FlowMatchField::InPort(oxm::InPort::new(43_981))),
                oxm::Oxm::FlowMatchField(oxm::FlowMatchField::TunnelId(oxm::TunnelId::new(
                    50_000, None,
                ))),
                oxm::Oxm::PacketRegisters(oxm::PacketRegisters {
                    field: 31,
                    value: (192 << 24) + (168 << 16) + (2 << 8) + 3,
                    mask: None,
                }),
                oxm::Oxm::PacketRegisters(oxm::PacketRegisters {
                    field: 32,
                    value: (192 << 24) + (168 << 16) + (2 << 8) + 4,
                    mask: None,
                }),
            ]),
            frame: vec![0x68, 0x6f, 0x67, 0x65],
        }),
    }
}

#[test]
fn packet_in() {
    let pkt = packet_in_packet();
    assert_eq!(
        PacketRepr::parse(&pkt).unwrap(),
        packet_in_repr(pkt.len() as u16)
    );
}

#[test]
fn packet_in_emit() {
    let mut repr = packet_in_repr(0);
    repr.set_length_auto();
    emit_and_compare(&repr, &packet_in_packet());
}

#[test]
fn unknown_message_kind_is_unrecognized() {
    let pkt = [6u8, 23, 0, 8, 0, 0, 0, 0];
    assert_eq!(
        PacketRepr::parse(&pkt),
        Err(Error::Unrecognized)
    );
}

#[test]
fn message_shorter_than_header_is_truncated() {
    let pkt = [6u8, 0, 0, 8];
    assert_eq!(PacketRepr::parse(&pkt), Err(Error::Truncated));
}

#[test]
fn message_length_below_header_is_malformed() {
    let pkt = [6u8, 0, 0, 4, 0, 0, 0, 0];
    assert_eq!(PacketRepr::parse(&pkt), Err(Error::Malformed));
}

#[test]
fn features_reply_wrong_size_errors() {
    assert_eq!(
        features_reply::PacketRepr::parse(&[0u8; 23]),
        Err(Error::Truncated)
    );
    assert_eq!(
        features_reply::PacketRepr::parse(&[0u8; 25]),
        Err(Error::Malformed)
    );
}

#[test]
fn error_message_unknown_kind_is_malformed() {
    // Error type 99 is outside the known set.
    let bytes = [0x00u8, 99, 0, 0];
    assert_eq!(error::PacketRepr::parse(&bytes), Err(Error::Malformed));
}

#[test]
fn config_flags_keep_invalid_values() {
    let repr = set_config::PacketRepr { flags: set_config::Flags::Invalid(7), miss_send_len: 9 };
    let mut buf = [0u8; 4];
    repr.emit(&mut buf).unwrap();
    assert_eq!(buf, [0, 7, 0, 9]);
    assert_eq!(set_config::PacketRepr::parse(&buf).unwrap(), repr);
}

#[test]
fn error_descriptions() {
    assert_eq!(Error::Exhausted.description(), "buffer space exhausted");
    assert_eq!(Error::Truncated.description(), "truncated packet");
    assert_eq!(Error::Unrecognized.description(), "unrecognized packet");
    assert_eq!(Error::Malformed.description(), "malformed packet");
    assert_eq!(Error::BadOxmClass.description(), "unknown oxm class");
    assert_eq!(Error::UnsupportedOxmClass.description(), "unsupported oxm class");
    assert_eq!(Error::BadOxmField.description(), "unknown oxm field");
    assert_eq!(Error::BadMatchType.description(), "unknown match type");
}

#[test]
fn capability_flags() {
    let mut caps = features_reply::Capabilities::new(0);
    assert_eq!(caps.flow_stats(), false);
    caps.set_flow_stats();
    assert_eq!(caps.flow_stats(), true);
    caps.set_port_blocked();
    caps.set_flow_monitoring();
    assert_eq!(caps, features_reply::Capabilities::new(1 | (1 << 8) | (1 << 10)));
    assert_eq!(caps.table_stats(), false);
    // 79 = flow, table, port and group statistics plus queue statistics
    // and IP reassembly.
    let caps = features_reply::Capabilities::new(79);
    assert_eq!(caps.flow_stats(), true);
    assert_eq!(caps.table_stats(), true);
    assert_eq!(caps.port_stats(), true);
    assert_eq!(caps.group_stats(), true);
    assert_eq!(caps.ip_reassembly(), false);
    assert_eq!(caps.queue_stats(), true);
    assert_eq!(caps.port_blocked(), false);
    assert_eq!(caps.bundles(), false);
    assert_eq!(caps.flow_monitoring(), false);
}

#[test]
fn port_numbers_map_to_their_wire_values() {
    assert_eq!(ofpkt::PortNumber::from_u32(0xffff_ffff), PortNumber::Any);
    assert_eq!(ofpkt::PortNumber::from_u32(0xffff_fffd), PortNumber::Controller);
    assert_eq!(ofpkt::PortNumber::from_u32(17), PortNumber::Regular(17));
    assert_eq!(ofpkt::PortNumber::Local.to_u32(), 0xffff_fffe);
    assert_eq!(ofpkt::PortNumber::Regular(17).to_u32(), 17);
}
