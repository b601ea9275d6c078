//! Tests for hello elements, version bitmaps and the hello message.

use ofpkt::hello::{Bitmap, BitmapRepr, Element, ElementData, ElementRepr, Kind};
use ofpkt::openflow::{self, Version};
use ofpkt::{hello, Error, Repr};

// A dummy experimenter payload; hello messages never reach it.
#[derive(Debug, PartialEq, Eq, Clone)]
struct OxmExperimenter;

impl Repr for OxmExperimenter {
    fn wf(&self) -> bool {
        unreachable!()
    }

    fn wire(&self) -> vstd::seq::Seq<u8> {
        unreachable!()
    }

    fn parse(_buffer: &[u8]) -> Result<Self, Error> {
        unreachable!()
    }

    fn buffer_len(&self) -> usize {
        unreachable!()
    }

    fn emit(&self, _buffer: &mut [u8]) -> Result<(), Error> {
        unreachable!()
    }

    fn emit_at(&self, _buffer: &mut [u8], _offset: usize) -> Result<(), Error> {
        unreachable!()
    }
}

fn element_bytes() -> [u8; 8] {
    [
        0x00, 0x01, // type
        0x00, 0x08, // length
        0x00, 0x00, 0x00, 0x12, // bitmap
    ]
}

fn hello_message_bytes() -> [u8; 24] {
    [
        // openflow header
        0x05, // version
        0x00, // type = Hello
        0x00, 0x18, // length = 24 (header = 8, bitmap elements = 8 each)
        0xaa, 0xbb, 0xcc, 0xdd, // xid
        // bitmap element
        0x00, 0x01, // type
        0x00, 0x08, // length
        0x00, 0x00, 0x00, 0x12, // bitmap
        // bitmap element
        0x00, 0x01, // type
        0x00, 0x08, // length
        0x00, 0x00, 0x00, 0x12, // bitmap
    ]
}

#[test]
fn element_test_deconstruct() {
    let bytes = element_bytes();
    let buf = Element::new(&bytes[..]);
    assert_eq!(buf.kind(), Kind::Bitmap);
    assert_eq!(buf.length(), 8);

    let bitmap_buf = Bitmap::new(buf.payload());
    assert_eq!(bitmap_buf.bitmap(), 0x12);

    let mut versions = bitmap_buf.iter_versions();
    assert_eq!(versions.next(), Some(Version::OpenFlow1Dot0));
    assert_eq!(versions.next(), Some(Version::OpenFlow1Dot3));
    assert_eq!(versions.next(), None);
}

#[test]
fn element_test_construct() {
    let mut bytes = vec![0u8; 8];
    Element::set_kind(&mut bytes, Kind::Bitmap);
    Element::set_length(&mut bytes, 8);
    Bitmap::set_bitmap_from_versions(
        &mut bytes[4..],
        &[Version::OpenFlow1Dot0, Version::OpenFlow1Dot3],
    );
    assert_eq!(&bytes[..], &element_bytes()[..]);
}

fn element_repr() -> ElementRepr {
    ElementRepr { kind: Kind::Bitmap, payload: ElementData::Bitmap(BitmapRepr(0x12)) }
}

#[test]
fn element_test_parse() {
    let repr = ElementRepr::parse(&element_bytes()).unwrap();
    assert_eq!(repr, element_repr());
}

#[test]
fn element_test_emit() {
    let mut bytes = vec![0; 8];
    element_repr().emit(&mut bytes).unwrap();
    assert_eq!(&bytes[..], &element_bytes()[..]);
}

#[test]
fn mod_test_deconstruct() {
    let bytes = hello_message_bytes();
    let ofpacket = openflow::Packet::new(&bytes[..]);
    let hello_buf = hello::Packet::new(ofpacket.payload());
    let mut hello_elements = hello_buf.into_iter();

    let element = hello_elements.next().unwrap();
    assert_eq!(element.kind(), Kind::Bitmap);
    assert_eq!(element.length(), 8);

    let element = hello_elements.next().unwrap();
    assert_eq!(element.kind(), Kind::Bitmap);
    assert_eq!(element.length(), 8);

    assert_eq!(hello_elements.next().is_none(), true);
}

#[test]
fn mod_test_construct() {
    let mut buf = [0u8; 24];
    openflow::Packet::set_version(&mut buf, openflow::Version::OpenFlow1Dot4);
    openflow::Packet::set_kind(&mut buf, openflow::Kind::Hello);
    openflow::Packet::set_length(&mut buf, 24);
    openflow::Packet::set_xid(&mut buf, 0xaabbccdd);
    for i in 0..2 {
        let elem = &mut buf[8 + i * 8..8 + i * 8 + 8];
        Element::set_kind(elem, Kind::Bitmap);
        Element::set_length(elem, 8);
        Bitmap::set_bitmap_from_versions(
            &mut elem[4..],
            &[openflow::Version::OpenFlow1Dot0, openflow::Version::OpenFlow1Dot3],
        );
    }
    assert_eq!(&buf[..], &hello_message_bytes()[..]);
}

fn hello_element_repr() -> ElementRepr {
    ElementRepr { kind: Kind::Bitmap, payload: ElementData::Bitmap(BitmapRepr(0x12)) }
}

#[test]
fn hello_mod_test_parse() {
    let repr = openflow::PacketRepr::<OxmExperimenter>::parse(&hello_message_bytes()).unwrap();
    if let openflow::PayloadRepr::Hello(hello) = repr.payload {
        assert_eq!(hello.0.len(), 2);
        assert_eq!(hello.0[0], hello_element_repr());
        assert_eq!(hello.0[1], hello_element_repr());
    } else {
        panic!("not a Hello payload");
    }
}

#[test]
fn mod_test_emit() {
    let mut bytes = vec![0; 24];
    let repr = openflow::PacketRepr::<OxmExperimenter> {
        version: openflow::Version::OpenFlow1Dot4,
        kind: openflow::Kind::Hello,
        length: 0x18,
        xid: 0xaabbccdd,
        payload: openflow::PayloadRepr::Hello(hello::PacketRepr(vec![
            hello_element_repr(),
            hello_element_repr(),
        ])),
    };
    repr.emit(&mut bytes).unwrap();
    assert_eq!(&bytes[..], &hello_message_bytes()[..]);
}

#[test]
fn unknown_element_kind_keeps_raw_payload() {
    let bytes = [0x00u8, 0x07, 0x00, 0x06, 0xde, 0xad];
    let repr = ElementRepr::parse(&bytes).unwrap();
    assert_eq!(
        repr,
        ElementRepr { kind: Kind::_Unknown(7), payload: ElementData::Unknown(vec![0xde, 0xad]) }
    );
    let mut out = vec![0u8; 6];
    repr.emit(&mut out).unwrap();
    assert_eq!(&out[..], &bytes[..]);
}

#[test]
fn hello_parse_stops_before_a_partial_element() {
    // Two whole elements followed by two stray bytes: the tail cannot hold
    // another element header and ends the list.
    let mut bytes = vec![];
    bytes.extend_from_slice(&element_bytes());
    bytes.extend_from_slice(&element_bytes());
    bytes.extend_from_slice(&[0x00, 0x01]);
    let repr = hello::PacketRepr::parse(&bytes).unwrap();
    assert_eq!(repr.0.len(), 2);
}

#[test]
fn iter_elements_walks_the_same_elements() {
    let bytes = hello_message_bytes();
    let ofpacket = openflow::Packet::new(&bytes[..]);
    let hello_buf = hello::Packet::new(ofpacket.payload());
    let mut elements = hello_buf.iter_elements();
    assert_eq!(elements.next().unwrap().length(), 8);
    assert_eq!(elements.next().unwrap().length(), 8);
    assert!(elements.next().is_none());
}

#[test]
fn empty_bitmap_yields_no_versions() {
    let bytes = [0u8; 4];
    let bitmap = Bitmap::new(&bytes[..]);
    let mut versions = bitmap.iter_versions();
    assert_eq!(versions.next(), None);
    assert_eq!(versions.next(), None);
}
