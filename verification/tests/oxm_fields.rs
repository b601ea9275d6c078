//! Tests for the standard flow match field codecs: dispatch, truncation,
//! value lengths and byte-exact round trips.

use ofpkt::oxm::{
    EthernetDestination, FlowMatchField, InPort, IpDscp, Ipv6FlowLabel, Ipv6Source, Metadata,
    MplsBos, MplsLabel, Packet, PbbIsid, PbbUca, TcpFlags, TcpSource, VlanId, VlanPriority,
};
use ofpkt::Error;

#[test]
fn mod_test_parse() {
    let bytes: [u8; 8] = [
        0x80, 0x00, // class = 0x8000 = openflow basic
        0x00, // field (0 = in_port), no mask
        0x04, // length = 4
        0x00, 0x00, 0xab, 0xcd, // value = 43981
    ];
    let parsed = FlowMatchField::parse(&Packet::new(&bytes)).unwrap();
    let expected = FlowMatchField::InPort(InPort::new(0xabcd));
    assert_eq!(parsed, expected);
}

#[test]
fn in_port_reemit_reproduces_bytes() {
    // An unmasked in_port TLV parses to the field and re-emitting it
    // reproduces the same 8 bytes.
    let bytes: [u8; 8] = [0x80, 0x00, 0x00, 0x04, 0x00, 0x00, 0xab, 0xcd];
    let parsed = FlowMatchField::parse(&Packet::new(&bytes)).unwrap();
    assert_eq!(parsed, FlowMatchField::InPort(InPort::new(0xabcd)));
    assert_eq!(parsed.buffer_len(), 8);
    let mut out = [0u8; 8];
    parsed.emit(&mut out).unwrap();
    assert_eq!(out, bytes);
}

#[test]
fn unknown_field_id_is_bad_oxm_field() {
    // Field id 40 is deliberately unassigned.
    let bytes: [u8; 8] = [0x80, 0x00, 40 << 1, 0x04, 0, 0, 0, 0];
    assert_eq!(
        FlowMatchField::parse(&Packet::new(&bytes)),
        Err(Error::BadOxmField)
    );
}

#[test]
fn short_value_is_truncated() {
    // in_port needs 4 value bytes; only 2 are present.
    let bytes: [u8; 6] = [0x80, 0x00, 0x00, 0x02, 0xab, 0xcd];
    assert_eq!(
        FlowMatchField::parse(&Packet::new(&bytes)),
        Err(Error::Truncated)
    );
}

#[test]
fn vlan_id_truncates_on_construction_and_mutation() {
    let mut f = VlanId::new(0xffff, Some(0xffff));
    assert_eq!(f, VlanId::new(0x1fff, Some(0x1fff)));
    f.set_value(0xabcd);
    assert_eq!(f.has_mask(), true);
    f.set_mask(0xeeee);
    f.set_value(0x2001);
    // Stored bits always equal input & 0x1fff, even after repeated writes.
    let tlv = FlowMatchField::VlanId(f);
    let mut out = [0u8; 8];
    tlv.emit(&mut out).unwrap();
    assert_eq!(out, [0x80, 0x00, (6 << 1) | 1, 0x04, 0x00, 0x01, 0x0e, 0xee]);
}

#[test]
fn vlan_id_dei_bit() {
    let mut f = VlanId::new(0x0777, None);
    f.set_dei();
    let mut out = [0u8; 6];
    let tlv = FlowMatchField::VlanId(f.clone());
    tlv.emit(&mut out).unwrap();
    assert_eq!(out, [0x80, 0x00, 6 << 1, 0x02, 0x17, 0x77]);
    f.unset_dei();
    let tlv = FlowMatchField::VlanId(f);
    tlv.emit(&mut out).unwrap();
    assert_eq!(out, [0x80, 0x00, 6 << 1, 0x02, 0x07, 0x77]);
}

#[test]
fn truncating_fields_mask_their_input() {
    assert_eq!(VlanPriority::new(0xff), VlanPriority::new(0x07));
    assert_eq!(IpDscp::new(0xff), IpDscp::new(0x3f));
    assert_eq!(MplsLabel::new(0xffff_ffff), MplsLabel::new(0x000f_ffff));
    assert_eq!(MplsBos::new(0x03), MplsBos::new(0x01));
    assert_eq!(
        Ipv6FlowLabel::new(0xffff_ffff, Some(0xffff_ffff)),
        Ipv6FlowLabel::new(0x000f_ffff, Some(0x000f_ffff))
    );
    assert_eq!(
        PbbIsid::new(0xffff_ffff, Some(0xffff_ffff)),
        PbbIsid::new(0x00ff_ffff, Some(0x00ff_ffff))
    );
    assert_eq!(
        TcpFlags::new(0xffff, Some(0xffff)),
        TcpFlags::new(0x0fff, Some(0x0fff))
    );
}

#[test]
fn value_len_doubles_when_masked() {
    assert_eq!(Metadata::new(1, None).value_len(), 8);
    assert_eq!(Metadata::new(1, Some(2)).value_len(), 16);
    assert_eq!(EthernetDestination::new([1, 2, 3, 4, 5, 6], None).value_len(), 6);
    assert_eq!(
        EthernetDestination::new([1, 2, 3, 4, 5, 6], Some([0xff; 6])).value_len(),
        12
    );
    assert_eq!(Ipv6Source::new([0; 16], None).value_len(), 16);
    assert_eq!(Ipv6Source::new([0; 16], Some([0xff; 16])).value_len(), 32);
    assert_eq!(VlanId::new(1, None).value_len(), 2);
    assert_eq!(VlanId::new(1, Some(2)).value_len(), 4);
    assert_eq!(PbbIsid::new(1, None).value_len(), 3);
    assert_eq!(PbbIsid::new(1, Some(2)).value_len(), 6);
}

#[test]
fn non_maskable_fields_never_report_a_mask() {
    assert_eq!(InPort::new(7).has_mask(), false);
    assert_eq!(TcpSource::new(80).has_mask(), false);
    assert_eq!(VlanPriority::new(3).has_mask(), false);
    assert_eq!(PbbUca::new(true).has_mask(), false);
    assert_eq!(MplsLabel::new(9).has_mask(), false);
    assert_eq!(InPort::new(7).value_len(), 4);
    assert_eq!(TcpSource::new(80).value_len(), 2);
}

fn roundtrip(field: FlowMatchField) {
    let n = field.buffer_len();
    let mut buf = vec![0u8; n];
    field.emit(&mut buf).unwrap();
    let parsed = FlowMatchField::parse(&Packet::new(&buf)).unwrap();
    assert_eq!(parsed, field);
}

#[test]
fn parse_of_emit_is_identity_for_every_category() {
    roundtrip(FlowMatchField::InPort(InPort::new(0xdead_beef)));
    roundtrip(FlowMatchField::TcpSource(TcpSource::new(443)));
    roundtrip(FlowMatchField::Metadata(Metadata::new(0x0123_4567_89ab_cdef, None)));
    roundtrip(FlowMatchField::Metadata(Metadata::new(7, Some(0xffff_0000_0000_0000))));
    roundtrip(FlowMatchField::EthernetDestination(EthernetDestination::new(
        [0x52, 0x54, 0, 1, 2, 3],
        Some([0xff, 0xff, 0xff, 0, 0, 0]),
    )));
    roundtrip(FlowMatchField::Ipv6Source(Ipv6Source::new([7; 16], Some([0xf0; 16]))));
    roundtrip(FlowMatchField::VlanId(VlanId::new(0x0777, Some(0x0fff))));
    roundtrip(FlowMatchField::VlanPriority(VlanPriority::new(5)));
    roundtrip(FlowMatchField::MplsLabel(MplsLabel::new(0x000a_bcde)));
    roundtrip(FlowMatchField::Ipv6FlowLabel(Ipv6FlowLabel::new(0x000f_0f0f, Some(0x000f_ffff))));
    roundtrip(FlowMatchField::PbbIsid(PbbIsid::new(0x00ab_cdef, Some(0x00ff_ff00))));
    roundtrip(FlowMatchField::PbbUca(PbbUca::new(true)));
    roundtrip(FlowMatchField::PbbUca(PbbUca::new(false)));
    roundtrip(FlowMatchField::TcpFlags(TcpFlags::new(0x0a5a, None)));
}

#[test]
fn pbb_isid_packs_three_bytes_big_endian() {
    let field = FlowMatchField::PbbIsid(PbbIsid::new(0x00ab_cdef, None));
    let mut buf = [0u8; 7];
    field.emit(&mut buf).unwrap();
    assert_eq!(buf, [0x80, 0x00, 37 << 1, 0x03, 0xab, 0xcd, 0xef]);
}

#[test]
fn emit_into_small_buffer_is_exhausted() {
    let field = FlowMatchField::InPort(InPort::new(1));
    let mut buf = [0u8; 7];
    assert_eq!(field.emit(&mut buf), Err(Error::Exhausted));
}
