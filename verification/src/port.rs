//! OpenFlow port numbers.

use vstd::prelude::*;

verus! {

/// An OpenFlow port number: either one of the reserved ports or a regular
/// 32-bit port number.
#[derive(Debug, PartialEq, Eq, Clone, Copy)]
pub enum PortNumber {
    /// Maximum number of physical and logical switch ports.
    Max,
    /// Output port not set in action-set.
    Unset,
    /// Send the packet out the input port.
    InPort,
    /// Submit the packet to the first flow table; only usable in packet-out
    /// messages.
    Table,
    /// Forward using the non-OpenFlow pipeline.
    Normal,
    /// Flood using the non-OpenFlow pipeline.
    Flood,
    /// Flood through all standard ports except the input port.
    All,
    /// Send to the controller.
    Controller,
    /// Local OpenFlow "port".
    Local,
    /// Special value used in some requests when no port is specified.
    Any,
    /// A regular port number.
    Regular(u32),
}

impl PortNumber {
    /// The port designated by a 32-bit wire value.
    pub fn from_u32(value: u32) -> (r: Self)
        ensures
            r == PortNumber::spec_from_u32(value),
    {
        match value {
            0xffff_ff00 => PortNumber::Max,
            0xffff_fff7 => PortNumber::Unset,
            0xffff_fff8 => PortNumber::InPort,
            0xffff_fff9 => PortNumber::Table,
            0xffff_fffa => PortNumber::Normal,
            0xffff_fffb => PortNumber::Flood,
            0xffff_fffc => PortNumber::All,
            0xffff_fffd => PortNumber::Controller,
            0xffff_fffe => PortNumber::Local,
            0xffff_ffff => PortNumber::Any,
            other => PortNumber::Regular(other),
        }
    }

    /// The 32-bit wire value of this port.
    pub fn to_u32(self) -> (r: u32)
        ensures
            r == self.spec_to_u32(),
    {
        match self {
            PortNumber::Max => 0xffff_ff00,
            PortNumber::Unset => 0xffff_fff7,
            PortNumber::InPort => 0xffff_fff8,
            PortNumber::Table => 0xffff_fff9,
            PortNumber::Normal => 0xffff_fffa,
            PortNumber::Flood => 0xffff_fffb,
            PortNumber::All => 0xffff_fffc,
            PortNumber::Controller => 0xffff_fffd,
            PortNumber::Local => 0xffff_fffe,
            PortNumber::Any => 0xffff_ffff,
            PortNumber::Regular(other) => other,
        }
    }

    pub open spec fn spec_from_u32(value: u32) -> Self {
        match value {
            0xffff_ff00u32 => PortNumber::Max,
            0xffff_fff7u32 => PortNumber::Unset,
            0xffff_fff8u32 => PortNumber::InPort,
            0xffff_fff9u32 => PortNumber::Table,
            0xffff_fffau32 => PortNumber::Normal,
            0xffff_fffbu32 => PortNumber::Flood,
            0xffff_fffcu32 => PortNumber::All,
            0xffff_fffdu32 => PortNumber::Controller,
            0xffff_fffeu32 => PortNumber::Local,
            0xffff_ffffu32 => PortNumber::Any,
            other => PortNumber::Regular(other),
        }
    }

    pub open spec fn spec_to_u32(self) -> u32 {
        match self {
            PortNumber::Max => 0xffff_ff00u32,
            PortNumber::Unset => 0xffff_fff7u32,
            PortNumber::InPort => 0xffff_fff8u32,
            PortNumber::Table => 0xffff_fff9u32,
            PortNumber::Normal => 0xffff_fffau32,
            PortNumber::Flood => 0xffff_fffbu32,
            PortNumber::All => 0xffff_fffcu32,
            PortNumber::Controller => 0xffff_fffdu32,
            PortNumber::Local => 0xffff_fffeu32,
            PortNumber::Any => 0xffff_ffffu32,
            PortNumber::Regular(other) => other,
        }
    }

    /// Every port designated by a wire value maps back to that wire value.
    pub proof fn lemma_u32_roundtrip(value: u32)
        ensures
            PortNumber::spec_from_u32(value).spec_to_u32() == value,
    {
    }
}

} // verus!
