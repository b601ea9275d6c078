//! Types representing OpenFlow error messages.
//!
//! An error message is a 2-byte type, a 2-byte code interpreted according to
//! the type, and variable-length data:
//!
//! ```text
//! +--------+--------+--------+--------+
//! |       type      |      code       |
//! +--------+--------+--------+--------+
//! |               data                |
//! +--------+--------+--------+--------+
//! ```

use vstd::prelude::*;

use crate::wire;
use crate::Error;
use crate::Repr;

verus! {

/// The type of an error message.
#[derive(Debug, PartialEq, Eq, Clone, Copy)]
pub enum Kind {
    /// Hello protocol failed.
    HelloFailed,
    /// Request was not understood.
    BadRequest,
    /// Error in action description.
    BadAction,
    /// Error in instruction list.
    BadInstruction,
    /// Error in match.
    BadMatch,
    /// Problem modifying a flow entry.
    FlowModFailed,
    /// Problem modifying a group entry.
    GroupModFailed,
    /// Port mod request failed.
    PortModFailed,
    /// Table mod request failed.
    TableModFailed,
    /// Queue operation failed.
    QueueOpFailed,
    /// Switch config request failed.
    SwitchConfigFailed,
    /// Controller role request failed.
    RoleRequestFailed,
    /// Error in meter.
    MeterModFailed,
    /// Setting table features failed.
    TableFeaturesFailed,
    /// Some property is invalid.
    BadProperty,
    /// Asynchronous config request failed.
    AsyncConfigFailed,
    /// Setting a flow monitor failed.
    FlowMonitorFailed,
    /// Bundle operation failed.
    BundleFailed,
    /// Experimenter error message.
    Experimenter,
    /// Any other wire value.
    _Unknown(u16),
}

impl Kind {
    pub open spec fn spec_from_u16(value: u16) -> Self {
        if value == 0 {
            Kind::HelloFailed
        } else if value == 1 {
            Kind::BadRequest
        } else if value == 2 {
            Kind::BadAction
        } else if value == 3 {
            Kind::BadInstruction
        } else if value == 4 {
            Kind::BadMatch
        } else if value == 5 {
            Kind::FlowModFailed
        } else if value == 6 {
            Kind::GroupModFailed
        } else if value == 7 {
            Kind::PortModFailed
        } else if value == 8 {
            Kind::TableModFailed
        } else if value == 9 {
            Kind::QueueOpFailed
        } else if value == 10 {
            Kind::SwitchConfigFailed
        } else if value == 11 {
            Kind::RoleRequestFailed
        } else if value == 12 {
            Kind::MeterModFailed
        } else if value == 13 {
            Kind::TableFeaturesFailed
        } else if value == 14 {
            Kind::BadProperty
        } else if value == 15 {
            Kind::AsyncConfigFailed
        } else if value == 16 {
            Kind::FlowMonitorFailed
        } else if value == 17 {
            Kind::BundleFailed
        } else if value == 65535 {
            Kind::Experimenter
        } else {
            Kind::_Unknown(value)
        }
    }

    pub open spec fn spec_to_u16(self) -> u16 {
        match self {
            Kind::HelloFailed => 0u16,
            Kind::BadRequest => 1u16,
            Kind::BadAction => 2u16,
            Kind::BadInstruction => 3u16,
            Kind::BadMatch => 4u16,
            Kind::FlowModFailed => 5u16,
            Kind::GroupModFailed => 6u16,
            Kind::PortModFailed => 7u16,
            Kind::TableModFailed => 8u16,
            Kind::QueueOpFailed => 9u16,
            Kind::SwitchConfigFailed => 10u16,
            Kind::RoleRequestFailed => 11u16,
            Kind::MeterModFailed => 12u16,
            Kind::TableFeaturesFailed => 13u16,
            Kind::BadProperty => 14u16,
            Kind::AsyncConfigFailed => 15u16,
            Kind::FlowMonitorFailed => 16u16,
            Kind::BundleFailed => 17u16,
            Kind::Experimenter => 65535u16,
            Kind::_Unknown(k) => k,
        }
    }

    /// The error type designated by a 16-bit wire value.
    pub fn from_u16(value: u16) -> (r: Self)
        ensures
            r == Kind::spec_from_u16(value),
    {
        match value {
            0 => Kind::HelloFailed,
            1 => Kind::BadRequest,
            2 => Kind::BadAction,
            3 => Kind::BadInstruction,
            4 => Kind::BadMatch,
            5 => Kind::FlowModFailed,
            6 => Kind::GroupModFailed,
            7 => Kind::PortModFailed,
            8 => Kind::TableModFailed,
            9 => Kind::QueueOpFailed,
            10 => Kind::SwitchConfigFailed,
            11 => Kind::RoleRequestFailed,
            12 => Kind::MeterModFailed,
            13 => Kind::TableFeaturesFailed,
            14 => Kind::BadProperty,
            15 => Kind::AsyncConfigFailed,
            16 => Kind::FlowMonitorFailed,
            17 => Kind::BundleFailed,
            65535 => Kind::Experimenter,
            k => Kind::_Unknown(k),
        }
    }

    /// The 16-bit wire value of this error type.
    pub fn to_u16(self) -> (r: u16)
        ensures
            r == self.spec_to_u16(),
    {
        match self {
            Kind::HelloFailed => 0,
            Kind::BadRequest => 1,
            Kind::BadAction => 2,
            Kind::BadInstruction => 3,
            Kind::BadMatch => 4,
            Kind::FlowModFailed => 5,
            Kind::GroupModFailed => 6,
            Kind::PortModFailed => 7,
            Kind::TableModFailed => 8,
            Kind::QueueOpFailed => 9,
            Kind::SwitchConfigFailed => 10,
            Kind::RoleRequestFailed => 11,
            Kind::MeterModFailed => 12,
            Kind::TableFeaturesFailed => 13,
            Kind::BadProperty => 14,
            Kind::AsyncConfigFailed => 15,
            Kind::FlowMonitorFailed => 16,
            Kind::BundleFailed => 17,
            Kind::Experimenter => 65535,
            Kind::_Unknown(k) => k,
        }
    }
}

/// The code of a `HelloFailed` error.
#[derive(Debug, PartialEq, Eq, Clone, Copy)]
pub enum HelloFailedCode {
    /// No compatible version.
    Incompatible,
    /// Permissions error.
    Eperm,
    /// Any other wire value.
    _Unknown(u16),
}

impl HelloFailedCode {
    pub open spec fn spec_from_u16(value: u16) -> Self {
        if value == 0 {
            HelloFailedCode::Incompatible
        } else if value == 1 {
            HelloFailedCode::Eperm
        } else {
            HelloFailedCode::_Unknown(value)
        }
    }

    pub open spec fn spec_to_u16(self) -> u16 {
        match self {
            HelloFailedCode::Incompatible => 0u16,
            HelloFailedCode::Eperm => 1u16,
            HelloFailedCode::_Unknown(c) => c,
        }
    }

    /// The code designated by a 16-bit wire value.
    pub fn from_u16(value: u16) -> (r: Self)
        ensures
            r == HelloFailedCode::spec_from_u16(value),
    {
        match value {
            0 => HelloFailedCode::Incompatible,
            1 => HelloFailedCode::Eperm,
            c => HelloFailedCode::_Unknown(c),
        }
    }

    /// The 16-bit wire value of this code.
    pub fn to_u16(self) -> (r: u16)
        ensures
            r == self.spec_to_u16(),
    {
        match self {
            HelloFailedCode::Incompatible => 0,
            HelloFailedCode::Eperm => 1,
            HelloFailedCode::_Unknown(c) => c,
        }
    }
}

/// The code of a `BadRequest` error.
#[derive(Debug, PartialEq, Eq, Clone, Copy)]
pub enum BadRequestCode {
    /// Header version not supported.
    BadVersion,
    /// Header type not supported.
    BadType,
    /// Multipart request type not supported.
    BadMultipart,
    /// Experimenter id not supported.
    BadExperimenter,
    /// Experimenter type not supported.
    BadExpType,
    /// Permissions error.
    Permissions,
    /// Wrong request length for type.
    BadLength,
    /// Specified buffer has already been used.
    BufferEmpty,
    /// Specified buffer does not exist.
    BufferUnknown,
    /// Specified table id invalid or does not exist.
    BadTableId,
    /// Denied because the controller is slave.
    IsSlave,
    /// Invalid or missing port.
    BadPort,
    /// Invalid packet in packet-out.
    BadPacket,
    /// Multipart request overflowed the assigned buffer.
    MultipartBufferOverflow,
    /// Timeout during multipart request.
    MultipartRequestTimeout,
    /// Timeout during multipart reply.
    MultipartReplyTimeout,
    /// Failed to update the multipart scheduling tolerance.
    MultipartBadSched,
    /// Match fields must include only pipeline fields.
    PipelineFieldsOnly,
    /// Unspecified error.
    Unknown,
    /// Any other wire value.
    _Unknown(u16),
}

impl BadRequestCode {
    pub open spec fn spec_from_u16(value: u16) -> Self {
        if value == 0 {
            BadRequestCode::BadVersion
        } else if value == 1 {
            BadRequestCode::BadType
        } else if value == 2 {
            BadRequestCode::BadMultipart
        } else if value == 3 {
            BadRequestCode::BadExperimenter
        } else if value == 4 {
            BadRequestCode::BadExpType
        } else if value == 5 {
            BadRequestCode::Permissions
        } else if value == 6 {
            BadRequestCode::BadLength
        } else if value == 7 {
            BadRequestCode::BufferEmpty
        } else if value == 8 {
            BadRequestCode::BufferUnknown
        } else if value == 9 {
            BadRequestCode::BadTableId
        } else if value == 10 {
            BadRequestCode::IsSlave
        } else if value == 11 {
            BadRequestCode::BadPort
        } else if value == 12 {
            BadRequestCode::BadPacket
        } else if value == 13 {
            BadRequestCode::MultipartBufferOverflow
        } else if value == 14 {
            BadRequestCode::MultipartRequestTimeout
        } else if value == 15 {
            BadRequestCode::MultipartReplyTimeout
        } else if value == 16 {
            BadRequestCode::MultipartBadSched
        } else if value == 17 {
            BadRequestCode::PipelineFieldsOnly
        } else if value == 18 {
            BadRequestCode::Unknown
        } else {
            BadRequestCode::_Unknown(value)
        }
    }

    pub open spec fn spec_to_u16(self) -> u16 {
        match self {
            BadRequestCode::BadVersion => 0u16,
            BadRequestCode::BadType => 1u16,
            BadRequestCode::BadMultipart => 2u16,
            BadRequestCode::BadExperimenter => 3u16,
            BadRequestCode::BadExpType => 4u16,
            BadRequestCode::Permissions => 5u16,
            BadRequestCode::BadLength => 6u16,
            BadRequestCode::BufferEmpty => 7u16,
            BadRequestCode::BufferUnknown => 8u16,
            BadRequestCode::BadTableId => 9u16,
            BadRequestCode::IsSlave => 10u16,
            BadRequestCode::BadPort => 11u16,
            BadRequestCode::BadPacket => 12u16,
            BadRequestCode::MultipartBufferOverflow => 13u16,
            BadRequestCode::MultipartRequestTimeout => 14u16,
            BadRequestCode::MultipartReplyTimeout => 15u16,
            BadRequestCode::MultipartBadSched => 16u16,
            BadRequestCode::PipelineFieldsOnly => 17u16,
            BadRequestCode::Unknown => 18u16,
            BadRequestCode::_Unknown(c) => c,
        }
    }

    /// The code designated by a 16-bit wire value.
    pub fn from_u16(value: u16) -> (r: Self)
        ensures
            r == BadRequestCode::spec_from_u16(value),
    {
        match value {
            0 => BadRequestCode::BadVersion,
            1 => BadRequestCode::BadType,
            2 => BadRequestCode::BadMultipart,
            3 => BadRequestCode::BadExperimenter,
            4 => BadRequestCode::BadExpType,
            5 => BadRequestCode::Permissions,
            6 => BadRequestCode::BadLength,
            7 => BadRequestCode::BufferEmpty,
            8 => BadRequestCode::BufferUnknown,
            9 => BadRequestCode::BadTableId,
            10 => BadRequestCode::IsSlave,
            11 => BadRequestCode::BadPort,
            12 => BadRequestCode::BadPacket,
            13 => BadRequestCode::MultipartBufferOverflow,
            14 => BadRequestCode::MultipartRequestTimeout,
            15 => BadRequestCode::MultipartReplyTimeout,
            16 => BadRequestCode::MultipartBadSched,
            17 => BadRequestCode::PipelineFieldsOnly,
            18 => BadRequestCode::Unknown,
            c => BadRequestCode::_Unknown(c),
        }
    }

    /// The 16-bit wire value of this code.
    pub fn to_u16(self) -> (r: u16)
        ensures
            r == self.spec_to_u16(),
    {
        match self {
            BadRequestCode::BadVersion => 0,
            BadRequestCode::BadType => 1,
            BadRequestCode::BadMultipart => 2,
            BadRequestCode::BadExperimenter => 3,
            BadRequestCode::BadExpType => 4,
            BadRequestCode::Permissions => 5,
            BadRequestCode::BadLength => 6,
            BadRequestCode::BufferEmpty => 7,
            BadRequestCode::BufferUnknown => 8,
            BadRequestCode::BadTableId => 9,
            BadRequestCode::IsSlave => 10,
            BadRequestCode::BadPort => 11,
            BadRequestCode::BadPacket => 12,
            BadRequestCode::MultipartBufferOverflow => 13,
            BadRequestCode::MultipartRequestTimeout => 14,
            BadRequestCode::MultipartReplyTimeout => 15,
            BadRequestCode::MultipartBadSched => 16,
            BadRequestCode::PipelineFieldsOnly => 17,
            BadRequestCode::Unknown => 18,
            BadRequestCode::_Unknown(c) => c,
        }
    }
}

/// The code of a `BadAction` error.
#[derive(Debug, PartialEq, Eq, Clone, Copy)]
pub enum BadActionCode {
    /// Unknown or unsupported action type.
    BadType,
    /// Length problem in actions.
    BadLength,
    /// Unknown experimenter id specified.
    BadExperimenterId,
    /// Unknown action for experimenter id.
    BadExperimenterType,
    /// Problem validating output port.
    BadOutPort,
    /// Bad action argument.
    BadArgument,
    /// Permissions error.
    Permissions,
    /// Cannot handle this many actions.
    TooMany,
    /// Problem validating output queue.
    BadQueue,
    /// Invalid group id in group action.
    BadOutGroup,
    /// Action cannot apply for this match, or missing prerequisite.
    MatchInconsistent,
    /// Action order unsupported for the action list.
    UnsupportedOrder,
    /// Action uses an unsupported tag or encapsulation.
    BadTag,
    /// Unsupported type in set-field action.
    BadSetType,
    /// Length problem in set-field action.
    BadSetLength,
    /// Bad argument in set-field action.
    BadSetArgument,
    /// Bad mask in set-field action.
    BadSetMask,
    /// Invalid meter id in meter action.
    BadMeterId,
    /// Any other wire value.
    _Unknown(u16),
}

impl BadActionCode {
    pub open spec fn spec_from_u16(value: u16) -> Self {
        if value == 0 {
            BadActionCode::BadType
        } else if value == 1 {
            BadActionCode::BadLength
        } else if value == 2 {
            BadActionCode::BadExperimenterId
        } else if value == 3 {
            BadActionCode::BadExperimenterType
        } else if value == 4 {
            BadActionCode::BadOutPort
        } else if value == 5 {
            BadActionCode::BadArgument
        } else if value == 6 {
            BadActionCode::Permissions
        } else if value == 7 {
            BadActionCode::TooMany
        } else if value == 8 {
            BadActionCode::BadQueue
        } else if value == 9 {
            BadActionCode::BadOutGroup
        } else if value == 10 {
            BadActionCode::MatchInconsistent
        } else if value == 11 {
            BadActionCode::UnsupportedOrder
        } else if value == 12 {
            BadActionCode::BadTag
        } else if value == 13 {
            BadActionCode::BadSetType
        } else if value == 14 {
            BadActionCode::BadSetLength
        } else if value == 15 {
            BadActionCode::BadSetArgument
        } else if value == 16 {
            BadActionCode::BadSetMask
        } else if value == 17 {
            BadActionCode::BadMeterId
        } else {
            BadActionCode::_Unknown(value)
        }
    }

    pub open spec fn spec_to_u16(self) -> u16 {
        match self {
            BadActionCode::BadType => 0u16,
            BadActionCode::BadLength => 1u16,
            BadActionCode::BadExperimenterId => 2u16,
            BadActionCode::BadExperimenterType => 3u16,
            BadActionCode::BadOutPort => 4u16,
            BadActionCode::BadArgument => 5u16,
            BadActionCode::Permissions => 6u16,
            BadActionCode::TooMany => 7u16,
            BadActionCode::BadQueue => 8u16,
            BadActionCode::BadOutGroup => 9u16,
            BadActionCode::MatchInconsistent => 10u16,
            BadActionCode::UnsupportedOrder => 11u16,
            BadActionCode::BadTag => 12u16,
            BadActionCode::BadSetType => 13u16,
            BadActionCode::BadSetLength => 14u16,
            BadActionCode::BadSetArgument => 15u16,
            BadActionCode::BadSetMask => 16u16,
            BadActionCode::BadMeterId => 17u16,
            BadActionCode::_Unknown(c) => c,
        }
    }

    /// The code designated by a 16-bit wire value.
    pub fn from_u16(value: u16) -> (r: Self)
        ensures
            r == BadActionCode::spec_from_u16(value),
    {
        match value {
            0 => BadActionCode::BadType,
            1 => BadActionCode::BadLength,
            2 => BadActionCode::BadExperimenterId,
            3 => BadActionCode::BadExperimenterType,
            4 => BadActionCode::BadOutPort,
            5 => BadActionCode::BadArgument,
            6 => BadActionCode::Permissions,
            7 => BadActionCode::TooMany,
            8 => BadActionCode::BadQueue,
            9 => BadActionCode::BadOutGroup,
            10 => BadActionCode::MatchInconsistent,
            11 => BadActionCode::UnsupportedOrder,
            12 => BadActionCode::BadTag,
            13 => BadActionCode::BadSetType,
            14 => BadActionCode::BadSetLength,
            15 => BadActionCode::BadSetArgument,
            16 => BadActionCode::BadSetMask,
            17 => BadActionCode::BadMeterId,
            c => BadActionCode::_Unknown(c),
        }
    }

    /// The 16-bit wire value of this code.
    pub fn to_u16(self) -> (r: u16)
        ensures
            r == self.spec_to_u16(),
    {
        match self {
            BadActionCode::BadType => 0,
            BadActionCode::BadLength => 1,
            BadActionCode::BadExperimenterId => 2,
            BadActionCode::BadExperimenterType => 3,
            BadActionCode::BadOutPort => 4,
            BadActionCode::BadArgument => 5,
            BadActionCode::Permissions => 6,
            BadActionCode::TooMany => 7,
            BadActionCode::BadQueue => 8,
            BadActionCode::BadOutGroup => 9,
            BadActionCode::MatchInconsistent => 10,
            BadActionCode::UnsupportedOrder => 11,
            BadActionCode::BadTag => 12,
            BadActionCode::BadSetType => 13,
            BadActionCode::BadSetLength => 14,
            BadActionCode::BadSetArgument => 15,
            BadActionCode::BadSetMask => 16,
            BadActionCode::BadMeterId => 17,
            BadActionCode::_Unknown(c) => c,
        }
    }
}

/// The code of a `BadInstruction` error.
#[derive(Debug, PartialEq, Eq, Clone, Copy)]
pub enum BadInstructionCode {
    /// Unknown instruction.
    UnknownInstruction,
    /// Switch or table does not support the instruction.
    UnsupportedInstruction,
    /// Invalid table id specified.
    BadTableId,
    /// Metadata value unsupported by datapath.
    UnsupportedMetadata,
    /// Metadata mask value unsupported by datapath.
    UnsupportedMetadataMask,
    /// Unknown experimenter id specified.
    BadExperimenterId,
    /// Unknown instruction for experimenter id.
    BadExperimenterType,
    /// Length problem in instructions.
    BadLength,
    /// Permissions error.
    Permissions,
    /// Duplicate instruction.
    DuplicateInstruction,
    /// Any other wire value.
    _Unknown(u16),
}

impl BadInstructionCode {
    pub open spec fn spec_from_u16(value: u16) -> Self {
        if value == 0 {
            BadInstructionCode::UnknownInstruction
        } else if value == 1 {
            BadInstructionCode::UnsupportedInstruction
        } else if value == 2 {
            BadInstructionCode::BadTableId
        } else if value == 3 {
            BadInstructionCode::UnsupportedMetadata
        } else if value == 4 {
            BadInstructionCode::UnsupportedMetadataMask
        } else if value == 5 {
            BadInstructionCode::BadExperimenterId
        } else if value == 6 {
            BadInstructionCode::BadExperimenterType
        } else if value == 7 {
            BadInstructionCode::BadLength
        } else if value == 8 {
            BadInstructionCode::Permissions
        } else if value == 9 {
            BadInstructionCode::DuplicateInstruction
        } else {
            BadInstructionCode::_Unknown(value)
        }
    }

    pub open spec fn spec_to_u16(self) -> u16 {
        match self {
            BadInstructionCode::UnknownInstruction => 0u16,
            BadInstructionCode::UnsupportedInstruction => 1u16,
            BadInstructionCode::BadTableId => 2u16,
            BadInstructionCode::UnsupportedMetadata => 3u16,
            BadInstructionCode::UnsupportedMetadataMask => 4u16,
            BadInstructionCode::BadExperimenterId => 5u16,
            BadInstructionCode::BadExperimenterType => 6u16,
            BadInstructionCode::BadLength => 7u16,
            BadInstructionCode::Permissions => 8u16,
            BadInstructionCode::DuplicateInstruction => 9u16,
            BadInstructionCode::_Unknown(c) => c,
        }
    }

    /// The code designated by a 16-bit wire value.
    pub fn from_u16(value: u16) -> (r: Self)
        ensures
            r == BadInstructionCode::spec_from_u16(value),
    {
        match value {
            0 => BadInstructionCode::UnknownInstruction,
            1 => BadInstructionCode::UnsupportedInstruction,
            2 => BadInstructionCode::BadTableId,
            3 => BadInstructionCode::UnsupportedMetadata,
            4 => BadInstructionCode::UnsupportedMetadataMask,
            5 => BadInstructionCode::BadExperimenterId,
            6 => BadInstructionCode::BadExperimenterType,
            7 => BadInstructionCode::BadLength,
            8 => BadInstructionCode::Permissions,
            9 => BadInstructionCode::DuplicateInstruction,
            c => BadInstructionCode::_Unknown(c),
        }
    }

    /// The 16-bit wire value of this code.
    pub fn to_u16(self) -> (r: u16)
        ensures
            r == self.spec_to_u16(),
    {
        match self {
            BadInstructionCode::UnknownInstruction => 0,
            BadInstructionCode::UnsupportedInstruction => 1,
            BadInstructionCode::BadTableId => 2,
            BadInstructionCode::UnsupportedMetadata => 3,
            BadInstructionCode::UnsupportedMetadataMask => 4,
            BadInstructionCode::BadExperimenterId => 5,
            BadInstructionCode::BadExperimenterType => 6,
            BadInstructionCode::BadLength => 7,
            BadInstructionCode::Permissions => 8,
            BadInstructionCode::DuplicateInstruction => 9,
            BadInstructionCode::_Unknown(c) => c,
        }
    }
}

/// The code of a `BadMatch` error.
#[derive(Debug, PartialEq, Eq, Clone, Copy)]
pub enum BadMatchCode {
    /// Unsupported match type specified by the match.
    BadType,
    /// Length problem in the match.
    BadLength,
    /// Match uses an unsupported tag or encapsulation.
    BadTag,
    /// Unsupported datalink address mask.
    BadDataLinkAddressMask,
    /// Unsupported network address mask.
    BadNetworkAddressMask,
    /// Unsupported combination of fields masked or omitted.
    BadWildcards,
    /// Unsupported field type in the match.
    BadField,
    /// Unsupported value in a match field.
    BadValue,
    /// Unsupported mask specified in the match.
    BadMask,
    /// A prerequisite was not met.
    BadPrerequities,
    /// A field type was duplicated.
    DupplicateField,
    /// Permissions error.
    Permissions,
    /// Any other wire value.
    _Unknown(u16),
}

impl BadMatchCode {
    pub open spec fn spec_from_u16(value: u16) -> Self {
        if value == 0 {
            BadMatchCode::BadType
        } else if value == 1 {
            BadMatchCode::BadLength
        } else if value == 2 {
            BadMatchCode::BadTag
        } else if value == 3 {
            BadMatchCode::BadDataLinkAddressMask
        } else if value == 4 {
            BadMatchCode::BadNetworkAddressMask
        } else if value == 5 {
            BadMatchCode::BadWildcards
        } else if value == 6 {
            BadMatchCode::BadField
        } else if value == 7 {
            BadMatchCode::BadValue
        } else if value == 8 {
            BadMatchCode::BadMask
        } else if value == 9 {
            BadMatchCode::BadPrerequities
        } else if value == 10 {
            BadMatchCode::DupplicateField
        } else if value == 11 {
            BadMatchCode::Permissions
        } else {
            BadMatchCode::_Unknown(value)
        }
    }

    pub open spec fn spec_to_u16(self) -> u16 {
        match self {
            BadMatchCode::BadType => 0u16,
            BadMatchCode::BadLength => 1u16,
            BadMatchCode::BadTag => 2u16,
            BadMatchCode::BadDataLinkAddressMask => 3u16,
            BadMatchCode::BadNetworkAddressMask => 4u16,
            BadMatchCode::BadWildcards => 5u16,
            BadMatchCode::BadField => 6u16,
            BadMatchCode::BadValue => 7u16,
            BadMatchCode::BadMask => 8u16,
            BadMatchCode::BadPrerequities => 9u16,
            BadMatchCode::DupplicateField => 10u16,
            BadMatchCode::Permissions => 11u16,
            BadMatchCode::_Unknown(c) => c,
        }
    }

    /// The code designated by a 16-bit wire value.
    pub fn from_u16(value: u16) -> (r: Self)
        ensures
            r == BadMatchCode::spec_from_u16(value),
    {
        match value {
            0 => BadMatchCode::BadType,
            1 => BadMatchCode::BadLength,
            2 => BadMatchCode::BadTag,
            3 => BadMatchCode::BadDataLinkAddressMask,
            4 => BadMatchCode::BadNetworkAddressMask,
            5 => BadMatchCode::BadWildcards,
            6 => BadMatchCode::BadField,
            7 => BadMatchCode::BadValue,
            8 => BadMatchCode::BadMask,
            9 => BadMatchCode::BadPrerequities,
            10 => BadMatchCode::DupplicateField,
            11 => BadMatchCode::Permissions,
            c => BadMatchCode::_Unknown(c),
        }
    }

    /// The 16-bit wire value of this code.
    pub fn to_u16(self) -> (r: u16)
        ensures
            r == self.spec_to_u16(),
    {
        match self {
            BadMatchCode::BadType => 0,
            BadMatchCode::BadLength => 1,
            BadMatchCode::BadTag => 2,
            BadMatchCode::BadDataLinkAddressMask => 3,
            BadMatchCode::BadNetworkAddressMask => 4,
            BadMatchCode::BadWildcards => 5,
            BadMatchCode::BadField => 6,
            BadMatchCode::BadValue => 7,
            BadMatchCode::BadMask => 8,
            BadMatchCode::BadPrerequities => 9,
            BadMatchCode::DupplicateField => 10,
            BadMatchCode::Permissions => 11,
            BadMatchCode::_Unknown(c) => c,
        }
    }
}

/// The code of a `FlowModFailed` error.
#[derive(Debug, PartialEq, Eq, Clone, Copy)]
pub enum FlowModFailedCode {
    /// Unspecified error.
    Unknown,
    /// Flow not added because the table was full.
    TableFull,
    /// Table does not exist.
    BadTableId,
    /// Attempted to add an overlapping flow.
    Overlap,
    /// Permissions error.
    Permissions,
    /// Unsupported idle or hard timeout.
    BadTimeout,
    /// Unsupported or unknown command.
    BadCommand,
    /// Unsupported or unknown flags.
    BadFlags,
    /// Problem in table synchronisation.
    CantSync,
    /// Unsupported priority value.
    BadPriority,
    /// Synchronised flow entry is read only.
    IsSync,
    /// Any other wire value.
    _Unknown(u16),
}

impl FlowModFailedCode {
    pub open spec fn spec_from_u16(value: u16) -> Self {
        if value == 0 {
            FlowModFailedCode::Unknown
        } else if value == 1 {
            FlowModFailedCode::TableFull
        } else if value == 2 {
            FlowModFailedCode::BadTableId
        } else if value == 3 {
            FlowModFailedCode::Overlap
        } else if value == 4 {
            FlowModFailedCode::Permissions
        } else if value == 5 {
            FlowModFailedCode::BadTimeout
        } else if value == 6 {
            FlowModFailedCode::BadCommand
        } else if value == 7 {
            FlowModFailedCode::BadFlags
        } else if value == 8 {
            FlowModFailedCode::CantSync
        } else if value == 9 {
            FlowModFailedCode::BadPriority
        } else if value == 10 {
            FlowModFailedCode::IsSync
        } else {
            FlowModFailedCode::_Unknown(value)
        }
    }

    pub open spec fn spec_to_u16(self) -> u16 {
        match self {
            FlowModFailedCode::Unknown => 0u16,
            FlowModFailedCode::TableFull => 1u16,
            FlowModFailedCode::BadTableId => 2u16,
            FlowModFailedCode::Overlap => 3u16,
            FlowModFailedCode::Permissions => 4u16,
            FlowModFailedCode::BadTimeout => 5u16,
            FlowModFailedCode::BadCommand => 6u16,
            FlowModFailedCode::BadFlags => 7u16,
            FlowModFailedCode::CantSync => 8u16,
            FlowModFailedCode::BadPriority => 9u16,
            FlowModFailedCode::IsSync => 10u16,
            FlowModFailedCode::_Unknown(c) => c,
        }
    }

    /// The code designated by a 16-bit wire value.
    pub fn from_u16(value: u16) -> (r: Self)
        ensures
            r == FlowModFailedCode::spec_from_u16(value),
    {
        match value {
            0 => FlowModFailedCode::Unknown,
            1 => FlowModFailedCode::TableFull,
            2 => FlowModFailedCode::BadTableId,
            3 => FlowModFailedCode::Overlap,
            4 => FlowModFailedCode::Permissions,
            5 => FlowModFailedCode::BadTimeout,
            6 => FlowModFailedCode::BadCommand,
            7 => FlowModFailedCode::BadFlags,
            8 => FlowModFailedCode::CantSync,
            9 => FlowModFailedCode::BadPriority,
            10 => FlowModFailedCode::IsSync,
            c => FlowModFailedCode::_Unknown(c),
        }
    }

    /// The 16-bit wire value of this code.
    pub fn to_u16(self) -> (r: u16)
        ensures
            r == self.spec_to_u16(),
    {
        match self {
            FlowModFailedCode::Unknown => 0,
            FlowModFailedCode::TableFull => 1,
            FlowModFailedCode::BadTableId => 2,
            FlowModFailedCode::Overlap => 3,
            FlowModFailedCode::Permissions => 4,
            FlowModFailedCode::BadTimeout => 5,
            FlowModFailedCode::BadCommand => 6,
            FlowModFailedCode::BadFlags => 7,
            FlowModFailedCode::CantSync => 8,
            FlowModFailedCode::BadPriority => 9,
            FlowModFailedCode::IsSync => 10,
            FlowModFailedCode::_Unknown(c) => c,
        }
    }
}

/// The code of a `GroupModFailed` error.
#[derive(Debug, PartialEq, Eq, Clone, Copy)]
pub enum GroupModFailedCode {
    /// A group add attempted to replace a present group.
    GroupExists,
    /// The specified group is invalid.
    InvalidGroup,
    /// Unequal load sharing with select groups unsupported.
    WeightUnsupported,
    /// The group table is full.
    OutOfGroups,
    /// Too many action buckets for a group.
    OutOfBuckets,
    /// Groups that forward to groups unsupported.
    ChainingUnsupported,
    /// This group cannot watch the port or group specified.
    WatchUnsupported,
    /// Group entry would cause a loop.
    Loop,
    /// A group modify attempted to modify a non-existent group.
    UnknownGroup,
    /// Another group is forwarding to this group.
    ChainedGroup,
    /// Unsupported or unknown group type.
    BadType,
    /// Unsupported or unknown command.
    BadCommand,
    /// Error in bucket.
    BadBucket,
    /// Error in watch port or group.
    BadWatch,
    /// Permissions error.
    Permissions,
    /// Invalid bucket identifier.
    UnknownBucket,
    /// A bucket already exists with that bucket id.
    BucketExists,
    /// Any other wire value.
    _Unknown(u16),
}

impl GroupModFailedCode {
    pub open spec fn spec_from_u16(value: u16) -> Self {
        if value == 0 {
            GroupModFailedCode::GroupExists
        } else if value == 1 {
            GroupModFailedCode::InvalidGroup
        } else if value == 2 {
            GroupModFailedCode::WeightUnsupported
        } else if value == 3 {
            GroupModFailedCode::OutOfGroups
        } else if value == 4 {
            GroupModFailedCode::OutOfBuckets
        } else if value == 5 {
            GroupModFailedCode::ChainingUnsupported
        } else if value == 6 {
            GroupModFailedCode::WatchUnsupported
        } else if value == 7 {
            GroupModFailedCode::Loop
        } else if value == 8 {
            GroupModFailedCode::UnknownGroup
        } else if value == 9 {
            GroupModFailedCode::ChainedGroup
        } else if value == 10 {
            GroupModFailedCode::BadType
        } else if value == 11 {
            GroupModFailedCode::BadCommand
        } else if value == 12 {
            GroupModFailedCode::BadBucket
        } else if value == 13 {
            GroupModFailedCode::BadWatch
        } else if value == 14 {
            GroupModFailedCode::Permissions
        } else if value == 15 {
            GroupModFailedCode::UnknownBucket
        } else if value == 16 {
            GroupModFailedCode::BucketExists
        } else {
            GroupModFailedCode::_Unknown(value)
        }
    }

    pub open spec fn spec_to_u16(self) -> u16 {
        match self {
            GroupModFailedCode::GroupExists => 0u16,
            GroupModFailedCode::InvalidGroup => 1u16,
            GroupModFailedCode::WeightUnsupported => 2u16,
            GroupModFailedCode::OutOfGroups => 3u16,
            GroupModFailedCode::OutOfBuckets => 4u16,
            GroupModFailedCode::ChainingUnsupported => 5u16,
            GroupModFailedCode::WatchUnsupported => 6u16,
            GroupModFailedCode::Loop => 7u16,
            GroupModFailedCode::UnknownGroup => 8u16,
            GroupModFailedCode::ChainedGroup => 9u16,
            GroupModFailedCode::BadType => 10u16,
            GroupModFailedCode::BadCommand => 11u16,
            GroupModFailedCode::BadBucket => 12u16,
            GroupModFailedCode::BadWatch => 13u16,
            GroupModFailedCode::Permissions => 14u16,
            GroupModFailedCode::UnknownBucket => 15u16,
            GroupModFailedCode::BucketExists => 16u16,
            GroupModFailedCode::_Unknown(c) => c,
        }
    }

    /// The code designated by a 16-bit wire value.
    pub fn from_u16(value: u16) -> (r: Self)
        ensures
            r == GroupModFailedCode::spec_from_u16(value),
    {
        match value {
            0 => GroupModFailedCode::GroupExists,
            1 => GroupModFailedCode::InvalidGroup,
            2 => GroupModFailedCode::WeightUnsupported,
            3 => GroupModFailedCode::OutOfGroups,
            4 => GroupModFailedCode::OutOfBuckets,
            5 => GroupModFailedCode::ChainingUnsupported,
            6 => GroupModFailedCode::WatchUnsupported,
            7 => GroupModFailedCode::Loop,
            8 => GroupModFailedCode::UnknownGroup,
            9 => GroupModFailedCode::ChainedGroup,
            10 => GroupModFailedCode::BadType,
            11 => GroupModFailedCode::BadCommand,
            12 => GroupModFailedCode::BadBucket,
            13 => GroupModFailedCode::BadWatch,
            14 => GroupModFailedCode::Permissions,
            15 => GroupModFailedCode::UnknownBucket,
            16 => GroupModFailedCode::BucketExists,
            c => GroupModFailedCode::_Unknown(c),
        }
    }

    /// The 16-bit wire value of this code.
    pub fn to_u16(self) -> (r: u16)
        ensures
            r == self.spec_to_u16(),
    {
        match self {
            GroupModFailedCode::GroupExists => 0,
            GroupModFailedCode::InvalidGroup => 1,
            GroupModFailedCode::WeightUnsupported => 2,
            GroupModFailedCode::OutOfGroups => 3,
            GroupModFailedCode::OutOfBuckets => 4,
            GroupModFailedCode::ChainingUnsupported => 5,
            GroupModFailedCode::WatchUnsupported => 6,
            GroupModFailedCode::Loop => 7,
            GroupModFailedCode::UnknownGroup => 8,
            GroupModFailedCode::ChainedGroup => 9,
            GroupModFailedCode::BadType => 10,
            GroupModFailedCode::BadCommand => 11,
            GroupModFailedCode::BadBucket => 12,
            GroupModFailedCode::BadWatch => 13,
            GroupModFailedCode::Permissions => 14,
            GroupModFailedCode::UnknownBucket => 15,
            GroupModFailedCode::BucketExists => 16,
            GroupModFailedCode::_Unknown(c) => c,
        }
    }
}

/// The code of a `PortModFailed` error.
#[derive(Debug, PartialEq, Eq, Clone, Copy)]
pub enum PortModFailedCode {
    /// Specified port number does not exist.
    BadPort,
    /// Hardware address does not match the port number.
    BadHardwareAddress,
    /// Specified config is invalid.
    BadConfig,
    /// Specified advertise is invalid.
    BadAdvertise,
    /// Permissions error.
    Permissions,
    /// Any other wire value.
    _Unknown(u16),
}

impl PortModFailedCode {
    pub open spec fn spec_from_u16(value: u16) -> Self {
        if value == 0 {
            PortModFailedCode::BadPort
        } else if value == 1 {
            PortModFailedCode::BadHardwareAddress
        } else if value == 2 {
            PortModFailedCode::BadConfig
        } else if value == 3 {
            PortModFailedCode::BadAdvertise
        } else if value == 4 {
            PortModFailedCode::Permissions
        } else {
            PortModFailedCode::_Unknown(value)
        }
    }

    pub open spec fn spec_to_u16(self) -> u16 {
        match self {
            PortModFailedCode::BadPort => 0u16,
            PortModFailedCode::BadHardwareAddress => 1u16,
            PortModFailedCode::BadConfig => 2u16,
            PortModFailedCode::BadAdvertise => 3u16,
            PortModFailedCode::Permissions => 4u16,
            PortModFailedCode::_Unknown(c) => c,
        }
    }

    /// The code designated by a 16-bit wire value.
    pub fn from_u16(value: u16) -> (r: Self)
        ensures
            r == PortModFailedCode::spec_from_u16(value),
    {
        match value {
            0 => PortModFailedCode::BadPort,
            1 => PortModFailedCode::BadHardwareAddress,
            2 => PortModFailedCode::BadConfig,
            3 => PortModFailedCode::BadAdvertise,
            4 => PortModFailedCode::Permissions,
            c => PortModFailedCode::_Unknown(c),
        }
    }

    /// The 16-bit wire value of this code.
    pub fn to_u16(self) -> (r: u16)
        ensures
            r == self.spec_to_u16(),
    {
        match self {
            PortModFailedCode::BadPort => 0,
            PortModFailedCode::BadHardwareAddress => 1,
            PortModFailedCode::BadConfig => 2,
            PortModFailedCode::BadAdvertise => 3,
            PortModFailedCode::Permissions => 4,
            PortModFailedCode::_Unknown(c) => c,
        }
    }
}

/// The code of a `TableModFailed` error.
#[derive(Debug, PartialEq, Eq, Clone, Copy)]
pub enum TableModFailedCode {
    /// Specified table does not exist.
    BadTable,
    /// Specified config is invalid.
    BadConfig,
    /// Permissions error.
    Permissions,
    /// Any other wire value.
    _Unknown(u16),
}

impl TableModFailedCode {
    pub open spec fn spec_from_u16(value: u16) -> Self {
        if value == 0 {
            TableModFailedCode::BadTable
        } else if value == 1 {
            TableModFailedCode::BadConfig
        } else if value == 2 {
            TableModFailedCode::Permissions
        } else {
            TableModFailedCode::_Unknown(value)
        }
    }

    pub open spec fn spec_to_u16(self) -> u16 {
        match self {
            TableModFailedCode::BadTable => 0u16,
            TableModFailedCode::BadConfig => 1u16,
            TableModFailedCode::Permissions => 2u16,
            TableModFailedCode::_Unknown(c) => c,
        }
    }

    /// The code designated by a 16-bit wire value.
    pub fn from_u16(value: u16) -> (r: Self)
        ensures
            r == TableModFailedCode::spec_from_u16(value),
    {
        match value {
            0 => TableModFailedCode::BadTable,
            1 => TableModFailedCode::BadConfig,
            2 => TableModFailedCode::Permissions,
            c => TableModFailedCode::_Unknown(c),
        }
    }

    /// The 16-bit wire value of this code.
    pub fn to_u16(self) -> (r: u16)
        ensures
            r == self.spec_to_u16(),
    {
        match self {
            TableModFailedCode::BadTable => 0,
            TableModFailedCode::BadConfig => 1,
            TableModFailedCode::Permissions => 2,
            TableModFailedCode::_Unknown(c) => c,
        }
    }
}

/// The code of a `QueueOpFailed` error.
#[derive(Debug, PartialEq, Eq, Clone, Copy)]
pub enum QueueOpFailedCode {
    /// Invalid port, or port does not exist.
    BadPort,
    /// Queue does not exist.
    BadQueue,
    /// Permissions error.
    Permissions,
    /// Any other wire value.
    _Unknown(u16),
}

impl QueueOpFailedCode {
    pub open spec fn spec_from_u16(value: u16) -> Self {
        if value == 0 {
            QueueOpFailedCode::BadPort
        } else if value == 1 {
            QueueOpFailedCode::BadQueue
        } else if value == 2 {
            QueueOpFailedCode::Permissions
        } else {
            QueueOpFailedCode::_Unknown(value)
        }
    }

    pub open spec fn spec_to_u16(self) -> u16 {
        match self {
            QueueOpFailedCode::BadPort => 0u16,
            QueueOpFailedCode::BadQueue => 1u16,
            QueueOpFailedCode::Permissions => 2u16,
            QueueOpFailedCode::_Unknown(c) => c,
        }
    }

    /// The code designated by a 16-bit wire value.
    pub fn from_u16(value: u16) -> (r: Self)
        ensures
            r == QueueOpFailedCode::spec_from_u16(value),
    {
        match value {
            0 => QueueOpFailedCode::BadPort,
            1 => QueueOpFailedCode::BadQueue,
            2 => QueueOpFailedCode::Permissions,
            c => QueueOpFailedCode::_Unknown(c),
        }
    }

    /// The 16-bit wire value of this code.
    pub fn to_u16(self) -> (r: u16)
        ensures
            r == self.spec_to_u16(),
    {
        match self {
            QueueOpFailedCode::BadPort => 0,
            QueueOpFailedCode::BadQueue => 1,
            QueueOpFailedCode::Permissions => 2,
            QueueOpFailedCode::_Unknown(c) => c,
        }
    }
}

/// The code of a `SwitchConfigFailed` error.
#[derive(Debug, PartialEq, Eq, Clone, Copy)]
pub enum SwitchConfigFailedCode {
    /// Specified flags are invalid.
    BadFlags,
    /// Specified miss-send length is invalid.
    BadLength,
    /// Permissions error.
    Permissions,
    /// Any other wire value.
    _Unknown(u16),
}

impl SwitchConfigFailedCode {
    pub open spec fn spec_from_u16(value: u16) -> Self {
        if value == 0 {
            SwitchConfigFailedCode::BadFlags
        } else if value == 1 {
            SwitchConfigFailedCode::BadLength
        } else if value == 2 {
            SwitchConfigFailedCode::Permissions
        } else {
            SwitchConfigFailedCode::_Unknown(value)
        }
    }

    pub open spec fn spec_to_u16(self) -> u16 {
        match self {
            SwitchConfigFailedCode::BadFlags => 0u16,
            SwitchConfigFailedCode::BadLength => 1u16,
            SwitchConfigFailedCode::Permissions => 2u16,
            SwitchConfigFailedCode::_Unknown(c) => c,
        }
    }

    /// The code designated by a 16-bit wire value.
    pub fn from_u16(value: u16) -> (r: Self)
        ensures
            r == SwitchConfigFailedCode::spec_from_u16(value),
    {
        match value {
            0 => SwitchConfigFailedCode::BadFlags,
            1 => SwitchConfigFailedCode::BadLength,
            2 => SwitchConfigFailedCode::Permissions,
            c => SwitchConfigFailedCode::_Unknown(c),
        }
    }

    /// The 16-bit wire value of this code.
    pub fn to_u16(self) -> (r: u16)
        ensures
            r == self.spec_to_u16(),
    {
        match self {
            SwitchConfigFailedCode::BadFlags => 0,
            SwitchConfigFailedCode::BadLength => 1,
            SwitchConfigFailedCode::Permissions => 2,
            SwitchConfigFailedCode::_Unknown(c) => c,
        }
    }
}

/// The code of a `RoleRequestFailed` error.
#[derive(Debug, PartialEq, Eq, Clone, Copy)]
pub enum RoleRequestFailedCode {
    /// Stale message: old generation id.
    Stale,
    /// Controller role change unsupported.
    Unsupported,
    /// Invalid role.
    BadRole,
    /// Switch does not support changing id.
    IdUnsupported,
    /// Requested id is in use.
    IdInUse,
    /// Any other wire value.
    _Unknown(u16),
}

impl RoleRequestFailedCode {
    pub open spec fn spec_from_u16(value: u16) -> Self {
        if value == 0 {
            RoleRequestFailedCode::Stale
        } else if value == 1 {
            RoleRequestFailedCode::Unsupported
        } else if value == 2 {
            RoleRequestFailedCode::BadRole
        } else if value == 3 {
            RoleRequestFailedCode::IdUnsupported
        } else if value == 4 {
            RoleRequestFailedCode::IdInUse
        } else {
            RoleRequestFailedCode::_Unknown(value)
        }
    }

    pub open spec fn spec_to_u16(self) -> u16 {
        match self {
            RoleRequestFailedCode::Stale => 0u16,
            RoleRequestFailedCode::Unsupported => 1u16,
            RoleRequestFailedCode::BadRole => 2u16,
            RoleRequestFailedCode::IdUnsupported => 3u16,
            RoleRequestFailedCode::IdInUse => 4u16,
            RoleRequestFailedCode::_Unknown(c) => c,
        }
    }

    /// The code designated by a 16-bit wire value.
    pub fn from_u16(value: u16) -> (r: Self)
        ensures
            r == RoleRequestFailedCode::spec_from_u16(value),
    {
        match value {
            0 => RoleRequestFailedCode::Stale,
            1 => RoleRequestFailedCode::Unsupported,
            2 => RoleRequestFailedCode::BadRole,
            3 => RoleRequestFailedCode::IdUnsupported,
            4 => RoleRequestFailedCode::IdInUse,
            c => RoleRequestFailedCode::_Unknown(c),
        }
    }

    /// The 16-bit wire value of this code.
    pub fn to_u16(self) -> (r: u16)
        ensures
            r == self.spec_to_u16(),
    {
        match self {
            RoleRequestFailedCode::Stale => 0,
            RoleRequestFailedCode::Unsupported => 1,
            RoleRequestFailedCode::BadRole => 2,
            RoleRequestFailedCode::IdUnsupported => 3,
            RoleRequestFailedCode::IdInUse => 4,
            RoleRequestFailedCode::_Unknown(c) => c,
        }
    }
}

/// The code of a `MeterModFailed` error.
#[derive(Debug, PartialEq, Eq, Clone, Copy)]
pub enum MeterModFailedCode {
    /// Unspecified error.
    Unknown,
    /// A meter add attempted to replace an existing meter.
    MeterExists,
    /// The specified meter is invalid.
    InvalidMeter,
    /// A meter modify attempted to modify a non-existent meter.
    UnknownMeter,
    /// Unsupported or unknown command.
    BadCommand,
    /// Flag configuration unsupported.
    BadFlags,
    /// Rate unsupported.
    BadRate,
    /// Burst size unsupported.
    BadBurst,
    /// Band unsupported.
    BadBand,
    /// Band value unsupported.
    BadBandValue,
    /// No more meters available.
    OutOfMeters,
    /// Too many properties for a meter.
    OutOfBands,
    /// Any other wire value.
    _Unknown(u16),
}

impl MeterModFailedCode {
    pub open spec fn spec_from_u16(value: u16) -> Self {
        if value == 0 {
            MeterModFailedCode::Unknown
        } else if value == 1 {
            MeterModFailedCode::MeterExists
        } else if value == 2 {
            MeterModFailedCode::InvalidMeter
        } else if value == 3 {
            MeterModFailedCode::UnknownMeter
        } else if value == 4 {
            MeterModFailedCode::BadCommand
        } else if value == 5 {
            MeterModFailedCode::BadFlags
        } else if value == 6 {
            MeterModFailedCode::BadRate
        } else if value == 7 {
            MeterModFailedCode::BadBurst
        } else if value == 8 {
            MeterModFailedCode::BadBand
        } else if value == 9 {
            MeterModFailedCode::BadBandValue
        } else if value == 10 {
            MeterModFailedCode::OutOfMeters
        } else if value == 11 {
            MeterModFailedCode::OutOfBands
        } else {
            MeterModFailedCode::_Unknown(value)
        }
    }

    pub open spec fn spec_to_u16(self) -> u16 {
        match self {
            MeterModFailedCode::Unknown => 0u16,
            MeterModFailedCode::MeterExists => 1u16,
            MeterModFailedCode::InvalidMeter => 2u16,
            MeterModFailedCode::UnknownMeter => 3u16,
            MeterModFailedCode::BadCommand => 4u16,
            MeterModFailedCode::BadFlags => 5u16,
            MeterModFailedCode::BadRate => 6u16,
            MeterModFailedCode::BadBurst => 7u16,
            MeterModFailedCode::BadBand => 8u16,
            MeterModFailedCode::BadBandValue => 9u16,
            MeterModFailedCode::OutOfMeters => 10u16,
            MeterModFailedCode::OutOfBands => 11u16,
            MeterModFailedCode::_Unknown(c) => c,
        }
    }

    /// The code designated by a 16-bit wire value.
    pub fn from_u16(value: u16) -> (r: Self)
        ensures
            r == MeterModFailedCode::spec_from_u16(value),
    {
        match value {
            0 => MeterModFailedCode::Unknown,
            1 => MeterModFailedCode::MeterExists,
            2 => MeterModFailedCode::InvalidMeter,
            3 => MeterModFailedCode::UnknownMeter,
            4 => MeterModFailedCode::BadCommand,
            5 => MeterModFailedCode::BadFlags,
            6 => MeterModFailedCode::BadRate,
            7 => MeterModFailedCode::BadBurst,
            8 => MeterModFailedCode::BadBand,
            9 => MeterModFailedCode::BadBandValue,
            10 => MeterModFailedCode::OutOfMeters,
            11 => MeterModFailedCode::OutOfBands,
            c => MeterModFailedCode::_Unknown(c),
        }
    }

    /// The 16-bit wire value of this code.
    pub fn to_u16(self) -> (r: u16)
        ensures
            r == self.spec_to_u16(),
    {
        match self {
            MeterModFailedCode::Unknown => 0,
            MeterModFailedCode::MeterExists => 1,
            MeterModFailedCode::InvalidMeter => 2,
            MeterModFailedCode::UnknownMeter => 3,
            MeterModFailedCode::BadCommand => 4,
            MeterModFailedCode::BadFlags => 5,
            MeterModFailedCode::BadRate => 6,
            MeterModFailedCode::BadBurst => 7,
            MeterModFailedCode::BadBand => 8,
            MeterModFailedCode::BadBandValue => 9,
            MeterModFailedCode::OutOfMeters => 10,
            MeterModFailedCode::OutOfBands => 11,
            MeterModFailedCode::_Unknown(c) => c,
        }
    }
}

/// The code of a `TableFeaturesFailed` error.
#[derive(Debug, PartialEq, Eq, Clone, Copy)]
pub enum TableFeaturesFailedCode {
    /// Specified table does not exist.
    BadTable,
    /// Invalid metadata mask.
    BadMetadata,
    /// Permissions error.
    Permissions,
    /// Invalid capability field.
    BadCapability,
    /// Invalid max-entries field.
    BadMaxEntries,
    /// Invalid features field.
    BadFeatures,
    /// Invalid command.
    BadCommand,
    /// Cannot handle this many flow tables.
    TooMany,
    /// Any other wire value.
    _Unknown(u16),
}

impl TableFeaturesFailedCode {
    pub open spec fn spec_from_u16(value: u16) -> Self {
        if value == 0 {
            TableFeaturesFailedCode::BadTable
        } else if value == 1 {
            TableFeaturesFailedCode::BadMetadata
        } else if value == 5 {
            TableFeaturesFailedCode::Permissions
        } else if value == 6 {
            TableFeaturesFailedCode::BadCapability
        } else if value == 7 {
            TableFeaturesFailedCode::BadMaxEntries
        } else if value == 8 {
            TableFeaturesFailedCode::BadFeatures
        } else if value == 9 {
            TableFeaturesFailedCode::BadCommand
        } else if value == 10 {
            TableFeaturesFailedCode::TooMany
        } else {
            TableFeaturesFailedCode::_Unknown(value)
        }
    }

    pub open spec fn spec_to_u16(self) -> u16 {
        match self {
            TableFeaturesFailedCode::BadTable => 0u16,
            TableFeaturesFailedCode::BadMetadata => 1u16,
            TableFeaturesFailedCode::Permissions => 5u16,
            TableFeaturesFailedCode::BadCapability => 6u16,
            TableFeaturesFailedCode::BadMaxEntries => 7u16,
            TableFeaturesFailedCode::BadFeatures => 8u16,
            TableFeaturesFailedCode::BadCommand => 9u16,
            TableFeaturesFailedCode::TooMany => 10u16,
            TableFeaturesFailedCode::_Unknown(c) => c,
        }
    }

    /// The code designated by a 16-bit wire value.
    pub fn from_u16(value: u16) -> (r: Self)
        ensures
            r == TableFeaturesFailedCode::spec_from_u16(value),
    {
        match value {
            0 => TableFeaturesFailedCode::BadTable,
            1 => TableFeaturesFailedCode::BadMetadata,
            5 => TableFeaturesFailedCode::Permissions,
            6 => TableFeaturesFailedCode::BadCapability,
            7 => TableFeaturesFailedCode::BadMaxEntries,
            8 => TableFeaturesFailedCode::BadFeatures,
            9 => TableFeaturesFailedCode::BadCommand,
            10 => TableFeaturesFailedCode::TooMany,
            c => TableFeaturesFailedCode::_Unknown(c),
        }
    }

    /// The 16-bit wire value of this code.
    pub fn to_u16(self) -> (r: u16)
        ensures
            r == self.spec_to_u16(),
    {
        match self {
            TableFeaturesFailedCode::BadTable => 0,
            TableFeaturesFailedCode::BadMetadata => 1,
            TableFeaturesFailedCode::Permissions => 5,
            TableFeaturesFailedCode::BadCapability => 6,
            TableFeaturesFailedCode::BadMaxEntries => 7,
            TableFeaturesFailedCode::BadFeatures => 8,
            TableFeaturesFailedCode::BadCommand => 9,
            TableFeaturesFailedCode::TooMany => 10,
            TableFeaturesFailedCode::_Unknown(c) => c,
        }
    }
}

/// The code of a `BadProperty` error.
#[derive(Debug, PartialEq, Eq, Clone, Copy)]
pub enum BadPropertyCode {
    /// Unknown or unsupported property type.
    BadType,
    /// Length problem in property.
    BadLength,
    /// Unsupported property value.
    BadValue,
    /// Cannot handle this many properties.
    TooMany,
    /// A property type was duplicated.
    DuplicateType,
    /// Unknown experimenter id specified.
    BadExperimenterId,
    /// Unknown exp-type for experimenter id.
    BadExperimenterType,
    /// Unknown value for experimenter id.
    BadExperimenterValue,
    /// Permissions error.
    Permissions,
    /// Any other wire value.
    _Unknown(u16),
}

impl BadPropertyCode {
    pub open spec fn spec_from_u16(value: u16) -> Self {
        if value == 0 {
            BadPropertyCode::BadType
        } else if value == 1 {
            BadPropertyCode::BadLength
        } else if value == 2 {
            BadPropertyCode::BadValue
        } else if value == 3 {
            BadPropertyCode::TooMany
        } else if value == 4 {
            BadPropertyCode::DuplicateType
        } else if value == 5 {
            BadPropertyCode::BadExperimenterId
        } else if value == 6 {
            BadPropertyCode::BadExperimenterType
        } else if value == 7 {
            BadPropertyCode::BadExperimenterValue
        } else if value == 8 {
            BadPropertyCode::Permissions
        } else {
            BadPropertyCode::_Unknown(value)
        }
    }

    pub open spec fn spec_to_u16(self) -> u16 {
        match self {
            BadPropertyCode::BadType => 0u16,
            BadPropertyCode::BadLength => 1u16,
            BadPropertyCode::BadValue => 2u16,
            BadPropertyCode::TooMany => 3u16,
            BadPropertyCode::DuplicateType => 4u16,
            BadPropertyCode::BadExperimenterId => 5u16,
            BadPropertyCode::BadExperimenterType => 6u16,
            BadPropertyCode::BadExperimenterValue => 7u16,
            BadPropertyCode::Permissions => 8u16,
            BadPropertyCode::_Unknown(c) => c,
        }
    }

    /// The code designated by a 16-bit wire value.
    pub fn from_u16(value: u16) -> (r: Self)
        ensures
            r == BadPropertyCode::spec_from_u16(value),
    {
        match value {
            0 => BadPropertyCode::BadType,
            1 => BadPropertyCode::BadLength,
            2 => BadPropertyCode::BadValue,
            3 => BadPropertyCode::TooMany,
            4 => BadPropertyCode::DuplicateType,
            5 => BadPropertyCode::BadExperimenterId,
            6 => BadPropertyCode::BadExperimenterType,
            7 => BadPropertyCode::BadExperimenterValue,
            8 => BadPropertyCode::Permissions,
            c => BadPropertyCode::_Unknown(c),
        }
    }

    /// The 16-bit wire value of this code.
    pub fn to_u16(self) -> (r: u16)
        ensures
            r == self.spec_to_u16(),
    {
        match self {
            BadPropertyCode::BadType => 0,
            BadPropertyCode::BadLength => 1,
            BadPropertyCode::BadValue => 2,
            BadPropertyCode::TooMany => 3,
            BadPropertyCode::DuplicateType => 4,
            BadPropertyCode::BadExperimenterId => 5,
            BadPropertyCode::BadExperimenterType => 6,
            BadPropertyCode::BadExperimenterValue => 7,
            BadPropertyCode::Permissions => 8,
            BadPropertyCode::_Unknown(c) => c,
        }
    }
}

/// The code of an `AsyncConfigFailed` error.
#[derive(Debug, PartialEq, Eq, Clone, Copy)]
pub enum AsyncConfigFailedCode {
    /// One mask is invalid.
    Invalid,
    /// Requested configuration not supported.
    Unsupported,
    /// Permissions error.
    Permissions,
    /// Any other wire value.
    _Unknown(u16),
}

impl AsyncConfigFailedCode {
    pub open spec fn spec_from_u16(value: u16) -> Self {
        if value == 0 {
            AsyncConfigFailedCode::Invalid
        } else if value == 1 {
            AsyncConfigFailedCode::Unsupported
        } else if value == 2 {
            AsyncConfigFailedCode::Permissions
        } else {
            AsyncConfigFailedCode::_Unknown(value)
        }
    }

    pub open spec fn spec_to_u16(self) -> u16 {
        match self {
            AsyncConfigFailedCode::Invalid => 0u16,
            AsyncConfigFailedCode::Unsupported => 1u16,
            AsyncConfigFailedCode::Permissions => 2u16,
            AsyncConfigFailedCode::_Unknown(c) => c,
        }
    }

    /// The code designated by a 16-bit wire value.
    pub fn from_u16(value: u16) -> (r: Self)
        ensures
            r == AsyncConfigFailedCode::spec_from_u16(value),
    {
        match value {
            0 => AsyncConfigFailedCode::Invalid,
            1 => AsyncConfigFailedCode::Unsupported,
            2 => AsyncConfigFailedCode::Permissions,
            c => AsyncConfigFailedCode::_Unknown(c),
        }
    }

    /// The 16-bit wire value of this code.
    pub fn to_u16(self) -> (r: u16)
        ensures
            r == self.spec_to_u16(),
    {
        match self {
            AsyncConfigFailedCode::Invalid => 0,
            AsyncConfigFailedCode::Unsupported => 1,
            AsyncConfigFailedCode::Permissions => 2,
            AsyncConfigFailedCode::_Unknown(c) => c,
        }
    }
}

/// The code of a `FlowMonitorFailed` error.
#[derive(Debug, PartialEq, Eq, Clone, Copy)]
pub enum FlowMonitorFailedCode {
    /// Unspecified error.
    Unknown,
    /// A monitor add attempted to replace an existing monitor.
    MonitorExists,
    /// The specified monitor is invalid.
    InvalidMonitor,
    /// A monitor modify attempted to modify a non-existent monitor.
    UnknownMonitor,
    /// Unsupported or unknown command.
    BadCommand,
    /// Flag configuration unsupported.
    BadFlags,
    /// Specified table does not exist.
    BadTableId,
    /// Error in output port or group.
    BadOutput,
    /// Any other wire value.
    _Unknown(u16),
}

impl FlowMonitorFailedCode {
    pub open spec fn spec_from_u16(value: u16) -> Self {
        if value == 0 {
            FlowMonitorFailedCode::Unknown
        } else if value == 1 {
            FlowMonitorFailedCode::MonitorExists
        } else if value == 2 {
            FlowMonitorFailedCode::InvalidMonitor
        } else if value == 3 {
            FlowMonitorFailedCode::UnknownMonitor
        } else if value == 4 {
            FlowMonitorFailedCode::BadCommand
        } else if value == 5 {
            FlowMonitorFailedCode::BadFlags
        } else if value == 6 {
            FlowMonitorFailedCode::BadTableId
        } else if value == 7 {
            FlowMonitorFailedCode::BadOutput
        } else {
            FlowMonitorFailedCode::_Unknown(value)
        }
    }

    pub open spec fn spec_to_u16(self) -> u16 {
        match self {
            FlowMonitorFailedCode::Unknown => 0u16,
            FlowMonitorFailedCode::MonitorExists => 1u16,
            FlowMonitorFailedCode::InvalidMonitor => 2u16,
            FlowMonitorFailedCode::UnknownMonitor => 3u16,
            FlowMonitorFailedCode::BadCommand => 4u16,
            FlowMonitorFailedCode::BadFlags => 5u16,
            FlowMonitorFailedCode::BadTableId => 6u16,
            FlowMonitorFailedCode::BadOutput => 7u16,
            FlowMonitorFailedCode::_Unknown(c) => c,
        }
    }

    /// The code designated by a 16-bit wire value.
    pub fn from_u16(value: u16) -> (r: Self)
        ensures
            r == FlowMonitorFailedCode::spec_from_u16(value),
    {
        match value {
            0 => FlowMonitorFailedCode::Unknown,
            1 => FlowMonitorFailedCode::MonitorExists,
            2 => FlowMonitorFailedCode::InvalidMonitor,
            3 => FlowMonitorFailedCode::UnknownMonitor,
            4 => FlowMonitorFailedCode::BadCommand,
            5 => FlowMonitorFailedCode::BadFlags,
            6 => FlowMonitorFailedCode::BadTableId,
            7 => FlowMonitorFailedCode::BadOutput,
            c => FlowMonitorFailedCode::_Unknown(c),
        }
    }

    /// The 16-bit wire value of this code.
    pub fn to_u16(self) -> (r: u16)
        ensures
            r == self.spec_to_u16(),
    {
        match self {
            FlowMonitorFailedCode::Unknown => 0,
            FlowMonitorFailedCode::MonitorExists => 1,
            FlowMonitorFailedCode::InvalidMonitor => 2,
            FlowMonitorFailedCode::UnknownMonitor => 3,
            FlowMonitorFailedCode::BadCommand => 4,
            FlowMonitorFailedCode::BadFlags => 5,
            FlowMonitorFailedCode::BadTableId => 6,
            FlowMonitorFailedCode::BadOutput => 7,
            FlowMonitorFailedCode::_Unknown(c) => c,
        }
    }
}

/// The code of a `BundleFailed` error.
#[derive(Debug, PartialEq, Eq, Clone, Copy)]
pub enum BundleFailedCode {
    /// Unspecified error.
    Unknown,
    /// Permissions error.
    Permissions,
    /// Bundle id does not exist.
    BadId,
    /// Bundle id already exists.
    BundleExist,
    /// Bundle id is closed.
    BundleClosed,
    /// Too many bundle ids.
    OutOfBundles,
    /// Unsupported or unknown message control type.
    BadType,
    /// Unsupported, unknown, or inconsistent flags.
    BadFlags,
    /// Length problem in included message.
    MsgBadLength,
    /// Inconsistent or duplicate xid.
    MsgBadXid,
    /// Unsupported message in this bundle.
    MsgUnsupported,
    /// Unsupported message combination in this bundle.
    MsgConflict,
    /// Cannot handle this many messages in a bundle.
    MsgTooMany,
    /// One message in the bundle failed.
    MsgFailed,
    /// Bundle is taking too long.
    Timeout,
    /// Bundle is locking the resource.
    BundleInProgress,
    /// Scheduled commit unsupported.
    SchedNotSupported,
    /// Scheduled commit time exceeds upper bound.
    SchedFuture,
    /// Scheduled commit time exceeds lower bound.
    SchedPast,
    /// Any other wire value.
    _Unknown(u16),
}

impl BundleFailedCode {
    pub open spec fn spec_from_u16(value: u16) -> Self {
        if value == 0 {
            BundleFailedCode::Unknown
        } else if value == 1 {
            BundleFailedCode::Permissions
        } else if value == 2 {
            BundleFailedCode::BadId
        } else if value == 3 {
            BundleFailedCode::BundleExist
        } else if value == 4 {
            BundleFailedCode::BundleClosed
        } else if value == 5 {
            BundleFailedCode::OutOfBundles
        } else if value == 6 {
            BundleFailedCode::BadType
        } else if value == 7 {
            BundleFailedCode::BadFlags
        } else if value == 8 {
            BundleFailedCode::MsgBadLength
        } else if value == 9 {
            BundleFailedCode::MsgBadXid
        } else if value == 10 {
            BundleFailedCode::MsgUnsupported
        } else if value == 11 {
            BundleFailedCode::MsgConflict
        } else if value == 12 {
            BundleFailedCode::MsgTooMany
        } else if value == 13 {
            BundleFailedCode::MsgFailed
        } else if value == 14 {
            BundleFailedCode::Timeout
        } else if value == 15 {
            BundleFailedCode::BundleInProgress
        } else if value == 16 {
            BundleFailedCode::SchedNotSupported
        } else if value == 17 {
            BundleFailedCode::SchedFuture
        } else if value == 18 {
            BundleFailedCode::SchedPast
        } else {
            BundleFailedCode::_Unknown(value)
        }
    }

    pub open spec fn spec_to_u16(self) -> u16 {
        match self {
            BundleFailedCode::Unknown => 0u16,
            BundleFailedCode::Permissions => 1u16,
            BundleFailedCode::BadId => 2u16,
            BundleFailedCode::BundleExist => 3u16,
            BundleFailedCode::BundleClosed => 4u16,
            BundleFailedCode::OutOfBundles => 5u16,
            BundleFailedCode::BadType => 6u16,
            BundleFailedCode::BadFlags => 7u16,
            BundleFailedCode::MsgBadLength => 8u16,
            BundleFailedCode::MsgBadXid => 9u16,
            BundleFailedCode::MsgUnsupported => 10u16,
            BundleFailedCode::MsgConflict => 11u16,
            BundleFailedCode::MsgTooMany => 12u16,
            BundleFailedCode::MsgFailed => 13u16,
            BundleFailedCode::Timeout => 14u16,
            BundleFailedCode::BundleInProgress => 15u16,
            BundleFailedCode::SchedNotSupported => 16u16,
            BundleFailedCode::SchedFuture => 17u16,
            BundleFailedCode::SchedPast => 18u16,
            BundleFailedCode::_Unknown(c) => c,
        }
    }

    /// The code designated by a 16-bit wire value.
    pub fn from_u16(value: u16) -> (r: Self)
        ensures
            r == BundleFailedCode::spec_from_u16(value),
    {
        match value {
            0 => BundleFailedCode::Unknown,
            1 => BundleFailedCode::Permissions,
            2 => BundleFailedCode::BadId,
            3 => BundleFailedCode::BundleExist,
            4 => BundleFailedCode::BundleClosed,
            5 => BundleFailedCode::OutOfBundles,
            6 => BundleFailedCode::BadType,
            7 => BundleFailedCode::BadFlags,
            8 => BundleFailedCode::MsgBadLength,
            9 => BundleFailedCode::MsgBadXid,
            10 => BundleFailedCode::MsgUnsupported,
            11 => BundleFailedCode::MsgConflict,
            12 => BundleFailedCode::MsgTooMany,
            13 => BundleFailedCode::MsgFailed,
            14 => BundleFailedCode::Timeout,
            15 => BundleFailedCode::BundleInProgress,
            16 => BundleFailedCode::SchedNotSupported,
            17 => BundleFailedCode::SchedFuture,
            18 => BundleFailedCode::SchedPast,
            c => BundleFailedCode::_Unknown(c),
        }
    }

    /// The 16-bit wire value of this code.
    pub fn to_u16(self) -> (r: u16)
        ensures
            r == self.spec_to_u16(),
    {
        match self {
            BundleFailedCode::Unknown => 0,
            BundleFailedCode::Permissions => 1,
            BundleFailedCode::BadId => 2,
            BundleFailedCode::BundleExist => 3,
            BundleFailedCode::BundleClosed => 4,
            BundleFailedCode::OutOfBundles => 5,
            BundleFailedCode::BadType => 6,
            BundleFailedCode::BadFlags => 7,
            BundleFailedCode::MsgBadLength => 8,
            BundleFailedCode::MsgBadXid => 9,
            BundleFailedCode::MsgUnsupported => 10,
            BundleFailedCode::MsgConflict => 11,
            BundleFailedCode::MsgTooMany => 12,
            BundleFailedCode::MsgFailed => 13,
            BundleFailedCode::Timeout => 14,
            BundleFailedCode::BundleInProgress => 15,
            BundleFailedCode::SchedNotSupported => 16,
            BundleFailedCode::SchedFuture => 17,
            BundleFailedCode::SchedPast => 18,
            BundleFailedCode::_Unknown(c) => c,
        }
    }
}

/// A wrapper to read an error message from a buffer.
#[derive(Debug, Clone)]
pub struct Packet<'a> {
    /// The wrapped buffer.
    pub inner: &'a [u8],
}

impl<'a> Packet<'a> {
    /// The wrapped bytes.
    pub open spec fn bytes(&self) -> Seq<u8> {
        self.inner@
    }

    pub fn new(buffer: &'a [u8]) -> (r: Self)
        ensures
            r.bytes() == buffer@,
    {
        Packet { inner: buffer }
    }

    /// Return a reader after checking that the 4-byte header is present.
    pub fn new_checked(buffer: &'a [u8]) -> (r: Result<Self, Error>)
        ensures
            buffer@.len() >= 4 ==> (r matches Ok(p) && p.bytes() == buffer@),
            buffer@.len() < 4 ==> r == Err::<Self, Error>(Error::Truncated),
    {
        let packet = Packet { inner: buffer };
        match packet.check_len() {
            Ok(()) => Ok(packet),
            Err(e) => Err(e),
        }
    }

    /// Check that the 4-byte header is present.
    pub fn check_len(&self) -> (r: Result<(), Error>)
        ensures
            self.bytes().len() >= 4 ==> r is Ok,
            self.bytes().len() < 4 ==> r == Err::<(), Error>(Error::Truncated),
    {
        if self.inner.len() < 4 {
            Err(Error::Truncated)
        } else {
            Ok(())
        }
    }

    /// The 4-byte header length.
    pub fn header_len() -> (r: usize)
        ensures
            r == 4,
    {
        4
    }

    /// Return the inner buffer.
    pub fn into_inner(self) -> (r: &'a [u8])
        ensures
            r@ == self.bytes(),
    {
        self.inner
    }

    /// Return the type field.
    pub fn kind(&self) -> (r: Kind)
        requires
            self.bytes().len() >= 4,
        ensures
            r == Kind::spec_from_u16(wire::spec_read_u16(self.bytes(), 0)),
    {
        Kind::from_u16(wire::read_u16_at(self.inner, 0))
    }

    /// Return the code field.
    pub fn code(&self) -> (r: u16)
        requires
            self.bytes().len() >= 4,
        ensures
            r == wire::spec_read_u16(self.bytes(), 2),
    {
        wire::read_u16_at(self.inner, 2)
    }

    /// Return the data after the header.
    pub fn payload(&self) -> (r: &'a [u8])
        requires
            self.bytes().len() >= 4,
        ensures
            r@ == self.bytes().subrange(4, self.bytes().len() as int),
    {
        vstd::slice::slice_subrange(self.inner, 4, self.inner.len())
    }

    /// Write the type field of the message starting at `buf[0]`.
    pub fn set_kind(buf: &mut [u8], value: Kind)
        requires
            old(buf)@.len() >= 4,
        ensures
            final(buf)@ == wire::splice(old(buf)@, 0, wire::spec_u16_be(value.spec_to_u16())),
    {
        wire::write_u16_at(buf, 0, value.to_u16());
    }

    /// Write the code field of the message starting at `buf[0]`.
    pub fn set_code(buf: &mut [u8], value: u16)
        requires
            old(buf)@.len() >= 4,
        ensures
            final(buf)@ == wire::splice(old(buf)@, 2, wire::spec_u16_be(value)),
    {
        wire::write_u16_at(buf, 2, value);
    }
}

/// The type and code of an error message, with the code already dispatched
/// on the type.
#[derive(Debug, PartialEq, Eq, Clone)]
pub enum Header {

    /// Hello protocol failed.
    HelloFailed(HelloFailedCode),
    /// Request was not understood.
    BadRequest(BadRequestCode),
    /// Error in action description.
    BadAction(BadActionCode),
    /// Error in instruction list.
    BadInstruction(BadInstructionCode),
    /// Error in match.
    BadMatch(BadMatchCode),
    /// Problem modifying a flow entry.
    FlowModFailed(FlowModFailedCode),
    /// Problem modifying a group entry.
    GroupModFailed(GroupModFailedCode),
    /// Port mod request failed.
    PortModFailed(PortModFailedCode),
    /// Table mod request failed.
    TableModFailed(TableModFailedCode),
    /// Queue operation failed.
    QueueOpFailed(QueueOpFailedCode),
    /// Switch config request failed.
    SwitchConfigFailed(SwitchConfigFailedCode),
    /// Controller role request failed.
    RoleRequestFailed(RoleRequestFailedCode),
    /// Error in meter.
    MeterModFailed(MeterModFailedCode),
    /// Setting table features failed.
    TableFeaturesFailed(TableFeaturesFailedCode),
    /// Some property is invalid.
    BadProperty(BadPropertyCode),
    /// Asynchronous config request failed.
    AsyncConfigFailed(AsyncConfigFailedCode),
    /// Setting a flow monitor failed.
    FlowMonitorFailed(FlowMonitorFailedCode),
    /// Bundle operation failed.
    BundleFailed(BundleFailedCode),
    /// Experimenter error message.
    Experimenter(u16),
}

impl Header {
    /// The wire value of the type field.
    pub open spec fn spec_kind_u16(&self) -> u16 {
        match self {
            Header::HelloFailed(_) => 0u16,
            Header::BadRequest(_) => 1u16,
            Header::BadAction(_) => 2u16,
            Header::BadInstruction(_) => 3u16,
            Header::BadMatch(_) => 4u16,
            Header::FlowModFailed(_) => 5u16,
            Header::GroupModFailed(_) => 6u16,
            Header::PortModFailed(_) => 7u16,
            Header::TableModFailed(_) => 8u16,
            Header::QueueOpFailed(_) => 9u16,
            Header::SwitchConfigFailed(_) => 10u16,
            Header::RoleRequestFailed(_) => 11u16,
            Header::MeterModFailed(_) => 12u16,
            Header::TableFeaturesFailed(_) => 13u16,
            Header::BadProperty(_) => 14u16,
            Header::AsyncConfigFailed(_) => 15u16,
            Header::FlowMonitorFailed(_) => 16u16,
            Header::BundleFailed(_) => 17u16,
            Header::Experimenter(_) => 65535u16,
        }
    }

    /// The wire value of the code field.
    pub open spec fn spec_code_u16(&self) -> u16 {
        match self {
            Header::HelloFailed(c) => c.spec_to_u16(),
            Header::BadRequest(c) => c.spec_to_u16(),
            Header::BadAction(c) => c.spec_to_u16(),
            Header::BadInstruction(c) => c.spec_to_u16(),
            Header::BadMatch(c) => c.spec_to_u16(),
            Header::FlowModFailed(c) => c.spec_to_u16(),
            Header::GroupModFailed(c) => c.spec_to_u16(),
            Header::PortModFailed(c) => c.spec_to_u16(),
            Header::TableModFailed(c) => c.spec_to_u16(),
            Header::QueueOpFailed(c) => c.spec_to_u16(),
            Header::SwitchConfigFailed(c) => c.spec_to_u16(),
            Header::RoleRequestFailed(c) => c.spec_to_u16(),
            Header::MeterModFailed(c) => c.spec_to_u16(),
            Header::TableFeaturesFailed(c) => c.spec_to_u16(),
            Header::BadProperty(c) => c.spec_to_u16(),
            Header::AsyncConfigFailed(c) => c.spec_to_u16(),
            Header::FlowMonitorFailed(c) => c.spec_to_u16(),
            Header::BundleFailed(c) => c.spec_to_u16(),
            Header::Experimenter(c) => *c,
        }
    }

    /// The header parsed from raw type and code values; an unknown type
    /// is malformed.
    pub open spec fn spec_parse(kind: u16, code: u16) -> Result<Header, Error> {
        Header::spec_parse_kind(Kind::spec_from_u16(kind), code)
    }

    /// The header for an already-decoded type.
    pub open spec fn spec_parse_kind(kind: Kind, code: u16) -> Result<Header, Error> {
        match kind {
            Kind::HelloFailed => Ok(Header::HelloFailed(HelloFailedCode::spec_from_u16(code))),
            Kind::BadRequest => Ok(Header::BadRequest(BadRequestCode::spec_from_u16(code))),
            Kind::BadAction => Ok(Header::BadAction(BadActionCode::spec_from_u16(code))),
            Kind::BadInstruction => Ok(Header::BadInstruction(BadInstructionCode::spec_from_u16(code))),
            Kind::BadMatch => Ok(Header::BadMatch(BadMatchCode::spec_from_u16(code))),
            Kind::FlowModFailed => Ok(Header::FlowModFailed(FlowModFailedCode::spec_from_u16(code))),
            Kind::GroupModFailed => Ok(Header::GroupModFailed(GroupModFailedCode::spec_from_u16(code))),
            Kind::PortModFailed => Ok(Header::PortModFailed(PortModFailedCode::spec_from_u16(code))),
            Kind::TableModFailed => Ok(Header::TableModFailed(TableModFailedCode::spec_from_u16(code))),
            Kind::QueueOpFailed => Ok(Header::QueueOpFailed(QueueOpFailedCode::spec_from_u16(code))),
            Kind::SwitchConfigFailed => Ok(Header::SwitchConfigFailed(SwitchConfigFailedCode::spec_from_u16(code))),
            Kind::RoleRequestFailed => Ok(Header::RoleRequestFailed(RoleRequestFailedCode::spec_from_u16(code))),
            Kind::MeterModFailed => Ok(Header::MeterModFailed(MeterModFailedCode::spec_from_u16(code))),
            Kind::TableFeaturesFailed => Ok(Header::TableFeaturesFailed(TableFeaturesFailedCode::spec_from_u16(code))),
            Kind::BadProperty => Ok(Header::BadProperty(BadPropertyCode::spec_from_u16(code))),
            Kind::AsyncConfigFailed => Ok(Header::AsyncConfigFailed(AsyncConfigFailedCode::spec_from_u16(code))),
            Kind::FlowMonitorFailed => Ok(Header::FlowMonitorFailed(FlowMonitorFailedCode::spec_from_u16(code))),
            Kind::BundleFailed => Ok(Header::BundleFailed(BundleFailedCode::spec_from_u16(code))),
            Kind::Experimenter => Ok(Header::Experimenter(code)),
            Kind::_Unknown(_) => Err(Error::Malformed),
        }
    }

    /// Dispatch a decoded type and a raw code value to a header.
    pub fn parse(kind: Kind, code: u16) -> (r: Result<Header, Error>)
        ensures
            r == Header::spec_parse_kind(kind, code),
    {
        match kind {
            Kind::HelloFailed => Ok(Header::HelloFailed(HelloFailedCode::from_u16(code))),
            Kind::BadRequest => Ok(Header::BadRequest(BadRequestCode::from_u16(code))),
            Kind::BadAction => Ok(Header::BadAction(BadActionCode::from_u16(code))),
            Kind::BadInstruction => Ok(Header::BadInstruction(BadInstructionCode::from_u16(code))),
            Kind::BadMatch => Ok(Header::BadMatch(BadMatchCode::from_u16(code))),
            Kind::FlowModFailed => Ok(Header::FlowModFailed(FlowModFailedCode::from_u16(code))),
            Kind::GroupModFailed => Ok(Header::GroupModFailed(GroupModFailedCode::from_u16(code))),
            Kind::PortModFailed => Ok(Header::PortModFailed(PortModFailedCode::from_u16(code))),
            Kind::TableModFailed => Ok(Header::TableModFailed(TableModFailedCode::from_u16(code))),
            Kind::QueueOpFailed => Ok(Header::QueueOpFailed(QueueOpFailedCode::from_u16(code))),
            Kind::SwitchConfigFailed => Ok(Header::SwitchConfigFailed(SwitchConfigFailedCode::from_u16(code))),
            Kind::RoleRequestFailed => Ok(Header::RoleRequestFailed(RoleRequestFailedCode::from_u16(code))),
            Kind::MeterModFailed => Ok(Header::MeterModFailed(MeterModFailedCode::from_u16(code))),
            Kind::TableFeaturesFailed => Ok(Header::TableFeaturesFailed(TableFeaturesFailedCode::from_u16(code))),
            Kind::BadProperty => Ok(Header::BadProperty(BadPropertyCode::from_u16(code))),
            Kind::AsyncConfigFailed => Ok(Header::AsyncConfigFailed(AsyncConfigFailedCode::from_u16(code))),
            Kind::FlowMonitorFailed => Ok(Header::FlowMonitorFailed(FlowMonitorFailedCode::from_u16(code))),
            Kind::BundleFailed => Ok(Header::BundleFailed(BundleFailedCode::from_u16(code))),
            Kind::Experimenter => Ok(Header::Experimenter(code)),
            Kind::_Unknown(_) => Err(Error::Malformed),
        }
    }

    /// The raw type and code values this header emits.
    pub fn to_wire(&self) -> (r: (u16, u16))
        ensures
            r.0 == self.spec_kind_u16(),
            r.1 == self.spec_code_u16(),
    {
        match self {
            Header::HelloFailed(c) => (0, c.to_u16()),
            Header::BadRequest(c) => (1, c.to_u16()),
            Header::BadAction(c) => (2, c.to_u16()),
            Header::BadInstruction(c) => (3, c.to_u16()),
            Header::BadMatch(c) => (4, c.to_u16()),
            Header::FlowModFailed(c) => (5, c.to_u16()),
            Header::GroupModFailed(c) => (6, c.to_u16()),
            Header::PortModFailed(c) => (7, c.to_u16()),
            Header::TableModFailed(c) => (8, c.to_u16()),
            Header::QueueOpFailed(c) => (9, c.to_u16()),
            Header::SwitchConfigFailed(c) => (10, c.to_u16()),
            Header::RoleRequestFailed(c) => (11, c.to_u16()),
            Header::MeterModFailed(c) => (12, c.to_u16()),
            Header::TableFeaturesFailed(c) => (13, c.to_u16()),
            Header::BadProperty(c) => (14, c.to_u16()),
            Header::AsyncConfigFailed(c) => (15, c.to_u16()),
            Header::FlowMonitorFailed(c) => (16, c.to_u16()),
            Header::BundleFailed(c) => (17, c.to_u16()),
            Header::Experimenter(c) => (0xffff, *c),
        }
    }
}

/// The high-level representation of an error message.
#[derive(Debug, PartialEq, Eq, Clone)]
pub struct PacketRepr {
    /// The error type and its code.
    pub header: Header,
    /// The variable-length data, interpreted according to the type.
    pub data: Vec<u8>,
}

impl PacketRepr {
    /// The exact bytes this message emits: type, code, then the data.
    pub open spec fn spec_wire(&self) -> Seq<u8> {
        wire::spec_u16_be(self.header.spec_kind_u16()) + wire::spec_u16_be(
            self.header.spec_code_u16(),
        ) + self.data@
    }

    /// The message data fits a buffer next to the 4-byte header.
    pub open spec fn spec_wf(&self) -> bool {
        4 + self.data@.len() <= usize::MAX
    }

    /// Parse an error message: the type selects how the code is read, an
    /// unknown type is malformed, and everything after the header is data.
    pub fn parse(buffer: &[u8]) -> (r: Result<PacketRepr, Error>)
        ensures
            buffer@.len() < 4 ==> r == Err::<PacketRepr, Error>(Error::Truncated),
            buffer@.len() >= 4 ==> (match Header::spec_parse(
                wire::spec_read_u16(buffer@, 0),
                wire::spec_read_u16(buffer@, 2),
            ) {
                Ok(h) => r matches Ok(x) && x.header == h && x.data@ == buffer@.subrange(
                    4,
                    buffer@.len() as int,
                ),
                Err(e) => r == Err::<PacketRepr, Error>(e),
            }),
            r matches Ok(x) ==> x.spec_wf() && x.spec_wire().len() <= buffer@.len(),
    {
        let blen = buffer.len();
        if blen < 4 {
            return Err(Error::Truncated);
        }
        let packet = Packet::new(buffer);
        let header = match Header::parse(packet.kind(), packet.code()) {
            Ok(h) => h,
            Err(e) => {
                return Err(e);
            },
        };
        let data = vstd::slice::slice_to_vec(packet.payload());
        Ok(PacketRepr { header, data })
    }

    /// The length of the message this representation emits.
    pub fn buffer_len(&self) -> (r: usize)
        requires
            self.spec_wf(),
        ensures
            r == self.spec_wire().len(),
    {
        self.data.len() + 4
    }

    /// Emit this message at the start of `buffer`.
    pub fn emit(&self, buffer: &mut [u8]) -> (r: Result<(), Error>)
        requires
            self.spec_wf(),
        ensures
            final(buffer)@.len() == old(buffer)@.len(),
            self.spec_wire().len() <= old(buffer)@.len() ==> (r matches Ok(()))
                && final(buffer)@ == wire::splice(old(buffer)@, 0, self.spec_wire()),
            self.spec_wire().len() > old(buffer)@.len() ==> (r matches Err(e)
                && e == Error::Exhausted) && final(buffer)@ == old(buffer)@,
    {
        self.emit_at(buffer, 0)
    }

    /// Emit this message into `buffer` at `offset`.
    pub fn emit_at(&self, buffer: &mut [u8], offset: usize) -> (r: Result<(), Error>)
        requires
            self.spec_wf(),
        ensures
            final(buffer)@.len() == old(buffer)@.len(),
            offset + self.spec_wire().len() <= old(buffer)@.len() ==> (r matches Ok(()))
                && final(buffer)@ == wire::splice(old(buffer)@, offset as int, self.spec_wire()),
            offset + self.spec_wire().len() > old(buffer)@.len() ==> (r matches Err(e)
                && e == Error::Exhausted) && final(buffer)@ == old(buffer)@,
    {
        let n = self.buffer_len();
        if !wire::fits(buffer.len(), offset, n) {
            return Err(Error::Exhausted);
        }
        let (kind, code) = self.header.to_wire();
        wire::write_u16_at(buffer, offset, kind);
        wire::write_u16_at(buffer, offset + 2, code);
        wire::write_bytes_at(buffer, offset + 4, self.data.as_slice());
        proof {
            let o = old(buffer)@;
            let voff = offset as int;
            let w0 = wire::spec_u16_be(self.header.spec_kind_u16());
            let w1 = wire::spec_u16_be(self.header.spec_code_u16());
            wire::lemma_splice_adjacent(o, voff, w0, w1);
            wire::lemma_splice_adjacent(o, voff, w0 + w1, self.data@);
        }
        Ok(())
    }
}

impl Repr for PacketRepr {
    open spec fn wf(&self) -> bool {
        self.spec_wf()
    }

    open spec fn wire(&self) -> Seq<u8> {
        self.spec_wire()
    }

    fn parse(buffer: &[u8]) -> (r: Result<Self, Error>) {
        PacketRepr::parse(buffer)
    }

    fn buffer_len(&self) -> (r: usize) {
        PacketRepr::buffer_len(self)
    }

    fn emit(&self, buffer: &mut [u8]) -> (r: Result<(), Error>) {
        PacketRepr::emit(self, buffer)
    }

    fn emit_at(&self, buffer: &mut [u8], offset: usize) -> (r: Result<(), Error>) {
        PacketRepr::emit_at(self, buffer, offset)
    }
}

} // verus!
