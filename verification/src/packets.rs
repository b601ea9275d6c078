//! The OpenFlow message envelope and the simple message bodies that consume
//! the OXM core through its parse / length / emit contract.

pub mod error;
pub mod features_reply;
pub mod get_config_reply;
pub mod hello;
pub mod openflow;
pub mod packet_in;
pub mod set_config;
