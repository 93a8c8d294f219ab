//! Capability negotiation of the remote desktop protocol.
//!
//! While a session is set up, server and client agree on the optional features
//! that both support. The server sends its capability sets in a Demand Active
//! message and the client answers with a Confirm Active message. This crate
//! encodes and decodes both messages and the capability sets in them, and
//! proves that what it writes is what it reads back.
//!
//! The module [`codec`] holds what all the codecs have in common, and the laws
//! that each of them obeys.
pub mod capability_set;
pub mod capability_type;
pub mod client_confirm_active;
pub mod codec;
pub mod color_cache;
pub mod control;
pub mod cursor;
pub mod demand_active;
pub mod error;
pub mod font;
pub mod server_demand_active;
pub mod set_list;
pub mod text;
pub mod unparsed;
pub mod wire;

pub use capability_set::{CapabilitySet, CapabilitySetView};
pub use capability_type::CapabilitySetType;
pub use client_confirm_active::{ClientConfirmActive, ClientConfirmActiveView, SERVER_CHANNEL_ID};
pub use codec::{decode, Encoded, Parsed, PduDecode, PduEncode};
pub use color_cache::ColorCache;
pub use control::{Control, ControlView};
pub use cursor::{ReadCursor, WriteCursor};
pub use demand_active::{DemandActive, DemandActiveView};
pub use error::{CapabilitySetsError, PduError, PduResult};
pub use font::{Font, FontSupportFlags, FontView};
pub use server_demand_active::{ServerDemandActive, ServerDemandActiveView};
pub use unparsed::Unparsed;
