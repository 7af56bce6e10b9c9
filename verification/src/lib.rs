//! Typed marshalling layer between a VC:MP server host and the logic of a
//! plugin.
//!
//! The host reports what happens through callbacks with raw arguments and
//! takes commands through a table of C functions. This crate turns the
//! callbacks' arguments into owned, typed events, turns typed calls into the
//! flat arguments that the host expects, and turns the host's result codes
//! into named errors. The host stays the source of truth: numbers and handles
//! pass through as they are, and an input that the host should not have sent
//! resolves to a documented default instead of a failure.
//!
//! - [`error`]: result codes and the errors they stand for.
//! - [`encodes`]: the bridge between the host's GBK byte strings and text.
//! - [`options`], [`states`]: selectors and states with their integer codes.
//! - [`events`]: what the host reports, and the converters from its callbacks.
//! - [`raw`]: the host's entry points and records as plain values.
//! - [`func`]: typed calls on the host's table.
//! - [`plugin_info`], [`setting`]: the host's records, read.
//! - [`utils`], [`types`], [`text`]: values, handles and text helpers.

pub mod encodes;
pub mod error;
pub mod events;
pub mod func;
pub mod options;
pub mod plugin_info;
pub mod raw;
pub mod setting;
pub mod states;
pub mod text;
pub mod types;
pub mod utils;

pub use error::{VcmpError, VcmpResult};
pub use func::VcmpFunctions;
pub use plugin_info::VcmpPluginInfo;
pub use types::{CheckpointId, MarkerId, ObjectId, PlayerId, RadioId, VehicleId, WeaponId};
