//! A local printing helper's core: choosing the platform adapter, planning
//! each printer operation as one external command with its values passed as
//! discrete arguments, normalising what the command prints, the print-then-
//! delete flow, and the single-peer connection registry with the decisions of
//! the relay's read loop.
pub mod apikit;
pub mod apm;
pub mod dispatch;
pub mod error;
pub mod number;
pub mod outcome;
pub mod parse;
pub mod platform;
pub mod registry;
pub mod relay;
pub mod text;
