//! Client-side log/error-reporting bridge.
//!
//! The verified core builds normalized log records from explicit fields, from
//! a severity level, or from a native host exception value, and translates a
//! transport outcome back into the host runtime's resolve/reject convention.
//! The network transport itself is an outside collaborator and stays outside
//! this crate.

pub mod adapter;
pub mod client;
pub mod record;
pub mod severity;

pub use adapter::AdapterError;
pub use client::Cattleya;
pub use client::DispatchPlan;
pub use client::Resolution;
pub use record::LogRecord;
pub use severity::ErrorsLevel;
