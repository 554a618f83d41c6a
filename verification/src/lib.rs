//! Typed access to version information reported by optionally-present
//! native accelerator libraries (a driver, a runtime, and a
//! neural-network primitives library).
//!
//! The crate holds the decision core of that task: the totally ordered
//! [`version::Version`] value, the vendor version-encoding schemes
//! ([`decode`]), the all-or-nothing construction of a symbol binding
//! ([`binding`]), and the probe-once registry protocol ([`registry`]).
//! Opening a shared library and calling through its resolved entry
//! points is inherently unsafe and stays outside this crate; callers
//! hand the raw integers those calls produce to the functions here.

pub mod binding;
pub mod decode;
pub mod registry;
pub mod version;
