//! RTI Connector for Rust: a simplified interface to DDS domains, over the
//! native RTI Connector C library.
//!
//! A [`Connector`] is created from a participant of an XML configuration. It
//! hands out exclusively owned [`Input`]s, to read samples, and [`Output`]s,
//! to write them. The native library is reached through the traits of the
//! [`native`] module, which an application implements over the C library;
//! the open relations of those traits between calls and answers let every
//! contract of this crate state which native call is made, with which
//! arguments, and what comes of each answer.

pub mod connector;
pub mod ffi;
pub mod input;
pub mod native;
pub mod output;
pub mod result;
pub mod text;

pub use connector::{Connector, SelectedValue};
pub use ffi::GlobalsDropGuard;
pub use input::{Input, Sample, SampleIterator, ValidSampleIterator};
pub use output::{Instance, Output, WriteParams, WriteParamsAction, WriteParamsIdentity};
pub use result::{ConnectorError, ConnectorFallible, ConnectorResult, ErrorKind, InvalidErrorKind};
