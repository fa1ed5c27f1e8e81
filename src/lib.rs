//! Host automation client: command values and results, the wire codec spoken
//! with a remote agent, host dispatch, target resolution, package-provider and
//! service decisions, the POSIX tools' arguments and output, and telemetry
//! records.

pub mod codec;
pub mod command;
pub mod error;
pub mod host;
pub mod pattern;
pub mod posix;
pub mod provider;
pub mod service;
pub mod target;
pub mod telemetry;
pub mod text;

pub use command::{Command, CommandResult};
pub use error::{Error, MissingFrame, MissingFrameError};
pub use host::Host;
