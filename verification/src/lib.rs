//! Host-side bridge to a guest Linux environment: the logic that decides,
//! kept apart from the calls that block.
//!
//! Everything here works on plain values. The thread that owns the control
//! service, the pipes and the sockets live with the embedding program, which
//! hands this library what it observed and carries out what comes back.
//!
//! - [`bridge`], [`queue`] and [`apartment`]: the life of the one thread
//!   that may enter the control service, the order of the work it is given,
//!   and the two together.
//! - [`launch`] and [`process`]: what a launch hands to the service, who
//!   owns which handle afterwards, and how a process's end is learnt.
//! - [`interop`] and [`messages`]: the framed side channel that reports a
//!   process's end.
//! - [`handle`], [`error`] and [`known`]: handle checks, errors and their
//!   texts.
#![allow(non_snake_case)]
#![allow(non_camel_case_types)]

pub mod apartment;
pub mod bridge;
pub mod distribution;
pub mod error;
pub mod handle;
pub mod interop;
pub mod known;
pub mod launch;
pub mod messages;
pub mod process;
pub mod queue;
pub mod text;
pub mod version;

pub use crate::distribution::Distribution;
pub use crate::error::{WslError, WslErrorKind};
pub use crate::interop::Interop;
pub use crate::process::WslProcess;
pub use crate::version::Version;
