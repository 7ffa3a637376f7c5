//! Verified core of a binding layer around an external voice-connection
//! driver. The library models the driver facade, its configuration, track
//! and source lifecycles, and the event-dispatch bridge that carries driver
//! events onto a host scheduling context; the unverifiable edges (the live
//! driver, its sockets and the host runtime) stay outside and consume the
//! decisions made here.

pub mod config;
pub mod context;
pub mod dispatch;
pub mod driver;
pub mod errors;
pub mod events;
pub mod source;
pub mod track;
pub mod track_handle;
