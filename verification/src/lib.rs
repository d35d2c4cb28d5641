//! Launches the desktop's sessions with the shared `jcode` server.
//!
//! [`launch`] checks what is to be sent and readies a [`worker`] for it, within the
//! bound that [`slots`] keeps with the help of [`permit`]. [`session`] and
//! [`control`] are the state machines that such a worker runs; [`launch_laws`],
//! [`session_laws`] and [`control_laws`] state what holds of all launches and runs.
//! [`request`] writes the requests, [`event`] and [`channel`] carry the reports,
//! [`handle`] the commands, and [`log`] words what is logged of a worker that failed.
//! [`effort`], [`socket`], [`platform`] and [`text`] hold the rules that these share.

pub mod channel;
pub mod control;
pub mod control_laws;
pub mod effort;
pub mod event;
pub mod handle;
pub mod launch;
pub mod launch_laws;
pub mod log;
pub mod permit;
pub mod platform;
pub mod request;
pub mod session;
pub mod session_laws;
pub mod slots;
pub mod socket;
pub mod text;
pub mod worker;
