//! Full-screen post-processing for a real-time renderer.
//!
//! The library decides which graphics calls are made, in which order, and what
//! each answer of the driver means. It never talks to the driver itself: every
//! operation is either a list of [`call::Request`]s or a session that hands
//! out one request at a time and is advanced with the driver's
//! [`call::Reply`]. Whoever owns the graphics context performs the requests.
//!
//! - [`call`]: requests, replies, and the books of live driver objects.
//! - [`error`]: the failures, their diagnostics, and the guard behind every call.
//! - [`session`], [`playback`]: work in steps, and the laws of a whole run.
//! - [`shader`], [`target`], [`pair`]: programs, render targets, and the two
//!   targets of a pipeline.
//! - [`effect`], [`grayscales`]: what an effect is, and the grayscale effect.
//! - [`pipeline`]: the runner that chains effects from the scene to the screen.

pub mod call;
pub mod error;
pub mod session;
pub mod playback;
pub mod shader;
pub mod target;
pub mod pair;
pub mod effect;
pub mod grayscales;
pub mod pipeline;

