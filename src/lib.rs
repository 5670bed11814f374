//! A uniform clipboard capability over several display-server backends,
//! with the per-backend decisions (display binding, normalisation of
//! benign absence, containment of aborted publishes, rank and poll hints)
//! verified, and the composition of backends proved transparent.

pub mod error;
pub mod clipboard;
pub mod hybrid;
pub mod text;
pub mod wlr;
pub mod command;
pub mod generic;
pub mod x11;
pub mod ranking;
pub mod registry;
