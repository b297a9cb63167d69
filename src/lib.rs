//! Decision logic for a windowed application that presents to a GPU surface
//! and wakes its UI thread through a one-byte signal pipe.
//!
//! The platform glue performs the effects (windows, surfaces, pipe I/O); this
//! crate decides, for each event, what happens next.
pub mod surface;
pub mod wake;
pub mod driver;
