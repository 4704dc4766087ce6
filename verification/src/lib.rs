//! The verified core of a single-picture viewer: a directory navigator
//! with a wrapping selection cursor, the back-pressured single-flight
//! protocol of the background decoder, the lazy load sequence from
//! dimension probe to looping frames, and the interaction machine that
//! owns the window geometry and the fixed-point zoom transform.  The I/O
//! shell around this library reads directories, decodes files and talks
//! to the window system; everything it acts on is computed here, under
//! contract.

pub mod app;
pub mod decoder;
pub mod geometry;
pub mod interaction;
pub mod loader;
pub mod navigator;
pub mod paths;
pub mod picture;
pub mod reader;
pub mod render;
pub mod utility;
pub mod vector;
