//! Grid selection and resize decisions for moving a window onto a region of
//! an on-screen grid overlay.

pub mod display;
pub mod grid;
pub mod resize;
pub mod selection;
pub mod session;
