//! Typed, checked descriptions of OpenGL calls, and the decisions taken around them.
//!
//! The library never touches the driver itself. Each operation is split into the call it
//! makes (a [`safe_bindings::GlCall`] with every argument already converted to its GL value) and the
//! interpretation of what the driver handed back (error codes, names, integers, logs).
//! An executor that owns a current GL context performs the calls and hands back what the
//! driver answered; operations that take several calls are state machines fed one answer at
//! a time.
#![allow(non_snake_case)]

pub mod codes;
pub mod safe_bindings;
pub mod traits;
pub mod oxidised_bindings;
pub mod errors;
pub mod buffers;
pub mod shaders;
pub mod vertex_arrays;
pub mod mesh;
