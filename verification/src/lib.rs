//! Lifecycle of GPU shader programs for a real-time renderer: compiling GLSL
//! vertex/fragment source into linked programs, resolving named uniforms to
//! opaque handles, type-tagged uniform uploads, and a development-mode
//! supervisor that recompiles a program when its backing source files change.
//!
//! The GPU driver context is modelled by [`driver::Driver`]: an in-memory
//! driver holding the program and shader-object namespaces, the link state,
//! each linked program's uniform table and the values uploaded to it, and the
//! currently bound program. Its GLSL front end is supplied as data (a
//! [`glsl::Judge`]), so every property of the subsystem is stated and proved
//! relative to the driver's own judgment of the source text. A process that
//! talks to a real driver performs the same calls through its rendering
//! context and feeds the results to the same entity logic.

use vstd::prelude::*;

pub mod driver;
pub mod glsl;
pub mod laws;
pub mod mat4;
pub mod shader;
pub mod store;

verus! {

/// The sentinel handle for a uniform name the driver could not resolve.
/// It is a legal, non-fatal value: uploads that target it are silent no-ops
/// at the driver boundary, so callers may hold and reuse it freely.
pub const NO_UNIFORM: i32 = -1;

/// An individually compiled shader stage, prior to linking.
#[derive(Clone, Copy, PartialEq, Eq, Structural, Debug)]
pub enum Stage {
    Vertex,
    Fragment,
}

/// A type-tagged uniform value as it crosses the upload boundary.
///
/// Scalar words and matrix entries are opaque 32-bit words (the bit patterns
/// of the engine's scalar types); the driver stores them without interpreting
/// them, so an upload and a later read-back can be compared bit for bit. A
/// matrix arrives as its 16 entries flattened in driver order (see
/// [`mat4::Mat4::flat`]).
#[derive(Clone, PartialEq, Eq, Debug)]
pub enum UniformValue {
    Int(i32),
    Scalar(u32),
    Matrix(Vec<u32>),
}

/// `v` holds a matrix whose driver-order entries read `flat`.
pub open spec fn is_matrix_with(v: Option<UniformValue>, flat: Seq<u32>) -> bool {
    match v {
        Some(UniformValue::Matrix(m)) => m@ == flat,
        _ => false,
    }
}

} // verus!
