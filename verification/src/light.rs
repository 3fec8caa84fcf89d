//! The scene's point light.

use vstd::prelude::*;
use crate::scalar::Scalar;

verus! {

/// The light as the shader reads it. Each three-component field is followed
/// by one word of padding, so that it takes sixteen bytes.
#[derive(Clone, Copy, Debug)]
pub struct LightUniform {
    pub position: [Scalar; 3],
    pub _padding: u32,
    pub color: [Scalar; 3],
    pub _padding2: u32,
}

} // verus!
