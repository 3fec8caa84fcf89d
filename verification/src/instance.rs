//! Instances: the placements of the model in the scene.

use vstd::prelude::*;
use crate::camera::Vec3;
use crate::scalar::Scalar;
use crate::vertex::{
    lemma_packed_four, VertexAttribute, VertexBufferLayout, VertexFormat, VertexStepMode,
};

verus! {

/// A rotation, as a unit quaternion.
#[derive(Clone, Copy, Debug)]
pub struct Quat {
    pub x: Scalar,
    pub y: Scalar,
    pub z: Scalar,
    pub w: Scalar,
}

/// One placement of the model: turned by `rotation`, then moved to `position`.
#[derive(Clone, Copy, Debug)]
pub struct Instance {
    pub position: Vec3,
    pub rotation: Quat,
}

/// An instance as the shader reads it: the 4x4 model matrix, column by column.
#[derive(Clone, Copy, Debug)]
pub struct InstanceRaw {
    pub model: [[Scalar; 4]; 4],
}

impl InstanceRaw {
    /// Layout of the buffer of instance matrices. The buffer advances once
    /// per instance. Each of the matrix's four columns is one attribute of
    /// four numbers; they feed the shader inputs 5 to 8, which leaves the
    /// inputs below to the vertex attributes.
    pub fn desc() -> (layout: VertexBufferLayout)
        ensures
            layout.array_stride == 64,
            layout.step_mode == VertexStepMode::Instance,
            layout.attributes@ == seq![
                VertexAttribute { offset: 0, shader_location: 5, format: VertexFormat::Float32x4 },
                VertexAttribute { offset: 16, shader_location: 6, format: VertexFormat::Float32x4 },
                VertexAttribute { offset: 32, shader_location: 7, format: VertexFormat::Float32x4 },
                VertexAttribute { offset: 48, shader_location: 8, format: VertexFormat::Float32x4 },
            ],
            layout.fills_stride(5),
    {
        let mut attributes: Vec<VertexAttribute> = Vec::new();
        attributes.push(
            VertexAttribute { offset: 0, shader_location: 5, format: VertexFormat::Float32x4 },
        );
        attributes.push(
            VertexAttribute { offset: 16, shader_location: 6, format: VertexFormat::Float32x4 },
        );
        attributes.push(
            VertexAttribute { offset: 32, shader_location: 7, format: VertexFormat::Float32x4 },
        );
        attributes.push(
            VertexAttribute { offset: 48, shader_location: 8, format: VertexFormat::Float32x4 },
        );
        let layout = VertexBufferLayout {
            array_stride: 64,
            step_mode: VertexStepMode::Instance,
            attributes,
        };
        proof {
            lemma_packed_four(layout.attributes@, 5);
        }
        layout
    }
}

} // verus!
