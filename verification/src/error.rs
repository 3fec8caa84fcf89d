//! What can go wrong while a model is loaded.

use vstd::prelude::*;

verus! {

/// `tobj::LoadError`, the parser's own error: which step of reading the mesh
/// or material file failed. Nothing is claimed of it; a value is only
/// carried through, unread, to whoever asked for the model.
#[verifier::external_type_specification]
#[verifier::external_body]
pub struct ExLoadError(tobj::LoadError);

/// Why a model could not be loaded.
#[derive(Debug)]
pub enum OrengineError {
    /// The parsed data does not describe drawable geometry; the text says why.
    Generic(String),
    /// The mesh file or its material file could not be read or parsed.
    Tobj(tobj::LoadError),
    /// A mesh refers to a material that the model does not have.
    MismatchedMaterials,
}

/// Why the surface gave no frame to draw on.
#[derive(Clone, Copy, Debug, PartialEq, Eq, Structural)]
pub enum SurfaceError {
    /// The frame did not come in time.
    Timeout,
    /// The surface changed and has to be configured anew.
    Outdated,
    /// The surface is lost.
    Lost,
    /// No memory is left.
    OutOfMemory,
}

/// What to do about a frame that could not be drawn.
#[derive(Clone, Copy, Debug, PartialEq, Eq, Structural)]
pub enum FrameRecovery {
    /// Configure the surface anew, at its present size, and go on.
    Reconfigure,
    /// Give up: leave the event loop.
    Exit,
    /// Report the error, skip this frame and try the next.
    Skip,
}

impl SurfaceError {
    /// What to do about the error: a lost surface is configured anew, a lack
    /// of memory ends the program, and anything else costs one frame.
    pub open spec fn recovery_spec(self) -> FrameRecovery {
        match self {
            SurfaceError::Lost => FrameRecovery::Reconfigure,
            SurfaceError::OutOfMemory => FrameRecovery::Exit,
            SurfaceError::Timeout | SurfaceError::Outdated => FrameRecovery::Skip,
        }
    }

    /// What to do about the error.
    #[verifier::when_used_as_spec(recovery_spec)]
    pub fn recovery(self) -> (recovery: FrameRecovery)
        ensures
            recovery == self.recovery_spec(),
    {
        match self {
            SurfaceError::Lost => FrameRecovery::Reconfigure,
            SurfaceError::OutOfMemory => FrameRecovery::Exit,
            SurfaceError::Timeout | SurfaceError::Outdated => FrameRecovery::Skip,
        }
    }
}

} // verus!
