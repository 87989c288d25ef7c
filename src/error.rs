use vstd::prelude::*;

verus! {

/// An error specific to sprite animations.
#[derive(Clone, Debug, PartialEq, Eq)]
pub enum AnimationError {
    /// The number of frames requested (first) is more than the sprite sheet
    /// holds along its animation axis (second).
    TooManyFrames(usize, usize),
    /// A state machine has no animation for the state described.
    NoAnimationForState(String),
}

/// A generic error type for rendering operations.
#[derive(Clone, Debug, PartialEq, Eq)]
pub enum RenderError {
    /// The texture at this path is not loaded in the texture registry.
    TextureNotLoaded(String),
    /// An error specific to a sprite animation.
    AnimationError(AnimationError),
    /// Loading the texture at this path failed, with the given message.
    CouldNotLoadTexture(String, String),
}

impl From<AnimationError> for RenderError {
    fn from(e: AnimationError) -> (r: RenderError)
        ensures
            r == RenderError::AnimationError(e),
    {
        RenderError::AnimationError(e)
    }
}

impl vstd::std_specs::convert::FromSpecImpl<AnimationError> for RenderError {
    open spec fn obeys_from_spec() -> bool {
        true
    }

    open spec fn from_spec(e: AnimationError) -> RenderError {
        RenderError::AnimationError(e)
    }
}

} // verus!
