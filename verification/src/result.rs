//! Specialized types for interacting with the expected output of
//! `AnimationContainer`.

use vstd::prelude::*;

verus! {

/// The outcome of a container operation: either the value asked for, or
/// one of the container error kinds.
#[derive(Debug)]
pub enum ContainerResult<T> {
    Success(T),
    Failure(ContainerErrorKind),
}

/// The kinds of errors that can happen while working with an
/// `AnimationContainer`, and the context in which each arises.
#[derive(Debug, PartialEq, Eq)]
pub enum ContainerErrorKind {
    /// The path given as an animation container directory is a plain file,
    /// not a directory.
    NotAnAnimationDirectory,
    /// Reserved for a future consistency check: the animation directory
    /// holds new content and the in-memory container is out of date.
    FilesystemWasUpdatedWithoutSyncing,
    /// The contents of the sidecar file are not a well-formed metadata
    /// record.
    MetadataMalformed,
    /// An underlying filesystem failure, carrying its description.
    IoError(String),
    /// Reserved for a codec-level failure while encoding a record, as
    /// distinct from a schema mismatch.
    EncodeError,
    /// Reserved for a codec-level failure while decoding a record, as
    /// distinct from a schema mismatch.
    DecodeError,
}

} // verus!
