//! A directory-based container format for frame-sequence animations.
//!
//! An animation lives in one directory: a set of independently readable
//! image files (the frames) plus a single sidecar file holding the playback
//! metadata (frame rate, play direction, looping technique). This crate
//! holds the container's data model, the binary codec for the sidecar
//! record, and the ingestion pass that folds a directory listing into an
//! in-memory frame list.

pub mod codec;
pub mod container;
pub mod imaging;
pub mod model;
pub mod result;

pub use container::AnimationContainer;
pub use container::DirectoryProbe;
pub use container::ScanEntry;
pub use container::sidecar_file_name;
pub use model::AnimatedFrameRate;
pub use model::AnimatedLoopingTechnique;
pub use model::AnimatedPlayDirection;
pub use model::SidecarRecord;
