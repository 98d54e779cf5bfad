//! The animation container itself.
//!
//! A container aggregates the playback metadata with the in-memory list of
//! decoded frames and the directory it was taken from. Frames live as
//! image files inside that directory; the metadata lives in the single
//! sidecar file beside them. Ingestion folds a directory scan into the
//! frame list, skipping whatever cannot be read or decoded; persisting and
//! reloading move the metadata record — never frame data — through the
//! sidecar codec.

use vstd::prelude::*;

use crate::codec::{
    decode_record, encode_record, lemma_sidecar_round_trip, spec_decode_record, spec_encode_record,
};
use crate::imaging::{decode_image, image_result_of};
use crate::model::{
    AnimatedFrameRate, AnimatedLoopingTechnique, AnimatedPlayDirection, SidecarRecord,
};
use crate::result::{ContainerErrorKind, ContainerResult};

verus! {

/// The reserved name of the sidecar file inside an animation directory.
pub fn sidecar_file_name() -> (r: &'static str)
    ensures
        r@ == ".animation"@,
{
    ".animation"
}

/// One directory entry as the ingestion scan sees it: either the bytes of
/// a file, or an entry that could not be accessed at all.
pub enum ScanEntry {
    /// The raw contents of one file in the directory.
    File(Vec<u8>),
    /// An entry that could not be read (stat or permission failure); it is
    /// skipped, never fatal.
    Inaccessible,
}

/// What a probe of a supposed animation directory found, in the order the
/// reload looks: a plain file where a directory was expected; a directory
/// whose sidecar could not be opened, with the failure's description; or
/// the sidecar's bytes.
pub enum DirectoryProbe {
    IsFile,
    SidecarUnreadable(String),
    SidecarBytes(Vec<u8>),
}

/// The frame a scan entry contributes: the raster its bytes decode to,
/// nothing for inaccessible entries and undecodable files.
pub open spec fn spec_entry_frame(e: ScanEntry) -> Option<image::DynamicImage> {
    match e {
        ScanEntry::File(b) => image_result_of(b@),
        ScanEntry::Inaccessible => None,
    }
}

/// The frames an ingestion scan collects: the decoded rasters of exactly
/// the decodable entries, in scan order.
pub open spec fn spec_ingested_frames(entries: Seq<ScanEntry>) -> Seq<image::DynamicImage>
    decreases entries.len(),
{
    if entries.len() == 0 {
        Seq::empty()
    } else {
        let rest = spec_ingested_frames(entries.drop_last());
        match spec_entry_frame(entries.last()) {
            Some(img) => rest.push(img),
            None => rest,
        }
    }
}

/// How many entries an ingestion scan skips.
pub open spec fn spec_skip_count(entries: Seq<ScanEntry>) -> int
    decreases entries.len(),
{
    if entries.len() == 0 {
        0
    } else {
        spec_skip_count(entries.drop_last()) + if spec_entry_frame(entries.last()) is Some {
            0int
        } else {
            1int
        }
    }
}

/// How many entries of a scan are decodable image files.
pub open spec fn spec_decodable_count(entries: Seq<ScanEntry>) -> int
    decreases entries.len(),
{
    if entries.len() == 0 {
        0
    } else {
        spec_decodable_count(entries.drop_last()) + if spec_entry_frame(entries.last()) is Some {
            1int
        } else {
            0int
        }
    }
}

/// A single animation container: the playback metadata, the frames read
/// into memory, and the directory they came from.
///
/// The sidecar record persists exactly the three metadata fields. The
/// frame list is never serialized: it is filled only by ingestion, and a
/// freshly reloaded container always has an empty one.
pub struct AnimationContainer {
    /// How many frames are shown per second, and how dynamic the rate is.
    pub fps: AnimatedFrameRate,
    /// Which direction this animation plays in.
    pub direction: AnimatedPlayDirection,
    /// How this animation loops, if at all.
    pub looping: AnimatedLoopingTechnique,
    /// The frames of this animation, in scan order. These are decoded
    /// copies in memory; the files themselves are left as they are.
    pub frames: Vec<image::DynamicImage>,
    /// The directory the frames were taken from.
    pub working_directory: String,
}

impl AnimationContainer {
    /// The three-field record the sidecar persists for this container:
    /// metadata only, never frame data.
    pub open spec fn spec_record(self) -> SidecarRecord {
        SidecarRecord { fps: self.fps, direction: self.direction, looping: self.looping }
    }

    /// The directory this container is bound to.
    pub open spec fn spec_working_directory(self) -> Seq<char> {
        self.working_directory@
    }

    /// The directory this container is bound to.
    pub fn working_directory(&self) -> (r: &String)
        ensures
            r@ == self.spec_working_directory(),
    {
        &self.working_directory
    }

    /// This container's metadata record, as the sidecar would persist it.
    pub fn record(&self) -> (r: SidecarRecord)
        ensures
            r == self.spec_record(),
    {
        SidecarRecord { fps: self.fps, direction: self.direction, looping: self.looping }
    }

    /// Creates a brand-new container from one scan of a directory.
    ///
    /// Every decodable entry becomes a frame, in scan order; entries that
    /// cannot be accessed or decoded are counted as skipped, never fatal.
    /// The metadata starts at its defaults: one frame per second, playing
    /// forward, looping forever.
    pub fn new(working_directory: String, entries: Vec<ScanEntry>) -> (r: (
        AnimationContainer,
        usize,
    ))
        ensures
            r.0.spec_record() == SidecarRecord::spec_initial(),
            r.0.frames@ == spec_ingested_frames(entries@),
            r.1 as int == spec_skip_count(entries@),
            r.0.spec_working_directory() == working_directory@,
    {
        let mut frames: Vec<image::DynamicImage> = Vec::new();
        let mut skipped: usize = 0;
        let mut i: usize = 0;
        while i < entries.len()
            invariant
                i <= entries@.len(),
                skipped <= i,
                frames@ == spec_ingested_frames(entries@.take(i as int)),
                skipped as int == spec_skip_count(entries@.take(i as int)),
            decreases entries@.len() - i,
        {
            proof {
                assert(entries@.take(i as int + 1).drop_last() =~= entries@.take(i as int));
                assert(entries@.take(i as int + 1).last() == entries@[i as int]);
            }
            match &entries[i] {
                ScanEntry::File(bytes) => {
                    match decode_image(bytes) {
                        Some(img) => frames.push(img),
                        None => skipped = skipped + 1,
                    }
                },
                ScanEntry::Inaccessible => skipped = skipped + 1,
            }
            i = i + 1;
        }
        proof {
            assert(entries@.take(entries@.len() as int) =~= entries@);
        }
        let record = SidecarRecord::initial();
        let container = AnimationContainer {
            fps: record.fps,
            direction: record.direction,
            looping: record.looping,
            frames,
            working_directory,
        };
        (container, skipped)
    }

    /// The exact bytes a destructive write puts in the sidecar file: the
    /// encoding of this container's metadata record, and nothing of the
    /// frame list.
    pub fn sidecar_bytes(&self) -> (r: Vec<u8>)
        ensures
            r@ == spec_encode_record(self.spec_record()),
    {
        let record = self.record();
        encode_record(&record)
    }

    /// Builds a container back from what a probe of an existing animation
    /// directory found.
    ///
    /// A plain file is no animation directory; an unreadable sidecar is an
    /// I/O failure; sidecar bytes that decode to no record are malformed
    /// metadata. On success the metadata is restored exactly and the frame
    /// list is empty — frames are only ever filled in by ingestion.
    pub fn from_directory(working_directory: String, probe: DirectoryProbe) -> (r: ContainerResult<
        AnimationContainer,
    >)
        ensures
            match probe {
                DirectoryProbe::IsFile => r matches ContainerResult::Failure(
                    ContainerErrorKind::NotAnAnimationDirectory,
                ),
                DirectoryProbe::SidecarUnreadable(why) => r matches ContainerResult::Failure(
                    ContainerErrorKind::IoError(w),
                ) && w@ == why@,
                DirectoryProbe::SidecarBytes(bytes) => match spec_decode_record(bytes@) {
                    Some(m) => r matches ContainerResult::Success(c) && c.spec_record() == m
                        && c.frames@.len() == 0 && c.spec_working_directory()
                        == working_directory@,
                    None => r matches ContainerResult::Failure(
                        ContainerErrorKind::MetadataMalformed,
                    ),
                },
            },
    {
        match probe {
            DirectoryProbe::IsFile => ContainerResult::Failure(
                ContainerErrorKind::NotAnAnimationDirectory,
            ),
            DirectoryProbe::SidecarUnreadable(why) => ContainerResult::Failure(
                ContainerErrorKind::IoError(why),
            ),
            DirectoryProbe::SidecarBytes(bytes) => match decode_record(&bytes) {
                Some(record) => ContainerResult::Success(
                    AnimationContainer {
                        fps: record.fps,
                        direction: record.direction,
                        looping: record.looping,
                        frames: Vec::new(),
                        working_directory,
                    },
                ),
                None => ContainerResult::Failure(ContainerErrorKind::MetadataMalformed),
            },
        }
    }
}

/// For a scan of nothing but decodable image files, ingestion keeps every
/// entry: one frame per entry, each the decoded raster of its entry, in
/// scan order, and nothing is skipped.
pub proof fn lemma_ingest_all_decodable(entries: Seq<ScanEntry>)
    requires
        forall|i: int| 0 <= i < entries.len() ==> (#[trigger] spec_entry_frame(entries[i]))
            is Some,
    ensures
        spec_ingested_frames(entries).len() == entries.len(),
        spec_skip_count(entries) == 0,
        forall|i: int| 0 <= i < entries.len() ==> #[trigger] spec_ingested_frames(entries)[i]
            == spec_entry_frame(entries[i])->0,
    decreases entries.len(),
{
    if entries.len() > 0 {
        let rest = entries.drop_last();
        assert forall|i: int| 0 <= i < rest.len() implies (#[trigger] spec_entry_frame(
            rest[i],
        )) is Some by {
            assert(rest[i] == entries[i]);
        }
        lemma_ingest_all_decodable(rest);
        assert(spec_entry_frame(entries[entries.len() - 1]) is Some);
        assert forall|i: int| 0 <= i < entries.len() implies #[trigger] spec_ingested_frames(
            entries,
        )[i] == spec_entry_frame(entries[i])->0 by {
            if i < entries.len() - 1 {
                assert(rest[i] == entries[i]);
            }
        }
    }
}

/// A scan that mixes decodable and non-decodable entries still ingests:
/// exactly the decodable entries become frames, and every other entry is
/// skipped — a skip is observable in the count, never as an error.
pub proof fn lemma_ingest_partition(entries: Seq<ScanEntry>)
    ensures
        spec_ingested_frames(entries).len() == spec_decodable_count(entries),
        spec_decodable_count(entries) + spec_skip_count(entries) == entries.len(),
    decreases entries.len(),
{
    if entries.len() > 0 {
        lemma_ingest_partition(entries.drop_last());
    }
}

/// Persist-then-reload: the sidecar bytes written for a container decode
/// back to exactly its metadata record, no matter how many frames the
/// container holds, since the record never contains frame data.
pub proof fn lemma_persist_then_reload(c: AnimationContainer)
    ensures
        spec_decode_record(spec_encode_record(c.spec_record())) == Some(c.spec_record()),
{
    lemma_sidecar_round_trip(c.spec_record());
}

} // verus!

