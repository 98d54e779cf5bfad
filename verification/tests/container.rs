use image::GenericImageView;
use motionpixel::result::{ContainerErrorKind, ContainerResult};
use motionpixel::{
    AnimatedFrameRate, AnimatedLoopingTechnique, AnimatedPlayDirection, AnimationContainer,
    DirectoryProbe, ScanEntry, sidecar_file_name,
};

/// The bytes of a real PNG of the given dimensions, written by the image
/// crate itself.
fn png_bytes(width: u32, height: u32) -> Vec<u8> {
    let img = image::DynamicImage::new_rgb8(width, height);
    let mut buf = std::io::Cursor::new(Vec::new());
    img.write_to(&mut buf, image::ImageOutputFormat::Png).unwrap();
    buf.into_inner()
}

#[test]
fn test_sanity_check() {}

#[test]
fn ingestion_keeps_every_decodable_entry_in_scan_order() {
    let entries = vec![
        ScanEntry::File(png_bytes(1, 1)),
        ScanEntry::File(png_bytes(2, 1)),
        ScanEntry::File(png_bytes(3, 1)),
    ];
    let (container, skipped) = AnimationContainer::new(String::from("anim"), entries);
    assert_eq!(container.frames.len(), 3);
    assert_eq!(skipped, 0);
    for (index, frame) in container.frames.iter().enumerate() {
        assert_eq!(frame.width(), index as u32 + 1);
    }
}

#[test]
fn ingestion_starts_from_the_default_metadata() {
    let (container, _) =
        AnimationContainer::new(String::from("anim"), vec![ScanEntry::File(png_bytes(1, 1))]);
    assert_eq!(container.fps, AnimatedFrameRate::LinearFramePerSecond(1));
    assert_eq!(container.direction, AnimatedPlayDirection::Forward);
    assert_eq!(container.looping, AnimatedLoopingTechnique::InfiniteLinear);
    assert_eq!(container.working_directory, "anim");
    assert_eq!(container.working_directory(), "anim");
}

#[test]
fn ingestion_skips_what_cannot_be_read_or_decoded() {
    let entries = vec![
        ScanEntry::File(vec![1, 2, 3]),
        ScanEntry::File(png_bytes(5, 4)),
        ScanEntry::Inaccessible,
    ];
    let (container, skipped) = AnimationContainer::new(String::from("anim"), entries);
    assert_eq!(container.frames.len(), 1);
    assert_eq!(container.frames[0].dimensions(), (5, 4));
    assert_eq!(skipped, 2);
}

#[test]
fn ingestion_of_three_pngs_and_a_zero_byte_file() {
    let entries = vec![
        ScanEntry::File(png_bytes(1, 1)),
        ScanEntry::File(png_bytes(1, 1)),
        ScanEntry::File(png_bytes(1, 1)),
        ScanEntry::File(Vec::new()),
    ];
    let (container, skipped) = AnimationContainer::new(String::from("anim"), entries);
    assert_eq!(container.frames.len(), 3);
    assert_eq!(skipped, 1);
}

#[test]
fn ingestion_of_an_empty_directory() {
    let (container, skipped) = AnimationContainer::new(String::from("anim"), Vec::new());
    assert_eq!(container.frames.len(), 0);
    assert_eq!(skipped, 0);
}

#[test]
fn reload_of_a_plain_file_is_not_an_animation_directory() {
    match AnimationContainer::from_directory(String::from("anim"), DirectoryProbe::IsFile) {
        ContainerResult::Failure(kind) => {
            assert_eq!(kind, ContainerErrorKind::NotAnAnimationDirectory)
        }
        ContainerResult::Success(_) => panic!("a plain file must not reload"),
    }
}

#[test]
fn reload_of_an_unreadable_sidecar_is_an_io_error() {
    let probe = DirectoryProbe::SidecarUnreadable(String::from("no such file"));
    match AnimationContainer::from_directory(String::from("anim"), probe) {
        ContainerResult::Failure(kind) => {
            assert_eq!(kind, ContainerErrorKind::IoError(String::from("no such file")))
        }
        ContainerResult::Success(_) => panic!("an unreadable sidecar must not reload"),
    }
}

#[test]
fn reload_of_garbage_sidecar_bytes_is_malformed_metadata() {
    for bytes in [Vec::new(), vec![0, 1, 0], vec![9, 9, 9, 9, 9, 9, 9], vec![0, 1, 0, 0, 0, 0, 0, 0]]
    {
        let probe = DirectoryProbe::SidecarBytes(bytes);
        match AnimationContainer::from_directory(String::from("anim"), probe) {
            ContainerResult::Failure(kind) => {
                assert_eq!(kind, ContainerErrorKind::MetadataMalformed)
            }
            ContainerResult::Success(_) => panic!("garbage bytes must not reload"),
        }
    }
}

#[test]
fn persist_then_reload_restores_the_metadata_exactly() {
    let (mut container, _) = AnimationContainer::new(
        String::from("anim"),
        vec![ScanEntry::File(png_bytes(1, 1)), ScanEntry::File(png_bytes(1, 1))],
    );
    container.fps = AnimatedFrameRate::LinearFramePerSecond(-60);
    container.direction = AnimatedPlayDirection::Backward;
    container.looping = AnimatedLoopingTechnique::KeyframedBouncing { start: 0, end: i32::MAX };
    let sidecar = container.sidecar_bytes();

    match AnimationContainer::from_directory(
        String::from("anim"),
        DirectoryProbe::SidecarBytes(sidecar),
    ) {
        ContainerResult::Success(reloaded) => {
            assert_eq!(reloaded.fps, container.fps);
            assert_eq!(reloaded.direction, container.direction);
            assert_eq!(reloaded.looping, container.looping);
            assert_eq!(reloaded.frames.len(), 0);
            assert_eq!(reloaded.working_directory, "anim");
        }
        ContainerResult::Failure(_) => panic!("a persisted sidecar must reload"),
    }
}

#[test]
fn persist_then_reload_keyframed_ten_to_forty() {
    let (mut container, _) = AnimationContainer::new(String::from("anim"), Vec::new());
    container.looping = AnimatedLoopingTechnique::Keyframed { start: 10, end: 40 };
    let sidecar = container.sidecar_bytes();

    match AnimationContainer::from_directory(
        String::from("anim"),
        DirectoryProbe::SidecarBytes(sidecar),
    ) {
        ContainerResult::Success(reloaded) => {
            assert_eq!(reloaded.looping, AnimatedLoopingTechnique::Keyframed { start: 10, end: 40 });
        }
        ContainerResult::Failure(_) => panic!("a persisted sidecar must reload"),
    }
}

#[test]
fn the_sidecar_file_name_is_reserved() {
    assert_eq!(sidecar_file_name(), ".animation");
}
