use motionpixel::codec::{decode_record, encode_record};
use motionpixel::{
    AnimatedFrameRate, AnimatedLoopingTechnique, AnimatedPlayDirection, SidecarRecord,
};

fn record(
    fps: i32,
    direction: AnimatedPlayDirection,
    looping: AnimatedLoopingTechnique,
) -> SidecarRecord {
    SidecarRecord { fps: AnimatedFrameRate::LinearFramePerSecond(fps), direction, looping }
}

fn assert_round_trips(m: SidecarRecord) {
    let bytes = encode_record(&m);
    assert_eq!(decode_record(&bytes), Some(m));
}

#[test]
fn round_trip_every_looping_variant() {
    for looping in [
        AnimatedLoopingTechnique::InfiniteLinear,
        AnimatedLoopingTechnique::InfiniteBouncing,
        AnimatedLoopingTechnique::Keyframed { start: 10, end: 40 },
        AnimatedLoopingTechnique::KeyframedBouncing { start: -3, end: 77 },
        AnimatedLoopingTechnique::NoLoop,
    ] {
        assert_round_trips(record(24, AnimatedPlayDirection::Forward, looping));
        assert_round_trips(record(24, AnimatedPlayDirection::Backward, looping));
    }
}

#[test]
fn round_trip_boundary_integers() {
    for v in [0, -1, 1, i32::MIN, i32::MAX] {
        assert_round_trips(record(
            v,
            AnimatedPlayDirection::Forward,
            AnimatedLoopingTechnique::Keyframed { start: v, end: v },
        ));
        assert_round_trips(record(
            v,
            AnimatedPlayDirection::Backward,
            AnimatedLoopingTechnique::NoLoop,
        ));
    }
}

#[test]
fn encoding_is_the_documented_layout() {
    let bytes = encode_record(&record(
        1,
        AnimatedPlayDirection::Forward,
        AnimatedLoopingTechnique::Keyframed { start: 10, end: 40 },
    ));
    assert_eq!(bytes, vec![0, 1, 0, 0, 0, 0, 2, 10, 0, 0, 0, 40, 0, 0, 0]);

    let bytes = encode_record(&record(
        -1,
        AnimatedPlayDirection::Backward,
        AnimatedLoopingTechnique::NoLoop,
    ));
    assert_eq!(bytes, vec![0, 255, 255, 255, 255, 1, 4]);

    let bytes = encode_record(&record(
        2,
        AnimatedPlayDirection::Forward,
        AnimatedLoopingTechnique::InfiniteLinear,
    ));
    assert_eq!(bytes, vec![0, 2, 0, 0, 0, 0, 0]);
}

#[test]
fn truncated_bytes_do_not_decode() {
    let bytes = encode_record(&record(
        1,
        AnimatedPlayDirection::Forward,
        AnimatedLoopingTechnique::Keyframed { start: 10, end: 40 },
    ));
    for cut in 0..bytes.len() {
        let truncated: Vec<u8> = bytes[..cut].to_vec();
        assert_eq!(decode_record(&truncated), None);
    }
}

#[test]
fn garbage_bytes_do_not_decode() {
    // a wrong frame-rate tag
    assert_eq!(decode_record(&vec![9, 1, 0, 0, 0, 0, 0]), None);
    // a wrong direction byte
    assert_eq!(decode_record(&vec![0, 1, 0, 0, 0, 7, 0]), None);
    // a wrong looping tag
    assert_eq!(decode_record(&vec![0, 1, 0, 0, 0, 0, 9]), None);
    // trailing bytes after a well-formed record
    assert_eq!(decode_record(&vec![0, 1, 0, 0, 0, 0, 0, 0]), None);
    // keyframed tag without its payload
    assert_eq!(decode_record(&vec![0, 1, 0, 0, 0, 0, 2]), None);
}
