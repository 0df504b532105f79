use vpx::Frame;
use vpx::FRAME_IS_DROPPABLE;
use vpx::FRAME_IS_FRAGMENT;
use vpx::FRAME_IS_INVISIBLE;
use vpx::FRAME_IS_KEY;
use vpx::encoder::DL_BEST_QUALITY;
use vpx::encoder::DL_GOOD_QUALITY;
use vpx::encoder::DL_REALTIME;
use vpx::encoder::FrameFlags;

#[test]
fn flag_bit_constants_match_native_values() {
    assert_eq!(FRAME_IS_KEY, 0x1);
    assert_eq!(FRAME_IS_DROPPABLE, 0x2);
    assert_eq!(FRAME_IS_INVISIBLE, 0x4);
    assert_eq!(FRAME_IS_FRAGMENT, 0x8);
}

#[test]
fn deadline_constants_match_native_values() {
    assert_eq!(DL_REALTIME, 1);
    assert_eq!(DL_GOOD_QUALITY, 1000000);
    assert_eq!(DL_BEST_QUALITY, 0);
}

#[test]
fn keyframe_bit_alone_sets_only_is_keyframe() {
    let frame = Frame::new(Vec::new(), 0, 1, FRAME_IS_KEY, 0);
    assert!(frame.is_keyframe());
    assert!(!frame.is_droppable());
    assert!(!frame.is_invisible());
    assert!(!frame.is_fragment());
}

#[test]
fn all_sixteen_flag_combinations_decode_independently() {
    for word in 0u32..16 {
        let frame = Frame::new(Vec::new(), 0, 1, word, 0);
        assert_eq!(frame.is_keyframe(), word & FRAME_IS_KEY != 0);
        assert_eq!(frame.is_droppable(), word & FRAME_IS_DROPPABLE != 0);
        assert_eq!(frame.is_invisible(), word & FRAME_IS_INVISIBLE != 0);
        assert_eq!(frame.is_fragment(), word & FRAME_IS_FRAGMENT != 0);
    }
}

#[test]
fn predicates_ignore_unrelated_bits() {
    let frame = Frame::new(Vec::new(), 0, 1, 0xFFF0, 0);
    assert!(!frame.is_keyframe());
    assert!(!frame.is_droppable());
    assert!(!frame.is_invisible());
    assert!(!frame.is_fragment());
}

#[test]
fn frame_keeps_its_payload_and_metadata() {
    let frame = Frame::new(vec![9, 8, 7], 33, 2, FRAME_IS_KEY | FRAME_IS_INVISIBLE, 5);
    assert_eq!(frame.data(), &[9, 8, 7]);
    assert_eq!(frame.pts, 33);
    assert_eq!(frame.duration, 2);
    assert_eq!(frame.partition_id, 5);
    assert!(frame.is_keyframe());
    assert!(frame.is_invisible());
    assert!(!frame.is_droppable());
}

#[test]
fn frame_flags_default_to_nothing() {
    assert_eq!(FrameFlags::new().to_bits(), 0);
    assert_eq!(FrameFlags::default(), FrameFlags::new());
}

#[test]
fn frame_flags_keyframe_sets_bit_zero() {
    assert_eq!(FrameFlags::new().keyframe(true).to_bits(), 1);
    assert_eq!(FrameFlags::new().keyframe(true).keyframe(false).to_bits(), 0);
}
