use tringlib::frames::LastFramesVideoSink;

#[test]
fn the_last_frame_pushed_is_the_one_popped() {
    let mut sink: LastFramesVideoSink<Vec<u8>> = LastFramesVideoSink::new();
    sink.on_video_frame(7, vec![1]);
    sink.on_video_frame(7, vec![2]);
    assert_eq!(sink.pop(7), Some(vec![2]));
    assert_eq!(sink.pop(7), None);
}

#[test]
fn pop_of_an_unknown_identifier_reports_absence() {
    let mut sink: LastFramesVideoSink<u32> = LastFramesVideoSink::new();
    assert_eq!(sink.pop(1), None);
    sink.on_video_frame(2, 20);
    assert_eq!(sink.pop(1), None);
    assert!(sink.has_frame(2));
}

#[test]
fn identifiers_do_not_disturb_each_other() {
    let mut sink: LastFramesVideoSink<u32> = LastFramesVideoSink::new();
    sink.on_video_frame(1, 10);
    sink.on_video_frame(2, 20);
    sink.on_video_frame(1, 11);
    assert_eq!(sink.len(), 2);
    assert_eq!(sink.pop(2), Some(20));
    assert_eq!(sink.pop(1), Some(11));
    assert_eq!(sink.len(), 0);
}

#[test]
fn clear_drops_every_frame() {
    let mut sink: LastFramesVideoSink<u32> = LastFramesVideoSink::new();
    sink.on_video_frame(1, 10);
    sink.on_video_frame(2, 20);
    sink.clear();
    assert_eq!(sink.len(), 0);
    assert!(!sink.has_frame(1));
    assert_eq!(sink.pop(1), None);
    assert_eq!(sink.pop(2), None);
}

#[test]
fn a_frame_can_be_pushed_again_after_a_pop() {
    let mut sink: LastFramesVideoSink<u32> = LastFramesVideoSink::new();
    sink.on_video_frame(u32::MAX, 1);
    assert_eq!(sink.pop(u32::MAX), Some(1));
    sink.on_video_frame(u32::MAX, 2);
    assert_eq!(sink.pop(u32::MAX), Some(2));
}
