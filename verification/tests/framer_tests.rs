use esp_turret::framer::MessageFramer;

#[test]
fn one_push_with_two_frames_yields_both_in_order() {
    let mut framer = MessageFramer::new();
    framer.push(&vec![0xFF, 0x47, 0x02, 0x10, 0x20, 0x03, 0xAA, 0x02, 0x30, 0x03]);

    let first = framer.try_extract().expect("first frame");
    assert_eq!(first.frame, vec![0x02, 0x10, 0x20, 0x03]);

    let second = framer.try_extract().expect("second frame");
    assert_eq!(second.frame, vec![0x02, 0x30, 0x03]);

    assert!(framer.try_extract().is_none());
    assert!(framer.buffer.is_empty());
}

#[test]
fn frames_split_across_pushes_are_reassembled() {
    let mut framer = MessageFramer::new();
    framer.push(&vec![0x02, 0x10]);
    assert!(framer.try_extract().is_none());

    framer.push(&vec![0x20, 0x03, 0x02]);
    let first = framer.try_extract().expect("first frame");
    assert_eq!(first.frame, vec![0x02, 0x10, 0x20, 0x03]);
    // the dangling start delimiter stays buffered
    assert!(framer.try_extract().is_none());
    assert_eq!(framer.buffer, vec![0x02]);

    framer.push(&vec![0x30, 0x03]);
    let second = framer.try_extract().expect("second frame");
    assert_eq!(second.frame, vec![0x02, 0x30, 0x03]);
    assert!(framer.buffer.is_empty());
}

#[test]
fn a_lone_start_delimiter_is_retained_not_dropped() {
    let mut framer = MessageFramer::new();
    framer.push(&vec![0x55, 0x02]);
    assert!(framer.try_extract().is_none());
    assert_eq!(framer.buffer, vec![0x55, 0x02]);
}

#[test]
fn bytes_without_any_start_delimiter_stay_buffered() {
    let mut framer = MessageFramer::new();
    framer.push(&vec![0x10, 0x20, 0x03]);
    assert!(framer.try_extract().is_none());
    assert_eq!(framer.buffer, vec![0x10, 0x20, 0x03]);
}

#[test]
fn an_empty_frame_is_just_the_delimiters() {
    let mut framer = MessageFramer::new();
    framer.push(&vec![0x02, 0x03]);
    let frame = framer.try_extract().expect("frame");
    assert_eq!(frame.frame, vec![0x02, 0x03]);
    assert_eq!(frame.payload(), Vec::<u8>::new());
}

#[test]
fn payload_strips_the_delimiters() {
    let mut framer = MessageFramer::new();
    framer.push(&vec![0x02, 0x10, 0x20, 0x30, 0x03]);
    let frame = framer.try_extract().expect("frame");
    assert_eq!(frame.payload(), vec![0x10, 0x20, 0x30]);
}

#[test]
fn garbage_before_a_frame_is_drained_with_it() {
    let mut framer = MessageFramer::new();
    framer.push(&vec![0x99, 0x98, 0x02, 0x11, 0x03, 0x42]);
    let frame = framer.try_extract().expect("frame");
    assert_eq!(frame.frame, vec![0x02, 0x11, 0x03]);
    assert_eq!(framer.buffer, vec![0x42]);
}
