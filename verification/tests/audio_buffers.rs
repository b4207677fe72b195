use rachaels_transcriber::audio::{extract_chunk, CaptureBuffer};

#[test]
fn extract_chunk_inside_and_at_end() {
    let audio = [1, 2, 3, 4, 5, 6];
    assert_eq!(extract_chunk(&audio, 1, 3), vec![2, 3, 4]);
    assert_eq!(extract_chunk(&audio, 4, 10), vec![5, 6]);
    assert_eq!(extract_chunk(&audio, 6, 2), Vec::<i32>::new());
    assert_eq!(extract_chunk(&audio, 9, 2), Vec::<i32>::new());
    assert_eq!(extract_chunk(&audio, 0, 0), Vec::<i32>::new());
}

#[test]
fn samples_ignored_until_recording() {
    let mut buf: CaptureBuffer<i16> = CaptureBuffer::new(4);
    assert!(!buf.is_recording());
    buf.push_samples(&[1, 2, 3]);
    assert_eq!(buf.raw_len(), 0);
    assert_eq!(buf.get_buffer(1), None);
    buf.begin();
    assert!(buf.is_recording());
    buf.push_samples(&[1, 2, 3]);
    assert_eq!(buf.raw_len(), 3);
}

#[test]
fn ring_keeps_most_recent_samples() {
    let mut buf: CaptureBuffer<i16> = CaptureBuffer::new(4);
    buf.begin();
    buf.push_samples(&[1, 2, 3]);
    buf.push_samples(&[4, 5, 6]);
    assert_eq!(buf.raw_len(), 6);
    assert_eq!(buf.get_buffer(4), Some(vec![3, 4, 5, 6]));
    assert_eq!(buf.get_buffer(2), Some(vec![5, 6]));
    assert_eq!(buf.get_buffer(5), None);
    assert_eq!(buf.get_buffer(0), Some(vec![]));
}

#[test]
fn ring_of_capacity_zero_keeps_last_sample() {
    let mut buf: CaptureBuffer<i16> = CaptureBuffer::new(0);
    buf.begin();
    buf.push_samples(&[7, 8, 9]);
    assert_eq!(buf.get_buffer(1), Some(vec![9]));
    assert_eq!(buf.get_buffer(2), None);
}

#[test]
fn stop_returns_everything_captured() {
    let mut buf: CaptureBuffer<i16> = CaptureBuffer::new(2);
    assert_eq!(buf.stop(), None);
    buf.begin();
    buf.push_samples(&[1, 2, 3]);
    assert_eq!(buf.stop(), Some(vec![1, 2, 3]));
    assert!(!buf.is_recording());
    buf.push_samples(&[4]);
    assert_eq!(buf.raw_len(), 3);
    assert_eq!(buf.get_buffer(2), Some(vec![2, 3]));
}

#[test]
fn read_chunk_gives_captured_stretch_once_complete() {
    let mut buf: CaptureBuffer<i16> = CaptureBuffer::new(2);
    buf.begin();
    buf.push_samples(&[1, 2, 3]);
    buf.push_samples(&[4, 5]);
    assert_eq!(buf.read_chunk(0, 4), Some(vec![1, 2, 3, 4]));
    assert_eq!(buf.read_chunk(4, 1), Some(vec![5]));
    assert_eq!(buf.read_chunk(4, 2), None);
    assert_eq!(buf.read_chunk(6, 0), None);
    assert_eq!(buf.read_chunk(5, 0), Some(vec![]));
}

#[test]
fn session_keeps_every_block_and_latest_ring() {
    let mut buf: CaptureBuffer<i16> = CaptureBuffer::new(4);
    buf.push_samples(&[9, 9]);
    buf.begin();
    let blocks: [&[i16]; 3] = [&[1, 2], &[3, 4, 5], &[6]];
    for b in blocks {
        buf.push_samples(b);
    }
    assert_eq!(buf.raw_len(), 6);
    assert_eq!(buf.read_chunk(0, 6), Some(vec![1, 2, 3, 4, 5, 6]));
    assert_eq!(buf.get_buffer(4), Some(vec![3, 4, 5, 6]));
}
