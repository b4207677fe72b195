use rachaels_transcriber::transcript::{segments_to_text, ChunkedTranscription, Segment};

fn seg(start: i64, end: i64, text: &str) -> Segment {
    Segment { start, end, text: text.to_string() }
}

#[test]
fn segments_to_text_joins_with_spaces() {
    assert_eq!(segments_to_text(&[]), "");
    assert_eq!(segments_to_text(&[seg(0, 100, "hello")]), "hello");
    let segs = vec![seg(0, 100, "hello"), seg(100, 200, "big"), seg(200, 300, "world")];
    assert_eq!(segments_to_text(&segs), "hello big world");
}

#[test]
fn segments_to_text_keeps_empty_texts() {
    let segs = vec![seg(0, 1, "a"), seg(1, 2, ""), seg(2, 3, "b")];
    assert_eq!(segments_to_text(&segs), "a  b");
}

/// One-second chunks (16000 samples) sharing 0.2 s (3200 samples).
#[test]
fn windows_overlap_and_stop_at_short_tail() {
    let total = 40000;
    let mut plan = ChunkedTranscription::new(total, 100, 20);
    let mut windows = Vec::new();
    while let Some(w) = plan.next_window(false) {
        windows.push(w);
        plan.accept(Vec::new());
    }
    assert_eq!(windows, vec![(0, 16000), (12800, 28800), (25600, 40000)]);
    assert_eq!(plan.progress(), (38400, 40000));
}

#[test]
fn thirty_second_chunks_share_two_seconds() {
    let total = 16000 * 70;
    let mut plan = ChunkedTranscription::new(total, 3000, 200);
    let mut windows = Vec::new();
    while let Some(w) = plan.next_window(false) {
        windows.push(w);
        plan.accept(Vec::new());
    }
    assert_eq!(windows, vec![(0, 480000), (448000, 928000), (896000, 1120000)]);
    assert_eq!(plan.progress(), (1120000, 1120000));
}

#[test]
fn later_chunks_drop_shared_stretch() {
    let mut plan = ChunkedTranscription::new(40000, 100, 20);
    assert!(plan.next_window(false).is_some());
    plan.accept(vec![seg(0, 10, "a"), seg(10, 95, "b")]);
    assert!(plan.next_window(false).is_some());
    plan.accept(vec![seg(0, 15, "b"), seg(15, 20, "bb"), seg(20, 21, "c"), seg(21, 90, "d")]);
    let segs = plan.into_segments();
    let texts: Vec<&str> = segs.iter().map(|s| s.text.as_str()).collect();
    assert_eq!(texts, vec!["a", "b", "c", "d"]);
}

#[test]
fn cancelled_plan_gives_no_window() {
    let plan = ChunkedTranscription::new(40000, 100, 20);
    assert_eq!(plan.next_window(true), None);
    assert_eq!(plan.next_window(false), Some((0, 16000)));
}

#[test]
fn short_audio_is_not_transcribed() {
    let plan = ChunkedTranscription::new(7999, 3000, 200);
    assert_eq!(plan.next_window(false), None);
    let plan = ChunkedTranscription::new(8000, 3000, 200);
    assert_eq!(plan.next_window(false), Some((0, 8000)));
    let plan = ChunkedTranscription::new(0, 3000, 200);
    assert_eq!(plan.next_window(false), None);
    assert!(plan.into_segments().is_empty());
}

#[test]
fn zero_length_chunks_do_nothing() {
    let plan = ChunkedTranscription::new(100000, 0, 0);
    assert_eq!(plan.next_window(false), None);
}
