use termadio::player::pipeline::{FeedPlan, Phase, Pipeline, Segment, StreamEvent, INITIAL_THRESHOLD, STEADY_THRESHOLD};
use termadio::player::{AudioPlayer, Fetch, PlayerCommand};

/// Feeds chunks of the given sizes and then the end of the stream; returns the segments handed out.
fn feed(sizes: &[usize]) -> Vec<Segment> {
    let mut pipeline = Pipeline::new();
    let mut segments = Vec::new();
    let mut next: u8 = 0;
    for size in sizes {
        let mut chunk = Vec::with_capacity(*size);
        for _ in 0..*size {
            chunk.push(next);
            next = next.wrapping_add(1);
        }
        if let Some(segment) = pipeline.on_event(StreamEvent::Chunk(chunk)) {
            segments.push(segment);
        }
    }
    if let Some(segment) = pipeline.on_event(StreamEvent::End) {
        segments.push(segment);
    }
    assert!(pipeline.is_finished());
    assert_eq!(pipeline.buffered(), 0);
    segments
}

fn lengths(segments: &[Segment]) -> Vec<usize> {
    segments.iter().map(|s| s.bytes.len()).collect()
}

fn expected(total: usize) -> usize {
    if total >= 131072 {
        (total - 131072 + 65535) / 65536 + 1
    } else {
        1
    }
}

#[test]
fn thresholds_are_128_and_64_kib() {
    assert_eq!(INITIAL_THRESHOLD, 128 * 1024);
    assert_eq!(STEADY_THRESHOLD, 64 * 1024);
}

#[test]
fn a_new_pipeline_gathers_the_first_segment() {
    let pipeline = Pipeline::new();
    assert_eq!(pipeline.phase(), Phase::Initial);
    assert_eq!(pipeline.buffered(), 0);
    assert!(!pipeline.is_finished());
}

#[test]
fn a_stream_without_bytes_is_not_decoded() {
    assert!(feed(&[]).is_empty());
    assert!(feed(&[0, 0, 0]).is_empty());
}

#[test]
fn a_short_stream_is_decoded_once_at_its_end() {
    let segments = feed(&[1000, 2000, 3000]);
    assert_eq!(lengths(&segments), vec![6000]);
    assert!(segments[0].start);
    assert_eq!(segments.len(), expected(6000));
    let one_short = feed(&[131071]);
    assert_eq!(lengths(&one_short), vec![131071]);
}

#[test]
fn chunks_that_fill_the_segments_exactly_give_the_expected_attempts() {
    let sizes = vec![4096; 32 + 16 * 3];
    let segments = feed(&sizes);
    assert_eq!(lengths(&segments), vec![131072, 65536, 65536, 65536]);
    assert_eq!(segments.len(), expected(4096 * 80));
    assert_eq!(segments.len(), 4);
    let only_first = feed(&vec![65536; 2]);
    assert_eq!(lengths(&only_first), vec![131072]);
    assert_eq!(only_first.len(), expected(131072));
}

#[test]
fn only_the_first_segment_starts_the_sink() {
    let segments = feed(&vec![65536; 5]);
    let starts: Vec<bool> = segments.iter().map(|s| s.start).collect();
    assert_eq!(starts, vec![true, false, false, false]);
}

#[test]
fn what_is_left_at_the_end_of_a_long_stream_is_decoded_too() {
    let segments = feed(&[131072, 65536, 100]);
    assert_eq!(lengths(&segments), vec![131072, 65536, 100]);
    assert_eq!(segments.len(), expected(131072 + 65536 + 100));
    let starts: Vec<bool> = segments.iter().map(|s| s.start).collect();
    assert_eq!(starts, vec![true, false, false]);
}

#[test]
fn one_byte_behind_two_full_segments_is_a_third_attempt() {
    let segments = feed(&[131072, 65536, 1]);
    assert_eq!(lengths(&segments), vec![131072, 65536, 1]);
    assert_eq!(segments.len(), 3);
    assert_eq!(expected(196609), 3);
}

#[test]
fn the_end_of_a_stream_in_the_steady_phase_hands_over_what_is_gathered() {
    let mut pipeline = Pipeline::new();
    pipeline.on_event(StreamEvent::Chunk(vec![0; 131072]));
    assert_eq!(pipeline.on_event(StreamEvent::Chunk(vec![9; 5])), None);
    assert_eq!(pipeline.on_event(StreamEvent::End), Some(Segment { bytes: vec![9; 5], start: false }));
    assert!(pipeline.is_finished());
    assert_eq!(pipeline.buffered(), 0);
    assert_eq!(pipeline.on_event(StreamEvent::End), None);
}

#[test]
fn a_stream_that_ends_on_a_full_segment_hands_over_nothing_more() {
    let mut pipeline = Pipeline::new();
    pipeline.on_event(StreamEvent::Chunk(vec![0; 131072]));
    assert_eq!(pipeline.on_event(StreamEvent::End), None);
    assert!(pipeline.is_finished());
}

#[test]
fn small_chunks_give_one_attempt_for_each_begun_segment() {
    for count in [1usize, 31, 32, 33, 47, 48, 49, 80, 81] {
        let segments = feed(&vec![4096; count]);
        assert_eq!(segments.len(), expected(4096 * count));
        let total: usize = segments.iter().map(|s| s.bytes.len()).sum();
        assert_eq!(total, 4096 * count);
    }
}

#[test]
fn one_large_chunk_is_one_segment() {
    let segments = feed(&[1 << 20]);
    assert_eq!(lengths(&segments), vec![1 << 20]);
    assert!(segments.len() <= expected(1 << 20));
}

#[test]
fn a_chunk_that_passes_the_threshold_goes_out_whole() {
    let segments = feed(&[100000, 100000, 60000, 10000, 5000]);
    assert_eq!(lengths(&segments), vec![200000, 70000, 5000]);
}

#[test]
fn segments_hold_the_bytes_in_the_order_received() {
    let segments = feed(&[70000, 70000, 30000, 40000, 10]);
    assert_eq!(lengths(&segments), vec![140000, 70000, 10]);
    let mut next: u8 = 0;
    let mut seen: usize = 0;
    for segment in &segments {
        for byte in &segment.bytes {
            assert_eq!(*byte, next);
            next = next.wrapping_add(1);
            seen += 1;
        }
    }
    assert_eq!(seen, 70000 + 70000 + 30000 + 40000 + 10);
}

#[test]
fn a_failed_read_changes_nothing() {
    let mut pipeline = Pipeline::new();
    assert_eq!(pipeline.on_event(StreamEvent::Chunk(vec![7; 10])), None);
    assert_eq!(pipeline.on_event(StreamEvent::ReadFailed), None);
    assert_eq!(pipeline.buffered(), 10);
    assert_eq!(pipeline.phase(), Phase::Initial);
    assert_eq!(
        pipeline.on_event(StreamEvent::End),
        Some(Segment { bytes: vec![7; 10], start: true })
    );
}

#[test]
fn a_cancelled_pipeline_hands_out_nothing_more() {
    let mut pipeline = Pipeline::new();
    assert_eq!(pipeline.on_event(StreamEvent::Chunk(vec![1; 131071])), None);
    assert_eq!(pipeline.on_event(StreamEvent::Cancelled), None);
    assert!(pipeline.is_finished());
    assert_eq!(pipeline.buffered(), 0);
    assert_eq!(pipeline.on_event(StreamEvent::Chunk(vec![1; 200000])), None);
    assert_eq!(pipeline.on_event(StreamEvent::End), None);
    assert_eq!(pipeline.phase(), Phase::Finished);
}

#[test]
fn the_steady_phase_begins_with_the_first_segment() {
    let mut pipeline = Pipeline::new();
    let first = pipeline.on_event(StreamEvent::Chunk(vec![0; 131072]));
    assert_eq!(first.map(|s| (s.bytes.len(), s.start)), Some((131072, true)));
    assert_eq!(pipeline.phase(), Phase::Steady);
    assert_eq!(pipeline.on_event(StreamEvent::Chunk(vec![0; 65535])), None);
    assert_eq!(pipeline.buffered(), 65535);
    let second = pipeline.on_event(StreamEvent::Chunk(vec![0; 1]));
    assert_eq!(second.map(|s| (s.bytes.len(), s.start)), Some((65536, false)));
    assert_eq!(pipeline.buffered(), 0);
}

#[test]
fn a_decoded_segment_is_appended_and_the_first_one_starts_the_sink() {
    let first = Segment { bytes: vec![1, 2, 3], start: true };
    let later = Segment { bytes: vec![1, 2, 3], start: false };
    assert_eq!(first.after_decode(true), FeedPlan { append: true, play: true });
    assert_eq!(later.after_decode(true), FeedPlan { append: true, play: false });
    assert_eq!(first.after_decode(false), FeedPlan { append: false, play: false });
    assert_eq!(later.after_decode(false), FeedPlan { append: false, play: false });
}

#[test]
fn a_new_player_is_idle() {
    let player = AudioPlayer::new();
    assert!(!player.is_active());
    assert_eq!(player.current_task(), None);
}

#[test]
fn playing_from_idle_clears_the_sink_and_asks_for_the_stream() {
    let mut player = AudioPlayer::new();
    let commands = player.play_url("http://example.org/a.mp3".to_string());
    assert_eq!(
        commands,
        vec![
            PlayerCommand::StopSink,
            PlayerCommand::ClearSink,
            PlayerCommand::Open { url: "http://example.org/a.mp3".to_string() },
        ]
    );
    assert!(!player.is_active());
}

#[test]
fn a_delivered_stream_starts_one_task() {
    let mut player = AudioPlayer::new();
    player.play_url("a".to_string());
    assert_eq!(player.stream_opened(&Fetch::Answered { status: 200 }), vec![PlayerCommand::Feed { task: 0 }]);
    assert!(player.is_active());
    assert_eq!(player.current_task(), Some(0));
}

#[test]
fn switching_stations_cancels_before_it_clears_and_before_it_starts() {
    let mut player = AudioPlayer::new();
    player.play_url("a".to_string());
    player.stream_opened(&Fetch::Answered { status: 200 });
    let commands = player.play_url("b".to_string());
    assert_eq!(
        commands,
        vec![
            PlayerCommand::Cancel { task: 0 },
            PlayerCommand::StopSink,
            PlayerCommand::ClearSink,
            PlayerCommand::Open { url: "b".to_string() },
        ]
    );
    assert_eq!(player.current_task(), None);
    assert_eq!(player.stream_opened(&Fetch::Answered { status: 200 }), vec![PlayerCommand::Feed { task: 1 }]);
    assert_eq!(player.current_task(), Some(1));
}

#[test]
fn a_stream_reported_while_one_plays_replaces_it() {
    let mut player = AudioPlayer::new();
    player.stream_opened(&Fetch::Answered { status: 200 });
    let commands = player.stream_opened(&Fetch::Answered { status: 200 });
    assert_eq!(
        commands,
        vec![
            PlayerCommand::Cancel { task: 0 },
            PlayerCommand::StopSink,
            PlayerCommand::ClearSink,
            PlayerCommand::Feed { task: 1 },
        ]
    );
    assert_eq!(player.current_task(), Some(1));
}

#[test]
fn a_failed_stream_changes_nothing() {
    let mut player = AudioPlayer::new();
    player.play_url("a".to_string());
    assert!(player.stream_opened(&Fetch::Answered { status: 404 }).is_empty());
    assert!(!player.is_active());
    assert!(player.stream_opened(&Fetch::Refused { reason: "no route".to_string() }).is_empty());
    assert!(!player.is_active());
    assert_eq!(player.stream_opened(&Fetch::Answered { status: 200 }), vec![PlayerCommand::Feed { task: 0 }]);
}

#[test]
fn stopping_cancels_the_task_and_clears_the_sink() {
    let mut player = AudioPlayer::new();
    assert_eq!(player.stop(), vec![PlayerCommand::StopSink, PlayerCommand::ClearSink]);
    player.play_url("a".to_string());
    player.stream_opened(&Fetch::Answered { status: 200 });
    assert_eq!(
        player.stop(),
        vec![PlayerCommand::Cancel { task: 0 }, PlayerCommand::StopSink, PlayerCommand::ClearSink]
    );
    assert!(!player.is_active());
    assert_eq!(player.stop(), vec![PlayerCommand::StopSink, PlayerCommand::ClearSink]);
}

#[test]
fn pausing_while_idle_touches_no_task() {
    let player = AudioPlayer::new();
    assert_eq!(player.pause(), vec![PlayerCommand::PauseSink]);
    assert!(!player.is_active());
    assert_eq!(player.current_task(), None);
    assert_eq!(player.resume(), vec![PlayerCommand::PlaySink]);
    assert!(!player.is_active());
}

#[test]
fn pausing_keeps_the_task() {
    let mut player = AudioPlayer::new();
    player.play_url("a".to_string());
    player.stream_opened(&Fetch::Answered { status: 200 });
    assert_eq!(player.pause(), vec![PlayerCommand::PauseSink]);
    assert_eq!(player.current_task(), Some(0));
    assert_eq!(player.resume(), vec![PlayerCommand::PlaySink]);
    assert_eq!(player.current_task(), Some(0));
}

#[test]
fn a_sink_that_cannot_be_asked_counts_as_not_paused() {
    let player = AudioPlayer::new();
    assert!(player.is_paused(Some(true)));
    assert!(!player.is_paused(Some(false)));
    assert!(!player.is_paused(None));
}

#[test]
fn only_statuses_from_200_to_299_deliver() {
    assert!(!Fetch::Answered { status: 199 }.delivers());
    assert!(Fetch::Answered { status: 200 }.delivers());
    assert!(Fetch::Answered { status: 299 }.delivers());
    assert!(!Fetch::Answered { status: 300 }.delivers());
    assert!(!Fetch::Answered { status: 404 }.delivers());
    assert!(!Fetch::Answered { status: 0 }.delivers());
    assert!(!Fetch::Refused { reason: "down".to_string() }.delivers());
}

#[test]
fn a_failure_names_the_status_or_the_reason() {
    assert_eq!(Fetch::Answered { status: 404 }.failure(), "HTTP 404");
    assert_eq!(Fetch::Answered { status: 65535 }.failure(), "HTTP 65535");
    assert_eq!(Fetch::Answered { status: 0 }.failure(), "HTTP 0");
    assert_eq!(Fetch::Refused { reason: "connection reset".to_string() }.failure(), "connection reset");
}

#[test]
fn a_copy_of_a_command_equals_it() {
    let open = PlayerCommand::Open { url: "u".to_string() };
    assert_eq!(open.clone(), open);
    assert_eq!(PlayerCommand::Cancel { task: 3 }.clone(), PlayerCommand::Cancel { task: 3 });
    let mut player = AudioPlayer::new();
    player.stream_opened(&Fetch::Answered { status: 200 });
    assert_eq!(player.clone().current_task(), Some(0));
}
