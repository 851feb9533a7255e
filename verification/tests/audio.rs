use infinitegfx_core::audio::{AudioClock, ChunkSchedule, SampleChunk, AUDIO_CHUNK};

fn drain(mut schedule: ChunkSchedule) -> Vec<(u64, u64)> {
    let mut out = Vec::new();
    while let Some(SampleChunk { start, len }) = schedule.next_chunk() {
        out.push((start, len));
    }
    out
}

#[test]
fn advance_splits_into_chunks_of_sixty_four() {
    let mut clock = AudioClock::new();
    let schedule = clock.advance(150);
    assert_eq!(clock.last_clock, 150);
    assert_eq!(drain(schedule), vec![(0, 64), (64, 64), (128, 22)]);
}

#[test]
fn advance_by_exact_multiple() {
    let mut clock = AudioClock { last_clock: 1000 };
    assert_eq!(drain(clock.advance(1128)), vec![(1000, 64), (1064, 64)]);
    assert_eq!(clock.last_clock, 1128);
    assert_eq!(drain(clock.advance(1129)), vec![(1128, 1)]);
}

#[test]
fn advance_backwards_or_equal_does_nothing() {
    let mut clock = AudioClock { last_clock: 500 };
    assert!(drain(clock.advance(500)).is_empty());
    assert!(drain(clock.advance(10)).is_empty());
    assert_eq!(clock.last_clock, 500);
}

#[test]
fn chunks_cover_the_whole_span() {
    for diff in [1u64, 63, 64, 65, 127, 128, 1000] {
        let mut clock = AudioClock { last_clock: 7 };
        let chunks = drain(clock.advance(7 + diff));
        assert_eq!(chunks.len() as u64, (diff + AUDIO_CHUNK - 1) / AUDIO_CHUNK);
        let mut next = 7;
        for (start, len) in &chunks {
            assert_eq!(*start, next);
            assert!(*len >= 1 && *len <= 64);
            next += len;
        }
        assert_eq!(next, 7 + diff);
    }
}

#[test]
fn advance_near_u64_max() {
    let mut clock = AudioClock { last_clock: u64::MAX - 70 };
    assert_eq!(drain(clock.advance(u64::MAX)), vec![(u64::MAX - 70, 64), (u64::MAX - 6, 6)]);
}

