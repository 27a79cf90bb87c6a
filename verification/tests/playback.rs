use iced_ruffle::frame::{content_hash, FrameData};
use iced_ruffle::playback::Playback;

fn frame(byte: u8) -> FrameData {
    FrameData { width: 1, height: 1, data: vec![byte, byte, byte, 255] }
}

#[test]
fn starts_playing_without_frame() {
    let p: Playback<u64> = Playback::new();
    assert!(!p.paused());
    let (hash, f) = p.frame();
    assert_eq!(hash, 0);
    assert!(f.is_none());
}

#[test]
fn first_advance_has_zero_elapsed_then_chains() {
    let mut p: Playback<u64> = Playback::new();
    assert_eq!(p.begin_advance(100), Some(None));
    assert_eq!(p.begin_advance(116), Some(Some(100)));
    assert_eq!(p.begin_advance(133), Some(Some(116)));
}

#[test]
fn paused_playback_does_not_advance() {
    let mut p: Playback<u64> = Playback::new();
    p.begin_advance(10);
    p.set_paused(true);
    assert!(p.paused());
    assert_eq!(p.begin_advance(20), None);
    assert_eq!(p.begin_advance(30), None);
}

#[test]
fn resuming_avoids_a_time_jump() {
    let mut p: Playback<u64> = Playback::new();
    p.begin_advance(10);
    p.set_paused(true);
    p.set_paused(false);
    assert!(!p.paused());
    assert_eq!(p.begin_advance(10_000), Some(None));
    assert_eq!(p.begin_advance(10_016), Some(Some(10_000)));
}

#[test]
fn pausing_twice_keeps_last_tick_for_later() {
    let mut p: Playback<u64> = Playback::new();
    p.begin_advance(5);
    p.set_paused(true);
    p.set_paused(true);
    assert_eq!(p.begin_advance(6), None);
}

#[test]
fn offered_frame_replaces_only_on_new_content() {
    let mut p: Playback<u64> = Playback::new();
    assert!(p.offer_frame(frame(1)));
    let (hash, f) = p.frame();
    assert_eq!(hash, content_hash(&[1, 1, 1, 255]));
    assert_eq!(f.unwrap().data, vec![1, 1, 1, 255]);

    // Identical pixels: not swapped in.
    assert!(!p.offer_frame(frame(1)));
    let (hash, f) = p.frame();
    assert_eq!(hash, content_hash(&[1, 1, 1, 255]));
    assert_eq!(f.unwrap().data, vec![1, 1, 1, 255]);

    assert!(p.offer_frame(frame(3)));
    let (hash, f) = p.frame();
    assert_eq!(hash, content_hash(&[3, 3, 3, 255]));
    assert_eq!(f.unwrap().data, vec![3, 3, 3, 255]);
}

#[test]
fn first_frame_is_always_shown() {
    let mut p: Playback<u64> = Playback::new();
    let empty = FrameData { width: 0, height: 0, data: vec![] };
    assert!(p.offer_frame(empty));
    let (hash, f) = p.frame();
    assert_eq!(hash, content_hash(&[]));
    assert_eq!(f.unwrap().width, 0);
}

#[test]
fn pausing_keeps_the_frame() {
    let mut p: Playback<u64> = Playback::new();
    p.offer_frame(frame(4));
    p.set_paused(true);
    p.set_paused(false);
    p.begin_advance(1);
    let (hash, f) = p.frame();
    assert_eq!(hash, content_hash(&[4, 4, 4, 255]));
    assert_eq!(f.unwrap().data, vec![4, 4, 4, 255]);
}
