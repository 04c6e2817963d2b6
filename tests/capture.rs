use gif_capture::{
    directory_to_check,
    depad_frame, encode_gif, pad_frame, padded_bytes_per_row, unpadded_bytes_per_row,
    CaptureSession, CaptureTimer, GifCapturePlugin, GifCaptureSettings, GifCaptureState,
    GifEncodeError, RepeatMode, RestartPolicy, RowLayout, SettingsErrorKind, NANOS_PER_SECOND,
};

const ALIGN: usize = 256;
const TICK_60HZ: u64 = 16_666_667;

fn solid_frame(width: usize, height: usize, pixel: [u8; 4]) -> Vec<u8> {
    let mut v = Vec::new();
    for _ in 0..width * height {
        v.extend_from_slice(&pixel);
    }
    v
}

fn padded_surface(frame: &Vec<u8>, layout: &RowLayout) -> Vec<u8> {
    pad_frame(frame, layout)
}

#[test]
fn row_sizes_for_small_surface() {
    assert_eq!(unpadded_bytes_per_row(4), Some(16));
    assert_eq!(padded_bytes_per_row(16, ALIGN), Some(256));
    assert_eq!(padded_bytes_per_row(256, ALIGN), Some(256));
    assert_eq!(padded_bytes_per_row(257, ALIGN), Some(512));
    let l = RowLayout::new(4, 4, ALIGN).unwrap();
    assert_eq!(l.unpadded_bytes_per_row, 16);
    assert_eq!(l.padded_bytes_per_row, 256);
    assert_eq!(l.buffer_size, 1024);
}

#[test]
fn padded_row_bounds_for_many_widths() {
    for w in [0usize, 1, 63, 64, 65, 100, 1920] {
        for a in [1usize, 4, 256] {
            let u = unpadded_bytes_per_row(w).unwrap();
            let p = padded_bytes_per_row(u, a).unwrap();
            assert!(u <= p);
            assert_eq!(p % a, 0);
            assert!(p < u + a);
        }
    }
}

#[test]
fn row_sizes_that_overflow() {
    assert_eq!(unpadded_bytes_per_row(usize::MAX / 4 + 1), None);
    assert_eq!(padded_bytes_per_row(usize::MAX, ALIGN), None);
    assert!(RowLayout::new(64, usize::MAX, ALIGN).is_none());
    let zero_rows = RowLayout::new(64, 0, ALIGN).unwrap();
    assert_eq!(zero_rows.buffer_size, 0);
}

#[test]
fn depad_round_trip() {
    let layout = RowLayout::new(3, 2, ALIGN).unwrap();
    let frame: Vec<u8> = (0u8..24).collect();
    let padded = padded_surface(&frame, &layout);
    assert_eq!(padded.len(), 512);
    assert_eq!(&padded[0..12], &frame[0..12]);
    assert!(padded[12..256].iter().all(|b| *b == 0));
    assert_eq!(&padded[256..268], &frame[12..24]);
    assert_eq!(depad_frame(&padded, &layout), frame);
}

#[test]
fn depad_drops_padding_bytes() {
    let layout = RowLayout::new(1, 2, 8).unwrap();
    let padded = vec![1, 2, 3, 4, 9, 9, 9, 9, 5, 6, 7, 8, 9, 9, 9, 9];
    assert_eq!(depad_frame(&padded, &layout), vec![1, 2, 3, 4, 5, 6, 7, 8]);
}

#[test]
fn timer_finishes_once() {
    let mut t = CaptureTimer::new(100);
    t.tick(60);
    assert!(!t.just_finished);
    assert_eq!(t.elapsed, 60);
    t.tick(60);
    assert!(t.just_finished && t.finished);
    assert_eq!(t.elapsed, 100);
    t.tick(60);
    assert!(!t.just_finished && t.finished);
    t.reset();
    assert_eq!(t.elapsed, 0);
    assert!(!t.finished);
}

#[test]
fn state_machine_full_cycle() {
    let settings = GifCaptureSettings::default();
    assert_eq!(settings.speed, 10);
    assert_eq!(settings.duration, 5 * NANOS_PER_SECOND);
    assert_eq!(GifCaptureState::default(), GifCaptureState::Off);
    let plugin = GifCapturePlugin { policy: RestartPolicy::RestartWins };
    let mut s = CaptureSession::new(NANOS_PER_SECOND, RestartPolicy::RestartWins);
    assert_eq!(plugin.session(&settings).state, GifCaptureState::Off);
    s.tick(TICK_60HZ, false);
    assert_eq!(s.state, GifCaptureState::Off);
    s.tick(TICK_60HZ, true);
    assert_eq!(s.state, GifCaptureState::CurrentlyCapturing);
    assert_eq!(s.timer.elapsed, 0);
    let mut closes = 0;
    for _ in 0..100 {
        let before = s.state;
        s.tick(TICK_60HZ, false);
        if before == GifCaptureState::CurrentlyCapturing
            && s.state == GifCaptureState::JustFinishedCapturing
        {
            closes += 1;
        }
    }
    assert_eq!(closes, 1);
    assert_eq!(s.state, GifCaptureState::JustFinishedCapturing);
    let r = s.finish_capture(&settings, 1, 1);
    assert!(matches!(r, Some(Ok(_))));
    assert_eq!(s.state, GifCaptureState::Off);
    assert_eq!(s.frames.len(), 0);
    assert!(s.finish_capture(&settings, 1, 1).is_none());
}

#[test]
fn restart_while_capturing() {
    let mut s = CaptureSession::new(NANOS_PER_SECOND, RestartPolicy::RestartWins);
    s.tick(TICK_60HZ, true);
    for _ in 0..30 {
        s.tick(TICK_60HZ, false);
    }
    assert!(s.timer.elapsed > 0);
    s.tick(TICK_60HZ, true);
    assert_eq!(s.state, GifCaptureState::CurrentlyCapturing);
    assert_eq!(s.timer.elapsed, 0);
}

#[test]
fn start_supersedes_pending_encode() {
    let mut s = CaptureSession::new(100, RestartPolicy::RestartWins);
    s.tick(1, true);
    s.tick(100, false);
    assert_eq!(s.state, GifCaptureState::JustFinishedCapturing);
    s.tick(1, true);
    assert_eq!(s.state, GifCaptureState::CurrentlyCapturing);
    assert_eq!(s.timer.elapsed, 0);
}

#[test]
fn finish_wins_policy_keeps_pending_encode() {
    let mut s = CaptureSession::new(100, RestartPolicy::FinishWins);
    s.tick(1, true);
    s.tick(100, true);
    assert_eq!(s.state, GifCaptureState::JustFinishedCapturing);
    s.tick(1, true);
    assert_eq!(s.state, GifCaptureState::JustFinishedCapturing);
    let mut r = CaptureSession::new(100, RestartPolicy::RestartWins);
    r.tick(1, true);
    r.tick(100, true);
    assert_eq!(r.state, GifCaptureState::CurrentlyCapturing);
}

#[test]
fn encode_is_deterministic_in_shape() {
    let frames = vec![
        solid_frame(2, 2, [255, 0, 0, 255]),
        solid_frame(2, 2, [0, 255, 0, 255]),
        solid_frame(2, 2, [0, 0, 255, 0]),
    ];
    let a = encode_gif(&frames, 2, 2, RepeatMode::Infinite, 10).ok().unwrap();
    let b = encode_gif(&frames, 2, 2, RepeatMode::Infinite, 10).ok().unwrap();
    assert_eq!(a.frame_count, 3);
    assert_eq!(a.frame_count, b.frame_count);
    assert_eq!((a.width, a.height), (b.width, b.height));
    assert_eq!(a.bytes, b.bytes);
}

#[test]
fn encode_writes_gif_header_and_keeps_frames() {
    let frames = vec![solid_frame(3, 2, [10, 20, 30, 7])];
    let before = frames.clone();
    let g = encode_gif(&frames, 3, 2, RepeatMode::Finite(2), 1).ok().unwrap();
    assert_eq!(&g.bytes[0..6], b"GIF89a");
    assert_eq!(&g.bytes[6..10], &[3, 0, 2, 0]);
    assert_eq!(*g.bytes.last().unwrap(), 0x3B);
    assert_eq!(frames, before);
}

#[test]
fn encode_rejects_wrong_frame_size() {
    let frames = vec![solid_frame(2, 2, [1, 2, 3, 255]), vec![0u8; 5]];
    let r = encode_gif(&frames, 2, 2, RepeatMode::Infinite, 10);
    assert!(matches!(r, Err(GifEncodeError::FrameSize(1))));
}

#[test]
fn two_seconds_of_solid_red() {
    let settings =
        GifCaptureSettings::new(2 * NANOS_PER_SECOND, "capture.gif", RepeatMode::Infinite, 10)
            .ok()
            .unwrap();
    let layout = RowLayout::new(4, 4, ALIGN).unwrap();
    let red = solid_frame(4, 4, [255, 0, 0, 255]);
    let surface = padded_surface(&red, &layout);
    let mut s = CaptureSession::new(settings.duration, RestartPolicy::RestartWins);
    s.tick(TICK_60HZ, true);
    s.capture_frame(Some(&surface), &layout);
    let mut ticks = 1;
    loop {
        s.tick(TICK_60HZ, false);
        if s.state == GifCaptureState::JustFinishedCapturing {
            break;
        }
        s.capture_frame(Some(&surface), &layout);
        ticks += 1;
        assert!(ticks <= 120);
    }
    assert_eq!(ticks, 120);
    assert_eq!(s.frames.len(), 120);
    for f in s.frames.frames() {
        assert_eq!(f.len(), 64);
        assert_eq!(f, &red);
    }
    let g = s.finish_capture(&settings, 4, 4).unwrap().ok().unwrap();
    assert_eq!(g.frame_count, 120);
    assert_eq!((g.width, g.height), (4, 4));
    assert_eq!(&g.bytes[6..10], &[4, 0, 4, 0]);
    assert_eq!(s.state, GifCaptureState::Off);
    assert_eq!(s.frames.len(), 0);
}

#[test]
fn settings_with_missing_directory() {
    let r = GifCaptureSettings::new(
        5 * NANOS_PER_SECOND,
        "/nonexistent/path.gif",
        RepeatMode::Infinite,
        10,
    );
    let e = r.err().unwrap();
    assert_eq!(e.kind, SettingsErrorKind::MissingDirectory);
    assert_eq!(e.reason, "Path: /nonexistent/path.gif has no parent directory.");
    let empty = GifCaptureSettings::new(NANOS_PER_SECOND, "", RepeatMode::Infinite, 10);
    assert_eq!(empty.err().unwrap().kind, SettingsErrorKind::MissingDirectory);
}

#[test]
fn settings_with_speed_out_of_range() {
    let r = GifCaptureSettings::new(NANOS_PER_SECOND, "capture.gif", RepeatMode::Infinite, 50);
    let e = r.err().unwrap();
    assert_eq!(e.kind, SettingsErrorKind::SpeedOutOfRange);
    assert_eq!(e.reason, "Speed: 50 is not in 1 to 30.");
    let low = GifCaptureSettings::new(NANOS_PER_SECOND, "capture.gif", RepeatMode::Infinite, 0);
    assert_eq!(low.err().unwrap().kind, SettingsErrorKind::SpeedOutOfRange);
    for speed in [1, 30] {
        let ok = GifCaptureSettings::new(NANOS_PER_SECOND, "capture.gif", RepeatMode::Infinite, speed)
            .ok()
            .unwrap();
        assert_eq!(ok.speed, speed);
        assert_eq!(ok.path, "capture.gif");
    }
}

#[test]
fn absent_surface_skips_frames() {
    let layout = RowLayout::new(2, 2, ALIGN).unwrap();
    let mut s = CaptureSession::new(NANOS_PER_SECOND, RestartPolicy::RestartWins);
    s.tick(TICK_60HZ, true);
    for _ in 0..3 {
        s.tick(TICK_60HZ, false);
        s.capture_frame(None, &layout);
    }
    assert_eq!(s.state, GifCaptureState::CurrentlyCapturing);
    assert_eq!(s.frames.len(), 0);
}

#[test]
fn frames_outside_capture_are_not_stored() {
    let layout = RowLayout::new(1, 1, ALIGN).unwrap();
    let surface = vec![7u8; 256];
    let mut s = CaptureSession::new(NANOS_PER_SECOND, RestartPolicy::RestartWins);
    s.tick(TICK_60HZ, false);
    s.capture_frame(Some(&surface), &layout);
    assert_eq!(s.frames.len(), 0);
}

#[test]
fn zero_length_window_closes_on_next_tick() {
    let mut s = CaptureSession::new(0, RestartPolicy::RestartWins);
    s.tick(5, true);
    assert_eq!(s.state, GifCaptureState::CurrentlyCapturing);
    s.tick(5, false);
    assert_eq!(s.state, GifCaptureState::JustFinishedCapturing);
}

#[test]
fn default_policy_is_restart_wins() {
    assert_eq!(RestartPolicy::default(), RestartPolicy::RestartWins);
    assert_eq!(GifCapturePlugin::default().policy, RestartPolicy::RestartWins);
}

#[test]
fn directory_checked_for_output_paths() {
    assert_eq!(directory_to_check("capture.gif"), Some(".".to_string()));
    assert_eq!(directory_to_check("/tmp/out.gif"), Some("/tmp".to_string()));
    assert_eq!(directory_to_check("a/b/c.gif"), Some("a/b".to_string()));
    assert_eq!(directory_to_check("/"), None);
    assert_eq!(directory_to_check(""), None);
    let root = GifCaptureSettings::new(NANOS_PER_SECOND, "/", RepeatMode::Infinite, 10);
    assert_eq!(root.err().unwrap().kind, SettingsErrorKind::MissingDirectory);
}

#[test]
fn settings_keep_their_values() {
    let s = GifCaptureSettings::new(3, "capture.gif", RepeatMode::Finite(4), 7).ok().unwrap();
    assert_eq!(s.duration, 3);
    assert_eq!(s.repeat, RepeatMode::Finite(4));
    assert_eq!(s.speed, 7);
}

#[test]
fn encode_of_no_frames() {
    let frames: Vec<Vec<u8>> = Vec::new();
    let g = encode_gif(&frames, 5, 7, RepeatMode::Infinite, 30).ok().unwrap();
    assert_eq!(g.frame_count, 0);
    assert_eq!(&g.bytes[6..10], &[5, 0, 7, 0]);
}

#[test]
fn encode_writes_loop_setting() {
    let frames = vec![solid_frame(1, 1, [9, 9, 9, 255])];
    let inf = encode_gif(&frames, 1, 1, RepeatMode::Infinite, 10).ok().unwrap();
    let three = encode_gif(&frames, 1, 1, RepeatMode::Finite(3), 10).ok().unwrap();
    let netscape = b"NETSCAPE2.0";
    let find = |b: &Vec<u8>| b.windows(netscape.len()).position(|w| w == netscape).unwrap();
    let i = find(&inf.bytes) + netscape.len();
    let j = find(&three.bytes) + netscape.len();
    assert_eq!(&inf.bytes[i..i + 5], &[3, 1, 0, 0, 0]);
    assert_eq!(&three.bytes[j..j + 5], &[3, 1, 3, 0, 0]);
}

#[test]
fn window_length_applies_while_off() {
    let mut s = CaptureSession::new(100, RestartPolicy::RestartWins);
    s.set_window(50);
    assert_eq!(s.timer.duration, 50);
    s.tick(1, true);
    s.set_window(500);
    assert_eq!(s.timer.duration, 50);
    s.tick(50, false);
    assert_eq!(s.state, GifCaptureState::JustFinishedCapturing);
}
