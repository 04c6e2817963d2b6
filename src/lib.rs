//! Capturing rendered frames from a GPU surface and encoding them as an
//! animated GIF.
//!
//! The library holds the logic of a capture session: row layout of a
//! read-back buffer, removal of row padding, the frame store, the timer and
//! state machine that open and close a capture window, settings validation,
//! and the encoding of the stored frames.
mod encode;
mod frames;
mod layout;
mod session;
mod settings;
mod timer;

pub use encode::{
    all_frames_fit, alpha_made_opaque, encode_gif, encoded_from, encoded_shape, find_bad_frame, first_bad_frame,
    lemma_encode_shape_deterministic, rgba_len, EncodedGif, GifEncodeError, RepeatMode,
};
pub use frames::{
    depad_frame, depad_rows, lemma_depad_round_trip, pad_frame, pad_rows, GifCaptureFrames,
};
pub use layout::{
    align_up, lemma_padding_bounds, padded_bytes_per_row, padded_row_len, unpadded_bytes_per_row,
    unpadded_row_len, RowLayout, BYTES_PER_PIXEL,
};
pub use session::{
    lemma_capture_until_window_closes, lemma_capture_window, lemma_just_finished_once,
    lemma_restart_while_capturing, lemma_start_from_off, lemma_two_seconds_at_sixty_hertz,
    next_state, run_without_start,
    start_accepted, step, total_time, CaptureSession, GifCapturePlugin, GifCaptureStartEvent,
    GifCaptureState, RestartPolicy,
};
pub use settings::{
    decimal_of, dir_to_check, directory_to_check, missing_dir_text, parent_of, speed_in_range, speed_text,
    GifCaptureSettings, GifCaptureSettingsError, SettingsErrorKind, MAX_SPEED,
    MIN_SPEED, NANOS_PER_SECOND,
};
pub use timer::{lemma_timer_finishes_at_duration, lemma_timer_finishes_once, CaptureTimer};
