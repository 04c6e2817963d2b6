use crate::encode::RepeatMode;
use vstd::prelude::*;

verus! {

/// The directory part of a path as `std::path::Path::parent` gives it.
pub uninterp spec fn parent_of(path: Seq<char>) -> Option<Seq<char>>;

/// The decimal text of an integer as std's `Display` writes it.
pub uninterp spec fn decimal_of(n: i32) -> Seq<char>;

/// Relies on std::path::Path::parent: the path without its last component;
/// `None` for a root or an empty path. A path made from a `str` converts
/// back to text without loss.
#[verifier::external_body]
fn path_parent(path: &str) -> (r: Option<String>)
    ensures
        r is None <==> parent_of(path@) is None,
        r matches Some(d) ==> parent_of(path@) == Some(d@),
        path@.len() == 0 ==> r is None,
        path@ == seq!['/'] ==> r is None,
{
    match std::path::Path::new(path).parent() {
        Some(dir) => Some(dir.to_string_lossy().into_owned()),
        None => None,
    }
}

/// Relies on std::path::Path::is_dir: whether a directory stands at `path`
/// now. The answer depends on the file system.
#[verifier::external_body]
fn is_dir(path: &str) -> (r: bool) {
    std::path::Path::new(path).is_dir()
}

/// The reason given for an output path without an existing directory.
pub open spec fn missing_dir_text(path: Seq<char>) -> Seq<char> {
    seq!['P', 'a', 't', 'h', ':', ' '] + path + seq![
        ' ',
        'h',
        'a',
        's',
        ' ',
        'n',
        'o',
        ' ',
        'p',
        'a',
        'r',
        'e',
        'n',
        't',
        ' ',
        'd',
        'i',
        'r',
        'e',
        'c',
        't',
        'o',
        'r',
        'y',
        '.',
    ]
}

/// The reason given for a speed out of range, around the speed's digits.
pub open spec fn speed_text(digits: Seq<char>) -> Seq<char> {
    seq!['S', 'p', 'e', 'e', 'd', ':', ' '] + digits + seq![
        ' ',
        'i',
        's',
        ' ',
        'n',
        'o',
        't',
        ' ',
        'i',
        'n',
        ' ',
        '1',
        ' ',
        't',
        'o',
        ' ',
        '3',
        '0',
        '.',
    ]
}

/// Relies on std's `format!`, which writes a `str` argument as it is.
#[verifier::external_body]
fn missing_dir_message(path: &str) -> (r: String)
    ensures
        r@ == missing_dir_text(path@),
{
    format!("Path: {} has no parent directory.", path)
}

/// Relies on std's `format!` and `Display` for `i32`.
#[verifier::external_body]
fn speed_message(speed: i32) -> (r: String)
    ensures
        r@ == speed_text(decimal_of(speed)),
{
    format!("Speed: {} is not in 1 to 30.", speed)
}

/// The directory in which a path must lie: its parent, or the working
/// directory for a bare file name. `None` for a path without a parent.
pub open spec fn dir_to_check(path: Seq<char>) -> Option<Seq<char>> {
    match parent_of(path) {
        None => None,
        Some(d) => Some(
            if d.len() == 0 {
                seq!['.']
            } else {
                d
            },
        ),
    }
}

/// The directory that must exist for `path` to be a valid output path.
pub fn directory_to_check(path: &str) -> (r: Option<String>)
    ensures
        r is None <==> dir_to_check(path@) is None,
        r matches Some(d) ==> dir_to_check(path@) == Some(d@),
        path@.len() == 0 ==> r is None,
        path@ == seq!['/'] ==> r is None,
{
    match path_parent(path) {
        None => None,
        Some(dir) => {
            if dir.as_str().is_empty() {
                let here = ".".to_owned();
                proof {
                    reveal_strlit(".");
                }
                Some(here)
            } else {
                Some(dir)
            }
        },
    }
}

/// The slowest, most careful quantization speed.
pub const MIN_SPEED: i32 = 1;

/// The fastest, roughest quantization speed.
pub const MAX_SPEED: i32 = 30;

/// Nanoseconds in a second.
pub const NANOS_PER_SECOND: u64 = 1_000_000_000;

/// What made a set of capture settings invalid.
#[derive(Clone, Copy, Debug, PartialEq, Eq, Structural)]
pub enum SettingsErrorKind {
    /// The output path does not lie in an existing directory.
    MissingDirectory,
    /// The speed lies outside 1 to 30.
    SpeedOutOfRange,
}

/// Settings that were refused, with a reason for a person to read.
#[derive(Clone, Debug)]
pub struct GifCaptureSettingsError {
    pub kind: SettingsErrorKind,
    pub reason: String,
}

/// Validated settings of a capture.
///
/// `duration` is the length of the capture window in nanoseconds.
#[derive(Clone, Debug)]
pub struct GifCaptureSettings {
    pub duration: u64,
    pub path: String,
    pub repeat: RepeatMode,
    pub speed: i32,
}

/// Whether a quantization speed is accepted.
pub open spec fn speed_in_range(speed: i32) -> bool {
    MIN_SPEED <= speed <= MAX_SPEED
}

impl Default for GifCaptureSettings {
    /// A five second capture looping forever at speed 10, with no output
    /// path chosen yet.
    fn default() -> (r: GifCaptureSettings)
        ensures
            r.wf(),
            r.duration == 5 * NANOS_PER_SECOND,
            r.path@ == Seq::<char>::empty(),
            r.repeat == RepeatMode::Infinite,
            r.speed == 10,
    {
        GifCaptureSettings {
            duration: 5 * NANOS_PER_SECOND,
            path: String::new(),
            repeat: RepeatMode::Infinite,
            speed: 10,
        }
    }
}

impl GifCaptureSettings {
    pub open spec fn wf(&self) -> bool {
        speed_in_range(self.speed)
    }

    /// Validates settings, given whether the directory of `path` exists.
    ///
    /// A missing directory is reported before a speed out of range.
    pub fn validate(duration: u64, path: &str, repeat: RepeatMode, speed: i32, dir_exists: bool) -> (r: Result<GifCaptureSettings, GifCaptureSettingsError>)
        ensures
            r is Ok <==> dir_exists && speed_in_range(speed),
            !dir_exists ==> (r matches Err(e) && e.kind == SettingsErrorKind::MissingDirectory
                && e.reason@ == missing_dir_text(path@)),
            dir_exists && !speed_in_range(speed) ==> (r matches Err(e) && e.kind
                == SettingsErrorKind::SpeedOutOfRange && e.reason@ == speed_text(decimal_of(speed))),
            r matches Ok(s) ==> {
                &&& s.wf()
                &&& s.duration == duration
                &&& s.path@ == path@
                &&& s.speed == speed
                &&& s.repeat == repeat
            },
    {
        if !dir_exists {
            return Err(GifCaptureSettingsError {
                kind: SettingsErrorKind::MissingDirectory,
                reason: missing_dir_message(path),
            });
        }
        if speed < MIN_SPEED || speed > MAX_SPEED {
            return Err(GifCaptureSettingsError {
                kind: SettingsErrorKind::SpeedOutOfRange,
                reason: speed_message(speed),
            });
        }
        Ok(GifCaptureSettings { duration, path: path.to_owned(), repeat, speed })
    }

    /// Creates settings, checking that the output path lies in an existing
    /// directory (a bare file name lies in the working directory) and that
    /// the speed lies in 1 to 30. A missing directory is reported first.
    pub fn new(duration: u64, path: &str, repeat: RepeatMode, speed: i32) -> (r: Result<GifCaptureSettings, GifCaptureSettingsError>)
        ensures
            parent_of(path@) is None ==> (r matches Err(e) && e.kind
                == SettingsErrorKind::MissingDirectory && e.reason@ == missing_dir_text(path@)),
            path@.len() == 0 ==> r is Err,
            path@ == seq!['/'] ==> r is Err,
            !speed_in_range(speed) ==> r is Err,
            r matches Err(e) ==> {
                ||| e.kind == SettingsErrorKind::MissingDirectory && e.reason@ == missing_dir_text(
                    path@,
                )
                ||| e.kind == SettingsErrorKind::SpeedOutOfRange && e.reason@ == speed_text(decimal_of(speed))
                    && !speed_in_range(speed)
            },
            r matches Ok(s) ==> {
                &&& s.wf()
                &&& s.duration == duration
                &&& s.path@ == path@
                &&& s.speed == speed
                &&& s.repeat == repeat
                &&& parent_of(path@) is Some
            },
    {
        let dir_exists = match directory_to_check(path) {
            None => false,
            Some(dir) => is_dir(dir.as_str()),
        };
        GifCaptureSettings::validate(duration, path, repeat, speed, dir_exists)
    }
}

} // verus!
