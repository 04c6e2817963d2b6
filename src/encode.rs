use vstd::prelude::*;

verus! {

/// A GIF stream being written to memory. Verus cannot declare the encoder
/// type itself, whose parameter is bounded by `std::io::Write`, so it is held
/// here out of Verus's sight.
#[verifier::external_body]
struct GifStream {
    encoder: gif::Encoder<Vec<u8>>,
}

/// gif::Frame, an image quantized to its palette, carried from
/// gif::Frame::from_rgba_speed to gif::Encoder::write_frame.
#[verifier::external_type_specification]
#[verifier::external_body]
pub struct ExGifFrame<'a>(gif::Frame<'a>);

/// gif::EncodingError, the failure of a gif encoder step.
#[verifier::external_type_specification]
#[verifier::external_body]
pub struct ExGifEncodingError(gif::EncodingError);

/// How often a viewer plays the animation.
#[derive(Clone, Copy, Debug, PartialEq, Eq, Structural)]
pub enum RepeatMode {
    /// Loop forever.
    Infinite,
    /// Play this many extra times; `Finite(0)` plays once.
    Finite(u16),
}

/// std::io::Error, the failure of gif::Encoder::into_inner.
#[verifier::external_type_specification]
#[verifier::external_body]
pub struct ExIoError(std::io::Error);

/// The bytes of an RGBA frame after every non-zero alpha value has been made
/// fully opaque; colour bytes and zero alpha values stay as they are.
pub open spec fn alpha_made_opaque(pixels: Seq<u8>) -> Seq<u8> {
    Seq::new(
        pixels.len(),
        |i: int|
            if i % 4 == 3 && pixels[i] != 0 {
                255u8
            } else {
                pixels[i]
            },
    )
}

/// A frame quantized to its own palette, ready to be written. Only
/// `quantize_rgba` makes one, so every frame written has a palette of at
/// most 256 colours.
#[verifier::external_body]
struct QuantizedFrame {
    frame: gif::Frame<'static>,
}

/// Relies on gif::Encoder::new: starts a GIF stream of the given screen size
/// in memory. With an empty palette it writes the header, the screen
/// descriptor and a two-entry blank global table; frames carry their own
/// palettes. Writing to a `Vec` cannot fail, so the result is `Ok`.
#[verifier::external_body]
fn start_encoder(width: u16, height: u16) -> (r: Result<GifStream, gif::EncodingError>)
    ensures
        r is Ok,
{
    match gif::Encoder::new(Vec::new(), width, height, &[]) {
        Ok(encoder) => Ok(GifStream { encoder }),
        Err(e) => Err(e),
    }
}

/// Relies on gif::Encoder::set_repeat: writes the loop extension. Writing
/// to a `Vec` cannot fail, so the result is `Ok`.
#[verifier::external_body]
fn set_repeat(stream: &mut GifStream, repeat: RepeatMode) -> (r: Result<(), gif::EncodingError>)
    ensures
        r is Ok,
{
    let repeat = match repeat {
        RepeatMode::Infinite => gif::Repeat::Infinite,
        RepeatMode::Finite(n) => gif::Repeat::Finite(n),
    };
    stream.encoder.set_repeat(repeat)
}

/// Relies on gif::Frame::from_rgba_speed: quantizes an RGBA frame to a local
/// palette. It panics unless the pixel count matches the size and the speed
/// lies in 1 to 30, and it rewrites every non-zero alpha byte to 255 in place.
#[verifier::external_body]
fn quantize_rgba(width: u16, height: u16, pixels: &mut Vec<u8>, speed: i32) -> (r: QuantizedFrame)
    requires
        old(pixels)@.len() == 4 * ((width as int) * (height as int)),
        1 <= speed <= 30,
    ensures
        final(pixels)@ == alpha_made_opaque(old(pixels)@),
{
    QuantizedFrame { frame: gif::Frame::from_rgba_speed(width, height, pixels.as_mut_slice(), speed) }
}

/// Relies on gif::Encoder::write_frame: appends one image to the stream.
/// The frame has a local palette of at most 256 colours and the writer is a
/// `Vec`, so the result is `Ok`.
#[verifier::external_body]
fn write_frame(stream: &mut GifStream, frame: &QuantizedFrame) -> (r: Result<(), gif::EncodingError>)
    ensures
        r is Ok,
{
    stream.encoder.write_frame(&frame.frame)
}

/// Relies on gif::Encoder::into_inner: writes the trailer and hands back the
/// bytes. Writing to a `Vec` cannot fail, so the result is `Ok`.
#[verifier::external_body]
fn finish_encoder(stream: GifStream) -> (r: Result<Vec<u8>, std::io::Error>)
    ensures
        r is Ok,
{
    stream.encoder.into_inner()
}

/// Why an encode was abandoned.
#[derive(Clone, Copy, Debug, PartialEq, Eq, Structural)]
pub enum GifEncodeError {
    /// The frame at this index does not hold `4 * width * height` bytes.
    FrameSize(usize),
    /// The encoder refused a step. An in-memory stream never does.
    Encoder,
}

/// A finished GIF stream, the shape of what it holds, and a record of what
/// was handed to the encoder to make it.
pub struct EncodedGif {
    pub bytes: Vec<u8>,
    pub frame_count: usize,
    pub width: u16,
    pub height: u16,
    /// The loop setting written to the stream.
    pub repeat: Ghost<RepeatMode>,
    /// For each written image, in write order: the RGBA pixels it was
    /// quantized from and the quantization speed.
    pub quantized_from: Ghost<Seq<(Seq<u8>, i32)>>,
}

/// Byte length of one RGBA frame of the given size.
pub open spec fn rgba_len(width: u16, height: u16) -> int {
    4 * ((width as int) * (height as int))
}

/// Whether frame `i` is the first one whose length does not fit the size.
pub open spec fn first_bad_frame(frames: Seq<Seq<u8>>, width: u16, height: u16, i: int) -> bool {
    &&& 0 <= i < frames.len()
    &&& frames[i].len() != rgba_len(width, height)
    &&& forall|j: int| 0 <= j < i ==> #[trigger] frames[j].len() == rgba_len(width, height)
}

/// Whether every frame fits the size.
pub open spec fn all_frames_fit(frames: Seq<Seq<u8>>, width: u16, height: u16) -> bool {
    forall|j: int| 0 <= j < frames.len() ==> #[trigger] frames[j].len() == rgba_len(width, height)
}

/// What a successful encode of `frames` at the given size holds.
pub open spec fn encoded_shape(frames: Seq<Seq<u8>>, width: u16, height: u16, g: EncodedGif) -> bool {
    &&& g.frame_count == frames.len()
    &&& g.width == width
    &&& g.height == height
}

/// Whether `g` was made by writing the loop setting `repeat`, then each of
/// `frames` in order, each quantized at `speed`.
pub open spec fn encoded_from(frames: Seq<Seq<u8>>, repeat: RepeatMode, speed: i32, g: EncodedGif) -> bool {
    &&& g.repeat@ == repeat
    &&& g.quantized_from@.len() == frames.len()
    &&& forall|i: int| 0 <= i < frames.len() ==> #[trigger] g.quantized_from@[i] == (frames[i], speed)
}

/// Index of the first frame whose length does not fit the size, if any.
pub fn find_bad_frame(frames: &Vec<Vec<u8>>, width: u16, height: u16) -> (r: Option<usize>)
    ensures
        r matches Some(i) ==> first_bad_frame(frames@.map_values(|f: Vec<u8>| f@), width, height, i as int),
        r is None <==> all_frames_fit(frames@.map_values(|f: Vec<u8>| f@), width, height),
{
    let ghost fs = frames@.map_values(|f: Vec<u8>| f@);
    proof {
        assert((width as int) * (height as int) <= 65535 * 65535) by (nonlinear_arith)
            requires width <= 65535, height <= 65535, width >= 0, height >= 0;
    }
    let expected: u64 = 4 * ((width as u64) * (height as u64));
    let mut i: usize = 0;
    while i < frames.len()
        invariant
            i <= frames@.len(),
            fs == frames@.map_values(|f: Vec<u8>| f@),
            expected == rgba_len(width, height),
            expected <= u64::MAX,
            forall|j: int| 0 <= j < i ==> #[trigger] fs[j].len() == rgba_len(width, height),
        decreases frames@.len() - i,
    {
        if frames[i].len() as u64 != expected {
            proof {
                assert(fs[i as int] == frames@[i as int]@);
                assert(!all_frames_fit(fs, width, height));
            }
            return Some(i);
        }
        i += 1;
    }
    None
}

/// Encodes `frames` in order as an animated GIF of the given size, looping
/// as `repeat` says, each frame quantized to its own palette at `speed`.
///
/// Each frame is quantized from a copy, so the stored frames are left as
/// they are. The encode succeeds exactly when every frame holds
/// `4 * width * height` bytes; otherwise it names the first frame that does not.
pub fn encode_gif(frames: &Vec<Vec<u8>>, width: u16, height: u16, repeat: RepeatMode, speed: i32) -> (r: Result<EncodedGif, GifEncodeError>)
    requires
        1 <= speed <= 30,
    ensures
        r is Ok <==> all_frames_fit(frames@.map_values(|f: Vec<u8>| f@), width, height),
        r is Err ==> r matches Err(GifEncodeError::FrameSize(_)),
        r matches Err(GifEncodeError::FrameSize(i)) ==> first_bad_frame(frames@.map_values(|f: Vec<u8>| f@), width, height, i as int),
        r matches Ok(g) ==> encoded_shape(frames@.map_values(|f: Vec<u8>| f@), width, height, g),
        r matches Ok(g) ==> encoded_from(frames@.map_values(|f: Vec<u8>| f@), repeat, speed, g),
{
    let ghost fs = frames@.map_values(|f: Vec<u8>| f@);
    match find_bad_frame(frames, width, height) {
        Some(i) => {
            return Err(GifEncodeError::FrameSize(i));
        },
        None => {},
    }
    let mut stream = match start_encoder(width, height) {
        Ok(e) => e,
        Err(_) => {
            return Err(GifEncodeError::Encoder);
        },
    };
    match set_repeat(&mut stream, repeat) {
        Ok(()) => {},
        Err(_) => {
            return Err(GifEncodeError::Encoder);
        },
    }
    let ghost repeat_written = repeat;
    let ghost mut handed: Seq<(Seq<u8>, i32)> = Seq::empty();
    let mut written: usize = 0;
    while written < frames.len()
        invariant
            written <= frames@.len(),
            fs == frames@.map_values(|f: Vec<u8>| f@),
            all_frames_fit(fs, width, height),
            1 <= speed <= 30,
            handed.len() == written,
            forall|i: int| 0 <= i < written ==> #[trigger] handed[i] == (fs[i], speed),
        decreases frames@.len() - written,
    {
        let mut scratch = frames[written].clone();
        proof {
            assert(fs[written as int] == frames@[written as int]@);
            assert(fs[written as int].len() == rgba_len(width, height));
            assert(scratch@.len() == 4 * ((width as int) * (height as int)));
        }
        let ghost source = scratch@;
        let frame = quantize_rgba(width, height, &mut scratch, speed);
        match write_frame(&mut stream, &frame) {
            Ok(()) => {},
            Err(_) => {
                return Err(GifEncodeError::Encoder);
            },
        }
        proof {
            handed = handed.push((source, speed));
        }
        written += 1;
    }
    match finish_encoder(stream) {
        Ok(bytes) => Ok(
            EncodedGif {
                bytes,
                frame_count: written,
                width,
                height,
                repeat: Ghost(repeat_written),
                quantized_from: Ghost(handed),
            },
        ),
        Err(_) => Err(GifEncodeError::Encoder),
    }
}

/// Two successful encodes of the same frames at the same size hold the same
/// number of frames with the same dimensions.
pub proof fn lemma_encode_shape_deterministic(
    frames: Seq<Seq<u8>>,
    width: u16,
    height: u16,
    a: EncodedGif,
    b: EncodedGif,
)
    requires
        encoded_shape(frames, width, height, a),
        encoded_shape(frames, width, height, b),
    ensures
        a.frame_count == b.frame_count,
        a.width == b.width,
        a.height == b.height,
{
}

} // verus!
