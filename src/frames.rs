use crate::layout::RowLayout;
use vstd::prelude::*;

verus! {

/// The first `rows` rows of a padded buffer with row pitch `pitch`, each cut
/// to its first `row` bytes and joined in row order.
pub open spec fn depad_rows(padded: Seq<u8>, row: nat, pitch: nat, rows: nat) -> Seq<u8>
    decreases rows,
{
    if rows == 0 {
        Seq::empty()
    } else {
        let start = ((rows - 1) as nat) * pitch;
        depad_rows(padded, row, pitch, (rows - 1) as nat) + padded.subrange(
            start as int,
            (start + row) as int,
        )
    }
}

/// The first `rows` rows of a tightly packed frame, each followed by zero
/// bytes up to the row pitch `pitch`.
pub open spec fn pad_rows(frame: Seq<u8>, row: nat, pitch: nat, rows: nat) -> Seq<u8>
    decreases rows,
{
    if rows == 0 {
        Seq::empty()
    } else {
        let start = ((rows - 1) as nat) * row;
        pad_rows(frame, row, pitch, (rows - 1) as nat) + frame.subrange(
            start as int,
            (start + row) as int,
        ) + Seq::new((pitch - row) as nat, |i: int| 0u8)
    }
}

proof fn lemma_row_end(r: nat, row: nat, pitch: nat, rows: nat)
    requires
        r < rows,
        row <= pitch,
    ensures
        r * pitch + row <= rows * pitch,
        r * pitch + pitch <= rows * pitch,
        r * row + row <= rows * row,
{
    assert(r * pitch + pitch <= rows * pitch) by (nonlinear_arith)
        requires r < rows;
    assert(r * row + row <= rows * row) by (nonlinear_arith)
        requires r < rows;
}

proof fn lemma_pad_rows_len(frame: Seq<u8>, row: nat, pitch: nat, rows: nat)
    requires
        row <= pitch,
        rows * row <= frame.len(),
    ensures
        pad_rows(frame, row, pitch, rows).len() == rows * pitch,
    decreases rows,
{
    if rows > 0 {
        let k = (rows - 1) as nat;
        lemma_row_end(k, row, pitch, rows);
        lemma_pad_rows_len(frame, row, pitch, k);
        assert(k * pitch + pitch == rows * pitch) by (nonlinear_arith)
            requires k + 1 == rows;
        let start = k * row;
        assert(frame.subrange(start as int, (start + row) as int).len() == row);
        assert(Seq::new((pitch - row) as nat, |i: int| 0u8).len() == pitch - row);
    } else {
        assert(rows * pitch == 0) by (nonlinear_arith)
            requires rows == 0;
    }
}

proof fn lemma_depad_rows_len(padded: Seq<u8>, row: nat, pitch: nat, rows: nat)
    requires
        row <= pitch,
        rows * pitch <= padded.len(),
    ensures
        depad_rows(padded, row, pitch, rows).len() == rows * row,
    decreases rows,
{
    if rows > 0 {
        let k = (rows - 1) as nat;
        lemma_row_end(k, row, pitch, rows);
        lemma_depad_rows_len(padded, row, pitch, k);
        assert(k * row + row == rows * row) by (nonlinear_arith)
            requires k + 1 == rows;
        let start = k * pitch;
        assert(padded.subrange(start as int, (start + row) as int).len() == row);
    } else {
        assert(rows * row == 0) by (nonlinear_arith)
            requires rows == 0;
    }
}

/// Bytes past the first `rows` rows do not change what de-padding keeps.
proof fn lemma_depad_rows_prefix(s: Seq<u8>, t: Seq<u8>, row: nat, pitch: nat, rows: nat)
    requires
        row <= pitch,
        rows * pitch <= s.len(),
    ensures
        depad_rows(s + t, row, pitch, rows) == depad_rows(s, row, pitch, rows),
    decreases rows,
{
    if rows > 0 {
        let k = (rows - 1) as nat;
        lemma_row_end(k, row, pitch, rows);
        lemma_depad_rows_prefix(s, t, row, pitch, k);
        let start = k * pitch;
        assert((s + t).subrange(start as int, (start + row) as int) =~= s.subrange(
            start as int,
            (start + row) as int,
        ));
    }
}

/// Padding a tight frame to a row pitch and removing the padding again gives
/// back the frame, byte for byte.
pub proof fn lemma_depad_round_trip(frame: Seq<u8>, row: nat, pitch: nat, rows: nat)
    requires
        row <= pitch,
        frame.len() == rows * row,
    ensures
        depad_rows(pad_rows(frame, row, pitch, rows), row, pitch, rows) == frame,
{
    lemma_depad_pad_prefix(frame, row, pitch, rows);
    assert(frame.subrange(0, (rows * row) as int) =~= frame);
}

proof fn lemma_depad_pad_prefix(frame: Seq<u8>, row: nat, pitch: nat, rows: nat)
    requires
        row <= pitch,
        rows * row <= frame.len(),
    ensures
        depad_rows(pad_rows(frame, row, pitch, rows), row, pitch, rows) == frame.subrange(
            0,
            (rows * row) as int,
        ),
    decreases rows,
{
    if rows == 0 {
        assert(frame.subrange(0, 0) =~= Seq::<u8>::empty());
    } else {
        let k = (rows - 1) as nat;
        lemma_row_end(k, row, pitch, rows);
        assert(k * row <= frame.len());
        lemma_depad_pad_prefix(frame, row, pitch, k);
        lemma_pad_rows_len(frame, row, pitch, k);
        let prev = pad_rows(frame, row, pitch, k);
        let chunk = frame.subrange((k * row) as int, (k * row + row) as int);
        let zeros = Seq::new((pitch - row) as nat, |i: int| 0u8);
        let whole = pad_rows(frame, row, pitch, rows);
        assert(whole == prev + (chunk + zeros)) by {
            assert(whole =~= prev + (chunk + zeros));
        }
        lemma_depad_rows_prefix(prev, chunk + zeros, row, pitch, k);
        let start = k * pitch;
        assert(whole.subrange(start as int, (start + row) as int) =~= chunk);
        assert(k * row + row == rows * row) by (nonlinear_arith)
            requires k + 1 == rows;
        assert(frame.subrange(0, (k * row) as int) + chunk =~= frame.subrange(
            0,
            (rows * row) as int,
        ));
    }
}

/// Copies the pixel bytes of a mapped read-back buffer into one tightly packed
/// frame, leaving out the padding at the end of each row.
pub fn depad_frame(padded: &Vec<u8>, layout: &RowLayout) -> (r: Vec<u8>)
    requires
        layout.wf(),
        padded@.len() == layout.buffer_size,
    ensures
        r@ == depad_rows(
            padded@,
            layout.unpadded_bytes_per_row as nat,
            layout.padded_bytes_per_row as nat,
            layout.height as nat,
        ),
        r@.len() == layout.unpadded_bytes_per_row * layout.height,
{
    let row = layout.unpadded_bytes_per_row;
    let pitch = layout.padded_bytes_per_row;
    let height = layout.height;
    let ghost p = padded@;
    let mut out: Vec<u8> = Vec::new();
    let mut r: usize = 0;
    while r < height
        invariant
            r <= height,
            row <= pitch,
            p == padded@,
            p.len() == pitch * height,
            p.len() <= usize::MAX,
            out@ == depad_rows(p, row as nat, pitch as nat, r as nat),
        decreases height - r,
    {
        proof {
            lemma_row_end(r as nat, row as nat, pitch as nat, height as nat);
            assert(pitch * height == height * pitch) by (nonlinear_arith);
        }
        let base = r * pitch;
        let mut j: usize = 0;
        while j < row
            invariant
                j <= row,
                r < height,
                row <= pitch,
                p == padded@,
                base == r * pitch,
                base + row <= p.len(),
                p.len() <= usize::MAX,
                out@ == depad_rows(p, row as nat, pitch as nat, r as nat) + p.subrange(
                    base as int,
                    (base + j) as int,
                ),
            decreases row - j,
        {
            out.push(padded[base + j]);
            j += 1;
            proof {
                assert(out@ =~= depad_rows(p, row as nat, pitch as nat, r as nat) + p.subrange(
                    base as int,
                    (base + j) as int,
                ));
            }
        }
        r += 1;
    }
    proof {
        assert(pitch * height == height * pitch) by (nonlinear_arith);
        lemma_depad_rows_len(p, row as nat, pitch as nat, height as nat);
        assert(height * row == row * height) by (nonlinear_arith);
    }
    out
}

/// Lays a tightly packed frame out with the row pitch of `layout`, filling
/// each row's padding with zero bytes: the shape in which a surface copy
/// delivers a frame.
pub fn pad_frame(frame: &Vec<u8>, layout: &RowLayout) -> (r: Vec<u8>)
    requires
        layout.wf(),
        frame@.len() == layout.unpadded_bytes_per_row * layout.height,
    ensures
        r@ == pad_rows(
            frame@,
            layout.unpadded_bytes_per_row as nat,
            layout.padded_bytes_per_row as nat,
            layout.height as nat,
        ),
        r@.len() == layout.buffer_size,
{
    let row = layout.unpadded_bytes_per_row;
    let pitch = layout.padded_bytes_per_row;
    let height = layout.height;
    let ghost f = frame@;
    proof {
        assert(row * height <= pitch * height) by (nonlinear_arith)
            requires row <= pitch;
    }
    let mut out: Vec<u8> = Vec::new();
    let mut r: usize = 0;
    while r < height
        invariant
            r <= height,
            row <= pitch,
            f == frame@,
            f.len() == row * height,
            f.len() <= usize::MAX,
            out@ == pad_rows(f, row as nat, pitch as nat, r as nat),
        decreases height - r,
    {
        proof {
            lemma_row_end(r as nat, row as nat, pitch as nat, height as nat);
            assert(row * height == height * row) by (nonlinear_arith);
        }
        let base = r * row;
        let mut j: usize = 0;
        while j < row
            invariant
                j <= row,
                r < height,
                f == frame@,
                base == r * row,
                base + row <= f.len(),
                f.len() <= usize::MAX,
                out@ == pad_rows(f, row as nat, pitch as nat, r as nat) + f.subrange(
                    base as int,
                    (base + j) as int,
                ),
            decreases row - j,
        {
            out.push(frame[base + j]);
            j += 1;
            proof {
                assert(out@ =~= pad_rows(f, row as nat, pitch as nat, r as nat) + f.subrange(
                    base as int,
                    (base + j) as int,
                ));
            }
        }
        let ghost with_row = out@;
        let mut z: usize = row;
        while z < pitch
            invariant
                row <= z <= pitch,
                out@ == with_row + Seq::new((z - row) as nat, |i: int| 0u8),
            decreases pitch - z,
        {
            out.push(0u8);
            z += 1;
            proof {
                assert(out@ =~= with_row + Seq::new((z - row) as nat, |i: int| 0u8));
            }
        }
        r += 1;
        proof {
            assert(out@ =~= pad_rows(f, row as nat, pitch as nat, r as nat));
        }
    }
    proof {
        assert(row * height == height * row) by (nonlinear_arith);
        lemma_pad_rows_len(f, row as nat, pitch as nat, height as nat);
        assert(height * pitch == pitch * height) by (nonlinear_arith);
    }
    out
}

} // verus!

verus! {

/// The ordered store of captured frames; insertion order is presentation order.
pub struct GifCaptureFrames {
    frames: Vec<Vec<u8>>,
}

impl View for GifCaptureFrames {
    type V = Seq<Seq<u8>>;

    closed spec fn view(&self) -> Seq<Seq<u8>> {
        self.frames@.map_values(|f: Vec<u8>| f@)
    }
}

impl Default for GifCaptureFrames {
    fn default() -> (r: GifCaptureFrames)
        ensures
            r@ == Seq::<Seq<u8>>::empty(),
    {
        GifCaptureFrames::new()
    }
}

impl GifCaptureFrames {
    /// An empty store.
    pub fn new() -> (r: GifCaptureFrames)
        ensures
            r@ == Seq::<Seq<u8>>::empty(),
    {
        let r = GifCaptureFrames { frames: Vec::new() };
        proof {
            assert(r@ =~= Seq::<Seq<u8>>::empty());
        }
        r
    }

    /// Number of stored frames.
    pub fn len(&self) -> (r: usize)
        ensures
            r == self@.len(),
    {
        self.frames.len()
    }

    /// Whether no frame is stored.
    pub fn is_empty(&self) -> (r: bool)
        ensures
            r == (self@.len() == 0),
    {
        self.frames.len() == 0
    }

    /// Appends a frame after all stored ones.
    pub fn push(&mut self, frame: Vec<u8>)
        ensures
            final(self)@ == old(self)@.push(frame@),
    {
        self.frames.push(frame);
        proof {
            assert(final(self)@ =~= old(self)@.push(frame@));
        }
    }

    /// Removes every stored frame.
    pub fn clear(&mut self)
        ensures
            final(self)@ == Seq::<Seq<u8>>::empty(),
    {
        self.frames.clear();
        proof {
            assert(final(self)@ =~= Seq::<Seq<u8>>::empty());
        }
    }

    /// The stored frames, in order.
    pub fn frames(&self) -> (r: &Vec<Vec<u8>>)
        ensures
            r@.map_values(|f: Vec<u8>| f@) == self@,
    {
        &self.frames
    }
}

} // verus!
