use vstd::arithmetic::div_mod::{lemma_fundamental_div_mod, lemma_mod_multiples_basic};
use vstd::prelude::*;

verus! {

/// Bytes per RGBA8 pixel.
pub const BYTES_PER_PIXEL: usize = 4;

/// Number of bytes that one row of `width` RGBA8 pixels takes when packed tightly.
pub open spec fn unpadded_row_len(width: nat) -> nat {
    4 * width
}

/// The smallest multiple of `alignment` that is at least `n`.
pub open spec fn align_up(n: nat, alignment: nat) -> nat
    recommends
        alignment > 0,
{
    if n % alignment == 0 {
        n
    } else {
        (n + (alignment - n % alignment)) as nat
    }
}

/// Row pitch of a read-back buffer: a tight row rounded up to the device alignment.
pub open spec fn padded_row_len(width: nat, alignment: nat) -> nat {
    align_up(unpadded_row_len(width), alignment)
}

/// Byte layout of a read-back buffer holding one frame of a surface.
#[derive(Clone, Copy, Debug, PartialEq, Eq)]
pub struct RowLayout {
    pub width: usize,
    pub height: usize,
    pub unpadded_bytes_per_row: usize,
    pub padded_bytes_per_row: usize,
    pub buffer_size: usize,
}

impl RowLayout {
    /// The layout that a surface of `width` x `height` pixels gets under `alignment`.
    pub open spec fn spec_of(width: nat, height: nat, alignment: nat) -> (nat, nat, nat) {
        (
            unpadded_row_len(width),
            padded_row_len(width, alignment),
            padded_row_len(width, alignment) * height,
        )
    }

    /// Whether every size of the layout fits in `usize`.
    pub open spec fn fits(width: nat, height: nat, alignment: nat) -> bool {
        &&& padded_row_len(width, alignment) <= usize::MAX
        &&& padded_row_len(width, alignment) * height <= usize::MAX
    }

    pub open spec fn wf(&self) -> bool {
        &&& self.unpadded_bytes_per_row == unpadded_row_len(self.width as nat)
        &&& self.unpadded_bytes_per_row <= self.padded_bytes_per_row
        &&& self.buffer_size == self.padded_bytes_per_row * self.height
    }

    /// Computes the layout, or `None` where one of its sizes does not fit in `usize`.
    pub fn new(width: usize, height: usize, alignment: usize) -> (r: Option<RowLayout>)
        requires
            alignment > 0,
        ensures
            r is Some <==> RowLayout::fits(width as nat, height as nat, alignment as nat),
            r matches Some(l) ==> {
                &&& l.wf()
                &&& l.width == width
                &&& l.height == height
                &&& (l.unpadded_bytes_per_row as nat, l.padded_bytes_per_row as nat, l.buffer_size as nat)
                    == RowLayout::spec_of(width as nat, height as nat, alignment as nat)
            },
    {
        proof {
            lemma_padding_bounds(width as nat, alignment as nat);
        }
        let unpadded = match unpadded_bytes_per_row(width) {
            Some(u) => u,
            None => {
                return None;
            },
        };
        let padded = match padded_bytes_per_row(unpadded, alignment) {
            Some(p) => p,
            None => {
                return None;
            },
        };
        if height != 0 && padded > usize::MAX / height {
            proof {
                assert(padded * height > usize::MAX) by (nonlinear_arith)
                    requires height > 0, padded > usize::MAX / height;
            }
            return None;
        }
        proof {
            if height != 0 {
                assert(padded * height <= usize::MAX) by (nonlinear_arith)
                    requires height > 0, padded <= usize::MAX / height;
            }
        }
        let size = padded * height;
        Some(RowLayout {
            width,
            height,
            unpadded_bytes_per_row: unpadded,
            padded_bytes_per_row: padded,
            buffer_size: size,
        })
    }
}

/// `4 * width`, the length of a tightly packed row, or `None` where it does not fit.
pub fn unpadded_bytes_per_row(width: usize) -> (r: Option<usize>)
    ensures
        r is Some <==> unpadded_row_len(width as nat) <= usize::MAX,
        r matches Some(n) ==> n == unpadded_row_len(width as nat),
{
    if width > usize::MAX / BYTES_PER_PIXEL {
        None
    } else {
        Some(width * BYTES_PER_PIXEL)
    }
}

/// Rounds `unpadded` up to a multiple of `alignment`, or `None` where that does not fit.
pub fn padded_bytes_per_row(unpadded: usize, alignment: usize) -> (r: Option<usize>)
    requires
        alignment > 0,
    ensures
        r is Some <==> align_up(unpadded as nat, alignment as nat) <= usize::MAX,
        r matches Some(n) ==> n == align_up(unpadded as nat, alignment as nat),
{
    let rem = unpadded % alignment;
    if rem == 0 {
        Some(unpadded)
    } else if unpadded > usize::MAX - (alignment - rem) {
        None
    } else {
        Some(unpadded + (alignment - rem))
    }
}

/// A padded row is never shorter than the tight row, is a multiple of the
/// alignment, and exceeds the tight row by less than one alignment step.
pub proof fn lemma_padding_bounds(width: nat, alignment: nat)
    requires
        alignment > 0,
    ensures
        unpadded_row_len(width) <= padded_row_len(width, alignment),
        padded_row_len(width, alignment) % alignment == 0,
        padded_row_len(width, alignment) < unpadded_row_len(width) + alignment,
{
    let n = unpadded_row_len(width) as int;
    let a = alignment as int;
    lemma_fundamental_div_mod(n, a);
    if n % a != 0 {
        let q = n / a;
        assert(n + (a - n % a) == (q + 1) * a) by (nonlinear_arith)
            requires n == a * q + n % a;
        lemma_mod_multiples_basic(q + 1, a);
    }
}

} // verus!
