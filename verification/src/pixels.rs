//! Host-side views of raw pixel and texel data.
//!
//! The engine returns readback results as plain byte buffers. This module
//! holds the verified conversions on them: decoding little-endian 32-bit
//! texels, mapping texels to palette indices, building solid frames (the
//! host model of a render pass's clear), stripping row-alignment padding,
//! and the byte-region copy that models a buffer-to-buffer copy command.

use vstd::prelude::*;
use crate::error::Error;

verus! {

/// The value of the little-endian 32-bit word with bytes `b0..b3`.
pub open spec fn spec_u32_le(b0: u8, b1: u8, b2: u8, b3: u8) -> int {
    b0 + 256 * (b1 + 256 * (b2 + 256 * b3))
}

/// Reads one little-endian 32-bit word from its four bytes.
pub fn u32_from_le(b0: u8, b1: u8, b2: u8, b3: u8) -> (r: u32)
    ensures
        r == spec_u32_le(b0, b1, b2, b3),
{
    (b0 as u32) + 256 * ((b1 as u32) + 256 * ((b2 as u32) + 256 * (b3 as u32)))
}

/// The texel sequence encoded by a little-endian 32-bit texel buffer.
pub open spec fn spec_decoded_texels(bytes: Seq<u8>) -> Seq<int> {
    Seq::new((bytes.len() / 4) as nat, |i: int| spec_u32_le(
        bytes[4 * i],
        bytes[4 * i + 1],
        bytes[4 * i + 2],
        bytes[4 * i + 3],
    ))
}

/// Decodes a buffer of little-endian 32-bit texels. A byte length that is
/// not a whole number of texels is a `SizeMismatch`.
pub fn decode_u32_texels(bytes: &Vec<u8>) -> (r: Result<Vec<u32>, Error>)
    ensures
        r is Ok <==> bytes@.len() % 4 == 0,
        r is Err ==> r == Result::<Vec<u32>, Error>::Err(Error::SizeMismatch),
        r matches Ok(texels) ==> texels@.map_values(|t: u32| t as int) == spec_decoded_texels(
            bytes@,
        ),
{
    if bytes.len() % 4 != 0 {
        return Err(Error::SizeMismatch);
    }
    let blen: usize = bytes.len();
    let count: usize = blen / 4;
    let mut out: Vec<u32> = Vec::new();
    let mut i: usize = 0;
    while i < count
        invariant
            0 <= i <= count,
            blen == bytes@.len(),
            count == bytes@.len() / 4,
            bytes@.len() % 4 == 0,
            out@.len() == i,
            forall|j: int|
                0 <= j < i ==> out@[j] == spec_u32_le(
                    bytes@[4 * j],
                    bytes@[4 * j + 1],
                    bytes@[4 * j + 2],
                    bytes@[4 * j + 3],
                ),
        decreases count - i,
    {
        proof {
            assert(4 * i + 3 < bytes@.len()) by (nonlinear_arith)
                requires
                    i < count,
                    count == bytes@.len() / 4,
                    bytes@.len() % 4 == 0,
            ;
        }
        let t: u32 = u32_from_le(
            bytes[4 * i],
            bytes[4 * i + 1],
            bytes[4 * i + 2],
            bytes[4 * i + 3],
        );
        out.push(t);
        i = i + 1;
    }
    proof {
        assert(out@.map_values(|t: u32| t as int) =~= spec_decoded_texels(bytes@));
    }
    Ok(out)
}

/// The palette index of one texel: a live texel (any nonzero value) maps
/// to palette entry 0, a dead texel to entry 1.
pub open spec fn spec_palette_index(t: int) -> u8 {
    if t > 0 {
        0
    } else {
        1
    }
}

/// Maps each 32-bit texel to its palette index for frame encoding.
pub fn threshold_palette(cells: &Vec<u32>) -> (r: Vec<u8>)
    ensures
        r@.len() == cells@.len(),
        forall|i: int| 0 <= i < cells@.len() ==> r@[i] == spec_palette_index(cells@[i] as int),
{
    let mut out: Vec<u8> = Vec::new();
    let mut i: usize = 0;
    while i < cells.len()
        invariant
            0 <= i <= cells@.len(),
            out@.len() == i,
            forall|j: int| 0 <= j < i ==> out@[j] == spec_palette_index(cells@[j] as int),
        decreases cells@.len() - i,
    {
        if cells[i] > 0 {
            out.push(0);
        } else {
            out.push(1);
        }
        i = i + 1;
    }
    out
}

/// The color channel that byte offset `k` of a texel holds, for the
/// channel order red, green, blue, alpha.
pub open spec fn spec_rgba_channel(k: int, red: u8, green: u8, blue: u8, alpha: u8) -> u8 {
    if k == 0 {
        red
    } else if k == 1 {
        green
    } else if k == 2 {
        blue
    } else {
        alpha
    }
}

/// A solid four-channel frame: every texel holds the given color. This is
/// the host model of a render pass that clears its target and draws
/// nothing over a region.
pub fn solid_frame(width: u32, height: u32, red: u8, green: u8, blue: u8, alpha: u8) -> (r: Vec<
    u8,
>)
    requires
        width <= 8192,
        height <= 8192,
    ensures
        r@.len() == 4 * width * height,
        forall|j: int|
            0 <= j < r@.len() ==> r@[j] == spec_rgba_channel(j % 4, red, green, blue, alpha),
{
    proof {
        assert((width as int) * (height as int) <= 8192 * 8192) by (nonlinear_arith)
            requires
                width <= 8192,
                height <= 8192,
        ;
    }
    let texels: usize = (width as usize) * (height as usize);
    let mut out: Vec<u8> = Vec::new();
    let mut t: usize = 0;
    while t < texels
        invariant
            0 <= t <= texels,
            texels == width * height,
            texels <= 8192 * 8192,
            out@.len() == 4 * t,
            forall|k: int|
                0 <= k < out@.len() ==> out@[k] == spec_rgba_channel(
                    k % 4,
                    red,
                    green,
                    blue,
                    alpha,
                ),
        decreases texels - t,
    {
        proof {
            let base = 4 * (t as int);
            assert(base % 4 == 0 && (base + 1) % 4 == 1 && (base + 2) % 4 == 2 && (base + 3) % 4
                == 3) by (nonlinear_arith)
                requires
                    base == 4 * (t as int),
                    t >= 0,
            ;
        }
        out.push(red);
        out.push(green);
        out.push(blue);
        out.push(alpha);
        t = t + 1;
    }
    proof {
        assert(4 * ((width as int) * height) == 4 * (width as int) * height) by (nonlinear_arith);
    }
    out
}

/// Reads the four channels of the pixel at column `x`, row `y` of a
/// row-major four-channel frame.
pub fn pixel_at(frame: &Vec<u8>, width: u32, height: u32, x: u32, y: u32) -> (r: (u8, u8, u8, u8))
    requires
        frame@.len() == 4 * width * height,
        x < width,
        y < height,
    ensures
        r.0 == frame@[4 * (y * width + x)],
        r.1 == frame@[4 * (y * width + x) + 1],
        r.2 == frame@[4 * (y * width + x) + 2],
        r.3 == frame@[4 * (y * width + x) + 3],
{
    let flen: usize = frame.len();
    proof {
        assert(y * width + x < width * height) by (nonlinear_arith)
            requires
                x < width,
                y < height,
        ;
        assert(4 * ((y as int) * width + x) + 3 < 4 * (width as int) * height) by (nonlinear_arith)
            requires
                (y as int) * width + x < (width as int) * height,
        ;
        assert(4 * ((y as int) * width + x) + 3 < flen);
    }
    let base: usize = 4 * ((y as usize) * (width as usize) + (x as usize));
    (frame[base], frame[base + 1], frame[base + 2], frame[base + 3])
}

/// The destination bytes after copying `n` bytes of `src` starting at
/// `src_off` over the destination starting at `dst_off`.
pub open spec fn spec_copy_region(
    dst: Seq<u8>,
    src: Seq<u8>,
    src_off: int,
    dst_off: int,
    n: int,
) -> Seq<u8> {
    Seq::new(dst.len(), |i: int| if dst_off <= i < dst_off + n {
        src[src_off + (i - dst_off)]
    } else {
        dst[i]
    })
}

/// Copies a byte region, the host model of a copy command between
/// buffers: bytes inside the destination region take the source's values,
/// bytes outside it are untouched.
pub fn copy_region(dst: &mut Vec<u8>, src: &Vec<u8>, src_off: usize, dst_off: usize, n: usize)
    requires
        src_off + n <= src@.len(),
        dst_off + n <= old(dst)@.len(),
    ensures
        final(dst)@ == spec_copy_region(old(dst)@, src@, src_off as int, dst_off as int, n as int),
{
    let src_len: usize = src.len();
    let dst_len: usize = dst.len();
    let mut i: usize = 0;
    while i < n
        invariant
            0 <= i <= n,
            src_len == src@.len(),
            dst_len == dst@.len(),
            src_off + n <= src@.len(),
            dst_off + n <= dst@.len(),
            dst@.len() == old(dst)@.len(),
            forall|k: int|
                0 <= k < dst@.len() ==> dst@[k] == (if dst_off <= k < dst_off + i {
                    src@[src_off + (k - dst_off)]
                } else {
                    old(dst)@[k]
                }),
        decreases n - i,
    {
        dst.set(dst_off + i, src[src_off + i]);
        i = i + 1;
    }
    proof {
        assert(dst@ =~= spec_copy_region(
            old(dst)@,
            src@,
            src_off as int,
            dst_off as int,
            n as int,
        ));
    }
}

/// The round-trip core: copying a whole source over a destination of the
/// same length reproduces the source exactly.
pub proof fn lemma_full_copy_is_identity(dst: Seq<u8>, src: Seq<u8>)
    requires
        dst.len() == src.len(),
    ensures
        spec_copy_region(dst, src, 0, 0, src.len() as int) == src,
{
    assert(spec_copy_region(dst, src, 0, 0, src.len() as int) =~= src);
}

/// The stripped form of a row-padded buffer: each of the `rows` rows of
/// `padded` bytes contributes its first `unpadded` bytes.
pub open spec fn spec_strip_rows(bytes: Seq<u8>, padded: int, unpadded: int, rows: int) -> Seq<
    u8,
> {
    Seq::new((unpadded * rows) as nat, |j: int| bytes[(j / unpadded) * padded + j % unpadded])
}

/// Removes the row-alignment padding of a readback buffer, keeping the
/// first `unpadded` bytes of each aligned row.
pub fn strip_row_padding(bytes: &Vec<u8>, padded: usize, unpadded: usize, rows: usize) -> (r: Vec<
    u8,
>)
    requires
        0 < unpadded <= padded,
        bytes@.len() == padded * rows,
        unpadded * rows <= usize::MAX,
    ensures
        r@ == spec_strip_rows(bytes@, padded as int, unpadded as int, rows as int),
        r@.len() == unpadded * rows,
{
    let bytes_len: usize = bytes.len();
    let mut out: Vec<u8> = Vec::new();
    let mut row: usize = 0;
    while row < rows
        invariant
            0 <= row <= rows,
            0 < unpadded <= padded,
            bytes_len == bytes@.len(),
            bytes@.len() == padded * rows,
            unpadded * rows <= usize::MAX,
            out@.len() == unpadded * row,
            forall|j: int|
                0 <= j < out@.len() ==> out@[j] == bytes@[(j / (unpadded as int)) * padded + j % (
                unpadded as int)],
        decreases rows - row,
    {
        proof {
            assert(unpadded * row + unpadded <= unpadded * rows) by (nonlinear_arith)
                requires
                    row < rows,
                    unpadded > 0,
            ;
        }
        let mut col: usize = 0;
        while col < unpadded
            invariant
                0 <= col <= unpadded,
                row < rows,
                0 < unpadded <= padded,
                bytes_len == bytes@.len(),
                bytes@.len() == padded * rows,
                unpadded * rows <= usize::MAX,
                unpadded * row + unpadded <= unpadded * rows,
                out@.len() == unpadded * row + col,
                forall|j: int|
                    0 <= j < out@.len() ==> out@[j] == bytes@[(j / (unpadded as int)) * padded + j
                        % (unpadded as int)],
            decreases unpadded - col,
        {
            proof {
                assert(padded * row + col < padded * rows) by (nonlinear_arith)
                    requires
                        row < rows,
                        col < unpadded,
                        unpadded <= padded,
                        padded > 0,
                ;
            }
            let b: u8 = bytes[padded * row + col];
            let ghost prev = out@;
            out.push(b);
            proof {
                let u = unpadded as int;
                let j = u * (row as int) + col;
                assert(j / u == row && j % u == col) by (nonlinear_arith)
                    requires
                        j == u * (row as int) + col,
                        0 <= col < unpadded,
                        0 < u == unpadded,
                ;
                assert(out@[j] == b);
                assert((j / u) * padded == padded * (row as int)) by (nonlinear_arith)
                    requires
                        j / u == row,
                ;
                assert(out@[j] == bytes@[(j / u) * padded + j % u]);
                assert forall|k: int|
                    0 <= k < out@.len() implies out@[k] == bytes@[(k / u) * padded + k % u] by {
                    if k < j {
                        assert(out@[k] == prev[k]);
                    }
                }
            }
            col = col + 1;
        }
        proof {
            assert(unpadded * (row + 1) == unpadded * row + unpadded) by (nonlinear_arith);
        }
        row = row + 1;
    }
    proof {
        assert(out@ =~= spec_strip_rows(bytes@, padded as int, unpadded as int, rows as int));
    }
    out
}

} // verus!
