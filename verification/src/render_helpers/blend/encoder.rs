//! CPU encoding of cursor images into the HDR blend space.

use vstd::prelude::*;

verus! {

/// CPU encode of a premultiplied ARGB8888 buffer (little-endian, so B,G,R,A bytes) from electrical
/// sRGB into PQ/BT.2020, for the cursor plane on HDR outputs: its contents bypass the renderer, so
/// the conversion the blend shaders would do runs here instead.
///
/// `encode_pixel` encodes the color of one pixel that is not fully transparent: from its blue,
/// green, red and alpha to its encoded blue, green and red.
pub struct SrgbToPqEncoder<F> {
    pub encode_pixel: F,
}

/// The pixel in column `col` of the row at `start` is encoded. Fully transparent pixels encode to
/// zero, and alpha is kept.
pub open spec fn pixel_encoded<F: Fn(u8, u8, u8, u8) -> (u8, u8, u8)>(
    encode_pixel: F,
    before: Seq<u8>,
    after: Seq<u8>,
    start: int,
    col: int,
) -> bool {
    let b = start + 4 * col;
    let g = b + 1;
    let r = b + 2;
    let a = b + 3;
    &&& after[a] == before[a]
    &&& if before[a] == 0 {
        after[b] == 0 && after[g] == 0 && after[r] == 0
    } else {
        call_ensures(
            encode_pixel,
            (before[b], before[g], before[r], before[a]),
            (after[b], after[g], after[r]),
        )
    }
}

/// The `width` pixels of the row at `start` are encoded, and nothing else changes.
pub open spec fn row_encoded<F: Fn(u8, u8, u8, u8) -> (u8, u8, u8)>(
    encode_pixel: F,
    before: Seq<u8>,
    after: Seq<u8>,
    start: int,
    width: int,
) -> bool {
    &&& after.len() == before.len()
    &&& forall|i: int|
        0 <= i < before.len() && !(start <= i < start + 4 * width) ==> #[trigger] after[i]
            == before[i]
    &&& forall|col: int|
        0 <= col < width ==> #[trigger] pixel_encoded(encode_pixel, before, after, start, col)
}

/// The buffer as it is after each row: row by row, the rows are encoded one after the other.
pub open spec fn encoding_run<F: Fn(u8, u8, u8, u8) -> (u8, u8, u8)>(
    encode_pixel: F,
    states: Seq<Seq<u8>>,
    stride: int,
    width: int,
) -> bool {
    forall|row: int|
        0 <= row < states.len() - 1 ==> #[trigger] row_encoded(
            encode_pixel,
            states[row],
            states[row + 1],
            row * stride,
            width,
        )
}

/// The first `rows` rows are encoded, one after the other.
pub open spec fn rows_encoded<F: Fn(u8, u8, u8, u8) -> (u8, u8, u8)>(
    encode_pixel: F,
    before: Seq<u8>,
    after: Seq<u8>,
    stride: int,
    width: int,
    rows: int,
) -> bool {
    exists|states: Seq<Seq<u8>>|
        {
            &&& #[trigger] encoding_run(encode_pixel, states, stride, width)
            &&& states.len() == rows + 1
            &&& states.first() == before
            &&& states.last() == after
        }
}

impl<F: Fn(u8, u8, u8, u8) -> (u8, u8, u8)> SrgbToPqEncoder<F> {
    pub fn new(encode_pixel: F) -> (encoder: Self)
        ensures
            encoder.encode_pixel == encode_pixel,
    {
        SrgbToPqEncoder { encode_pixel }
    }

    /// Encodes the pixels of a buffer whose rows start `stride` bytes apart.
    pub fn apply(&self, data: &mut [u8], stride: u32, size: (u32, u32))
        requires
            forall|b: u8, g: u8, r: u8, a: u8|
                a != 0 ==> #[trigger] call_requires(self.encode_pixel, (b, g, r, a)),
            size.0 * 4 <= usize::MAX,
            size.1 > 0 ==> (size.1 - 1) * stride + size.0 * 4 <= old(data)@.len(),
        ensures
            rows_encoded(
                self.encode_pixel,
                old(data)@,
                final(data)@,
                stride as int,
                size.0 as int,
                size.1 as int,
            ),
    {
        let (width, height) = size;
        let ghost len: usize = data.len();
        let ghost before = data@;
        let ghost mut states = seq![before];
        let mut row: u32 = 0;
        let mut start: usize = 0;
        while row < height
            invariant
                row <= height,
                data@.len() == before.len(),
                before.len() == len,
                size == (width, height),
                width * 4 <= usize::MAX,
                height > 0 ==> (height - 1) * stride + width * 4 <= before.len(),
                row < height ==> start == row * stride,
                forall|b: u8, g: u8, r: u8, a: u8|
                    a != 0 ==> #[trigger] call_requires(self.encode_pixel, (b, g, r, a)),
                states.len() == row + 1,
                states.first() == before,
                states.last() == data@,
                encoding_run(self.encode_pixel, states, stride as int, width as int),
            decreases height - row,
        {
            proof {
                lemma_row_fits(row as int, height as int, stride as int);
            }
            self.encode_row(data, start, width);
            proof {
                let longer = states.push(data@);
                assert forall|k: int| 0 <= k < longer.len() - 1 implies #[trigger] row_encoded(
                    self.encode_pixel,
                    longer[k],
                    longer[k + 1],
                    k * stride,
                    width as int,
                ) by {
                    if k < row {
                        assert(row_encoded(
                            self.encode_pixel,
                            states[k],
                            states[k + 1],
                            k * stride,
                            width as int,
                        ));
                    }
                }
                states = longer;
            }
            row = row + 1;
            if row < height {
                proof {
                    lemma_row_fits(row as int, height as int, stride as int);
                    assert(row * stride == (row - 1) * stride + stride) by (nonlinear_arith);
                }
                start = start + stride as usize;
            }
        }
    }

    fn encode_row(&self, data: &mut [u8], start: usize, width: u32)
        requires
            forall|b: u8, g: u8, r: u8, a: u8|
                a != 0 ==> #[trigger] call_requires(self.encode_pixel, (b, g, r, a)),
            start + width * 4 <= old(data)@.len(),
        ensures
            row_encoded(self.encode_pixel, old(data)@, final(data)@, start as int, width as int),
    {
        // The data is typically a mapping of the cursor buffer object, which may be uncached; do
        // the per-byte work in a regular allocation and copy back.
        let ghost len: usize = data.len();
        let ghost before = data@;
        let row_len: usize = width as usize * 4;
        let mut row_buf: Vec<u8> = Vec::with_capacity(row_len);
        let mut i: usize = 0;
        while i < row_len
            invariant
                i <= row_len,
                i % 4 == 0,
                row_len == width * 4,
                row_buf.len() == i,
                data@ == before,
                start + row_len <= before.len(),
                before.len() == len,
                forall|b: u8, g: u8, r: u8, a: u8|
                    a != 0 ==> #[trigger] call_requires(self.encode_pixel, (b, g, r, a)),
                forall|col: int|
                    0 <= col && 4 * col < i ==> #[trigger] row_pixel_encoded(
                        self.encode_pixel,
                        before,
                        row_buf@,
                        start as int,
                        col,
                    ),
            decreases row_len - i,
        {
            let b: u8 = data[start + i];
            let g: u8 = data[start + i + 1];
            let r: u8 = data[start + i + 2];
            let a: u8 = data[start + i + 3];
            let ghost done = row_buf@;
            let (eb, eg, er) = if a == 0 {
                // Premultiplied: fully transparent pixels encode to zero.
                (0u8, 0u8, 0u8)
            } else {
                (self.encode_pixel)(b, g, r, a)
            };
            row_buf.push(eb);
            row_buf.push(eg);
            row_buf.push(er);
            row_buf.push(a);
            assert forall|col: int| 0 <= col && 4 * col < i + 4 implies #[trigger] row_pixel_encoded(
                self.encode_pixel,
                before,
                row_buf@,
                start as int,
                col,
            ) by {
                if 4 * col < i {
                    assert(row_pixel_encoded(self.encode_pixel, before, done, start as int, col));
                }
            }
            i = i + 4;
        }

        let mut k: usize = 0;
        while k < row_len
            invariant
                k <= row_len,
                row_len == width * 4,
                row_buf.len() == row_len,
                data@.len() == before.len(),
                start + row_len <= before.len(),
                before.len() == len,
                forall|j: int|
                    0 <= j < before.len() ==> #[trigger] data@[j] == if start <= j < start + k {
                        row_buf@[j - start]
                    } else {
                        before[j]
                    },
            decreases row_len - k,
        {
            data[start + k] = row_buf[k];
            k = k + 1;
        }
        assert forall|col: int| 0 <= col < width implies #[trigger] pixel_encoded(
            self.encode_pixel,
            before,
            data@,
            start as int,
            col,
        ) by {
            assert(row_pixel_encoded(self.encode_pixel, before, row_buf@, start as int, col));
        }
    }
}

/// Like [`pixel_encoded`], with the encoded row in a buffer of its own.
spec fn row_pixel_encoded<F: Fn(u8, u8, u8, u8) -> (u8, u8, u8)>(
    encode_pixel: F,
    before: Seq<u8>,
    row: Seq<u8>,
    start: int,
    col: int,
) -> bool {
    let b = start + 4 * col;
    &&& row[4 * col + 3] == before[b + 3]
    &&& if before[b + 3] == 0 {
        row[4 * col] == 0 && row[4 * col + 1] == 0 && row[4 * col + 2] == 0
    } else {
        call_ensures(
            encode_pixel,
            (before[b], before[b + 1], before[b + 2], before[b + 3]),
            (row[4 * col], row[4 * col + 1], row[4 * col + 2]),
        )
    }
}

proof fn lemma_row_fits(row: int, height: int, stride: int)
    requires
        0 <= row < height,
        0 <= stride,
    ensures
        0 <= row * stride <= (height - 1) * stride,
{
    assert(0 <= row * stride <= (height - 1) * stride) by (nonlinear_arith)
        requires
            0 <= row < height,
            0 <= stride,
    ;
}

proof fn lemma_states_keep_length<F: Fn(u8, u8, u8, u8) -> (u8, u8, u8)>(
    encode_pixel: F,
    states: Seq<Seq<u8>>,
    stride: int,
    width: int,
    k: int,
)
    requires
        encoding_run(encode_pixel, states, stride, width),
        0 <= k < states.len(),
    ensures
        states[k].len() == states[0].len(),
    decreases k,
{
    if k > 0 {
        lemma_states_keep_length(encode_pixel, states, stride, width, k - 1);
        let row = k - 1;
        assert(row_encoded(encode_pixel, states[row], states[row + 1], row * stride, width));
    }
}

/// Byte `i` stays the same from state `from` to state `to` when none of the rows in between holds
/// it.
proof fn lemma_byte_untouched<F: Fn(u8, u8, u8, u8) -> (u8, u8, u8)>(
    encode_pixel: F,
    states: Seq<Seq<u8>>,
    stride: int,
    width: int,
    from: int,
    to: int,
    i: int,
)
    requires
        encoding_run(encode_pixel, states, stride, width),
        0 <= from <= to < states.len(),
        0 <= i < states[0].len(),
        forall|row: int|
            from <= row < to ==> !(#[trigger] (row * stride) <= i < row * stride + 4 * width),
    ensures
        states[from][i] == states[to][i],
    decreases to - from,
{
    if from < to {
        lemma_byte_untouched(encode_pixel, states, stride, width, from, to - 1, i);
        lemma_states_keep_length(encode_pixel, states, stride, width, to - 1);
        let row = to - 1;
        assert(row_encoded(encode_pixel, states[row], states[row + 1], row * stride, width));
        assert(!(row * stride <= i < row * stride + 4 * width));
    }
}

/// When rows do not overlap, every pixel is encoded exactly once, from its value before.
pub proof fn law_every_pixel_is_encoded_once<F: Fn(u8, u8, u8, u8) -> (u8, u8, u8)>(
    encode_pixel: F,
    before: Seq<u8>,
    after: Seq<u8>,
    stride: int,
    width: int,
    rows: int,
    row: int,
    col: int,
)
    requires
        4 * width <= stride,
        (rows - 1) * stride + 4 * width <= before.len(),
        rows_encoded(encode_pixel, before, after, stride, width, rows),
        0 <= row < rows,
        0 <= col < width,
    ensures
        pixel_encoded(encode_pixel, before, after, row * stride, col),
{
    let states = choose|states: Seq<Seq<u8>>|
        {
            &&& #[trigger] encoding_run(encode_pixel, states, stride, width)
            &&& states.len() == rows + 1
            &&& states.first() == before
            &&& states.last() == after
        };
    lemma_row_fits(row, rows, stride);
    let at = row * stride + 4 * col;
    assert forall|i: int| at <= i < at + 4 implies states[row][i] == before[i] && after[i]
        == states[row + 1][i] by {
        assert forall|other: int| 0 <= other < rows && other != row implies !(#[trigger] (other
            * stride) <= i < other * stride + 4 * width) by {
            if other < row {
                assert(other * stride + stride <= row * stride) by (nonlinear_arith)
                    requires
                        other < row,
                        stride >= 0,
                ;
            } else {
                assert(row * stride + stride <= other * stride) by (nonlinear_arith)
                    requires
                        row < other,
                        stride >= 0,
                ;
            }
        }
        lemma_byte_untouched(encode_pixel, states, stride, width, 0, row, i);
        lemma_byte_untouched(encode_pixel, states, stride, width, row + 1, rows, i);
    }
    assert(row_encoded(encode_pixel, states[row], states[row + 1], row * stride, width));
    assert(pixel_encoded(encode_pixel, states[row], states[row + 1], row * stride, col));
}

/// Bytes that belong to no encoded row, such as the padding between rows, are untouched.
pub proof fn law_padding_is_untouched<F: Fn(u8, u8, u8, u8) -> (u8, u8, u8)>(
    encode_pixel: F,
    before: Seq<u8>,
    after: Seq<u8>,
    stride: int,
    width: int,
    rows: int,
    i: int,
)
    requires
        rows >= 0,
        rows_encoded(encode_pixel, before, after, stride, width, rows),
        0 <= i < before.len(),
        forall|row: int|
            0 <= row < rows ==> !(#[trigger] (row * stride) <= i < row * stride + 4 * width),
    ensures
        after.len() == before.len(),
        after[i] == before[i],
{
    let states = choose|states: Seq<Seq<u8>>|
        {
            &&& #[trigger] encoding_run(encode_pixel, states, stride, width)
            &&& states.len() == rows + 1
            &&& states.first() == before
            &&& states.last() == after
        };
    lemma_states_keep_length(encode_pixel, states, stride, width, rows);
    lemma_byte_untouched(encode_pixel, states, stride, width, 0, rows, i);
}

/// An encoded pixel keeps its alpha. Its blue, green and red, in this order before the alpha, are
/// what encoding them with the alpha gives, and zero if it is fully transparent. Rows do not overlap.
pub proof fn law_pixels_are_encoded_in_place<F: Fn(u8, u8, u8, u8) -> (u8, u8, u8)>(
    encode_pixel: F,
    before: Seq<u8>,
    after: Seq<u8>,
    stride: int,
    width: int,
    rows: int,
    row: int,
    col: int,
)
    requires
        4 * width <= stride,
        (rows - 1) * stride + 4 * width <= before.len(),
        rows_encoded(encode_pixel, before, after, stride, width, rows),
        0 <= row < rows,
        0 <= col < width,
    ensures
        ({
            let at = row * stride + 4 * col;
            &&& after[at + 3] == before[at + 3]
            &&& before[at + 3] == 0 ==> after[at] == 0 && after[at + 1] == 0 && after[at + 2] == 0
            &&& before[at + 3] != 0 ==> call_ensures(
                encode_pixel,
                (before[at], before[at + 1], before[at + 2], before[at + 3]),
                (after[at], after[at + 1], after[at + 2]),
            )
        }),
{
    law_every_pixel_is_encoded_once(encode_pixel, before, after, stride, width, rows, row, col);
}

} // verus!
