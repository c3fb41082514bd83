//! Pure converters over owned byte buffers.

use vstd::prelude::*;

verus! {

/// The first `row_len` bytes of each of the first `rows` rows of `data`,
/// whose rows start `stride` bytes apart.
pub open spec fn cropped(data: Seq<u8>, stride: nat, row_len: nat, rows: nat) -> Seq<u8>
    decreases rows,
{
    if rows == 0 {
        Seq::empty()
    } else {
        let r = (rows - 1) as nat;
        cropped(data, stride, row_len, r) + data.subrange((r * stride) as int, (r * stride + row_len) as int)
    }
}

/// Copies the first `width * 4` bytes of each of `height` rows laid out
/// `stride` bytes apart, dropping the padding at the end of each row.
pub fn crop_rows(data: &Vec<u8>, stride: usize, width: usize, height: usize) -> (r: Vec<u8>)
    requires
        4 * width <= stride,
        height * stride <= usize::MAX,
        data@.len() == height * stride,
    ensures
        r@ == cropped(data@, stride as nat, 4 * width as nat, height as nat),
{
    let row_len: usize = 4 * width;
    let mut out: Vec<u8> = Vec::new();
    let mut i: usize = 0;
    while i < height
        invariant
            i <= height,
            row_len == 4 * width,
            row_len <= stride,
            height * stride <= usize::MAX,
            data@.len() == height * stride,
            out@ == cropped(data@, stride as nat, row_len as nat, i as nat),
        decreases height - i,
    {
        assert((i + 1) * stride <= height * stride) by (nonlinear_arith)
            requires i + 1 <= height;
        assert((i + 1) * stride == i * stride + stride) by (nonlinear_arith);
        let start: usize = i * stride;
        let ghost before = out@;
        let mut j: usize = 0;
        while j < row_len
            invariant
                j <= row_len,
                row_len <= stride,
                start + stride <= data@.len(),
                data@.len() <= usize::MAX,
                out@ == before + data@.subrange(start as int, start + j),
            decreases row_len - j,
        {
            out.push(data[start + j]);
            assert(out@ =~= before + data@.subrange(start as int, start + j + 1));
            j = j + 1;
        }
        i = i + 1;
    }
    out
}

/// Three bytes per pixel: the first three bytes of each four-byte pixel.
pub open spec fn without_alpha(data: Seq<u8>) -> Seq<u8> {
    Seq::new(data.len() / 4 * 3, |k: int| data[(k / 3) * 4 + k % 3])
}

/// Three bytes per pixel: bytes 2, 1 and 0 of each four-byte pixel.
pub open spec fn bgra_to_rgb(data: Seq<u8>) -> Seq<u8> {
    Seq::new(data.len() / 4 * 3, |k: int| data[(k / 3) * 4 + 2 - k % 3])
}

/// Drops the fourth byte of every pixel of a B, G, R, A buffer.
pub fn remove_alpha_channel(data: &Vec<u8>) -> (r: Vec<u8>)
    requires
        data@.len() % 4 == 0,
    ensures
        r@ == without_alpha(data@),
{
    let total: usize = data.len();
    let n: usize = total / 4;
    let mut out: Vec<u8> = Vec::new();
    let mut p: usize = 0;
    while p < n
        invariant
            p <= n,
            n * 4 == data@.len(),
            total == data@.len(),
            out@ =~= without_alpha(data@).take(3 * p),
        decreases n - p,
    {
        let base: usize = 4 * p;
        out.push(data[base]);
        out.push(data[base + 1]);
        out.push(data[base + 2]);
        p = p + 1;
        assert(out@ =~= without_alpha(data@).take(3 * p));
    }
    out
}

/// Turns a B, G, R, A buffer into an R, G, B one.
pub fn convert_bgra_to_rgb(data: &Vec<u8>) -> (r: Vec<u8>)
    requires
        data@.len() % 4 == 0,
    ensures
        r@ == bgra_to_rgb(data@),
{
    let total: usize = data.len();
    let n: usize = total / 4;
    let mut out: Vec<u8> = Vec::new();
    let mut p: usize = 0;
    while p < n
        invariant
            p <= n,
            n * 4 == data@.len(),
            total == data@.len(),
            out@ =~= bgra_to_rgb(data@).take(3 * p),
        decreases n - p,
    {
        let base: usize = 4 * p;
        out.push(data[base + 2]);
        out.push(data[base + 1]);
        out.push(data[base]);
        p = p + 1;
        assert(out@ =~= bgra_to_rgb(data@).take(3 * p));
    }
    out
}

/// The `len` bytes that start `i * step` bytes into `s`: row `i` of a buffer
/// whose rows are `step` bytes apart, or pixel `i` where `step` is the pixel size.
pub open spec fn row_of(s: Seq<u8>, i: int, step: int, len: int) -> Seq<u8> {
    s.subrange(i * step, i * step + len)
}

proof fn lemma_cropped_rows(data: Seq<u8>, stride: nat, row_len: nat, rows: nat)
    requires
        row_len <= stride,
        rows * stride <= data.len(),
    ensures
        cropped(data, stride, row_len, rows).len() == rows * row_len,
        forall|i: int|
            0 <= i < rows ==> #[trigger] row_of(cropped(data, stride, row_len, rows), i, row_len as int, row_len as int)
                == row_of(data, i, stride as int, row_len as int),
    decreases rows,
{
    if rows > 0 {
        let r = (rows - 1) as nat;
        assert(r * stride + stride == rows * stride) by (nonlinear_arith)
            requires r == rows - 1;
        assert(r * stride <= rows * stride) by (nonlinear_arith)
            requires r == rows - 1;
        assert(r * row_len + row_len == rows * row_len) by (nonlinear_arith)
            requires r == rows - 1;
        lemma_cropped_rows(data, stride, row_len, r);
        let prev = cropped(data, stride, row_len, r);
        let whole = cropped(data, stride, row_len, rows);
        assert forall|i: int| 0 <= i < rows implies #[trigger] row_of(whole, i, row_len as int, row_len as int)
            == row_of(data, i, stride as int, row_len as int) by {
            if i < r {
                assert(i * row_len + row_len <= r * row_len) by (nonlinear_arith)
                    requires i < r;
                assert(0 <= i * row_len) by (nonlinear_arith)
                    requires 0 <= i;
                assert(row_of(whole, i, row_len as int, row_len as int) =~= row_of(prev, i, row_len as int, row_len as int));
            } else {
                assert(row_of(whole, i, row_len as int, row_len as int)
                    =~= data.subrange((r * stride) as int, (r * stride + row_len) as int));
            }
        }
    }
}

/// Cropping a buffer of `height` rows, `stride` bytes apart, to `width`
/// four-byte pixels gives exactly `height` rows of `width * 4` bytes, and row
/// `i` of the result is the first `width * 4` bytes of source row `i`.
pub proof fn crop_keeps_row_starts(data: Seq<u8>, stride: nat, width: nat, height: nat)
    requires
        4 * width <= stride,
        data.len() == height * stride,
    ensures
        cropped(data, stride, 4 * width, height).len() == height * (4 * width),
        forall|i: int|
            0 <= i < height ==> #[trigger] row_of(cropped(data, stride, 4 * width, height), i, 4 * width as int, 4 * width as int)
                == row_of(data, i, stride as int, 4 * width as int),
{
    lemma_cropped_rows(data, stride, 4 * width, height);
}

/// Dropping alpha keeps the pixel count, three bytes each, and pixel `k` of
/// the result is bytes 0, 1 and 2 of source pixel `k`.
pub proof fn alpha_removal_keeps_pixels(data: Seq<u8>)
    requires
        data.len() % 4 == 0,
    ensures
        without_alpha(data).len() == 3 * (data.len() / 4),
        forall|k: int|
            0 <= k < data.len() / 4 ==> #[trigger] row_of(without_alpha(data), k, 3, 3)
                == row_of(data, k, 4, 4).take(3),
{
    let out = without_alpha(data);
    assert forall|k: int| 0 <= k < data.len() / 4 implies #[trigger] row_of(out, k, 3, 3)
        == row_of(data, k, 4, 4).take(3) by {
        assert(row_of(out, k, 3, 3) =~= row_of(data, k, 4, 4).take(3));
    }
}

/// Reordering keeps the pixel count, three bytes each, and pixel `k` of the
/// result is bytes 2, 1 and 0 of source pixel `k`.
pub proof fn reorder_swaps_pixels(data: Seq<u8>)
    requires
        data.len() % 4 == 0,
    ensures
        bgra_to_rgb(data).len() == 3 * (data.len() / 4),
        forall|k: int|
            0 <= k < data.len() / 4 ==> #[trigger] row_of(bgra_to_rgb(data), k, 3, 3)
                == seq![data[4 * k + 2], data[4 * k + 1], data[4 * k]],
{
    let out = bgra_to_rgb(data);
    assert forall|k: int| 0 <= k < data.len() / 4 implies #[trigger] row_of(out, k, 3, 3)
        == seq![data[4 * k + 2], data[4 * k + 1], data[4 * k]] by {
        assert(row_of(out, k, 3, 3) =~= seq![data[4 * k + 2], data[4 * k + 1], data[4 * k]]);
    }
}

} // verus!
