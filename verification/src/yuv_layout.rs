//! Pixel geometry of the RGBA → I420 conversion used by the VPx encoders:
//! which source pixel feeds each luma sample and which four source pixels
//! feed each chroma sample. The colour arithmetic itself is floating point
//! and is done by the caller on the indices planned here.
use vstd::prelude::*;

verus! {

/// Why an RGBA buffer cannot be converted.
#[derive(Debug, Clone, PartialEq, Eq)]
pub enum I420Error {
    /// The buffer holds fewer than `width * height * 4` bytes.
    SourceTooSmall { expected: usize, actual: usize },
}

/// Where every I420 sample comes from.
///
/// `y_sources[k]` is the byte offset of the RGBA pixel that feeds luma
/// sample `k` (row-major over `encode_width × encode_height`);
/// `uv_sources[b]` holds the offsets of the four pixels of chroma block `b`
/// (row-major over half the encode size), in the order top-left, top-right,
/// bottom-left, bottom-right.
pub struct I420Plan {
    pub encode_width: u32,
    pub encode_height: u32,
    pub y_sources: Vec<usize>,
    pub uv_sources: Vec<[usize; 4]>,
}

/// `v` rounded down to an even number.
pub open spec fn even_down(v: int) -> int {
    v - v % 2
}

/// Byte offset of the source pixel for encode pixel (`row`, `col`): an odd
/// width drops the leftmost column and an odd height the top row.
pub open spec fn i420_source(sw: int, sh: int, row: int, col: int) -> int {
    ((row + sh % 2) * sw + col + sw % 2) * 4
}

/// Source of luma sample `k`.
pub open spec fn i420_y_source(sw: int, sh: int, k: int) -> int {
    let ew = even_down(sw);
    i420_source(sw, sh, k / ew, k % ew)
}

/// Sources of chroma block `b`.
pub open spec fn i420_uv_sources(sw: int, sh: int, b: int) -> [usize; 4] {
    let half_w = even_down(sw) / 2;
    let r = 2 * (b / half_w);
    let c = 2 * (b % half_w);
    [
        i420_source(sw, sh, r, c) as usize,
        i420_source(sw, sh, r, c + 1) as usize,
        i420_source(sw, sh, r + 1, c) as usize,
        i420_source(sw, sh, r + 1, c + 1) as usize,
    ]
}

proof fn lemma_source_in_bounds(sw: int, sh: int, row: int, col: int)
    requires
        0 <= row < even_down(sh),
        0 <= col < even_down(sw),
        sw >= 0,
        sh >= 0,
    ensures
        0 <= i420_source(sw, sh, row, col),
        i420_source(sw, sh, row, col) + 4 <= sw * sh * 4,
{
    let r = row + sh % 2;
    let c = col + sw % 2;
    assert(r < sh && c < sw);
    assert(0 <= r * sw + c < sw * sh) by (nonlinear_arith)
        requires
            0 <= r < sh,
            0 <= c < sw,
    ;
}

proof fn lemma_div_mod_in_grid(k: int, w: int, h: int)
    requires
        0 <= k < w * h,
        w > 0,
    ensures
        0 <= k / w < h,
        0 <= k % w < w,
{
    assert(0 <= k / w < h) by (nonlinear_arith)
        requires
            0 <= k < w * h,
            w > 0,
    {
        assert(k / w * w <= k) by (nonlinear_arith)
            requires
                w > 0,
                k >= 0,
        ;
        if k / w >= h {
            assert(k / w * w >= h * w) by (nonlinear_arith)
                requires
                    k / w >= h,
                    w > 0,
            ;
        }
    }
}

/// Plans the conversion of a `source_width × source_height` RGBA buffer of
/// `rgba_len` bytes into I420.
///
/// The encode size is the source size rounded down to even numbers; for an
/// odd width the leftmost column, and for an odd height the top row, is
/// left out. Fails when the buffer is shorter than
/// `source_width * source_height * 4` bytes; otherwise every planned offset
/// addresses a whole pixel inside the buffer.
pub fn plan_rgba_to_i420(rgba_len: usize, source_width: u32, source_height: u32) -> (r: Result<
    I420Plan,
    I420Error,
>)
    requires
        source_width as int * source_height as int * 4 <= usize::MAX,
    ensures
        match r {
            Err(I420Error::SourceTooSmall { expected, actual }) => {
                &&& rgba_len < source_width * source_height * 4
                &&& expected == source_width * source_height * 4
                &&& actual == rgba_len
            },
            Ok(plan) => {
                let sw = source_width as int;
                let sh = source_height as int;
                &&& rgba_len >= sw * sh * 4
                &&& plan.encode_width == even_down(sw)
                &&& plan.encode_height == even_down(sh)
                &&& plan.y_sources@.len() == even_down(sw) * even_down(sh)
                &&& forall|k: int|
                    0 <= k < plan.y_sources@.len() ==> #[trigger] plan.y_sources@[k]
                        == i420_y_source(sw, sh, k)
                &&& plan.uv_sources@.len() == (even_down(sw) / 2) * (even_down(sh) / 2)
                &&& forall|b: int|
                    0 <= b < plan.uv_sources@.len() ==> #[trigger] plan.uv_sources@[b]
                        == i420_uv_sources(sw, sh, b)
                &&& forall|k: int|
                    0 <= k < plan.y_sources@.len() ==> #[trigger] plan.y_sources@[k] + 4
                        <= rgba_len
                &&& forall|b: int, q: int|
                    0 <= b < plan.uv_sources@.len() && 0 <= q < 4 ==> #[trigger] plan.uv_sources@[b][q]
                        + 4 <= rgba_len
            },
        },
{
    let source_w = source_width as usize;
    let source_h = source_height as usize;
    let encode_w = (source_w / 2) * 2;
    let encode_h = (source_h / 2) * 2;
    proof {
        assert(source_w * source_h <= source_w * source_h * 4) by (nonlinear_arith)
            requires
                source_w >= 0,
                source_h >= 0,
        ;
    }
    let expected_size = source_w * source_h * 4;
    if rgba_len < expected_size {
        return Err(I420Error::SourceTooSmall { expected: expected_size, actual: rgba_len });
    }
    let offset_x: usize = if source_w % 2 != 0 {
        1
    } else {
        0
    };
    let offset_y: usize = if source_h % 2 != 0 {
        1
    } else {
        0
    };
    let ghost sw = source_w as int;
    let ghost sh = source_h as int;
    proof {
        assert(encode_w * encode_h <= source_w * source_h) by (nonlinear_arith)
            requires
                0 <= encode_w <= source_w,
                0 <= encode_h <= source_h,
        ;
    }
    let y_plane = encode_w * encode_h;
    let mut y_sources: Vec<usize> = Vec::new();
    let mut k: usize = 0;
    while k < y_plane
        invariant
            y_plane == encode_w * encode_h,
            encode_w == even_down(sw),
            encode_h == even_down(sh),
            sw == source_w,
            sh == source_h,
            offset_x == sw % 2,
            offset_y == sh % 2,
            sw * sh * 4 <= rgba_len,
            0 <= k <= y_plane,
            y_sources@.len() == k,
            forall|m: int| 0 <= m < k ==> #[trigger] y_sources@[m] == i420_y_source(sw, sh, m),
            forall|m: int| 0 <= m < k ==> #[trigger] y_sources@[m] + 4 <= rgba_len,
        decreases y_plane - k,
    {
        proof {
            lemma_div_mod_in_grid(k as int, encode_w as int, encode_h as int);
            lemma_source_in_bounds(sw, sh, k as int / encode_w as int, k as int % encode_w as int);
        }
        let j = k / encode_w;
        let i = k % encode_w;
        let row = j + offset_y;
        let col = i + offset_x;
        proof {
            assert(row * source_w + col < source_w * source_h) by (nonlinear_arith)
                requires
                    row < source_h,
                    col < source_w,
            ;
        }
        let src = (row * source_w + col) * 4;
        y_sources.push(src);
        k += 1;
    }
    let half_w = encode_w / 2;
    let half_h = encode_h / 2;
    proof {
        assert(half_w * half_h <= encode_w * encode_h) by (nonlinear_arith)
            requires
                half_w <= encode_w,
                half_h <= encode_h,
                half_w >= 0,
                half_h >= 0,
        ;
    }
    let uv_plane = half_w * half_h;
    let mut uv_sources: Vec<[usize; 4]> = Vec::new();
    let mut b: usize = 0;
    while b < uv_plane
        invariant
            uv_plane == half_w * half_h,
            half_w == even_down(sw) / 2,
            half_h == even_down(sh) / 2,
            encode_w == even_down(sw),
            encode_h == even_down(sh),
            sw == source_w,
            sh == source_h,
            offset_x == sw % 2,
            offset_y == sh % 2,
            sw * sh * 4 <= rgba_len,
            0 <= b <= uv_plane,
            uv_sources@.len() == b,
            forall|m: int| 0 <= m < b ==> #[trigger] uv_sources@[m] == i420_uv_sources(sw, sh, m),
            forall|m: int, q: int|
                0 <= m < b && 0 <= q < 4 ==> #[trigger] uv_sources@[m][q] + 4 <= rgba_len,
        decreases uv_plane - b,
    {
        proof {
            lemma_div_mod_in_grid(b as int, half_w as int, half_h as int);
        }
        let r0 = 2 * (b / half_w);
        let c0 = 2 * (b % half_w);
        proof {
            lemma_source_in_bounds(sw, sh, r0 as int, c0 as int);
            lemma_source_in_bounds(sw, sh, r0 as int, c0 + 1);
            lemma_source_in_bounds(sw, sh, r0 + 1, c0 as int);
            lemma_source_in_bounds(sw, sh, r0 + 1, c0 + 1);
        }
        let top = (r0 + offset_y) * source_w;
        let bottom = (r0 + 1 + offset_y) * source_w;
        let left = c0 + offset_x;
        let sources: [usize; 4] = [
            (top + left) * 4,
            (top + left + 1) * 4,
            (bottom + left) * 4,
            (bottom + left + 1) * 4,
        ];
        proof {
            assert(sources@ =~= i420_uv_sources(sw, sh, b as int)@);
        }
        uv_sources.push(sources);
        b += 1;
    }
    Ok(
        I420Plan {
            encode_width: encode_w as u32,
            encode_height: encode_h as u32,
            y_sources,
            uv_sources,
        },
    )
}

/// Law: chroma block `b` is fed by exactly the four luma samples of its
/// 2×2 block: with `half_w` blocks per row over an encode width `ew`, block
/// `b` covers luma rows `2·(b / half_w)` and the one below, and columns
/// `2·(b % half_w)` and the one to the right, so its sources are those of
/// luma samples `k`, `k + 1`, `k + ew` and `k + ew + 1` for
/// `k = 2·(b / half_w)·ew + 2·(b % half_w)`.
pub proof fn law_chroma_block_covers_its_luma_block(sw: int, sh: int, b: int)
    requires
        sw >= 2,
        sh >= 2,
        0 <= b < (even_down(sw) / 2) * (even_down(sh) / 2),
    ensures
        ({
            let ew = even_down(sw);
            let half_w = ew / 2;
            let k = 2 * (b / half_w) * ew + 2 * (b % half_w);
            i420_uv_sources(sw, sh, b) == [
                i420_y_source(sw, sh, k) as usize,
                i420_y_source(sw, sh, k + 1) as usize,
                i420_y_source(sw, sh, k + ew) as usize,
                i420_y_source(sw, sh, k + ew + 1) as usize,
            ]
        }),
{
    let ew = even_down(sw);
    let half_w = ew / 2;
    let row = b / half_w;
    let col = b % half_w;
    assert(ew == 2 * half_w);
    assert(half_w > 0);
    assert(0 <= col < half_w) by {
        vstd::arithmetic::div_mod::lemma_mod_pos_bound(b, half_w);
    }
    let k = 2 * row * ew + 2 * col;
    assert(k == (2 * row) * ew + 2 * col) by (nonlinear_arith)
        requires
            k == 2 * row * ew + 2 * col,
    ;
    assert(k + ew == (2 * row + 1) * ew + 2 * col) by (nonlinear_arith)
        requires
            k == (2 * row) * ew + 2 * col,
    ;
    vstd::arithmetic::div_mod::lemma_fundamental_div_mod_converse(k, ew, 2 * row, 2 * col);
    vstd::arithmetic::div_mod::lemma_fundamental_div_mod_converse(k + 1, ew, 2 * row, 2 * col + 1);
    vstd::arithmetic::div_mod::lemma_fundamental_div_mod_converse(
        k + ew,
        ew,
        2 * row + 1,
        2 * col,
    );
    vstd::arithmetic::div_mod::lemma_fundamental_div_mod_converse(
        k + ew + 1,
        ew,
        2 * row + 1,
        2 * col + 1,
    );
}

} // verus!
