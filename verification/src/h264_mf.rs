//! The synchronous Media Foundation H.264 path: its stricter AVCC → Annex-B
//! conversion.
use vstd::prelude::*;
use crate::bytes::{append_range, push_start_code, start_code4};
use crate::nal::{
    annexb_frame, any_parameter_set, avcc_frame, be32, be32_bytes, is_parameter_set_header,
    lemma_any_parameter_set_cons, lemma_be32_bytes,
};

verus! {

/// Strict AVCC conversion: every length-prefixed unit (also an empty one)
/// gets a start code; a prefix whose unit runs past the end, or a trailing
/// fragment shorter than a prefix, ends the conversion and is dropped.
pub open spec fn avcc_to_annexb_strict(s: Seq<u8>) -> (Seq<u8>, bool)
    decreases s.len(),
{
    if s.len() < 4 {
        (Seq::empty(), false)
    } else {
        let l = be32(s, 0);
        let rest = s.skip(4);
        if l <= rest.len() {
            let unit = rest.take(l);
            let tail = avcc_to_annexb_strict(rest.skip(l));
            (
                start_code4() + unit + tail.0,
                (l > 0 && is_parameter_set_header(unit[0])) || tail.1,
            )
        } else {
            (Seq::empty(), false)
        }
    }
}

/// Law: the strict conversion replaces each length prefix by a start code,
/// keeping every unit (empty ones too) and their order, and reports a
/// parameter set exactly when a unit is one.
pub proof fn law_strict_prefixes_become_start_codes(us: Seq<Seq<u8>>)
    requires
        forall|i: int| 0 <= i < us.len() ==> (#[trigger] us[i]).len() < 0x1_0000_0000,
    ensures
        avcc_to_annexb_strict(avcc_frame(us)) == (annexb_frame(us), any_parameter_set(us)),
    decreases us.len(),
{
    if us.len() == 0 {
        assert(!any_parameter_set(us));
    } else {
        let u = us[0];
        let rest = us.drop_first();
        let s = avcc_frame(us);
        let l = u.len() as int;
        lemma_be32_bytes(l);
        assert(s.skip(4) =~= u + avcc_frame(rest));
        assert(be32(s, 0) == be32(be32_bytes(l), 0));
        assert(s.skip(4).take(l) =~= u);
        assert(s.skip(4).skip(l) =~= avcc_frame(rest));
        law_strict_prefixes_become_start_codes(rest);
        lemma_any_parameter_set_cons(us);
    }
}

/// Converts Media Foundation's length-prefixed (AVCC) H.264 output into
/// Annex-B form and tells whether a sequence or picture parameter set was
/// among the units. Malformed trailing data is dropped.
pub fn annexb_from_mf_data(data: &[u8]) -> (r: (Vec<u8>, bool))
    ensures
        (r.0@, r.1) == avcc_to_annexb_strict(data@),
{
    let mut has_sps_pps = false;
    let mut result: Vec<u8> = Vec::new();
    let mut i: usize = 0;
    let mut done = false;
    assert(data@.skip(0) =~= data@);
    assert(result@ + avcc_to_annexb_strict(data@).0 =~= avcc_to_annexb_strict(data@).0);
    while i < data.len() && !done
        invariant
            0 <= i <= data@.len(),
            done ==> avcc_to_annexb_strict(data@.skip(i as int)) == (Seq::<u8>::empty(), false),
            result@ + avcc_to_annexb_strict(data@.skip(i as int)).0 == avcc_to_annexb_strict(
                data@,
            ).0,
            avcc_to_annexb_strict(data@).1 == (has_sps_pps || avcc_to_annexb_strict(
                data@.skip(i as int),
            ).1),
        decreases data@.len() - i + (if done {
            0int
        } else {
            1int
        }),
    {
        let ghost s = data@.skip(i as int);
        if data.len() - i >= 4 {
            let nal_length = ((data[i] as u32) * 16777216 + (data[i + 1] as u32) * 65536 + (data[i
                + 2] as u32) * 256 + (data[i + 3] as u32)) as usize;
            assert(nal_length == be32(s, 0));
            assert(s.skip(4) =~= data@.skip(i + 4));
            if nal_length <= data.len() - (i + 4) {
                i += 4;
                if nal_length > 0 {
                    let b = data[i];
                    let t = b & 0x1F;
                    assert(b & 0x1F == b % 32) by (bit_vector);
                    if t == 7 || t == 8 {
                        has_sps_pps = true;
                    }
                }
                push_start_code(&mut result);
                append_range(&mut result, data, i, i + nal_length);
                assert(s.skip(4).take(nal_length as int) =~= data@.subrange(
                    i as int,
                    i + nal_length,
                ));
                assert(s.skip(4).skip(nal_length as int) =~= data@.skip(i + nal_length));
                i += nal_length;
            } else {
                done = true;
            }
        } else {
            done = true;
        }
    }
    if !done {
        assert(data@.skip(i as int) =~= Seq::<u8>::empty());
    }
    assert(result@ + Seq::<u8>::empty() =~= result@);
    (result, has_sps_pps)
}

/// Where the NV12 chroma pair of one 2×2 block comes from.
///
/// `sources` are the byte offsets of the block's RGBA pixels that lie in
/// the buffer; `dest` is the offset of the U byte (V follows) when the block
/// has a source and its pair fits the NV12 buffer, else `None`.
pub struct Nv12Block {
    pub dest: Option<usize>,
    pub sources: Vec<usize>,
}

/// Where every NV12 sample comes from when an RGBA picture is scaled
/// (nearest neighbour) to the encode size.
///
/// `y_sources[k]` is the offset of the RGBA pixel for luma sample `k`
/// (row-major), or `None` when that pixel lies outside the buffer (the
/// sample stays 0). `uv_blocks` lists the chroma blocks row by row.
pub struct Nv12Plan {
    pub y_sources: Vec<Option<usize>>,
    pub uv_blocks: Vec<Nv12Block>,
    pub buffer_len: usize,
}

/// Nearest source row (or column) for encode row `y`.
pub open spec fn nearest(y: int, src: int, dst: int) -> int {
    let v = y * src / dst;
    if v < src - 1 {
        v
    } else {
        src - 1
    }
}

/// Offset of the source pixel for encode pixel (`x`, `y`).
pub open spec fn nv12_source(sw: int, sh: int, ew: int, eh: int, x: int, y: int) -> int {
    (nearest(y, sh, eh) * sw + nearest(x, sw, ew)) * 4
}

/// The source, if it lies in the buffer (its R, G and B bytes are there).
pub open spec fn usable(src: int, len: int) -> Option<usize> {
    if src + 2 < len {
        Some(src as usize)
    } else {
        None
    }
}

/// The sources of a candidate list that lie in the buffer, in order.
pub open spec fn kept(cands: Seq<int>, len: int) -> Seq<usize>
    decreases cands.len(),
{
    if cands.len() == 0 {
        Seq::empty()
    } else {
        let prefix = kept(cands.drop_last(), len);
        if cands.last() + 2 < len {
            prefix.push(cands.last() as usize)
        } else {
            prefix
        }
    }
}

/// The four candidate sources of chroma block (`bj`, `bi`), row by row.
pub open spec fn block_candidates(sw: int, sh: int, ew: int, eh: int, bj: int, bi: int) -> Seq<
    int,
> {
    let y = 2 * bj;
    let x = 2 * bi;
    seq![
        nv12_source(sw, sh, ew, eh, x, y),
        nv12_source(sw, sh, ew, eh, x + 1, y),
        nv12_source(sw, sh, ew, eh, x, y + 1),
        nv12_source(sw, sh, ew, eh, x + 1, y + 1),
    ]
}

/// The preconditions under which the conversion neither panics nor
/// overflows: a non-empty encode size needs a non-empty source, and all
/// index arithmetic stays within `usize`.
pub open spec fn nv12_plan_ok(len: int, sw: int, sh: int, ew: int, eh: int) -> bool {
    &&& (ew > 0 && eh > 0) ==> (sw > 0 && sh > 0)
    &&& (eh + 1) * sh <= usize::MAX
    &&& (ew + 1) * sw <= usize::MAX
    &&& sw * sh * 4 <= usize::MAX
    &&& ew * eh * 2 <= usize::MAX
}

proof fn lemma_nearest_bound(y: int, src: int, dst: int)
    requires
        0 <= y <= dst,
        dst > 0,
        src > 0,
    ensures
        0 <= nearest(y, src, dst) <= src - 1,
        0 <= y * src <= dst * src,
{
    assert(0 <= y * src <= dst * src) by (nonlinear_arith)
        requires
            0 <= y <= dst,
            src > 0,
    ;
    assert(y * src / dst >= 0) by (nonlinear_arith)
        requires
            y * src >= 0,
            dst > 0,
    ;
}

proof fn lemma_nv12_source_bound(sw: int, sh: int, ew: int, eh: int, x: int, y: int)
    requires
        0 <= x <= ew,
        0 <= y <= eh,
        ew > 0,
        eh > 0,
        sw > 0,
        sh > 0,
    ensures
        0 <= nv12_source(sw, sh, ew, eh, x, y),
        nv12_source(sw, sh, ew, eh, x, y) + 4 <= sw * sh * 4,
{
    lemma_nearest_bound(y, sh, eh);
    lemma_nearest_bound(x, sw, ew);
    let r = nearest(y, sh, eh);
    let c = nearest(x, sw, ew);
    assert(0 <= r * sw + c < sw * sh) by (nonlinear_arith)
        requires
            0 <= r < sh,
            0 <= c < sw,
    ;
}

fn nearest_exec(y: usize, src: usize, dst: usize) -> (r: usize)
    requires
        0 <= y <= dst,
        dst > 0,
        src > 0,
        dst * src <= usize::MAX,
    ensures
        r == nearest(y as int, src as int, dst as int),
{
    proof {
        lemma_nearest_bound(y as int, src as int, dst as int);
    }
    let v = y * src / dst;
    if v < src - 1 {
        v
    } else {
        src - 1
    }
}

fn nv12_source_exec(sw: usize, sh: usize, ew: usize, eh: usize, x: usize, y: usize) -> (r: usize)
    requires
        0 <= x <= ew,
        0 <= y <= eh,
        ew > 0,
        eh > 0,
        sw > 0,
        sh > 0,
        (eh + 1) * sh <= usize::MAX,
        (ew + 1) * sw <= usize::MAX,
        sw * sh * 4 <= usize::MAX,
    ensures
        r == nv12_source(sw as int, sh as int, ew as int, eh as int, x as int, y as int),
{
    proof {
        lemma_nv12_source_bound(sw as int, sh as int, ew as int, eh as int, x as int, y as int);
        assert(eh * sh <= (eh + 1) * sh && ew * sw <= (ew + 1) * sw) by (nonlinear_arith)
            requires
                eh >= 0,
                sh >= 0,
                ew >= 0,
                sw >= 0,
        ;
    }
    let r = nearest_exec(y, sh, eh);
    let c = nearest_exec(x, sw, ew);
    proof {
        assert(r * sw + c <= sw * sh) by (nonlinear_arith)
            requires
                0 <= r < sh,
                0 <= c < sw,
        ;
    }
    (r * sw + c) * 4
}

/// Plans the nearest-neighbour conversion of a `source_width ×
/// source_height` RGBA buffer of `rgba_len` bytes into NV12 of size
/// `encode_width × encode_height` (a luma plane followed by interleaved
/// U/V pairs at half resolution, `3/2 · w · h` bytes in all).
pub fn plan_rgba_to_nv12(
    rgba_len: usize,
    source_width: u32,
    source_height: u32,
    encode_width: u32,
    encode_height: u32,
) -> (r: Nv12Plan)
    requires
        nv12_plan_ok(
            rgba_len as int,
            source_width as int,
            source_height as int,
            encode_width as int,
            encode_height as int,
        ),
    ensures
        ({
            let sw = source_width as int;
            let sh = source_height as int;
            let ew = encode_width as int;
            let eh = encode_height as int;
            let len = rgba_len as int;
            let wb = (ew + 1) / 2;
            let hb = (eh + 1) / 2;
            let y_plane = ew * eh;
            &&& r.buffer_len == y_plane + y_plane / 2
            &&& r.y_sources@.len() == y_plane
            &&& forall|k: int|
                0 <= k < y_plane ==> #[trigger] r.y_sources@[k] == usable(
                    nv12_source(sw, sh, ew, eh, k % ew, k / ew),
                    len,
                )
            &&& r.uv_blocks@.len() == wb * hb
            &&& forall|b: int|
                0 <= b < wb * hb ==> {
                    let srcs = kept(block_candidates(sw, sh, ew, eh, b / wb, b % wb), len);
                    let dest = y_plane + (b / wb) * ew + 2 * (b % wb);
                    &&& (#[trigger] r.uv_blocks@[b]).sources@ == srcs
                    &&& r.uv_blocks@[b].dest == if srcs.len() > 0 && dest + 1 < y_plane
                        + y_plane / 2 {
                        Some(dest as usize)
                    } else {
                        None
                    }
                }
            &&& forall|k: int|
                0 <= k < y_plane ==> (#[trigger] r.y_sources@[k] matches Some(s) ==> s + 2
                    < len)
        }),
{
    let sw = source_width as usize;
    let sh = source_height as usize;
    let ew = encode_width as usize;
    let eh = encode_height as usize;
    let y_plane = ew * eh;
    let total = y_plane + y_plane / 2;
    let mut y_sources: Vec<Option<usize>> = Vec::new();
    let mut k: usize = 0;
    while k < y_plane
        invariant
            nv12_plan_ok(rgba_len as int, sw as int, sh as int, ew as int, eh as int),
            y_plane == ew * eh,
            0 <= k <= y_plane,
            y_sources@.len() == k,
            forall|m: int|
                0 <= m < k ==> #[trigger] y_sources@[m] == usable(
                    nv12_source(sw as int, sh as int, ew as int, eh as int, m % ew as int, m
                        / ew as int),
                    rgba_len as int,
                ),
            forall|m: int|
                0 <= m < k ==> (#[trigger] y_sources@[m] matches Some(s) ==> s + 2 < rgba_len),
        decreases y_plane - k,
    {
        proof {
            assert(ew > 0 && eh > 0) by (nonlinear_arith)
                requires
                    0 <= k < ew * eh,
                    ew >= 0,
                    eh >= 0,
            ;
            assert(k / ew < eh && k % ew < ew) by (nonlinear_arith)
                requires
                    0 <= k < ew * eh,
                    ew > 0,
            {
                assert(k / ew * ew <= k) by (nonlinear_arith)
                    requires
                        ew > 0,
                        k >= 0,
                ;
                if k / ew >= eh {
                    assert(k / ew * ew >= eh * ew) by (nonlinear_arith)
                        requires
                            k / ew >= eh,
                            ew > 0,
                    ;
                }
            }
        }
        let y = k / ew;
        let x = k % ew;
        let src = nv12_source_exec(sw, sh, ew, eh, x, y);
        if rgba_len > 2 && src < rgba_len - 2 {
            y_sources.push(Some(src));
        } else {
            y_sources.push(None);
        }
        k += 1;
    }
    let wb = ew / 2 + ew % 2;
    let hb = eh / 2 + eh % 2;
    proof {
        assert(wb * hb <= (ew + 1) * (eh + 1)) by (nonlinear_arith)
            requires
                0 <= wb <= ew + 1,
                0 <= hb <= eh + 1,
        ;
        assert(wb * hb <= usize::MAX) by (nonlinear_arith)
            requires
                wb * hb <= (ew + 1) * (eh + 1),
                wb == (ew + 1) / 2,
                hb == (eh + 1) / 2,
                ew * eh * 2 <= usize::MAX,
                ew >= 0,
                eh >= 0,
                ew <= u32::MAX,
                eh <= u32::MAX,
        {
            assert(wb * hb <= (ew + 1) * (eh + 1) / 4 + (ew + 1) + (eh + 1));
        }
    }
    let n_blocks = wb * hb;
    let mut uv_blocks: Vec<Nv12Block> = Vec::new();
    let mut b: usize = 0;
    while b < n_blocks
        invariant
            nv12_plan_ok(rgba_len as int, sw as int, sh as int, ew as int, eh as int),
            y_plane == ew * eh,
            total == y_plane + y_plane / 2,
            wb == (ew + 1) / 2,
            hb == (eh + 1) / 2,
            n_blocks == wb * hb,
            0 <= b <= n_blocks,
            uv_blocks@.len() == b,
            forall|m: int|
                0 <= m < b ==> {
                    let srcs = kept(
                        block_candidates(
                            sw as int,
                            sh as int,
                            ew as int,
                            eh as int,
                            m / wb as int,
                            m % wb as int,
                        ),
                        rgba_len as int,
                    );
                    let dest = y_plane + (m / wb as int) * ew + 2 * (m % wb as int);
                    &&& (#[trigger] uv_blocks@[m]).sources@ == srcs
                    &&& uv_blocks@[m].dest == if srcs.len() > 0 && dest + 1 < total {
                        Some(dest as usize)
                    } else {
                        None
                    }
                },
        decreases n_blocks - b,
    {
        proof {
            assert(wb > 0 && hb > 0) by (nonlinear_arith)
                requires
                    0 <= b < wb * hb,
                    wb >= 0,
                    hb >= 0,
            ;
            assert(b / wb < hb && b % wb < wb) by (nonlinear_arith)
                requires
                    0 <= b < wb * hb,
                    wb > 0,
            {
                assert(b / wb * wb <= b) by (nonlinear_arith)
                    requires
                        wb > 0,
                        b >= 0,
                ;
                if b / wb >= hb {
                    assert(b / wb * wb >= hb * wb) by (nonlinear_arith)
                        requires
                            b / wb >= hb,
                            wb > 0,
                    ;
                }
            }
        }
        let bj = b / wb;
        let bi = b % wb;
        let y = 2 * bj;
        let x = 2 * bi;
        let ghost cands = block_candidates(
            sw as int,
            sh as int,
            ew as int,
            eh as int,
            bj as int,
            bi as int,
        );
        let c0 = nv12_source_exec(sw, sh, ew, eh, x, y);
        let c1 = nv12_source_exec(sw, sh, ew, eh, x + 1, y);
        let c2 = nv12_source_exec(sw, sh, ew, eh, x, y + 1);
        let c3 = nv12_source_exec(sw, sh, ew, eh, x + 1, y + 1);
        let mut sources: Vec<usize> = Vec::new();
        if rgba_len > 2 && c0 < rgba_len - 2 {
            sources.push(c0);
        }
        assert(sources@ =~= kept(cands.take(1), rgba_len as int)) by {
            assert(cands.take(1).drop_last() =~= Seq::<int>::empty());
            assert(kept(Seq::<int>::empty(), rgba_len as int) =~= Seq::<usize>::empty());
            assert(cands.take(1).last() == c0 as int);
        }
        if rgba_len > 2 && c1 < rgba_len - 2 {
            sources.push(c1);
        }
        assert(sources@ =~= kept(cands.take(2), rgba_len as int)) by {
            assert(cands.take(2).drop_last() =~= cands.take(1));
            assert(cands.take(2).last() == c1 as int);
        }
        if rgba_len > 2 && c2 < rgba_len - 2 {
            sources.push(c2);
        }
        assert(sources@ =~= kept(cands.take(3), rgba_len as int)) by {
            assert(cands.take(3).drop_last() =~= cands.take(2));
            assert(cands.take(3).last() == c2 as int);
        }
        if rgba_len > 2 && c3 < rgba_len - 2 {
            sources.push(c3);
        }
        assert(sources@ =~= kept(cands, rgba_len as int)) by {
            assert(cands.drop_last() =~= cands.take(3));
            assert(cands.last() == c3 as int);
        }
        proof {
            assert(bj * ew + 2 * bi <= y_plane) by (nonlinear_arith)
                requires
                    bj < hb,
                    bi < wb,
                    hb == (eh + 1) / 2,
                    wb == (ew + 1) / 2,
                    y_plane == ew * eh,
                    ew >= 0,
                    eh >= 0,
            {
                assert(bj * ew <= (hb - 1) * ew) by (nonlinear_arith)
                    requires
                        bj <= hb - 1,
                        ew >= 0,
                ;
                assert(2 * (hb - 1) <= eh);
                assert((hb - 1) * ew * 2 <= eh * ew) by (nonlinear_arith)
                    requires
                        2 * (hb - 1) <= eh,
                        ew >= 0,
                        hb >= 1,
                ;
            }
        }
        let dest = y_plane + bj * ew + 2 * bi;
        let dest_opt = if sources.len() > 0 && total > 0 && dest < total - 1 {
            Some(dest)
        } else {
            None
        };
        uv_blocks.push(Nv12Block { dest: dest_opt, sources });
        b += 1;
    }
    Nv12Plan { y_sources, uv_blocks, buffer_len: total }
}

} // verus!
