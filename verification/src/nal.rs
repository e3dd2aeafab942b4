//! H.264 NAL unit framing: Annex-B detection, AVCC → Annex-B conversion and
//! parsing of the `avcC` decoder configuration record.
use vstd::prelude::*;
use crate::bytes::{append_range, push_start_code, start_code4};

verus! {

// ---------------------------------------------------------------------------
// Specification
// ---------------------------------------------------------------------------

/// A four-byte start code `00 00 00 01` begins at `p`.
pub open spec fn sc4_at(d: Seq<u8>, p: int) -> bool {
    &&& 0 <= p
    &&& p + 4 <= d.len()
    &&& d[p] == 0 && d[p + 1] == 0 && d[p + 2] == 0 && d[p + 3] == 1
}

/// A three-byte start code `00 00 01` begins at `p`.
pub open spec fn sc3_at(d: Seq<u8>, p: int) -> bool {
    &&& 0 <= p
    &&& p + 3 <= d.len()
    &&& d[p] == 0 && d[p + 1] == 0 && d[p + 2] == 1
}

/// The data is at least four bytes long and begins with a start code.
pub open spec fn is_annexb(d: Seq<u8>) -> bool {
    d.len() >= 4 && (sc4_at(d, 0) || sc3_at(d, 0))
}

/// The NAL header byte announces a sequence (7) or picture (8) parameter set.
pub open spec fn is_parameter_set_header(b: u8) -> bool {
    b % 32 == 7 || b % 32 == 8
}

/// Length of the start code at `p` (4, 3, or 0 when there is none).
pub open spec fn start_code_len_at(d: Seq<u8>, p: int) -> int {
    if sc4_at(d, p) {
        4
    } else if sc3_at(d, p) {
        3
    } else {
        0
    }
}

/// First position at or after `p` where a start code begins, or `d.len()`.
pub open spec fn next_start_code(d: Seq<u8>, p: int) -> int
    decreases d.len() - p,
{
    if p < 0 || p + 3 > d.len() {
        d.len() as int
    } else if sc4_at(d, p) || sc3_at(d, p) {
        p
    } else {
        next_start_code(d, p + 1)
    }
}

/// Scanning Annex-B data from the start code at `i`, some NAL unit carries
/// a parameter-set header.
pub open spec fn annexb_has_parameter_set(d: Seq<u8>, i: int) -> bool
    decreases d.len() - i,
{
    if i < 0 || i >= d.len() {
        false
    } else {
        let code = start_code_len_at(d, i);
        if code == 0 {
            false
        } else {
            let end = next_start_code(d, i + code);
            proof {
                lemma_next_start_code_bounds(d, i + code);
            }
            (end - i > code && is_parameter_set_header(d[i + code])) || annexb_has_parameter_set(
                d,
                end,
            )
        }
    }
}

/// Big-endian 32-bit value of the four bytes at `p`.
pub open spec fn be32(d: Seq<u8>, p: int) -> int {
    d[p] * 16777216 + d[p + 1] * 65536 + d[p + 2] * 256 + d[p + 3]
}

/// Conversion of length-prefixed (AVCC) data into Annex-B form: each
/// non-empty unit whose length fits loses its prefix and gains a start code;
/// at the first malformed prefix the bytes after it are copied and the
/// conversion stops; a trailing fragment shorter than a prefix is copied.
/// The flag tells whether a converted unit was a parameter set.
pub open spec fn avcc_to_annexb(s: Seq<u8>) -> (Seq<u8>, bool)
    decreases s.len(),
{
    if s.len() == 0 {
        (Seq::empty(), false)
    } else if s.len() < 4 {
        (s, false)
    } else {
        let l = be32(s, 0);
        let rest = s.skip(4);
        if 0 < l && l <= rest.len() {
            let unit = rest.take(l);
            let tail = avcc_to_annexb(rest.skip(l));
            (start_code4() + unit + tail.0, is_parameter_set_header(unit[0]) || tail.1)
        } else {
            (rest, false)
        }
    }
}

/// What `annexb_from_mf_data` computes: Annex-B input is kept as it is,
/// anything else is read as AVCC.
pub open spec fn mf_data_to_annexb(d: Seq<u8>) -> (Seq<u8>, bool) {
    if is_annexb(d) {
        (d, annexb_has_parameter_set(d, 0))
    } else {
        avcc_to_annexb(d)
    }
}

/// Reads `n` entries, each a 16-bit big-endian length followed by that many
/// bytes, starting at `off`. `None` when a length or a body runs past the
/// end; otherwise the first entry (when `n > 0`) and the offset after the
/// last entry.
pub open spec fn read_param_sets(d: Seq<u8>, off: int, n: nat) -> Option<(Option<Seq<u8>>, int)>
    decreases n,
{
    if n == 0 {
        Some((None, off))
    } else if off < 0 || off + 2 > d.len() {
        None
    } else {
        let l = d[off] * 256 + d[off + 1];
        let body = off + 2;
        if body + l > d.len() {
            None
        } else {
            match read_param_sets(d, body + l, (n - 1) as nat) {
                None => None,
                Some((_, e)) => Some((Some(d.subrange(body, body + l)), e)),
            }
        }
    }
}

/// The first SPS and the first PPS of an `avcC` record:
/// version byte 1, SPS count in the low five bits of byte 5, the SPS
/// entries from byte 6, then a PPS count byte and the PPS entries.
pub open spec fn avc_decoder_config(d: Seq<u8>) -> Option<(Seq<u8>, Seq<u8>)> {
    if d.len() < 7 || d[0] != 1 {
        None
    } else {
        match read_param_sets(d, 6, (d[5] % 32) as nat) {
            None => None,
            Some((sps, off)) => if off >= d.len() {
                None
            } else {
                match read_param_sets(d, off + 1, d[off] as nat) {
                    None => None,
                    Some((pps, _)) => match (sps, pps) {
                        (Some(s), Some(p)) => Some((s, p)),
                        _ => None,
                    },
                }
            },
        }
    }
}

/// The result of reading the remaining entries, with the first entry
/// replaced by `first` once `done > 0` entries have already been read.
pub open spec fn resume_read(
    first: Option<Seq<u8>>,
    done: nat,
    rest: Option<(Option<Seq<u8>>, int)>,
) -> Option<(Option<Seq<u8>>, int)> {
    match rest {
        None => None,
        Some((f, e)) => Some((if done == 0 { f } else { first }, e)),
    }
}

/// Reading entries never moves backwards, and a successful read of at
/// least one entry ends inside the data.
pub proof fn lemma_read_param_sets_offset(d: Seq<u8>, off: int, n: nat)
    requires
        0 <= off,
    ensures
        read_param_sets(d, off, n) matches Some((_, e)) ==> off <= e && (n > 0 ==> e <= d.len()),
    decreases n,
{
    if n > 0 && off + 2 <= d.len() {
        let l = d[off] * 256 + d[off + 1];
        lemma_read_param_sets_offset(d, off + 2 + l, (n - 1) as nat);
    }
}

/// The four big-endian bytes of a 32-bit length.
pub open spec fn be32_bytes(n: int) -> Seq<u8> {
    seq![
        (n / 16777216) as u8,
        (n / 65536 % 256) as u8,
        (n / 256 % 256) as u8,
        (n % 256) as u8,
    ]
}

/// Units framed with big-endian 32-bit length prefixes (AVCC).
pub open spec fn avcc_frame(us: Seq<Seq<u8>>) -> Seq<u8>
    decreases us.len(),
{
    if us.len() == 0 {
        Seq::empty()
    } else {
        be32_bytes(us[0].len() as int) + us[0] + avcc_frame(us.drop_first())
    }
}

/// Units framed with four-byte start codes (Annex-B).
pub open spec fn annexb_frame(us: Seq<Seq<u8>>) -> Seq<u8>
    decreases us.len(),
{
    if us.len() == 0 {
        Seq::empty()
    } else {
        start_code4() + us[0] + annexb_frame(us.drop_first())
    }
}

/// Some non-empty unit begins with a parameter-set header.
pub open spec fn any_parameter_set(us: Seq<Seq<u8>>) -> bool {
    exists|i: int| 0 <= i < us.len() && us[i].len() > 0 && is_parameter_set_header(#[trigger] us[i][0])
}

pub proof fn lemma_be32_bytes(n: int)
    requires
        0 <= n < 0x1_0000_0000,
    ensures
        be32(be32_bytes(n), 0) == n,
{
    let b = be32_bytes(n);
    assert(b[0] == n / 16777216 && b[1] == n / 65536 % 256 && b[2] == n / 256 % 256 && b[3] == n
        % 256) by {
        assert(0 <= n / 16777216 < 256) by (nonlinear_arith)
            requires
                0 <= n < 0x1_0000_0000,
        ;
    }
    assert((n / 16777216) * 16777216 + (n / 65536 % 256) * 65536 + (n / 256 % 256) * 256 + n % 256
        == n) by (nonlinear_arith)
        requires
            0 <= n,
    ;
}

pub proof fn lemma_any_parameter_set_cons(us: Seq<Seq<u8>>)
    requires
        us.len() > 0,
    ensures
        any_parameter_set(us) == ((us[0].len() > 0 && is_parameter_set_header(us[0][0]))
            || any_parameter_set(us.drop_first())),
{
    let rest = us.drop_first();
    if any_parameter_set(us) && !(us[0].len() > 0 && is_parameter_set_header(us[0][0])) {
        let i = choose|i: int|
            0 <= i < us.len() && us[i].len() > 0 && is_parameter_set_header(#[trigger] us[i][0]);
        assert(rest[i - 1] == us[i]);
    }
    if any_parameter_set(rest) {
        let i = choose|i: int|
            0 <= i < rest.len() && rest[i].len() > 0 && is_parameter_set_header(
                #[trigger] rest[i][0],
            );
        assert(us[i + 1] == rest[i]);
    }
}

/// Law: converting AVCC data replaces each length prefix by a start code,
/// keeping the units and their order, and reports a parameter set exactly
/// when one of the units is one (all units non-empty, lengths below 2^32).
pub proof fn law_avcc_prefixes_become_start_codes(us: Seq<Seq<u8>>)
    requires
        forall|i: int| 0 <= i < us.len() ==> 0 < (#[trigger] us[i]).len() < 0x1_0000_0000,
    ensures
        avcc_to_annexb(avcc_frame(us)) == (annexb_frame(us), any_parameter_set(us)),
    decreases us.len(),
{
    if us.len() == 0 {
        assert(!any_parameter_set(us));
    } else {
        let u = us[0];
        let rest = us.drop_first();
        let s = avcc_frame(us);
        let l = u.len() as int;
        lemma_be32_bytes(l);
        assert(s.skip(4) =~= u + avcc_frame(rest));
        assert(be32(s, 0) == be32(be32_bytes(l), 0));
        assert(s.skip(4).take(l) =~= u);
        assert(s.skip(4).skip(l) =~= avcc_frame(rest));
        law_avcc_prefixes_become_start_codes(rest);
        lemma_any_parameter_set_cons(us);
    }
}

/// Law: on encoder output framed as AVCC whose first prefix does not look
/// like a start code, `annexb_from_mf_data` yields the Annex-B framing of
/// the same units.
pub proof fn law_mf_avcc_output(us: Seq<Seq<u8>>)
    requires
        forall|i: int| 0 <= i < us.len() ==> 0 < (#[trigger] us[i]).len() < 0x1_0000_0000,
        !is_annexb(avcc_frame(us)),
    ensures
        mf_data_to_annexb(avcc_frame(us)) == (annexb_frame(us), any_parameter_set(us)),
{
    law_avcc_prefixes_become_start_codes(us);
}

/// Law: data that is already Annex-B passes through unchanged.
pub proof fn law_annexb_passes_through(d: Seq<u8>)
    requires
        is_annexb(d),
    ensures
        mf_data_to_annexb(d).0 == d,
{
}

/// Law: a conversion's Annex-B output that begins with a start code is a
/// fixed point: converting it again changes nothing.
pub proof fn law_conversion_idempotent(d: Seq<u8>)
    requires
        is_annexb(mf_data_to_annexb(d).0),
    ensures
        mf_data_to_annexb(mf_data_to_annexb(d).0).0 == mf_data_to_annexb(d).0,
{
}

/// No three-byte start code `00 00 01` occurs in `u` (and so no four-byte
/// one either).
pub open spec fn no_start_code(u: Seq<u8>) -> bool {
    forall|p: int| !#[trigger] sc3_at(u, p)
}

/// Scanning for a start code passes over a stretch that holds none.
proof fn lemma_scan_skips(d: Seq<u8>, p: int, e: int)
    requires
        0 <= p <= e <= d.len(),
        forall|q: int| p <= q < e ==> !#[trigger] sc3_at(d, q) && !sc4_at(d, q),
    ensures
        next_start_code(d, p) == next_start_code(d, e),
    decreases e - p,
{
    if p < e && p + 3 <= d.len() {
        assert(!sc3_at(d, p) && !sc4_at(d, p));
        lemma_scan_skips(d, p + 1, e);
    }
}

/// Scanning `pre + s` from inside `s` is scanning `s`, shifted.
proof fn lemma_scan_shift(pre: Seq<u8>, s: Seq<u8>, q: int)
    requires
        0 <= q <= s.len(),
    ensures
        next_start_code(pre + s, pre.len() + q) == pre.len() + next_start_code(s, q),
    decreases s.len() - q,
{
    let d = pre + s;
    let p = pre.len() + q;
    if q + 3 <= s.len() {
        assert(d[p] == s[q] && d[p + 1] == s[q + 1] && d[p + 2] == s[q + 2]);
        if q + 4 <= s.len() {
            assert(d[p + 3] == s[q + 3]);
        }
        assert(sc3_at(d, p) == sc3_at(s, q));
        assert(sc4_at(d, p) == sc4_at(s, q));
        if !(sc4_at(s, q) || sc3_at(s, q)) {
            lemma_scan_shift(pre, s, q + 1);
        }
    }
}

/// Looking for parameter sets in `pre + s` from a position inside `s` is
/// looking for them in `s`.
proof fn lemma_has_parameter_set_shift(pre: Seq<u8>, s: Seq<u8>, q: int)
    requires
        0 <= q,
    ensures
        annexb_has_parameter_set(pre + s, pre.len() + q) == annexb_has_parameter_set(s, q),
    decreases s.len() - q,
{
    let d = pre + s;
    let p = pre.len() + q;
    if q < s.len() {
        if q + 3 <= s.len() {
            assert(d[p] == s[q] && d[p + 1] == s[q + 1] && d[p + 2] == s[q + 2]);
            if q + 4 <= s.len() {
                assert(d[p + 3] == s[q + 3]);
            }
        }
        assert(sc3_at(d, p) == sc3_at(s, q));
        assert(sc4_at(d, p) == sc4_at(s, q));
        let code = start_code_len_at(s, q);
        if code != 0 {
            lemma_scan_shift(pre, s, q + code);
            lemma_next_start_code_bounds(s, q + code);
            let end = next_start_code(s, q + code);
            if q + code < s.len() {
                assert(d[p + code] == s[q + code]);
            }
            lemma_has_parameter_set_shift(pre, s, end);
        }
    }
}

/// Scanning an Annex-B frame from the byte after its first start code
/// stops at the start of the next unit (or at the end).
proof fn lemma_first_unit_end(u: Seq<u8>, r: Seq<u8>)
    requires
        no_start_code(u),
        r.len() == 0 || (r.len() >= 4 && r[0] == 0 && r[1] == 0 && r[2] == 0 && r[3] == 1),
    ensures
        next_start_code(start_code4() + u + r, 4) == 4 + u.len(),
{
    let x = start_code4() + u + r;
    let e = 4 + u.len() as int;
    assert forall|q: int| 4 <= q < e implies !#[trigger] sc3_at(x, q) && !sc4_at(x, q) by {
        if q + 3 <= e {
            assert(x[q] == u[q - 4] && x[q + 1] == u[q - 3] && x[q + 2] == u[q - 2]);
            assert(!sc3_at(u, q - 4));
            if sc4_at(x, q) {
                assert(x[q + 3] == 1);
                if q + 4 <= e {
                    assert(x[q + 3] == u[q - 1]);
                    assert(sc3_at(u, q - 3));
                } else {
                    assert(x[q + 3] == r[q + 3 - e]);
                }
            }
        } else {
            if r.len() > 0 {
                assert(x[q + 2] == r[q + 2 - e]);
            }
        }
    }
    lemma_scan_skips(x, 4, e);
    if r.len() > 0 {
        assert(x[e] == r[0] && x[e + 1] == r[1] && x[e + 2] == r[2] && x[e + 3] == r[3]);
        assert(sc4_at(x, e));
    }
}

/// Law: on an Annex-B frame the parameter-set flag sees every unit: it is
/// set exactly when some unit, at any position, has NAL type 7 or 8 (for
/// units that hold no start code of their own). The conversion of such a
/// frame keeps it and reports exactly that.
pub proof fn law_annexb_flag_sees_every_unit(us: Seq<Seq<u8>>)
    requires
        forall|i: int| 0 <= i < us.len() ==> no_start_code(#[trigger] us[i]),
    ensures
        annexb_has_parameter_set(annexb_frame(us), 0) == any_parameter_set(us),
        us.len() > 0 ==> mf_data_to_annexb(annexb_frame(us)) == (
            annexb_frame(us),
            any_parameter_set(us),
        ),
    decreases us.len(),
{
    if us.len() == 0 {
        assert(!any_parameter_set(us));
    } else {
        let u = us[0];
        let rest = us.drop_first();
        let r = annexb_frame(rest);
        let x = annexb_frame(us);
        assert(x == start_code4() + u + r);
        assert(forall|i: int| 0 <= i < rest.len() ==> rest[i] == us[i + 1]);
        law_annexb_flag_sees_every_unit(rest);
        if rest.len() > 0 {
            assert(r[0] == 0 && r[1] == 0 && r[2] == 0 && r[3] == 1);
        }
        lemma_first_unit_end(u, r);
        assert(x[0] == 0 && x[1] == 0 && x[2] == 0 && x[3] == 1);
        assert(sc4_at(x, 0));
        assert(start_code_len_at(x, 0) == 4);
        if u.len() > 0 {
            assert(x[4] == u[0]);
        }
        let pre = start_code4() + u;
        assert(x =~= pre + r);
        lemma_has_parameter_set_shift(pre, r, 0);
        lemma_any_parameter_set_cons(us);
        assert(is_annexb(x));
    }
}

pub proof fn lemma_next_start_code_bounds(d: Seq<u8>, p: int)
    requires
        0 <= p <= d.len(),
    ensures
        p <= next_start_code(d, p) <= d.len(),
        next_start_code(d, p) < d.len() ==> (sc4_at(d, next_start_code(d, p)) || sc3_at(
            d,
            next_start_code(d, p),
        )),
    decreases d.len() - p,
{
    if p + 3 > d.len() {
    } else if sc4_at(d, p) || sc3_at(d, p) {
    } else {
        lemma_next_start_code_bounds(d, p + 1);
    }
}

// ---------------------------------------------------------------------------
// Executable code
// ---------------------------------------------------------------------------

fn has_sc4(data: &[u8], p: usize) -> (r: bool)
    ensures
        r == sc4_at(data@, p as int),
{
    p <= data.len() && data.len() - p >= 4 && data[p] == 0x00 && data[p + 1] == 0x00 && data[p
        + 2] == 0x00 && data[p + 3] == 0x01
}

fn has_sc3(data: &[u8], p: usize) -> (r: bool)
    ensures
        r == sc3_at(data@, p as int),
{
    p <= data.len() && data.len() - p >= 3 && data[p] == 0x00 && data[p + 1] == 0x00 && data[p
        + 2] == 0x01
}

fn nal_type_is_parameter_set(b: u8) -> (r: bool)
    ensures
        r == is_parameter_set_header(b),
{
    let t = b & 0x1F;
    assert(b & 0x1F == b % 32) by (bit_vector);
    t == 7 || t == 8
}

/// Tells whether H.264 data is in Annex-B form, that is, whether it is at
/// least four bytes long and begins with a four- or three-byte start code.
pub fn is_annexb_format(data: &[u8]) -> (r: bool)
    ensures
        r == is_annexb(data@),
{
    if data.len() < 4 {
        return false;
    }
    if data[0] == 0x00 && data[1] == 0x00 && data[2] == 0x00 && data[3] == 0x01 {
        return true;
    }
    if data.len() >= 3 && data[0] == 0x00 && data[1] == 0x00 && data[2] == 0x01 {
        return true;
    }
    false
}

/// Finds the next start code at or after `from` (or the end of the data).
fn find_next_start_code(data: &[u8], from: usize) -> (r: usize)
    requires
        from <= data@.len(),
    ensures
        r == next_start_code(data@, from as int),
{
    let mut search_pos = from;
    while data.len() - search_pos >= 3
        invariant
            from <= search_pos <= data@.len(),
            next_start_code(data@, search_pos as int) == next_start_code(data@, from as int),
        decreases data@.len() - search_pos,
    {
        if has_sc4(data, search_pos) || has_sc3(data, search_pos) {
            return search_pos;
        }
        search_pos += 1;
    }
    data.len()
}

/// Converts H.264 encoder output to Annex-B form, detecting the format.
///
/// Data that already begins with a start code is returned unchanged; its NAL
/// units are scanned for parameter sets. Any other data is read as AVCC
/// (big-endian 32-bit length prefixes) and each unit is given a four-byte
/// start code. The flag tells whether a sequence or picture parameter set
/// was seen.
pub fn annexb_from_mf_data(data: &[u8]) -> (r: (Vec<u8>, bool))
    ensures
        (r.0@, r.1) == mf_data_to_annexb(data@),
{
    let mut result: Vec<u8> = Vec::new();
    let mut has_sps_pps = false;

    if is_annexb_format(data) {
        let mut i: usize = 0;
        while i < data.len()
            invariant
                is_annexb(data@),
                0 <= i <= data@.len(),
                result@ == data@.subrange(0, i as int),
                i < data@.len() ==> (sc4_at(data@, i as int) || sc3_at(data@, i as int)),
                annexb_has_parameter_set(data@, 0) == (has_sps_pps || annexb_has_parameter_set(
                    data@,
                    i as int,
                )),
            decreases data@.len() - i,
        {
            let start_code_len: usize = if has_sc4(data, i) {
                4
            } else if has_sc3(data, i) {
                3
            } else {
                0
            };
            if start_code_len == 0 {
                append_range(&mut result, data, i, data.len());
                i = data.len();
            } else {
                let nal_end = find_next_start_code(data, i + start_code_len);
                proof {
                    lemma_next_start_code_bounds(data@, (i + start_code_len) as int);
                }
                if nal_end - i > start_code_len {
                    if nal_type_is_parameter_set(data[i + start_code_len]) {
                        has_sps_pps = true;
                    }
                }
                append_range(&mut result, data, i, nal_end);
                assert(data@.subrange(0, i as int) + data@.subrange(i as int, nal_end as int)
                    =~= data@.subrange(0, nal_end as int));
                i = nal_end;
            }
        }
        assert(data@.subrange(0, data@.len() as int) =~= data@);
        return (result, has_sps_pps);
    }
    let mut i: usize = 0;
    assert(data@.skip(0) =~= data@);
    assert(result@ + avcc_to_annexb(data@).0 =~= avcc_to_annexb(data@).0);
    while i < data.len()
        invariant
            !is_annexb(data@),
            0 <= i <= data@.len(),
            result@ + avcc_to_annexb(data@.skip(i as int)).0 == avcc_to_annexb(data@).0,
            avcc_to_annexb(data@).1 == (has_sps_pps || avcc_to_annexb(data@.skip(i as int)).1),
        decreases data@.len() - i,
    {
        let ghost s = data@.skip(i as int);
        if data.len() - i >= 4 {
            let nal_length = ((data[i] as u32) * 16777216 + (data[i + 1] as u32) * 65536 + (data[i
                + 2] as u32) * 256 + (data[i + 3] as u32)) as usize;
            assert(nal_length == be32(s, 0));
            i += 4;
            assert(s.skip(4) =~= data@.skip(i as int));
            if nal_length <= data.len() - i && nal_length > 0 {
                if nal_type_is_parameter_set(data[i]) {
                    has_sps_pps = true;
                }
                push_start_code(&mut result);
                append_range(&mut result, data, i, i + nal_length);
                assert(s.skip(4).take(nal_length as int) =~= data@.subrange(
                    i as int,
                    i + nal_length,
                ));
                assert(s.skip(4).skip(nal_length as int) =~= data@.skip(i + nal_length));
                i += nal_length;
            } else {
                append_range(&mut result, data, i, data.len());
                assert(data@.subrange(i as int, data@.len() as int) =~= s.skip(4));
                assert(data@.skip(data@.len() as int) =~= Seq::<u8>::empty());
                i = data.len();
            }
        } else {
            append_range(&mut result, data, i, data.len());
            assert(data@.subrange(i as int, data@.len() as int) =~= s);
            assert(data@.skip(data@.len() as int) =~= Seq::<u8>::empty());
            i = data.len();
        }
    }
    assert(data@.skip(data@.len() as int) =~= Seq::<u8>::empty());
    assert(data@.skip(0) =~= data@);
    (result, has_sps_pps)
}

/// Reads `count` length-prefixed parameter sets starting at `offset`,
/// keeping a copy of the first one.
fn read_param_sets_exec(data: &[u8], offset: usize, count: usize) -> (r: Option<
    (Option<Vec<u8>>, usize),
>)
    requires
        offset <= data@.len(),
    ensures
        match r {
            None => read_param_sets(data@, offset as int, count as nat) is None,
            Some((f, e)) => read_param_sets(data@, offset as int, count as nat) == Some(
                (
                    match f {
                        None => None,
                        Some(v) => Some(v@),
                    },
                    e as int,
                ),
            ),
        },
{
    let mut pos = offset;
    let ghost off0 = offset as int;
    let mut first: Option<Vec<u8>> = None;
    let mut i: usize = 0;
    while i < count
        invariant
            0 <= i <= count,
            pos <= data@.len(),
            off0 == offset as int,
            off0 <= pos,
            i == 0 ==> first is None,
            read_param_sets(data@, off0, count as nat) == resume_read(
                match first {
                    None => None,
                    Some(v) => Some(v@),
                },
                i as nat,
                read_param_sets(data@, pos as int, (count - i) as nat),
            ),
        decreases count - i,
    {
        if data.len() - pos < 2 {
            assert(read_param_sets(data@, pos as int, (count - i) as nat) is None);
            return None;
        }
        let len = (data[pos] as usize) * 256 + (data[pos + 1] as usize);
        let body = pos + 2;
        if data.len() - body < len {
            assert(read_param_sets(data@, pos as int, (count - i) as nat) is None);
            return None;
        }
        if i == 0 {
            let mut v: Vec<u8> = Vec::new();
            append_range(&mut v, data, body, body + len);
            first = Some(v);
        }
        proof {
            lemma_read_param_sets_offset(data@, (body + len) as int, (count - i - 1) as nat);
        }
        pos = body;
        pos += len;
        i += 1;
    }
    Some((first, pos))
}

/// Extracts the first SPS and the first PPS from an
/// AVCDecoderConfigurationRecord (`avcC`).
///
/// Returns `None` when the record is shorter than seven bytes, its version
/// byte is not 1, an entry runs past the end, no PPS count follows the SPS
/// entries, or either list is empty.
pub fn parse_avc_decoder_config(data: &[u8]) -> (r: Option<(Vec<u8>, Vec<u8>)>)
    ensures
        match r {
            None => avc_decoder_config(data@) is None,
            Some((s, p)) => avc_decoder_config(data@) == Some((s@, p@)),
        },
{
    if data.len() < 7 {
        return None;
    }
    if data[0] != 1 {
        return None;
    }
    let b5 = data[5];
    let num_sps = (b5 & 0x1F) as usize;
    assert(b5 & 0x1F == b5 % 32) by (bit_vector);
    let (sps, offset) = match read_param_sets_exec(data, 6, num_sps) {
        None => return None,
        Some(x) => x,
    };
    proof {
        lemma_read_param_sets_offset(data@, 6, num_sps as nat);
    }
    if offset >= data.len() {
        return None;
    }
    let num_pps = data[offset] as usize;
    let (pps, _) = match read_param_sets_exec(data, offset + 1, num_pps) {
        None => return None,
        Some(x) => x,
    };
    match (sps, pps) {
        (Some(s), Some(p)) => Some((s, p)),
        _ => None,
    }
}

} // verus!
