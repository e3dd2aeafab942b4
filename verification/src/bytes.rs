//! Small byte-buffer helpers shared by the bitstream code.
use vstd::prelude::*;

verus! {

/// The four-byte Annex-B start code `00 00 00 01`.
pub open spec fn start_code4() -> Seq<u8> {
    seq![0u8, 0u8, 0u8, 1u8]
}

/// Appends `data[start..end]` to `out`.
pub fn append_range(out: &mut Vec<u8>, data: &[u8], start: usize, end: usize)
    requires
        start <= end <= data@.len(),
    ensures
        final(out)@ == old(out)@ + data@.subrange(start as int, end as int),
{
    let part = &data[start..end];
    out.extend_from_slice(part);
    assert(final_eq_helper(old(out)@, part@, out@)) by {
        assert forall|k: int| 0 <= k < out@.len() implies out@[k] == (old(out)@ + part@)[k] by {
            if k >= old(out)@.len() {
                assert(cloned::<u8>(part@[k - old(out)@.len()], out@[k]));
            }
        }
        assert(out@ =~= old(out)@ + part@);
    }
}

spec fn final_eq_helper(a: Seq<u8>, b: Seq<u8>, c: Seq<u8>) -> bool {
    c == a + b
}

/// Appends the four-byte start code to `out`.
pub fn push_start_code(out: &mut Vec<u8>)
    ensures
        final(out)@ == old(out)@ + start_code4(),
{
    out.push(0u8);
    out.push(0u8);
    out.push(0u8);
    out.push(1u8);
    assert(out@ =~= old(out)@ + start_code4());
}

} // verus!
