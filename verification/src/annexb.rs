//! Annex-B packing of the NAL units an H.264 software encoder hands out,
//! layer by layer.
use vstd::prelude::*;
use crate::bytes::{append_range, push_start_code, start_code4};
use crate::nal::{is_parameter_set_header, sc4_at};

verus! {

/// One spatial/temporal layer of an encoded picture: its NAL units, each of
/// which the encoder may fail to hand out (`None`).
pub struct NalLayer {
    pub nal_units: Vec<Option<Vec<u8>>>,
}

/// The layers of one encoded picture; a layer the encoder cannot hand out
/// is `None`.
pub struct EncodedLayers {
    pub layers: Vec<Option<NalLayer>>,
}

/// The NAL units that are present, in order.
pub open spec fn present_units(units: Seq<Option<Vec<u8>>>) -> Seq<Seq<u8>>
    decreases units.len(),
{
    if units.len() == 0 {
        Seq::empty()
    } else {
        let prefix = present_units(units.drop_last());
        match units.last() {
            Some(u) => prefix.push(u@),
            None => prefix,
        }
    }
}

/// The NAL units of all present layers, in order.
pub open spec fn layer_units(layers: Seq<Option<NalLayer>>) -> Seq<Seq<u8>>
    decreases layers.len(),
{
    if layers.len() == 0 {
        Seq::empty()
    } else {
        let prefix = layer_units(layers.drop_last());
        match layers.last() {
            Some(layer) => prefix + present_units(layer.nal_units@),
            None => prefix,
        }
    }
}

/// What one NAL unit adds to the Annex-B stream, and whether it is a
/// parameter set. Empty units, and units that are nothing but a start code,
/// add nothing; a unit without its own four-byte start code gets one.
pub open spec fn unit_contribution(u: Seq<u8>) -> (Seq<u8>, bool) {
    let off: int = if sc4_at(u, 0) {
        4
    } else {
        0
    };
    if u.len() == 0 || u.len() <= off {
        (Seq::empty(), false)
    } else {
        (if sc4_at(u, 0) {
            u
        } else {
            start_code4() + u
        }, is_parameter_set_header(u[off]))
    }
}

/// The Annex-B stream made of the given NAL units, and whether one of them
/// is a sequence or picture parameter set.
pub open spec fn pack_units(us: Seq<Seq<u8>>) -> (Seq<u8>, bool)
    decreases us.len(),
{
    if us.len() == 0 {
        (Seq::empty(), false)
    } else {
        let prefix = pack_units(us.drop_last());
        let c = unit_contribution(us.last());
        (prefix.0 + c.0, prefix.1 || c.1)
    }
}

proof fn lemma_pack_push(a: Seq<Seq<u8>>, u: Seq<u8>)
    ensures
        pack_units(a.push(u)) == (pack_units(a).0 + unit_contribution(u).0, pack_units(a).1
            || unit_contribution(u).1),
{
    assert(a.push(u).drop_last() =~= a);
}

/// Builds H.264 Annex-B data from an encoder's layered output.
///
/// Every present NAL unit of every present layer is copied in order; a unit
/// that does not already begin with `00 00 00 01` is preceded by that start
/// code; empty units and bare start codes are skipped. The flag tells
/// whether a sequence (7) or picture (8) parameter set was among them.
pub fn annexb_from_bitstream(bitstream: &EncodedLayers) -> (r: (Vec<u8>, bool))
    ensures
        (r.0@, r.1) == pack_units(layer_units(bitstream.layers@)),
{
    let mut sample_data: Vec<u8> = Vec::new();
    let mut has_sps_pps = false;
    let num_layers = bitstream.layers.len();
    if num_layers == 0 {
        assert(bitstream.layers@ =~= Seq::<Option<NalLayer>>::empty());
        return (sample_data, has_sps_pps);
    }
    let mut i: usize = 0;
    while i < num_layers
        invariant
            num_layers == bitstream.layers@.len(),
            0 <= i <= num_layers,
            (sample_data@, has_sps_pps) == pack_units(
                layer_units(bitstream.layers@.take(i as int)),
            ),
        decreases num_layers - i,
    {
        let ghost before = layer_units(bitstream.layers@.take(i as int));
        assert(bitstream.layers@.take(i + 1).drop_last() =~= bitstream.layers@.take(i as int));
        match &bitstream.layers[i] {
            None => {},
            Some(layer) => {
                let nal_count = layer.nal_units.len();
                let mut j: usize = 0;
                assert(layer.nal_units@.take(0) =~= Seq::<Option<Vec<u8>>>::empty());
                assert(before + present_units(layer.nal_units@.take(0)) =~= before);
                while j < nal_count
                    invariant
                        nal_count == layer.nal_units@.len(),
                        0 <= j <= nal_count,
                        (sample_data@, has_sps_pps) == pack_units(
                            before + present_units(layer.nal_units@.take(j as int)),
                        ),
                    decreases nal_count - j,
                {
                    let ghost units_before = before + present_units(
                        layer.nal_units@.take(j as int),
                    );
                    assert(layer.nal_units@.take(j + 1).drop_last() =~= layer.nal_units@.take(
                        j as int,
                    ));
                    match &layer.nal_units[j] {
                        None => {},
                        Some(nal_unit) => {
                            assert(units_before.push(nal_unit@) =~= before + present_units(
                                layer.nal_units@.take(j + 1),
                            ));
                            proof {
                                lemma_pack_push(units_before, nal_unit@);
                            }
                            let n = nal_unit.len();
                            if n > 0 {
                                let has_start_code = n >= 4 && nal_unit[0] == 0x00 && nal_unit[1]
                                    == 0x00 && nal_unit[2] == 0x00 && nal_unit[3] == 0x01;
                                let nal_header_offset: usize = if has_start_code {
                                    4
                                } else {
                                    0
                                };
                                if n > nal_header_offset {
                                    let b = nal_unit[nal_header_offset];
                                    let nal_type = b & 0x1F;
                                    assert(b & 0x1F == b % 32) by (bit_vector);
                                    if nal_type == 7 || nal_type == 8 {
                                        has_sps_pps = true;
                                    }
                                    if !has_start_code {
                                        push_start_code(&mut sample_data);
                                    }
                                    append_range(&mut sample_data, nal_unit.as_slice(), 0, n);
                                    assert(nal_unit@.subrange(0, n as int) =~= nal_unit@);
                                } else {
                                    assert(sample_data@ + Seq::<u8>::empty() =~= sample_data@);
                                }
                            } else {
                                assert(sample_data@ + Seq::<u8>::empty() =~= sample_data@);
                            }
                        },
                    }
                    j += 1;
                }
                assert(layer.nal_units@.take(nal_count as int) =~= layer.nal_units@);
            },
        }
        i += 1;
    }
    assert(bitstream.layers@.take(num_layers as int) =~= bitstream.layers@);
    (sample_data, has_sps_pps)
}

/// Law: a NAL unit handed out with its own start code is copied as it is,
/// and it counts as a parameter set exactly when the byte just after the
/// start code has NAL type 7 (SPS) or 8 (PPS); a unit handed out without a
/// start code gets one, and its first byte decides.
pub proof fn law_unit_header_follows_start_code(b: u8, x: Seq<u8>)
    ensures
        pack_units(seq![seq![0u8, 0u8, 0u8, 1u8] + seq![b] + x]) == (
            seq![0u8, 0u8, 0u8, 1u8] + seq![b] + x,
            b % 32 == 7 || b % 32 == 8,
        ),
        !(b == 0 && x.len() >= 3 && x[0] == 0 && x[1] == 0 && x[2] == 1) ==> pack_units(
            seq![seq![b] + x],
        ) == (seq![0u8, 0u8, 0u8, 1u8] + seq![b] + x, b % 32 == 7 || b % 32 == 8),
{
    let u = seq![0u8, 0u8, 0u8, 1u8] + seq![b] + x;
    assert(u[0] == 0 && u[1] == 0 && u[2] == 0 && u[3] == 1);
    assert(sc4_at(u, 0));
    assert(u[4] == b);
    assert(unit_contribution(u) == (u, is_parameter_set_header(b)));
    assert(pack_units(Seq::<Seq<u8>>::empty()) == (Seq::<u8>::empty(), false));
    assert(seq![u].drop_last() =~= Seq::<Seq<u8>>::empty());
    assert(seq![u].last() == u);
    assert(Seq::<u8>::empty() + u =~= u);
    let w = seq![b] + x;
    assert(w[0] == b);
    assert(seq![w].drop_last() =~= Seq::<Seq<u8>>::empty());
    assert(seq![w].last() == w);
    if !(b == 0 && x.len() >= 3 && x[0] == 0 && x[1] == 0 && x[2] == 1) {
        if sc4_at(w, 0) {
            assert(w[1] == x[0] && w[2] == x[1] && w[3] == x[2]);
            assert(false);
        }
        assert(unit_contribution(w) == (start_code4() + w, is_parameter_set_header(b)));
        assert(Seq::<u8>::empty() + (start_code4() + w) =~= seq![0u8, 0u8, 0u8, 1u8] + seq![b]
            + x);
    }
}

} // verus!
