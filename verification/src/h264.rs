//! H.264 bitstream handling: length-prefixed (AVCC) to start-code (Annex B)
//! conversion, and the NAL unit types a stream carries.
use vstd::prelude::*;
use crate::wire::{
    be_bytes, be_read, be_value, copy_range, lemma_be_roundtrip, lemma_be_value_bound, lemma_pow256_values,
    push_all,
};

verus! {

/// A 3-byte start code `00 00 01` at `i`.
pub open spec fn start3(b: Seq<u8>, i: int) -> bool {
    0 <= i && i + 3 <= b.len() && b[i] == 0 && b[i + 1] == 0 && b[i + 2] == 1
}

/// A 4-byte start code `00 00 00 01` at `i`.
pub open spec fn start4(b: Seq<u8>, i: int) -> bool {
    0 <= i && i + 4 <= b.len() && b[i] == 0 && b[i + 1] == 0 && b[i + 2] == 0 && b[i + 3] == 1
}

/// The NAL unit types found scanning `b` from `i` for start codes while at
/// least four bytes remain; the type is the low five bits of the byte after
/// each start code.
pub open spec fn nal_scan(b: Seq<u8>, i: int) -> Seq<u8>
    decreases b.len() - i,
{
    if i < 0 || i + 3 >= b.len() {
        Seq::empty()
    } else if start3(b, i) || start4(b, i) {
        let sc: int = if b[i + 2] == 1 {
            3
        } else {
            4
        };
        if i + sc < b.len() {
            seq![b[i + sc] & 0x1f] + nal_scan(b, i + sc)
        } else {
            nal_scan(b, i + sc)
        }
    } else {
        nal_scan(b, i + 1)
    }
}

/// A stream that begins with a start code, `00 00 00 01` or `00 00 01`,
/// reports first the type of the unit right after it: the low five bits of
/// that byte.
pub proof fn lemma_first_nal_type(u: Seq<u8>)
    requires
        u.len() >= 1,
    ensures
        nal_scan(seq![0u8, 0u8, 0u8, 1u8] + u, 0)[0] == u[0] & 0x1f,
        nal_scan(seq![0u8, 0u8, 0u8, 1u8] + u, 0).len() >= 1,
        nal_scan(seq![0u8, 0u8, 1u8] + u, 0)[0] == u[0] & 0x1f,
        nal_scan(seq![0u8, 0u8, 1u8] + u, 0).len() >= 1,
{
    let b4 = seq![0u8, 0u8, 0u8, 1u8] + u;
    let b3 = seq![0u8, 0u8, 1u8] + u;
    assert(b4[4] == u[0]);
    assert(b3[3] == u[0]);
    assert(start4(b4, 0));
    assert(start3(b3, 0));
}

/// What the agent reports about an encoded frame.
pub struct NalSummary {
    /// The NAL unit types, in stream order.
    pub types: Vec<u8>,
    /// A sequence parameter set (type 7) is present.
    pub has_sps: bool,
    /// A picture parameter set (type 8) is present.
    pub has_pps: bool,
    /// An IDR picture (type 5) is present.
    pub has_idr: bool,
}

/// Scans an Annex B stream for its NAL unit types.
pub fn nal_unit_types(b: &[u8]) -> (s: NalSummary)
    ensures
        s.types@ == nal_scan(b@, 0),
        s.has_sps == nal_scan(b@, 0).contains(7u8),
        s.has_pps == nal_scan(b@, 0).contains(8u8),
        s.has_idr == nal_scan(b@, 0).contains(5u8),
{
    let mut types: Vec<u8> = Vec::new();
    let mut has_sps = false;
    let mut has_pps = false;
    let mut has_idr = false;
    let mut i: usize = 0;
    while i < b.len() && b.len() - i > 3
        invariant
            i <= b.len(),
            types@ + nal_scan(b@, i as int) == nal_scan(b@, 0),
            has_sps == types@.contains(7u8),
            has_pps == types@.contains(8u8),
            has_idr == types@.contains(5u8),
        decreases b.len() - i,
    {
        let s3 = b[i] == 0 && b[i + 1] == 0 && b[i + 2] == 1;
        let s4 = b[i] == 0 && b[i + 1] == 0 && b[i + 2] == 0 && b[i + 3] == 1;
        if s3 || s4 {
            let sc: usize = if b[i + 2] == 1 {
                3
            } else {
                4
            };
            if i + sc < b.len() {
                let t = b[i + sc] & 0x1f;
                proof {
                    assert(types@.push(t) + nal_scan(b@, i + sc) =~= types@ + nal_scan(b@, i as int));
                    assert forall|x: u8| types@.push(t).contains(x) <==> (types@.contains(x) || x == t) by {
                        if types@.push(t).contains(x) {
                            let k = choose|k: int| 0 <= k < types@.push(t).len() && types@.push(t)[k] == x;
                            if k < types@.len() {
                                assert(types@[k] == x);
                            }
                        }
                        if x == t {
                            assert(types@.push(t)[types@.len() as int] == t);
                        }
                        if types@.contains(x) {
                            let k = choose|k: int| 0 <= k < types@.len() && types@[k] == x;
                            assert(types@.push(t)[k] == x);
                        }
                    }
                }
                types.push(t);
                if t == 7 {
                    has_sps = true;
                } else if t == 8 {
                    has_pps = true;
                } else if t == 5 {
                    has_idr = true;
                }
            }
            i = i + sc;
        } else {
            i = i + 1;
        }
    }
    proof {
        assert(types@ + nal_scan(b@, i as int) =~= types@);
    }
    NalSummary { types, has_sps, has_pps, has_idr }
}

/// The Annex B form of the length-prefixed NAL units of `d` from `off` on:
/// each unit with a 4-byte big-endian length becomes a 4-byte start code and
/// the unit; conversion stops at a length that runs past the end.
pub open spec fn avcc_units(d: Seq<u8>, off: int) -> Seq<u8>
    decreases d.len() - off,
{
    if off < 0 || off + 4 > d.len() {
        Seq::empty()
    } else {
        let n = be_value(d.subrange(off, off + 4)) as int;
        if off + 4 + n > d.len() {
            Seq::empty()
        } else {
            seq![0u8, 0u8, 0u8, 1u8] + d.subrange(off + 4, off + 4 + n) + avcc_units(
                d,
                off + 4 + n,
            )
        }
    }
}

/// The encoder's output as an Annex B stream: empty stays empty, a stream
/// that already begins with a start code is kept, length-prefixed units are
/// converted, and anything that yields no unit is kept as it is.
pub open spec fn spec_annex_b(d: Seq<u8>) -> Seq<u8> {
    if d.len() == 0 {
        d
    } else if d.len() >= 4 && (start4(d, 0) || start3(d, 0)) {
        d
    } else if avcc_units(d, 0).len() == 0 {
        d
    } else {
        avcc_units(d, 0)
    }
}

/// A stream that already begins with a start code, `00 00 00 01` or
/// `00 00 01`, comes out exactly as it went in, and so does an empty one.
pub proof fn lemma_annex_b_input_kept(d: Seq<u8>)
    requires
        d.len() == 0 || (d.len() >= 4 && d[0] == 0 && d[1] == 0 && (d[2] == 1 || (d[2] == 0
            && d[3] == 1))),
    ensures
        spec_annex_b(d) == d,
{
}

/// One length-prefixed unit (a 4-byte big-endian length, then that many
/// bytes) that does not look like a start code becomes a 4-byte start code
/// followed by the unit's bytes.
pub proof fn lemma_annex_b_one_unit(p: Seq<u8>)
    requires
        0 < p.len() < 0x1_0000_0000,
        !(p.len() == 1 || (256 <= p.len() < 512)),
    ensures
        spec_annex_b(be_bytes(p.len(), 4) + p) == seq![0u8, 0u8, 0u8, 1u8] + p,
{
    lemma_pow256_values();
    lemma_be_roundtrip(p.len(), 4);
    let d = be_bytes(p.len(), 4) + p;
    let h = be_bytes(p.len(), 4);
    assert(d.subrange(0, 4) =~= h);
    assert(d.subrange(4, 4 + p.len() as int) =~= p);
    assert(avcc_units(d, 4 + p.len() as int) =~= Seq::<u8>::empty());
    reveal_with_fuel(be_bytes, 5);
    let n = p.len();
    assert(h[3] == (n % 256) as u8);
    assert(h[2] == ((n / 256) % 256) as u8);
    assert(h[1] == ((n / 256 / 256) % 256) as u8);
    assert(h[0] == ((n / 256 / 256 / 256) % 256) as u8);
    if d[0] == 0 && d[1] == 0 && d[2] == 1 {
        assert(256 <= n < 512) by (nonlinear_arith)
            requires
                ((n / 256 / 256 / 256) % 256) == 0,
                ((n / 256 / 256) % 256) == 0,
                ((n / 256) % 256) == 1,
                n < 0x1_0000_0000,
        ;
    }
    if d[0] == 0 && d[1] == 0 && d[2] == 0 && d[3] == 1 {
        assert(n == 1) by (nonlinear_arith)
            requires
                ((n / 256 / 256 / 256) % 256) == 0,
                ((n / 256 / 256) % 256) == 0,
                ((n / 256) % 256) == 0,
                n % 256 == 1,
                n < 0x1_0000_0000,
        ;
    }
    assert(avcc_units(d, 0) =~= seq![0u8, 0u8, 0u8, 1u8] + p);
}

pub fn convert_to_annex_b(data: &[u8]) -> (out: Vec<u8>)
    ensures
        out@ == spec_annex_b(data@),
{
    if data.len() == 0 {
        return Vec::new();
    }
    if data.len() >= 4 && ((data[0] == 0 && data[1] == 0 && data[2] == 0 && data[3] == 1) || (
    data[0] == 0 && data[1] == 0 && data[2] == 1)) {
        return copy_range(data, 0, data.len());
    }
    let mut annex_b: Vec<u8> = Vec::new();
    let mut offset: usize = 0;
    while data.len() - offset >= 4
        invariant_except_break
            offset <= data.len(),
            annex_b@ + avcc_units(data@, offset as int) == avcc_units(data@, 0),
        ensures
            annex_b@ == avcc_units(data@, 0),
        decreases data.len() - offset,
    {
        let len_bytes = copy_range(data, offset, offset + 4);
        proof {
            lemma_pow256_values();
            lemma_be_value_bound(len_bytes@);
            assert(len_bytes@.take(4) == len_bytes@);
        }
        let nal_len = be_read(len_bytes.as_slice(), 4);
        let start = offset + 4;
        if nal_len > (data.len() - start) as u64 {
            proof {
                assert(avcc_units(data@, offset as int) =~= Seq::<u8>::empty());
                assert(annex_b@ + Seq::<u8>::empty() =~= annex_b@);
            }
            break;
        }
        let end = start + nal_len as usize;
        let ghost before = annex_b@;
        annex_b.push(0);
        annex_b.push(0);
        annex_b.push(0);
        annex_b.push(1);
        let unit = copy_range(data, start, end);
        push_all(&mut annex_b, unit.as_slice());
        proof {
            assert(annex_b@ =~= before + (seq![0u8, 0u8, 0u8, 1u8] + data@.subrange(
                start as int,
                end as int,
            )));
            assert(annex_b@ + avcc_units(data@, end as int) =~= before + avcc_units(
                data@,
                offset as int,
            ));
        }
        offset = end;
    }
    proof {
        if offset + 4 > data.len() {
            assert(annex_b@ + Seq::<u8>::empty() =~= annex_b@);
        }
    }
    if annex_b.len() == 0 {
        copy_range(data, 0, data.len())
    } else {
        annex_b
    }
}

/// Converting a stream that was already converted changes nothing.
pub proof fn lemma_annex_b_idempotent(d: Seq<u8>)
    ensures
        spec_annex_b(spec_annex_b(d)) == spec_annex_b(d),
{
    let a = avcc_units(d, 0);
    if d.len() != 0 && !(d.len() >= 4 && (start4(d, 0) || start3(d, 0))) && a.len() != 0 {
        assert(d.len() >= 4);
        let n = be_value(d.subrange(0, 4)) as int;
        assert(4 + n <= d.len());
        assert(a == seq![0u8, 0u8, 0u8, 1u8] + d.subrange(4, 4 + n) + avcc_units(d, 4 + n));
        assert(a[0] == 0u8 && a[1] == 0u8 && a[2] == 0u8 && a[3] == 1u8);
        assert(start4(a, 0));
    }
}

} // verus!
