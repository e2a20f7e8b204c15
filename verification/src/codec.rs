//! Binary serialisation of hemisphere geometry.
//!
//! The format is little-endian and self-describing: a 4-byte `nside`, an
//! 8-byte visible-pixel count, then the visible pixel indices (8 bytes
//! each) and the l, m, n, elevation and azimuth arrays (4 bytes per
//! element).  Decoding the encoding of a hemisphere reproduces its geometry
//! exactly; the brightness array is deliberately not preserved and comes
//! back zeroed.

use vstd::prelude::*;
use vstd::bytes::{
    spec_u32_to_le_bytes,
    spec_u32_from_le_bytes,
    spec_u64_to_le_bytes,
    spec_u64_from_le_bytes,
    lemma_auto_spec_u32_to_from_le_bytes,
    lemma_auto_spec_u64_to_from_le_bytes,
    u32_to_le_bytes,
    u32_from_le_bytes,
    u64_to_le_bytes,
    u64_from_le_bytes,
};
use vstd::slice::slice_subrange;
use crate::scalar::{Real, ZERO_BITS};
use crate::sphere::{ElAz, Hemisphere};

verus! {

/// Why a byte stream was rejected as hemisphere geometry.
#[derive(Debug, Clone, Copy, PartialEq, Eq, Structural)]
pub enum DecodeError {
    /// Shorter than the 12-byte header.
    Truncated,
    /// The stream length does not match the pixel count in the header.
    LengthMismatch,
}

/// The bytes of the first `k` scalars, 4 little-endian bytes each.
pub open spec fn reals_bytes_spec(s: Seq<Real>, k: int) -> Seq<u8>
    decreases k,
{
    if k <= 0 {
        Seq::empty()
    } else {
        reals_bytes_spec(s, k - 1) + spec_u32_to_le_bytes(s[k - 1].bits)
    }
}

/// The bytes of the first `k` indices, 8 little-endian bytes each.
pub open spec fn u64s_bytes_spec(s: Seq<u64>, k: int) -> Seq<u8>
    decreases k,
{
    if k <= 0 {
        Seq::empty()
    } else {
        u64s_bytes_spec(s, k - 1) + spec_u64_to_le_bytes(s[k - 1])
    }
}

/// The elevations of an elevation/azimuth array.
pub open spec fn elaz_els_spec(s: Seq<ElAz>) -> Seq<Real> {
    s.map_values(|e: ElAz| e.el)
}

/// The azimuths of an elevation/azimuth array.
pub open spec fn elaz_azs_spec(s: Seq<ElAz>) -> Seq<Real> {
    s.map_values(|e: ElAz| e.az)
}

/// The encoding of a hemisphere's geometry: header, then the six arrays.
pub open spec fn encoding_spec(h: Hemisphere) -> Seq<u8> {
    let n = h.npix as int;
    spec_u32_to_le_bytes(h.nside) + spec_u64_to_le_bytes(h.npix as u64) + u64s_bytes_spec(
        h.visible_indices@,
        n,
    ) + reals_bytes_spec(h.l@, n) + reals_bytes_spec(h.m@, n) + reals_bytes_spec(h.n@, n)
        + reals_bytes_spec(elaz_els_spec(h.elaz@), n) + reals_bytes_spec(elaz_azs_spec(h.elaz@), n)
}

proof fn lemma_reals_bytes_len(s: Seq<Real>, k: int)
    requires
        0 <= k,
    ensures
        reals_bytes_spec(s, k).len() == 4 * k,
    decreases k,
{
    lemma_auto_spec_u32_to_from_le_bytes();
    if k > 0 {
        lemma_reals_bytes_len(s, k - 1);
    }
}

proof fn lemma_u64s_bytes_len(s: Seq<u64>, k: int)
    requires
        0 <= k,
    ensures
        u64s_bytes_spec(s, k).len() == 8 * k,
    decreases k,
{
    lemma_auto_spec_u64_to_from_le_bytes();
    if k > 0 {
        lemma_u64s_bytes_len(s, k - 1);
    }
}

proof fn lemma_reals_bytes_chunk(s: Seq<Real>, k: int, j: int)
    requires
        0 <= j < k,
    ensures
        reals_bytes_spec(s, k).subrange(4 * j, 4 * j + 4) == spec_u32_to_le_bytes(s[j].bits),
    decreases k,
{
    lemma_auto_spec_u32_to_from_le_bytes();
    lemma_reals_bytes_len(s, k - 1);
    if j == k - 1 {
        assert(reals_bytes_spec(s, k).subrange(4 * j, 4 * j + 4) =~= spec_u32_to_le_bytes(
            s[j].bits,
        ));
    } else {
        lemma_reals_bytes_chunk(s, k - 1, j);
        assert(reals_bytes_spec(s, k).subrange(4 * j, 4 * j + 4) =~= reals_bytes_spec(
            s,
            k - 1,
        ).subrange(4 * j, 4 * j + 4));
    }
}

proof fn lemma_u64s_bytes_chunk(s: Seq<u64>, k: int, j: int)
    requires
        0 <= j < k,
    ensures
        u64s_bytes_spec(s, k).subrange(8 * j, 8 * j + 8) == spec_u64_to_le_bytes(s[j]),
    decreases k,
{
    lemma_auto_spec_u64_to_from_le_bytes();
    lemma_u64s_bytes_len(s, k - 1);
    if j == k - 1 {
        assert(u64s_bytes_spec(s, k).subrange(8 * j, 8 * j + 8) =~= spec_u64_to_le_bytes(s[j]));
    } else {
        lemma_u64s_bytes_chunk(s, k - 1, j);
        assert(u64s_bytes_spec(s, k).subrange(8 * j, 8 * j + 8) =~= u64s_bytes_spec(
            s,
            k - 1,
        ).subrange(8 * j, 8 * j + 8));
    }
}

/// Appends the 4 little-endian bytes of `x`.
fn push_u32(buf: &mut Vec<u8>, x: u32)
    ensures
        final(buf)@ == old(buf)@ + spec_u32_to_le_bytes(x),
{
    let bytes = u32_to_le_bytes(x);
    buf.push(bytes[0]);
    buf.push(bytes[1]);
    buf.push(bytes[2]);
    buf.push(bytes[3]);
    assert(buf@ =~= old(buf)@ + spec_u32_to_le_bytes(x));
}

/// Appends the 8 little-endian bytes of `x`.
fn push_u64(buf: &mut Vec<u8>, x: u64)
    ensures
        final(buf)@ == old(buf)@ + spec_u64_to_le_bytes(x),
{
    let bytes = u64_to_le_bytes(x);
    buf.push(bytes[0]);
    buf.push(bytes[1]);
    buf.push(bytes[2]);
    buf.push(bytes[3]);
    buf.push(bytes[4]);
    buf.push(bytes[5]);
    buf.push(bytes[6]);
    buf.push(bytes[7]);
    assert(buf@ =~= old(buf)@ + spec_u64_to_le_bytes(x));
}

/// Appends the bytes of every scalar in `v`.
fn encode_reals(buf: &mut Vec<u8>, v: &Vec<Real>)
    ensures
        final(buf)@ == old(buf)@ + reals_bytes_spec(v@, v.len() as int),
{
    let mut i: usize = 0;
    while i < v.len()
        invariant
            i <= v.len(),
            buf@ == old(buf)@ + reals_bytes_spec(v@, i as int),
        decreases v.len() - i,
    {
        push_u32(buf, v[i].bits);
        i = i + 1;
    }
}

/// Appends the bytes of every index in `v`.
fn encode_u64s(buf: &mut Vec<u8>, v: &Vec<u64>)
    ensures
        final(buf)@ == old(buf)@ + u64s_bytes_spec(v@, v.len() as int),
{
    let mut i: usize = 0;
    while i < v.len()
        invariant
            i <= v.len(),
            buf@ == old(buf)@ + u64s_bytes_spec(v@, i as int),
        decreases v.len() - i,
    {
        push_u64(buf, v[i]);
        i = i + 1;
    }
}

/// The elevations of `v`, as their own array.
fn collect_els(v: &Vec<ElAz>) -> (r: Vec<Real>)
    ensures
        r@ == elaz_els_spec(v@),
{
    let mut out: Vec<Real> = Vec::new();
    let mut i: usize = 0;
    while i < v.len()
        invariant
            i <= v.len(),
            out@ == elaz_els_spec(v@).subrange(0, i as int),
        decreases v.len() - i,
    {
        out.push(v[i].el);
        assert(out@ =~= elaz_els_spec(v@).subrange(0, i + 1));
        i = i + 1;
    }
    assert(out@ =~= elaz_els_spec(v@));
    out
}

/// The azimuths of `v`, as their own array.
fn collect_azs(v: &Vec<ElAz>) -> (r: Vec<Real>)
    ensures
        r@ == elaz_azs_spec(v@),
{
    let mut out: Vec<Real> = Vec::new();
    let mut i: usize = 0;
    while i < v.len()
        invariant
            i <= v.len(),
            out@ == elaz_azs_spec(v@).subrange(0, i as int),
        decreases v.len() - i,
    {
        out.push(v[i].az);
        assert(out@ =~= elaz_azs_spec(v@).subrange(0, i + 1));
        i = i + 1;
    }
    assert(out@ =~= elaz_azs_spec(v@));
    out
}

/// Reads `count` scalars of 4 little-endian bytes each, starting at `off`.
fn decode_reals(data: &[u8], off: usize, count: usize) -> (r: Vec<Real>)
    requires
        off + 4 * count <= data@.len(),
    ensures
        r.len() == count,
        forall|k: int|
            0 <= k < count ==> r@[k] == (Real {
                bits: spec_u32_from_le_bytes(
                    data@.subrange(off + 4 * k, off + 4 * k + 4),
                ),
            }),
{
    let dlen: usize = data.len();
    let mut out: Vec<Real> = Vec::new();
    let mut i: usize = 0;
    while i < count
        invariant
            dlen == data@.len(),
            off + 4 * count <= dlen,
            i <= count,
            out.len() == i,
            forall|k: int|
                0 <= k < i ==> out@[k] == (Real {
                    bits: spec_u32_from_le_bytes(
                        data@.subrange(off + 4 * k, off + 4 * k + 4),
                    ),
                }),
        decreases count - i,
    {
        let chunk = slice_subrange(data, off + 4 * i, off + 4 * i + 4);
        let x = u32_from_le_bytes(chunk);
        out.push(Real { bits: x });
        i = i + 1;
    }
    out
}

/// Reads `count` indices of 8 little-endian bytes each, starting at `off`.
fn decode_u64s(data: &[u8], off: usize, count: usize) -> (r: Vec<u64>)
    requires
        off + 8 * count <= data@.len(),
    ensures
        r.len() == count,
        forall|k: int|
            0 <= k < count ==> r@[k] == spec_u64_from_le_bytes(
                data@.subrange(off + 8 * k, off + 8 * k + 8),
            ),
{
    let dlen: usize = data.len();
    let mut out: Vec<u64> = Vec::new();
    let mut i: usize = 0;
    while i < count
        invariant
            dlen == data@.len(),
            off + 8 * count <= dlen,
            i <= count,
            out.len() == i,
            forall|k: int|
                0 <= k < i ==> out@[k] == spec_u64_from_le_bytes(
                    data@.subrange(off + 8 * k, off + 8 * k + 8),
                ),
        decreases count - i,
    {
        let chunk = slice_subrange(data, off + 8 * i, off + 8 * i + 8);
        let x = u64_from_le_bytes(chunk);
        out.push(x);
        i = i + 1;
    }
    out
}

/// What a successful decode of `b` holds: the header fields, zeroed
/// brightness, and every array element read back from its chunk of `b`.
pub open spec fn decoded_ok(h: Hemisphere, b: Seq<u8>) -> bool {
    let n = h.npix as int;
    &&& h.consistent()
    &&& h.nside == spec_u32_from_le_bytes(b.subrange(0, 4))
    &&& h.npix as u64 == spec_u64_from_le_bytes(b.subrange(4, 12))
    &&& forall|k: int|
        0 <= k < n ==> h.visible_pix@[k] == (Real { bits: ZERO_BITS })
    &&& forall|k: int|
        0 <= k < n ==> h.visible_indices@[k] == spec_u64_from_le_bytes(
            b.subrange(12 + 8 * k, 12 + 8 * k + 8),
        )
    &&& forall|k: int|
        0 <= k < n ==> h.l@[k] == (Real {
            bits: spec_u32_from_le_bytes(
                b.subrange(12 + 8 * n + 4 * k, 12 + 8 * n + 4 * k + 4),
            ),
        })
    &&& forall|k: int|
        0 <= k < n ==> h.m@[k] == (Real {
            bits: spec_u32_from_le_bytes(
                b.subrange(12 + 12 * n + 4 * k, 12 + 12 * n + 4 * k + 4),
            ),
        })
    &&& forall|k: int|
        0 <= k < n ==> h.n@[k] == (Real {
            bits: spec_u32_from_le_bytes(
                b.subrange(12 + 16 * n + 4 * k, 12 + 16 * n + 4 * k + 4),
            ),
        })
    &&& forall|k: int|
        0 <= k < n ==> h.elaz@[k] == (ElAz {
            el: Real {
                bits: spec_u32_from_le_bytes(
                    b.subrange(12 + 20 * n + 4 * k, 12 + 20 * n + 4 * k + 4),
                ),
            },
            az: Real {
                bits: spec_u32_from_le_bytes(
                    b.subrange(12 + 24 * n + 4 * k, 12 + 24 * n + 4 * k + 4),
                ),
            },
        })
}

impl Hemisphere {
    /// Serialises the geometry (not the brightness array) to bytes.
    pub fn to_binary(&self) -> (r: Vec<u8>)
        requires
            self.consistent(),
        ensures
            r@ == encoding_spec(*self),
            r@.len() == 12 + 28 * self.npix,
    {
        let mut buf: Vec<u8> = Vec::new();
        push_u32(&mut buf, self.nside);
        push_u64(&mut buf, self.npix as u64);
        encode_u64s(&mut buf, &self.visible_indices);
        encode_reals(&mut buf, &self.l);
        encode_reals(&mut buf, &self.m);
        encode_reals(&mut buf, &self.n);
        let els = collect_els(&self.elaz);
        let azs = collect_azs(&self.elaz);
        encode_reals(&mut buf, &els);
        encode_reals(&mut buf, &azs);
        proof {
            lemma_auto_spec_u32_to_from_le_bytes();
            lemma_auto_spec_u64_to_from_le_bytes();
            let n = self.npix as int;
            lemma_u64s_bytes_len(self.visible_indices@, n);
            lemma_reals_bytes_len(self.l@, n);
            lemma_reals_bytes_len(self.m@, n);
            lemma_reals_bytes_len(self.n@, n);
            lemma_reals_bytes_len(elaz_els_spec(self.elaz@), n);
            lemma_reals_bytes_len(elaz_azs_spec(self.elaz@), n);
            assert(buf@ =~= encoding_spec(*self));
        }
        buf
    }

    /// Reconstructs hemisphere geometry from bytes produced by
    /// [`Hemisphere::to_binary`].  The brightness array comes back zeroed.
    /// A stream shorter than the header, or whose length disagrees with the
    /// pixel count the header declares, is rejected.
    pub fn from_binary(binary_data: &Vec<u8>) -> (r: Result<Hemisphere, DecodeError>)
        ensures
            binary_data@.len() < 12 ==> r == Err::<Hemisphere, DecodeError>(DecodeError::Truncated),
            binary_data@.len() >= 12 ==> {
                let npix64 = spec_u64_from_le_bytes(binary_data@.subrange(4, 12));
                &&& binary_data@.len() != 12 + 28 * npix64 ==> r == Err::<
                    Hemisphere,
                    DecodeError,
                >(DecodeError::LengthMismatch)
                &&& binary_data@.len() == 12 + 28 * npix64 ==> match r {
                    Ok(h) => decoded_ok(h, binary_data@),
                    Err(_) => false,
                }
            },
    {
        let len = binary_data.len();
        if len < 12 {
            return Err(DecodeError::Truncated);
        }

        let data = binary_data.as_slice();
        let nside = u32_from_le_bytes(slice_subrange(data, 0, 4));
        let npix64 = u64_from_le_bytes(slice_subrange(data, 4, 12));

        let budget = ((len - 12) / 28) as u64;
        if npix64 > budget {
            proof {
                assert(len as int - 12 < 28 * npix64) by (nonlinear_arith)
                    requires
                        npix64 > (len as int - 12) / 28,
                        len >= 12,
                ;
            }
            return Err(DecodeError::LengthMismatch);
        }
        let npix: usize = npix64 as usize;
        proof {
            assert(28 * ((len as int - 12) / 28) <= len as int - 12) by (nonlinear_arith)
                requires
                    len >= 12,
            ;
        }
        let expected: usize = 12 + 28 * npix;
        if expected != len {
            return Err(DecodeError::LengthMismatch);
        }

        let visible_indices = decode_u64s(data, 12, npix);
        let l = decode_reals(data, 12 + 8 * npix, npix);
        let m = decode_reals(data, 12 + 12 * npix, npix);
        let n = decode_reals(data, 12 + 16 * npix, npix);
        let els = decode_reals(data, 12 + 20 * npix, npix);
        let azs = decode_reals(data, 12 + 24 * npix, npix);

        let mut elaz: Vec<ElAz> = Vec::new();
        let mut i: usize = 0;
        while i < npix
            invariant
                els.len() == npix,
                azs.len() == npix,
                i <= npix,
                elaz.len() == i,
                forall|k: int|
                    0 <= k < i ==> elaz@[k] == (ElAz { el: els@[k], az: azs@[k] }),
            decreases npix - i,
        {
            elaz.push(ElAz { el: els[i], az: azs[i] });
            i = i + 1;
        }

        let mut visible_pix: Vec<Real> = Vec::new();
        let mut j: usize = 0;
        while j < npix
            invariant
                j <= npix,
                visible_pix.len() == j,
                forall|k: int| 0 <= k < j ==> visible_pix@[k] == (Real { bits: ZERO_BITS }),
            decreases npix - j,
        {
            visible_pix.push(Real { bits: ZERO_BITS });
            j = j + 1;
        }

        Ok(
            Hemisphere {
                nside,
                npix,
                visible_pix,
                visible_indices,
                elaz,
                l,
                m,
                n,
            },
        )
    }

    /// Serialises the geometry and decodes it again: an independent copy of
    /// the geometry with a freshly zeroed brightness array.  Decoding the
    /// encoding always succeeds.
    pub fn clone_via_binary(&self) -> (r: Result<Hemisphere, DecodeError>)
        requires
            self.consistent(),
        ensures
            match r {
                Ok(h) => {
                    &&& h.same_geometry(*self)
                    &&& h.consistent()
                    &&& forall|k: int|
                        0 <= k < h.npix ==> h.visible_pix@[k] == (Real { bits: ZERO_BITS })
                },
                Err(_) => false,
            },
    {
        let binary_data = self.to_binary();
        let ghost b = binary_data@;
        proof {
            lemma_auto_spec_u32_to_from_le_bytes();
            lemma_auto_spec_u64_to_from_le_bytes();
            lemma_encoding_parts(*self);
        }
        let decoded = Hemisphere::from_binary(&binary_data);
        match decoded {
            Ok(h) => {
                proof {
                    lemma_auto_spec_u32_to_from_le_bytes();
                    lemma_auto_spec_u64_to_from_le_bytes();
                    lemma_encoding_parts(*self);
                    let n = self.npix as int;
                    assert(h.npix as u64 == spec_u64_from_le_bytes(b.subrange(4, 12)));
                    assert(h.npix == self.npix);
                    assert(h.nside == spec_u32_from_le_bytes(b.subrange(0, 4)));
                    assert(h.nside == self.nside);
                    assert forall|k: int| 0 <= k < n implies h.visible_indices@[k]
                        == self.visible_indices@[k] by {
                        assert(h.visible_indices@[k] == spec_u64_from_le_bytes(
                            b.subrange(12 + 8 * k, 12 + 8 * k + 8),
                        ));
                        assert(b.subrange(12 + 8 * k, 12 + 8 * k + 8) == spec_u64_to_le_bytes(
                            self.visible_indices@[k],
                        ));
                    }
                    assert forall|k: int| 0 <= k < n implies h.l@[k] == self.l@[k] by {
                        assert(h.l@[k] == (Real {
                            bits: spec_u32_from_le_bytes(
                                b.subrange(12 + 8 * n + 4 * k, 12 + 8 * n + 4 * k + 4),
                            ),
                        }));
                        assert(b.subrange(12 + 8 * n + 4 * k, 12 + 8 * n + 4 * k + 4)
                            == spec_u32_to_le_bytes(self.l@[k].bits));
                    }
                    assert forall|k: int| 0 <= k < n implies h.m@[k] == self.m@[k] by {
                        assert(h.m@[k] == (Real {
                            bits: spec_u32_from_le_bytes(
                                b.subrange(12 + 12 * n + 4 * k, 12 + 12 * n + 4 * k + 4),
                            ),
                        }));
                        assert(b.subrange(12 + 12 * n + 4 * k, 12 + 12 * n + 4 * k + 4)
                            == spec_u32_to_le_bytes(self.m@[k].bits));
                    }
                    assert forall|k: int| 0 <= k < n implies h.n@[k] == self.n@[k] by {
                        assert(h.n@[k] == (Real {
                            bits: spec_u32_from_le_bytes(
                                b.subrange(12 + 16 * n + 4 * k, 12 + 16 * n + 4 * k + 4),
                            ),
                        }));
                        assert(b.subrange(12 + 16 * n + 4 * k, 12 + 16 * n + 4 * k + 4)
                            == spec_u32_to_le_bytes(self.n@[k].bits));
                    }
                    assert forall|k: int| 0 <= k < n implies h.elaz@[k] == self.elaz@[k] by {
                        let hn = h.npix as int;
                        assert(h.elaz@[k] == (ElAz {
                            el: Real {
                                bits: spec_u32_from_le_bytes(
                                    b.subrange(12 + 20 * hn + 4 * k, 12 + 20 * hn + 4 * k + 4),
                                ),
                            },
                            az: Real {
                                bits: spec_u32_from_le_bytes(
                                    b.subrange(12 + 24 * hn + 4 * k, 12 + 24 * hn + 4 * k + 4),
                                ),
                            },
                        }));
                        assert(b.subrange(12 + 20 * n + 4 * k, 12 + 20 * n + 4 * k + 4)
                            == spec_u32_to_le_bytes(self.elaz@[k].el.bits));
                        assert(b.subrange(12 + 24 * n + 4 * k, 12 + 24 * n + 4 * k + 4)
                            == spec_u32_to_le_bytes(self.elaz@[k].az.bits));
                        assert(spec_u32_to_le_bytes(self.elaz@[k].el.bits).len() == 4);
                        assert(spec_u32_to_le_bytes(self.elaz@[k].az.bits).len() == 4);
                        assert(h.elaz@[k].el == self.elaz@[k].el);
                        assert(h.elaz@[k].az == self.elaz@[k].az);
                    }
                    assert(h.visible_indices@ =~= self.visible_indices@);
                    assert(h.l@ =~= self.l@);
                    assert(h.m@ =~= self.m@);
                    assert(h.n@ =~= self.n@);
                    assert(h.elaz@ =~= self.elaz@);
                }
                Ok(h)
            },
            Err(e) => Err(e),
        }
    }
}

/// The encoding of a consistent hemisphere has the declared length and
/// every header field and array element stands in its chunk.
proof fn lemma_encoding_parts(h: Hemisphere)
    requires
        h.consistent(),
    ensures
        encoding_spec(h).len() == 12 + 28 * h.npix,
        encoding_spec(h).subrange(0, 4) == spec_u32_to_le_bytes(h.nside),
        encoding_spec(h).subrange(4, 12) == spec_u64_to_le_bytes(h.npix as u64),
        forall|k: int|
            0 <= k < h.npix ==> encoding_spec(h).subrange(12 + 8 * k, 12 + 8 * k + 8)
                == spec_u64_to_le_bytes(h.visible_indices@[k]),
        forall|k: int|
            0 <= k < h.npix ==> encoding_spec(h).subrange(
                12 + 8 * h.npix + 4 * k,
                12 + 8 * h.npix + 4 * k + 4,
            ) == spec_u32_to_le_bytes(h.l@[k].bits),
        forall|k: int|
            0 <= k < h.npix ==> encoding_spec(h).subrange(
                12 + 12 * h.npix + 4 * k,
                12 + 12 * h.npix + 4 * k + 4,
            ) == spec_u32_to_le_bytes(h.m@[k].bits),
        forall|k: int|
            0 <= k < h.npix ==> encoding_spec(h).subrange(
                12 + 16 * h.npix + 4 * k,
                12 + 16 * h.npix + 4 * k + 4,
            ) == spec_u32_to_le_bytes(h.n@[k].bits),
        forall|k: int|
            0 <= k < h.npix ==> encoding_spec(h).subrange(
                12 + 20 * h.npix + 4 * k,
                12 + 20 * h.npix + 4 * k + 4,
            ) == spec_u32_to_le_bytes(h.elaz@[k].el.bits),
        forall|k: int|
            0 <= k < h.npix ==> encoding_spec(h).subrange(
                12 + 24 * h.npix + 4 * k,
                12 + 24 * h.npix + 4 * k + 4,
            ) == spec_u32_to_le_bytes(h.elaz@[k].az.bits),
{
    lemma_auto_spec_u32_to_from_le_bytes();
    lemma_auto_spec_u64_to_from_le_bytes();
    let n = h.npix as int;
    let b = encoding_spec(h);
    lemma_u64s_bytes_len(h.visible_indices@, n);
    lemma_reals_bytes_len(h.l@, n);
    lemma_reals_bytes_len(h.m@, n);
    lemma_reals_bytes_len(h.n@, n);
    lemma_reals_bytes_len(elaz_els_spec(h.elaz@), n);
    lemma_reals_bytes_len(elaz_azs_spec(h.elaz@), n);

    assert(b.subrange(0, 4) =~= spec_u32_to_le_bytes(h.nside));
    assert(b.subrange(4, 12) =~= spec_u64_to_le_bytes(h.npix as u64));

    assert forall|k: int| 0 <= k < n implies b.subrange(12 + 8 * k, 12 + 8 * k + 8)
        == spec_u64_to_le_bytes(h.visible_indices@[k]) by {
        lemma_u64s_bytes_chunk(h.visible_indices@, n, k);
        assert(b.subrange(12 + 8 * k, 12 + 8 * k + 8) =~= u64s_bytes_spec(
            h.visible_indices@,
            n,
        ).subrange(8 * k, 8 * k + 8));
    }

    assert forall|k: int| 0 <= k < n implies b.subrange(
        12 + 8 * n + 4 * k,
        12 + 8 * n + 4 * k + 4,
    ) == spec_u32_to_le_bytes(h.l@[k].bits) by {
        lemma_reals_bytes_chunk(h.l@, n, k);
        assert(b.subrange(12 + 8 * n + 4 * k, 12 + 8 * n + 4 * k + 4) =~= reals_bytes_spec(
            h.l@,
            n,
        ).subrange(4 * k, 4 * k + 4));
    }

    assert forall|k: int| 0 <= k < n implies b.subrange(
        12 + 12 * n + 4 * k,
        12 + 12 * n + 4 * k + 4,
    ) == spec_u32_to_le_bytes(h.m@[k].bits) by {
        lemma_reals_bytes_chunk(h.m@, n, k);
        assert(b.subrange(12 + 12 * n + 4 * k, 12 + 12 * n + 4 * k + 4) =~= reals_bytes_spec(
            h.m@,
            n,
        ).subrange(4 * k, 4 * k + 4));
    }

    assert forall|k: int| 0 <= k < n implies b.subrange(
        12 + 16 * n + 4 * k,
        12 + 16 * n + 4 * k + 4,
    ) == spec_u32_to_le_bytes(h.n@[k].bits) by {
        lemma_reals_bytes_chunk(h.n@, n, k);
        assert(b.subrange(12 + 16 * n + 4 * k, 12 + 16 * n + 4 * k + 4) =~= reals_bytes_spec(
            h.n@,
            n,
        ).subrange(4 * k, 4 * k + 4));
    }

    assert forall|k: int| 0 <= k < n implies b.subrange(
        12 + 20 * n + 4 * k,
        12 + 20 * n + 4 * k + 4,
    ) == spec_u32_to_le_bytes(h.elaz@[k].el.bits) by {
        lemma_reals_bytes_chunk(elaz_els_spec(h.elaz@), n, k);
        assert(b.subrange(12 + 20 * n + 4 * k, 12 + 20 * n + 4 * k + 4) =~= reals_bytes_spec(
            elaz_els_spec(h.elaz@),
            n,
        ).subrange(4 * k, 4 * k + 4));
    }

    assert forall|k: int| 0 <= k < n implies b.subrange(
        12 + 24 * n + 4 * k,
        12 + 24 * n + 4 * k + 4,
    ) == spec_u32_to_le_bytes(h.elaz@[k].az.bits) by {
        lemma_reals_bytes_chunk(elaz_azs_spec(h.elaz@), n, k);
        assert(b.subrange(12 + 24 * n + 4 * k, 12 + 24 * n + 4 * k + 4) =~= reals_bytes_spec(
            elaz_azs_spec(h.elaz@),
            n,
        ).subrange(4 * k, 4 * k + 4));
    }
}

} // verus!
