//! The byte layouts shared by the decoder and the encoders: version lines,
//! little-endian fields, vertex and face records, and the concatenated
//! blocks they form.

use crate::fbits::flip_bits;
use crate::mesh_types::{default_file_vertex, FileMeshFace, FileMeshVertex, IntermediateVertex};
use vstd::bytes::{spec_u16_from_le_bytes, spec_u16_to_le_bytes, spec_u32_from_le_bytes, spec_u32_to_le_bytes};
use vstd::prelude::*;

verus! {

/// The text `version <a>.<b><c>` for ASCII digits `a`, `b`, `c`.
pub open spec fn ver_text(a: u8, b: u8, c: u8) -> Seq<u8> {
    seq![118u8, 101u8, 114u8, 115u8, 105u8, 111u8, 110u8, 32u8, a, 46u8, b, c]
}

/// A version line: the version text followed by a line feed.
pub open spec fn ver_line(a: u8, b: u8, c: u8) -> Seq<u8> {
    ver_text(a, b, c).push(10u8)
}

/// The 32-bit little-endian field stored at offset `i` of `b`.
pub open spec fn u32_at(b: Seq<u8>, i: int) -> u32 {
    spec_u32_from_le_bytes(b.subrange(i, i + 4))
}

/// The 16-bit little-endian field stored at offset `i` of `b`.
pub open spec fn u16_at(b: Seq<u8>, i: int) -> u16 {
    spec_u16_from_le_bytes(b.subrange(i, i + 2))
}

/// The vertex that a binary vertex record starting at `off` decodes to:
/// position and normal bits verbatim, U verbatim, V flipped. The tangent
/// bytes and any color bytes are read past and discarded.
pub open spec fn vertex_at(b: Seq<u8>, off: int) -> IntermediateVertex {
    IntermediateVertex {
        px: u32_at(b, off),
        py: u32_at(b, off + 4),
        pz: u32_at(b, off + 8),
        nx: u32_at(b, off + 12),
        ny: u32_at(b, off + 16),
        nz: u32_at(b, off + 20),
        tu: u32_at(b, off + 24),
        tv: flip_bits(u32_at(b, off + 28)),
    }
}

/// The face that a 12-byte face record starting at `off` decodes to.
pub open spec fn face_at(b: Seq<u8>, off: int) -> FileMeshFace {
    FileMeshFace { a: u32_at(b, off), b: u32_at(b, off + 4), c: u32_at(b, off + 8) }
}

/// The 40-byte vertex record the encoders emit: the vertex's component bits
/// verbatim (V unflipped), the default tangent, and opaque white color.
pub open spec fn vertex_rec_out(v: IntermediateVertex) -> Seq<u8> {
    spec_u32_to_le_bytes(v.px) + spec_u32_to_le_bytes(v.py) + spec_u32_to_le_bytes(v.pz)
        + spec_u32_to_le_bytes(v.nx) + spec_u32_to_le_bytes(v.ny) + spec_u32_to_le_bytes(v.nz)
        + spec_u32_to_le_bytes(v.tu) + spec_u32_to_le_bytes(v.tv) + seq![
        0u8,
        0u8,
        129u8,
        127u8,
        255u8,
        255u8,
        255u8,
        255u8,
    ]
}

/// The 12-byte face record: three 32-bit little-endian indices.
pub open spec fn face_rec_out(f: FileMeshFace) -> Seq<u8> {
    spec_u32_to_le_bytes(f.a) + spec_u32_to_le_bytes(f.b) + spec_u32_to_le_bytes(f.c)
}

/// The concatenation of the output records of all vertices of `vs`.
pub open spec fn vertex_block_out(vs: Seq<IntermediateVertex>) -> Seq<u8>
    decreases vs.len(),
{
    if vs.len() == 0 {
        Seq::empty()
    } else {
        vertex_block_out(vs.drop_last()) + vertex_rec_out(vs.last())
    }
}

/// The concatenation of the output records of all faces of `fs`.
pub open spec fn face_block_out(fs: Seq<FileMeshFace>) -> Seq<u8>
    decreases fs.len(),
{
    if fs.len() == 0 {
        Seq::empty()
    } else {
        face_block_out(fs.drop_last()) + face_rec_out(fs.last())
    }
}

/// Reads the 32-bit little-endian field at `i`.
pub(crate) fn read_u32_at(data: &[u8], i: usize) -> (r: u32)
    requires
        i + 4 <= data@.len(),
    ensures
        r == u32_at(data@, i as int),
{
    let n = data.len();
    assert(i + 4 <= n);
    let s = vstd::slice::slice_subrange(data, i, i + 4);
    vstd::bytes::u32_from_le_bytes(s)
}

/// Reads the 16-bit little-endian field at `i`.
pub(crate) fn read_u16_at(data: &[u8], i: usize) -> (r: u16)
    requires
        i + 2 <= data@.len(),
    ensures
        r == u16_at(data@, i as int),
{
    let n = data.len();
    assert(i + 2 <= n);
    let s = vstd::slice::slice_subrange(data, i, i + 2);
    vstd::bytes::u16_from_le_bytes(s)
}

/// Appends the 32-bit little-endian encoding of `x`.
pub(crate) fn push_u32_le(out: &mut Vec<u8>, x: u32)
    ensures
        final(out)@ == old(out)@ + spec_u32_to_le_bytes(x),
{
    let mut b = vstd::bytes::u32_to_le_bytes(x);
    out.append(&mut b);
}

/// Appends the 16-bit little-endian encoding of `x`.
pub(crate) fn push_u16_le(out: &mut Vec<u8>, x: u16)
    ensures
        final(out)@ == old(out)@ + spec_u16_to_le_bytes(x),
{
    let mut b = vstd::bytes::u16_to_le_bytes(x);
    out.append(&mut b);
}

/// Appends the version line for digits `a`, `b`, `c`.
pub(crate) fn push_ver_line(out: &mut Vec<u8>, a: u8, b: u8, c: u8)
    ensures
        final(out)@ == old(out)@ + ver_line(a, b, c),
{
    out.push(118);
    out.push(101);
    out.push(114);
    out.push(115);
    out.push(105);
    out.push(111);
    out.push(110);
    out.push(32);
    out.push(a);
    out.push(46);
    out.push(b);
    out.push(c);
    out.push(10);
    proof {
        assert(out@ =~= old(out)@ + ver_line(a, b, c));
    }
}

/// Appends the 40-byte output record of `v`: its component bits in a
/// `FileMeshVertex` whose tangent and color fields keep their defaults.
pub(crate) fn push_vertex_rec(out: &mut Vec<u8>, v: &IntermediateVertex)
    ensures
        final(out)@ == old(out)@ + vertex_rec_out(*v),
{
    let fv = FileMeshVertex {
        px: v.px,
        py: v.py,
        pz: v.pz,
        nx: v.nx,
        ny: v.ny,
        nz: v.nz,
        tu: v.tu,
        tv: v.tv,
        ..Default::default()
    };
    proof {
        assert(fv.tz == default_file_vertex().tz);
    }
    push_u32_le(out, fv.px);
    push_u32_le(out, fv.py);
    push_u32_le(out, fv.pz);
    push_u32_le(out, fv.nx);
    push_u32_le(out, fv.ny);
    push_u32_le(out, fv.nz);
    push_u32_le(out, fv.tu);
    push_u32_le(out, fv.tv);
    out.push(fv.tx as u8);
    out.push(fv.ty as u8);
    out.push(fv.tz as u8);
    out.push(fv.ts as u8);
    out.push(fv.r);
    out.push(fv.g);
    out.push(fv.b);
    out.push(fv.a);
    proof {
        vstd::bytes::lemma_auto_spec_u32_to_from_le_bytes();
        let tzv: i8 = fv.tz;
        assert(tzv as u8 == 129) by (bit_vector)
            requires tzv == -127i8;
        assert(out@ =~= old(out)@ + vertex_rec_out(*v));
    }
}

/// Appends the 12-byte output record of `f`.
pub(crate) fn push_face_rec(out: &mut Vec<u8>, f: &FileMeshFace)
    ensures
        final(out)@ == old(out)@ + face_rec_out(*f),
{
    push_u32_le(out, f.a);
    push_u32_le(out, f.b);
    push_u32_le(out, f.c);
    proof {
        vstd::bytes::lemma_auto_spec_u32_to_from_le_bytes();
        assert(out@ =~= old(out)@ + face_rec_out(*f));
    }
}

/// Appends the output records of every vertex of `vs`, in order.
pub(crate) fn push_vertex_block(out: &mut Vec<u8>, vs: &Vec<IntermediateVertex>)
    ensures
        final(out)@ == old(out)@ + vertex_block_out(vs@),
{
    let n = vs.len();
    let ghost pre = out@;
    let mut i: usize = 0;
    while i < n
        invariant
            i <= n == vs@.len(),
            out@ == pre + vertex_block_out(vs@.take(i as int)),
        decreases n - i,
    {
        push_vertex_rec(out, &vs[i]);
        proof {
            assert(vs@.take(i + 1).drop_last() =~= vs@.take(i as int));
            assert(vs@.take(i + 1).last() == vs@[i as int]);
            assert(vertex_block_out(vs@.take(i + 1)) == vertex_block_out(vs@.take(i as int))
                + vertex_rec_out(vs@[i as int]));
        }
        i = i + 1;
    }
    proof {
        assert(vs@.take(n as int) =~= vs@);
    }
}

/// Appends the output records of every face of `fs`, in order.
pub(crate) fn push_face_block(out: &mut Vec<u8>, fs: &Vec<FileMeshFace>)
    ensures
        final(out)@ == old(out)@ + face_block_out(fs@),
{
    let n = fs.len();
    let ghost pre = out@;
    let mut i: usize = 0;
    while i < n
        invariant
            i <= n == fs@.len(),
            out@ == pre + face_block_out(fs@.take(i as int)),
        decreases n - i,
    {
        push_face_rec(out, &fs[i]);
        proof {
            assert(fs@.take(i + 1).drop_last() =~= fs@.take(i as int));
            assert(fs@.take(i + 1).last() == fs@[i as int]);
            assert(face_block_out(fs@.take(i + 1)) == face_block_out(fs@.take(i as int))
                + face_rec_out(fs@[i as int]));
        }
        i = i + 1;
    }
    proof {
        assert(fs@.take(n as int) =~= fs@);
    }
}

} // verus!
