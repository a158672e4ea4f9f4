//! Laws of the codec, stated and proved against the specification-level
//! decoders and encoders.

use crate::error::ConversionError;
use crate::fbits::{flip_bits, twice_bits};
use crate::filemesh::{spec_parse_filemesh, spec_parse_v2, spec_parse_v4, DecodedMesh};
use crate::layout::{face_at, face_block_out, face_rec_out, u16_at, u32_at, ver_line, ver_text,
    vertex_at, vertex_block_out, vertex_rec_out};
use crate::mesh_types::{faces_in_bounds, FileMeshFace, IntermediateVertex};
use crate::ser::{corner_text, face_text, faces_text, spec_write_v1, spec_write_v2};
use crate::text::{find_byte, is_ws, lemma_find_byte_from_facts, trim_back, trim_front, trimmed};
use vstd::bytes::{lemma_auto_spec_u16_to_from_le_bytes, lemma_auto_spec_u32_to_from_le_bytes,
    spec_u16_to_le_bytes, spec_u32_to_le_bytes};
use vstd::prelude::*;

verus! {

/// A vertex with its V texture component flipped.
pub open spec fn flip_tv(v: IntermediateVertex) -> IntermediateVertex {
    IntermediateVertex { tv: flip_bits(v.tv), ..v }
}

/// A buffer without a line feed is rejected as a malformed header, and one
/// whose trimmed first line matches none of the eight version texts is
/// rejected as an unsupported version, whatever the body holds.
pub proof fn lemma_unknown_version_rejected(data: Seq<u8>)
    ensures
        find_byte(data, 10) is None ==> spec_parse_filemesh(data) == Err::<
            DecodedMesh,
            ConversionError,
        >(ConversionError::MalformedHeader),
        (match find_byte(data, 10) {
            Some(nl) => {
                let h = trimmed(data.take(nl));
                h != ver_text(49, 48, 48) && h != ver_text(49, 48, 49) && h != ver_text(50, 48, 48)
                    && h != ver_text(51, 48, 48) && h != ver_text(51, 48, 49) && h != ver_text(
                    52,
                    48,
                    48,
                ) && h != ver_text(52, 48, 49) && h != ver_text(53, 48, 48)
            },
            None => false,
        }) ==> spec_parse_filemesh(data) == Err::<DecodedMesh, ConversionError>(
            ConversionError::UnsupportedVersion,
        ),
{
}

/// A v2 body whose declared face-record stride is not 12 is rejected as a
/// malformed body, whatever else it holds.
pub proof fn lemma_v2_face_stride_rejected(b: Seq<u8>)
    requires
        b.len() >= 4,
        u16_at(b, 0) == 12,
        b[3] != 12,
    ensures
        spec_parse_v2(b) == Err::<DecodedMesh, ConversionError>(ConversionError::MalformedBody),
{
}

/// A v4 body that declares any bone is rejected as an unsupported feature,
/// independent of every other field.
pub proof fn lemma_v4_bones_rejected(b: Seq<u8>)
    requires
        b.len() >= 24,
        u16_at(b, 0) == 24,
        u16_at(b, 14) != 0,
    ensures
        spec_parse_v4(b) == Err::<DecodedMesh, ConversionError>(
            ConversionError::UnsupportedFeature,
        ),
{
}

proof fn lemma_vertex_rec_fields(v: IntermediateVertex)
    ensures
        vertex_rec_out(v).len() == 40,
        vertex_rec_out(v).subrange(0, 4) == spec_u32_to_le_bytes(v.px),
        vertex_rec_out(v).subrange(4, 8) == spec_u32_to_le_bytes(v.py),
        vertex_rec_out(v).subrange(8, 12) == spec_u32_to_le_bytes(v.pz),
        vertex_rec_out(v).subrange(12, 16) == spec_u32_to_le_bytes(v.nx),
        vertex_rec_out(v).subrange(16, 20) == spec_u32_to_le_bytes(v.ny),
        vertex_rec_out(v).subrange(20, 24) == spec_u32_to_le_bytes(v.nz),
        vertex_rec_out(v).subrange(24, 28) == spec_u32_to_le_bytes(v.tu),
        vertex_rec_out(v).subrange(28, 32) == spec_u32_to_le_bytes(v.tv),
{
    lemma_auto_spec_u32_to_from_le_bytes();
    assert(vertex_rec_out(v).subrange(0, 4) =~= spec_u32_to_le_bytes(v.px));
    assert(vertex_rec_out(v).subrange(4, 8) =~= spec_u32_to_le_bytes(v.py));
    assert(vertex_rec_out(v).subrange(8, 12) =~= spec_u32_to_le_bytes(v.pz));
    assert(vertex_rec_out(v).subrange(12, 16) =~= spec_u32_to_le_bytes(v.nx));
    assert(vertex_rec_out(v).subrange(16, 20) =~= spec_u32_to_le_bytes(v.ny));
    assert(vertex_rec_out(v).subrange(20, 24) =~= spec_u32_to_le_bytes(v.nz));
    assert(vertex_rec_out(v).subrange(24, 28) =~= spec_u32_to_le_bytes(v.tu));
    assert(vertex_rec_out(v).subrange(28, 32) =~= spec_u32_to_le_bytes(v.tv));
}

proof fn lemma_face_rec_fields(f: FileMeshFace)
    ensures
        face_rec_out(f).len() == 12,
        face_rec_out(f).subrange(0, 4) == spec_u32_to_le_bytes(f.a),
        face_rec_out(f).subrange(4, 8) == spec_u32_to_le_bytes(f.b),
        face_rec_out(f).subrange(8, 12) == spec_u32_to_le_bytes(f.c),
{
    lemma_auto_spec_u32_to_from_le_bytes();
    assert(face_rec_out(f).subrange(0, 4) =~= spec_u32_to_le_bytes(f.a));
    assert(face_rec_out(f).subrange(4, 8) =~= spec_u32_to_le_bytes(f.b));
    assert(face_rec_out(f).subrange(8, 12) =~= spec_u32_to_le_bytes(f.c));
}

proof fn lemma_vertex_block_len(vs: Seq<IntermediateVertex>)
    ensures
        vertex_block_out(vs).len() == 40 * vs.len(),
    decreases vs.len(),
{
    if vs.len() > 0 {
        lemma_vertex_block_len(vs.drop_last());
        lemma_vertex_rec_fields(vs.last());
    }
}

proof fn lemma_face_block_len(fs: Seq<FileMeshFace>)
    ensures
        face_block_out(fs).len() == 12 * fs.len(),
    decreases fs.len(),
{
    if fs.len() > 0 {
        lemma_face_block_len(fs.drop_last());
        lemma_face_rec_fields(fs.last());
    }
}

proof fn lemma_vertex_block_index(vs: Seq<IntermediateVertex>, i: int)
    requires
        0 <= i < vs.len(),
    ensures
        vertex_block_out(vs).subrange(40 * i, 40 * i + 40) == vertex_rec_out(vs[i]),
    decreases vs.len(),
{
    lemma_vertex_block_len(vs);
    let pre = vs.drop_last();
    lemma_vertex_block_len(pre);
    lemma_vertex_rec_fields(vs.last());
    if i == vs.len() - 1 {
        assert(vertex_block_out(vs).subrange(40 * i, 40 * i + 40) =~= vertex_rec_out(vs.last()));
    } else {
        lemma_vertex_block_index(pre, i);
        assert(vertex_block_out(vs).subrange(40 * i, 40 * i + 40) =~= vertex_block_out(
            pre,
        ).subrange(40 * i, 40 * i + 40));
    }
}

proof fn lemma_face_block_index(fs: Seq<FileMeshFace>, i: int)
    requires
        0 <= i < fs.len(),
    ensures
        face_block_out(fs).subrange(12 * i, 12 * i + 12) == face_rec_out(fs[i]),
    decreases fs.len(),
{
    lemma_face_block_len(fs);
    let pre = fs.drop_last();
    lemma_face_block_len(pre);
    lemma_face_rec_fields(fs.last());
    if i == fs.len() - 1 {
        assert(face_block_out(fs).subrange(12 * i, 12 * i + 12) =~= face_rec_out(fs.last()));
    } else {
        lemma_face_block_index(pre, i);
        assert(face_block_out(fs).subrange(12 * i, 12 * i + 12) =~= face_block_out(pre).subrange(
            12 * i,
            12 * i + 12,
        ));
    }
}

/// Encoding a well-formed mesh to v2.00 and decoding the bytes again gives
/// back the same faces and the same vertices except that every V texture
/// component comes back flipped: positions, normals and U survive the
/// round trip unchanged, V does not.
#[verifier::rlimit(100)]
pub proof fn lemma_v2_round_trip(vs: Seq<IntermediateVertex>, fs: Seq<FileMeshFace>)
    requires
        vs.len() <= u32::MAX,
        fs.len() <= u32::MAX,
        faces_in_bounds(fs, vs.len() as int),
    ensures
        spec_parse_filemesh(spec_write_v2(vs, fs)) == Ok::<DecodedMesh, ConversionError>(
            (Seq::new(vs.len(), |i: int| flip_tv(vs[i])), fs),
        ),
{
    lemma_auto_spec_u32_to_from_le_bytes();
    lemma_auto_spec_u16_to_from_le_bytes();
    lemma_vertex_block_len(vs);
    lemma_face_block_len(fs);
    let out = spec_write_v2(vs, fs);
    let nv = vs.len() as int;
    let nf = fs.len() as int;
    assert(ver_line(50, 48, 48).len() == 13);
    assert(out.len() == 13 + 12 + 40 * nv + 12 * nf);
    assert forall|j: int| 0 <= j < 12 implies out[j] == ver_text(50, 48, 48)[j] && out[j] != 10 by {
        assert(out[j] == ver_line(50, 48, 48)[j]);
    }
    assert(out[12] == ver_line(50, 48, 48)[12]);
    assert(out[12] == 10);
    lemma_find_byte_from_facts(out, 10, Some(12));
    let h = out.take(12);
    assert(h =~= ver_text(50, 48, 48));
    assert(!is_ws(h[0]));
    assert(trim_front(h) == h);
    assert(h.last() == 48 && !is_ws(h.last()));
    assert(trim_back(h) == h);
    assert(trimmed(h) == h);
    assert(h != ver_text(49, 48, 48)) by {
        assert(h[8] == 50 && ver_text(49, 48, 48)[8] == 49);
    }
    assert(h != ver_text(49, 48, 49)) by {
        assert(h[8] == 50 && ver_text(49, 48, 49)[8] == 49);
    }
    let body = out.skip(13);
    let hdr = spec_u16_to_le_bytes(12u16) + seq![40u8, 12u8] + spec_u32_to_le_bytes(nv as u32)
        + spec_u32_to_le_bytes(nf as u32);
    assert(hdr.len() == 12);
    assert(body =~= hdr + vertex_block_out(vs) + face_block_out(fs));
    assert(body.len() == 12 + 40 * nv + 12 * nf);
    assert(body.subrange(0, 2) =~= spec_u16_to_le_bytes(12u16));
    assert(u16_at(body, 0) == 12);
    assert(body[2] == 40 && body[3] == 12);
    assert(body.subrange(4, 8) =~= spec_u32_to_le_bytes(nv as u32));
    assert(u32_at(body, 4) == nv as u32);
    assert(body.subrange(8, 12) =~= spec_u32_to_le_bytes(nf as u32));
    assert(u32_at(body, 8) == nf as u32);
    assert forall|i: int| 0 <= i < nv implies vertex_at(body, 12 + i * 40) == flip_tv(vs[i]) by {
        lemma_vertex_block_index(vs, i);
        lemma_vertex_rec_fields(vs[i]);
        let rec = vertex_rec_out(vs[i]);
        assert(body.subrange(12 + 40 * i, 12 + 40 * i + 40) =~= rec);
        assert(body.subrange(12 + i * 40, 12 + i * 40 + 4) =~= rec.subrange(0, 4));
        assert(body.subrange(12 + i * 40 + 4, 12 + i * 40 + 4 + 4) =~= rec.subrange(4, 8));
        assert(body.subrange(12 + i * 40 + 8, 12 + i * 40 + 8 + 4) =~= rec.subrange(8, 12));
        assert(body.subrange(12 + i * 40 + 12, 12 + i * 40 + 12 + 4) =~= rec.subrange(12, 16));
        assert(body.subrange(12 + i * 40 + 16, 12 + i * 40 + 16 + 4) =~= rec.subrange(16, 20));
        assert(body.subrange(12 + i * 40 + 20, 12 + i * 40 + 20 + 4) =~= rec.subrange(20, 24));
        assert(body.subrange(12 + i * 40 + 24, 12 + i * 40 + 24 + 4) =~= rec.subrange(24, 28));
        assert(body.subrange(12 + i * 40 + 28, 12 + i * 40 + 28 + 4) =~= rec.subrange(28, 32));
    }
    assert(Seq::new(nv as nat, |i: int| vertex_at(body, 12 + i * 40)) =~= Seq::new(
        vs.len(),
        |i: int| flip_tv(vs[i]),
    ));
    let foff = 12 + nv * 40;
    assert forall|i: int| 0 <= i < nf implies face_at(body, foff + i * 12) == fs[i] by {
        lemma_face_block_index(fs, i);
        lemma_face_rec_fields(fs[i]);
        let rec = face_rec_out(fs[i]);
        assert(body.subrange(foff + 12 * i, foff + 12 * i + 12) =~= rec);
        assert(body.subrange(foff + i * 12, foff + i * 12 + 4) =~= rec.subrange(0, 4));
        assert(body.subrange(foff + i * 12 + 4, foff + i * 12 + 4 + 4) =~= rec.subrange(4, 8));
        assert(body.subrange(foff + i * 12 + 8, foff + i * 12 + 8 + 4) =~= rec.subrange(8, 12));
    }
    assert(Seq::new(nf as nat, |i: int| face_at(body, foff + i * 12)) =~= fs);
    assert(spec_parse_v2(body) == Ok::<DecodedMesh, ConversionError>(
        (Seq::new(vs.len(), |i: int| flip_tv(vs[i])), fs),
    ));
}


/// A vertex with each position component's bit pattern doubled.
pub open spec fn double_pos(v: IntermediateVertex) -> IntermediateVertex {
    IntermediateVertex {
        px: twice_bits(v.px),
        py: twice_bits(v.py),
        pz: twice_bits(v.pz),
        ..v
    }
}

proof fn lemma_faces_text_doubled(
    vs: Seq<IntermediateVertex>,
    dvs: Seq<IntermediateVertex>,
    fs: Seq<FileMeshFace>,
)
    requires
        faces_in_bounds(fs, vs.len() as int),
        dvs.len() == vs.len(),
        forall|i: int| 0 <= i < vs.len() ==> #[trigger] dvs[i] == double_pos(vs[i]),
    ensures
        faces_text(vs, fs, true) == faces_text(dvs, fs, false),
    decreases fs.len(),
{
    if fs.len() > 0 {
        lemma_faces_text_doubled(vs, dvs, fs.drop_last());
        let f = fs.last();
        assert(corner_text(vs[f.a as int], true) == corner_text(dvs[f.a as int], false));
        assert(corner_text(vs[f.b as int], true) == corner_text(dvs[f.b as int], false));
        assert(corner_text(vs[f.c as int], true) == corner_text(dvs[f.c as int], false));
        assert(face_text(vs, f, true) == face_text(dvs, f, false));
    }
}

/// The two ASCII sub-variants differ only in the version line and in the
/// position scale applied on write: past its thirteen-byte version line,
/// the v1.00 encoding of a mesh is exactly the v1.01 encoding of the same
/// mesh with every position bit pattern doubled.
pub proof fn lemma_v1_version_scaling(vs: Seq<IntermediateVertex>, fs: Seq<FileMeshFace>)
    requires
        faces_in_bounds(fs, vs.len() as int),
    ensures
        spec_write_v1(vs, fs, true).skip(13) == spec_write_v1(
            Seq::new(vs.len(), |i: int| double_pos(vs[i])),
            fs,
            false,
        ).skip(13),
{
    let dvs = Seq::new(vs.len(), |i: int| double_pos(vs[i]));
    lemma_faces_text_doubled(vs, dvs, fs);
    assert(ver_line(49, 48, 48).len() == 13);
    assert(ver_line(49, 48, 49).len() == 13);
    assert(spec_write_v1(vs, fs, true).skip(13) =~= spec_write_v1(dvs, fs, false).skip(13));
}

} // verus!
