//! The version-dispatching decoder: raw bytes in, an intermediate mesh out,
//! and the polygon-text emitter that the byte-to-byte conversion composes
//! with it.

use crate::error::ConversionError;
use crate::fbits::{flip_bits, fmt6_bytes, fmt_f32_6, half_bits, half_f32, one_minus_f32,
    parse_f32_text, parsed_f32_bits};
use crate::layout::{face_at, read_u16_at, read_u32_at, u16_at, u32_at, ver_text, vertex_at};
use crate::mesh_types::{faces_in_bounds, FileMeshFace, IntermediateMesh, IntermediateVertex};
use crate::text::{dec_rep, find_byte, find_byte_from, find_byte_in, lemma_find_byte_from_facts,
    parse_dec_usize, parse_usize_dec, trim_bounds, trimmed, u64_dec};
use vstd::prelude::*;

verus! {

/// The pair a spec-level decoder yields on success: the vertex and face
/// sequences of the resulting mesh.
pub type DecodedMesh = (Seq<IntermediateVertex>, Seq<FileMeshFace>);

/// How an executable decode result relates to its specification-level
/// counterpart: same error, or a mesh with exactly the specified vertex and
/// face sequences.
pub open spec fn decode_agrees(
    r: Result<IntermediateMesh, ConversionError>,
    pr: Result<DecodedMesh, ConversionError>,
) -> bool {
    match r {
        Ok(m) => pr == Ok::<DecodedMesh, ConversionError>((m.vertices@, m.faces@)),
        Err(e) => pr == Err::<DecodedMesh, ConversionError>(e),
    }
}

/// What a v2.00 body decodes to. The declared header size must be 12 and
/// the declared face stride 12; the vertex stride selects the layout with
/// or without the color block. Faces are validated against the vertex
/// count.
pub open spec fn spec_parse_v2(b: Seq<u8>) -> Result<DecodedMesh, ConversionError> {
    if b.len() < 2 {
        Err(ConversionError::TruncatedInput)
    } else if u16_at(b, 0) != 12 {
        Err(ConversionError::MalformedBody)
    } else if b.len() < 4 {
        Err(ConversionError::TruncatedInput)
    } else if b[3] != 12 {
        Err(ConversionError::MalformedBody)
    } else if b.len() < 12 {
        Err(ConversionError::TruncatedInput)
    } else if b[2] != 40 && b[2] != 36 {
        Err(ConversionError::MalformedBody)
    } else {
        let nv = u32_at(b, 4) as int;
        let nf = u32_at(b, 8) as int;
        let stride: int = if b[2] == 40 {
            40
        } else {
            36
        };
        if b.len() < 12 + nv * stride {
            Err(ConversionError::TruncatedInput)
        } else if b.len() < 12 + nv * stride + nf * 12 {
            Err(ConversionError::TruncatedInput)
        } else {
            let vs = Seq::new(nv as nat, |i: int| vertex_at(b, 12 + i * stride));
            let fs = Seq::new(nf as nat, |i: int| face_at(b, 12 + nv * stride + i * 12));
            if faces_in_bounds(fs, nv) {
                Ok((vs, fs))
            } else {
                Err(ConversionError::MalformedBody)
            }
        }
    }
}

/// The face prefix kept after LOD truncation: with at least two offsets
/// only the first `lods[1]` faces remain (clamped to the face count),
/// otherwise all of them.
pub open spec fn lod_keep(lods: Seq<u32>, nf: int) -> int {
    if lods.len() >= 2 {
        if (lods[1] as int) < nf {
            lods[1] as int
        } else {
            nf
        }
    } else {
        nf
    }
}

/// What a v3.00/v3.01 body decodes to. As v2 plus a two-field LOD preamble
/// in the header and trailing LOD offsets; the vertex stride must declare
/// the colored layout; the face list is LOD-truncated.
pub open spec fn spec_parse_v3(b: Seq<u8>) -> Result<DecodedMesh, ConversionError> {
    if b.len() < 2 {
        Err(ConversionError::TruncatedInput)
    } else if u16_at(b, 0) != 16 {
        Err(ConversionError::MalformedBody)
    } else if b.len() < 4 {
        Err(ConversionError::TruncatedInput)
    } else if b[3] != 12 {
        Err(ConversionError::MalformedBody)
    } else if b.len() < 16 {
        Err(ConversionError::TruncatedInput)
    } else if b[2] != 40 {
        Err(ConversionError::MalformedBody)
    } else {
        let nlod = u16_at(b, 6) as int;
        let nv = u32_at(b, 8) as int;
        let nf = u32_at(b, 12) as int;
        if b.len() < 16 + nv * 40 {
            Err(ConversionError::TruncatedInput)
        } else if b.len() < 16 + nv * 40 + nf * 12 {
            Err(ConversionError::TruncatedInput)
        } else if b.len() < 16 + nv * 40 + nf * 12 + nlod * 4 {
            Err(ConversionError::TruncatedInput)
        } else {
            let vs = Seq::new(nv as nat, |i: int| vertex_at(b, 16 + i * 40));
            let fs = Seq::new(nf as nat, |i: int| face_at(b, 16 + nv * 40 + i * 12));
            let lods = Seq::new(nlod as nat, |i: int| u32_at(b, 16 + nv * 40 + nf * 12 + i * 4));
            let kept = fs.take(lod_keep(lods, nf));
            if faces_in_bounds(kept, nv) {
                Ok((vs, kept))
            } else {
                Err(ConversionError::MalformedBody)
            }
        }
    }
}

/// What a v4.00/v4.01 body decodes to. Bones, bone names and subsets must
/// all be absent; the vertex stride is inferred by dividing the byte count
/// left after the face and LOD blocks by the vertex count, and must equal
/// one of the two known record sizes.
pub open spec fn spec_parse_v4(b: Seq<u8>) -> Result<DecodedMesh, ConversionError> {
    if b.len() < 2 {
        Err(ConversionError::TruncatedInput)
    } else if u16_at(b, 0) != 24 {
        Err(ConversionError::MalformedBody)
    } else if b.len() < 24 {
        Err(ConversionError::TruncatedInput)
    } else if u16_at(b, 14) != 0 || u32_at(b, 16) != 0 || u16_at(b, 20) != 0 {
        Err(ConversionError::UnsupportedFeature)
    } else {
        let nv = u32_at(b, 4) as int;
        let nf = u32_at(b, 8) as int;
        let nlod = u16_at(b, 12) as int;
        if b.len() - 24 < nf * 12 + nlod * 4 {
            Err(ConversionError::MalformedBody)
        } else if nv == 0 {
            Err(ConversionError::MalformedBody)
        } else {
            let vblock = b.len() - 24 - nf * 12 - nlod * 4;
            let stride = vblock / nv;
            if stride != 40 && stride != 36 {
                Err(ConversionError::MalformedBody)
            } else {
                let vs = Seq::new(nv as nat, |i: int| vertex_at(b, 24 + i * stride));
                let fs = Seq::new(nf as nat, |i: int| face_at(b, 24 + nv * stride + i * 12));
                let lods = Seq::new(
                    nlod as nat,
                    |i: int| u32_at(b, 24 + nv * stride + nf * 12 + i * 4),
                );
                let kept = fs.take(lod_keep(lods, nf));
                if faces_in_bounds(kept, nv) {
                    Ok((vs, kept))
                } else {
                    Err(ConversionError::MalformedBody)
                }
            }
        }
    }
}

/// What a v5.00 body decodes to. As v4 plus two facial-capture fields that
/// must be zero; the vertex layout is always the colored one.
pub open spec fn spec_parse_v5(b: Seq<u8>) -> Result<DecodedMesh, ConversionError> {
    if b.len() < 2 {
        Err(ConversionError::TruncatedInput)
    } else if u16_at(b, 0) != 32 {
        Err(ConversionError::MalformedBody)
    } else if b.len() < 32 {
        Err(ConversionError::TruncatedInput)
    } else if u16_at(b, 14) != 0 || u32_at(b, 16) != 0 || u16_at(b, 20) != 0 {
        Err(ConversionError::UnsupportedFeature)
    } else if u32_at(b, 24) != 0 || u32_at(b, 28) != 0 {
        Err(ConversionError::UnsupportedFeature)
    } else {
        let nv = u32_at(b, 4) as int;
        let nf = u32_at(b, 8) as int;
        let nlod = u16_at(b, 12) as int;
        if b.len() < 32 + nv * 40 {
            Err(ConversionError::TruncatedInput)
        } else if b.len() < 32 + nv * 40 + nf * 12 {
            Err(ConversionError::TruncatedInput)
        } else if b.len() < 32 + nv * 40 + nf * 12 + nlod * 4 {
            Err(ConversionError::TruncatedInput)
        } else {
            let vs = Seq::new(nv as nat, |i: int| vertex_at(b, 32 + i * 40));
            let fs = Seq::new(nf as nat, |i: int| face_at(b, 32 + nv * 40 + i * 12));
            let lods = Seq::new(nlod as nat, |i: int| u32_at(b, 32 + nv * 40 + nf * 12 + i * 4));
            let kept = fs.take(lod_keep(lods, nf));
            if faces_in_bounds(kept, nv) {
                Ok((vs, kept))
            } else {
                Err(ConversionError::MalformedBody)
            }
        }
    }
}

/// Reads `count` vertex records of the colored 40-byte layout.
fn read_vertices_rgba(body: &[u8], off: usize, count: usize) -> (r: Vec<IntermediateVertex>)
    requires
        off + count * 40 <= body@.len(),
    ensures
        r@ == Seq::new(count as nat, |i: int| vertex_at(body@, off + i * 40)),
{
    let nb = body.len();
    let mut vs: Vec<IntermediateVertex> = Vec::new();
    let mut i: usize = 0;
    while i < count
        invariant
            i <= count,
            off + count * 40 <= nb == body@.len(),
            vs@ == Seq::new(i as nat, |k: int| vertex_at(body@, off + k * 40)),
        decreases count - i,
    {
        let base = off + i * 40;
        let v = IntermediateVertex {
            px: read_u32_at(body, base),
            py: read_u32_at(body, base + 4),
            pz: read_u32_at(body, base + 8),
            nx: read_u32_at(body, base + 12),
            ny: read_u32_at(body, base + 16),
            nz: read_u32_at(body, base + 20),
            tu: read_u32_at(body, base + 24),
            tv: one_minus_f32(read_u32_at(body, base + 28)),
        };
        vs.push(v);
        proof {
            assert(vs@ =~= Seq::new((i + 1) as nat, |k: int| vertex_at(body@, off + k * 40)));
        }
        i = i + 1;
    }
    vs
}

/// Reads `count` vertex records of the 36-byte layout without color.
fn read_vertices_plain(body: &[u8], off: usize, count: usize) -> (r: Vec<IntermediateVertex>)
    requires
        off + count * 36 <= body@.len(),
    ensures
        r@ == Seq::new(count as nat, |i: int| vertex_at(body@, off + i * 36)),
{
    let nb = body.len();
    let mut vs: Vec<IntermediateVertex> = Vec::new();
    let mut i: usize = 0;
    while i < count
        invariant
            i <= count,
            off + count * 36 <= nb == body@.len(),
            vs@ == Seq::new(i as nat, |k: int| vertex_at(body@, off + k * 36)),
        decreases count - i,
    {
        let base = off + i * 36;
        let v = IntermediateVertex {
            px: read_u32_at(body, base),
            py: read_u32_at(body, base + 4),
            pz: read_u32_at(body, base + 8),
            nx: read_u32_at(body, base + 12),
            ny: read_u32_at(body, base + 16),
            nz: read_u32_at(body, base + 20),
            tu: read_u32_at(body, base + 24),
            tv: one_minus_f32(read_u32_at(body, base + 28)),
        };
        vs.push(v);
        proof {
            assert(vs@ =~= Seq::new((i + 1) as nat, |k: int| vertex_at(body@, off + k * 36)));
        }
        i = i + 1;
    }
    vs
}

/// Reads `count` 12-byte face records.
fn read_faces(body: &[u8], off: usize, count: usize) -> (r: Vec<FileMeshFace>)
    requires
        off + count * 12 <= body@.len(),
    ensures
        r@ == Seq::new(count as nat, |i: int| face_at(body@, off + i * 12)),
{
    let nb = body.len();
    let mut fs: Vec<FileMeshFace> = Vec::new();
    let mut i: usize = 0;
    while i < count
        invariant
            i <= count,
            off + count * 12 <= nb == body@.len(),
            fs@ == Seq::new(i as nat, |k: int| face_at(body@, off + k * 12)),
        decreases count - i,
    {
        let base = off + i * 12;
        let f = FileMeshFace {
            a: read_u32_at(body, base),
            b: read_u32_at(body, base + 4),
            c: read_u32_at(body, base + 8),
        };
        fs.push(f);
        proof {
            assert(fs@ =~= Seq::new((i + 1) as nat, |k: int| face_at(body@, off + k * 12)));
        }
        i = i + 1;
    }
    fs
}

/// Reads `count` 32-bit LOD offsets.
fn read_lods(body: &[u8], off: usize, count: usize) -> (r: Vec<u32>)
    requires
        off + count * 4 <= body@.len(),
    ensures
        r@ == Seq::new(count as nat, |i: int| u32_at(body@, off + i * 4)),
{
    let nb = body.len();
    let mut ls: Vec<u32> = Vec::new();
    let mut i: usize = 0;
    while i < count
        invariant
            i <= count,
            off + count * 4 <= nb == body@.len(),
            ls@ == Seq::new(i as nat, |k: int| u32_at(body@, off + k * 4)),
        decreases count - i,
    {
        ls.push(read_u32_at(body, off + i * 4));
        proof {
            assert(ls@ =~= Seq::new((i + 1) as nat, |k: int| u32_at(body@, off + k * 4)));
        }
        i = i + 1;
    }
    ls
}

/// Truncates the face list to the LOD-0 prefix.
fn truncate_lod(faces: &mut Vec<FileMeshFace>, lods: &Vec<u32>, nf: u32)
    requires
        old(faces)@.len() == nf,
    ensures
        final(faces)@ == old(faces)@.take(lod_keep(lods@, nf as int)),
{
    let keep: u32 = if lods.len() >= 2 {
        let k = lods[1];
        if k < nf {
            k
        } else {
            nf
        }
    } else {
        nf
    };
    faces.truncate(keep as usize);
    proof {
        assert(faces@ =~= old(faces)@.take(lod_keep(lods@, nf as int)));
    }
}

/// Checks every face index against the vertex count.
fn check_faces(faces: &Vec<FileMeshFace>, nv: u32) -> (r: bool)
    ensures
        r == faces_in_bounds(faces@, nv as int),
{
    let n = faces.len();
    let mut i: usize = 0;
    while i < n
        invariant
            i <= n == faces@.len(),
            forall|k: int|
                0 <= k < i ==> (#[trigger] faces@[k]).a < nv && faces@[k].b < nv && faces@[k].c
                    < nv,
        decreases n - i,
    {
        let f = faces[i];
        if f.a >= nv || f.b >= nv || f.c >= nv {
            return false;
        }
        i = i + 1;
    }
    true
}

/// Decodes a v2.00 body.
fn parse_v2(body: &[u8]) -> (r: Result<IntermediateMesh, ConversionError>)
    ensures
        decode_agrees(r, spec_parse_v2(body@)),
{
    let n = body.len();
    if n < 2 {
        return Err(ConversionError::TruncatedInput);
    }
    if read_u16_at(body, 0) != 12 {
        return Err(ConversionError::MalformedBody);
    }
    if n < 4 {
        return Err(ConversionError::TruncatedInput);
    }
    let sv = *vstd::slice::slice_index_get(body, 2);
    let sf = *vstd::slice::slice_index_get(body, 3);
    if sf != 12 {
        return Err(ConversionError::MalformedBody);
    }
    if n < 12 {
        return Err(ConversionError::TruncatedInput);
    }
    if sv != 40 && sv != 36 {
        return Err(ConversionError::MalformedBody);
    }
    let nv = read_u32_at(body, 4);
    let nf = read_u32_at(body, 8);
    let stride: u64 = if sv == 40 {
        40
    } else {
        36
    };
    if (n as u64) < 12 + (nv as u64) * stride {
        return Err(ConversionError::TruncatedInput);
    }
    let foff: usize = 12 + (nv as usize) * (stride as usize);
    if (n as u64) < (foff as u64) + (nf as u64) * 12 {
        return Err(ConversionError::TruncatedInput);
    }
    let vs = if sv == 40 {
        read_vertices_rgba(body, 12, nv as usize)
    } else {
        read_vertices_plain(body, 12, nv as usize)
    };
    let fs = read_faces(body, foff, nf as usize);
    if !check_faces(&fs, nv) {
        return Err(ConversionError::MalformedBody);
    }
    proof {
        let b = body@;
        let stride_s: int = if b[2] == 40 {
            40
        } else {
            36
        };
        assert(vs@ =~= Seq::new(nv as nat, |i: int| vertex_at(b, 12 + i * stride_s)));
        assert(fs@ =~= Seq::new(nf as nat, |i: int| face_at(b, 12 + (nv as int) * stride_s + i * 12)));
    }
    Ok(IntermediateMesh { vertices: vs, faces: fs })
}


/// Decodes a v3.00/v3.01 body.
fn parse_v3(body: &[u8]) -> (r: Result<IntermediateMesh, ConversionError>)
    ensures
        decode_agrees(r, spec_parse_v3(body@)),
{
    let n = body.len();
    if n < 2 {
        return Err(ConversionError::TruncatedInput);
    }
    if read_u16_at(body, 0) != 16 {
        return Err(ConversionError::MalformedBody);
    }
    if n < 4 {
        return Err(ConversionError::TruncatedInput);
    }
    let sv = *vstd::slice::slice_index_get(body, 2);
    let sf = *vstd::slice::slice_index_get(body, 3);
    if sf != 12 {
        return Err(ConversionError::MalformedBody);
    }
    if n < 16 {
        return Err(ConversionError::TruncatedInput);
    }
    if sv != 40 {
        return Err(ConversionError::MalformedBody);
    }
    let nlod = read_u16_at(body, 6);
    let nv = read_u32_at(body, 8);
    let nf = read_u32_at(body, 12);
    if (n as u64) < 16 + (nv as u64) * 40 {
        return Err(ConversionError::TruncatedInput);
    }
    let foff: usize = 16 + (nv as usize) * 40;
    if (n as u64) < (foff as u64) + (nf as u64) * 12 {
        return Err(ConversionError::TruncatedInput);
    }
    let loff: usize = foff + (nf as usize) * 12;
    if (n as u64) < (loff as u64) + (nlod as u64) * 4 {
        return Err(ConversionError::TruncatedInput);
    }
    let vs = read_vertices_rgba(body, 16, nv as usize);
    let mut fs = read_faces(body, foff, nf as usize);
    let ghost fs0 = fs@;
    let lods = read_lods(body, loff, nlod as usize);
    truncate_lod(&mut fs, &lods, nf);
    if !check_faces(&fs, nv) {
        return Err(ConversionError::MalformedBody);
    }
    proof {
        let b = body@;
        assert(vs@ =~= Seq::new(nv as nat, |i: int| vertex_at(b, 16 + i * 40)));
        assert(fs0 =~= Seq::new(nf as nat, |i: int| face_at(b, 16 + (nv as int) * 40 + i * 12)));
        assert(lods@ =~= Seq::new(
            nlod as nat,
            |i: int| u32_at(b, 16 + (nv as int) * 40 + (nf as int) * 12 + i * 4),
        ));
    }
    Ok(IntermediateMesh { vertices: vs, faces: fs })
}

/// Decodes a v4.00/v4.01 body, inferring the vertex stride from the byte
/// count left over after the face and LOD blocks.
fn parse_v4(body: &[u8]) -> (r: Result<IntermediateMesh, ConversionError>)
    ensures
        decode_agrees(r, spec_parse_v4(body@)),
{
    let n = body.len();
    if n < 2 {
        return Err(ConversionError::TruncatedInput);
    }
    if read_u16_at(body, 0) != 24 {
        return Err(ConversionError::MalformedBody);
    }
    if n < 24 {
        return Err(ConversionError::TruncatedInput);
    }
    let bones = read_u16_at(body, 14);
    let bone_names = read_u32_at(body, 16);
    let subsets = read_u16_at(body, 20);
    if bones != 0 || bone_names != 0 || subsets != 0 {
        return Err(ConversionError::UnsupportedFeature);
    }
    let nv = read_u32_at(body, 4);
    let nf = read_u32_at(body, 8);
    let nlod = read_u16_at(body, 12);
    let rem: u64 = (n as u64) - 24;
    if rem < (nf as u64) * 12 + (nlod as u64) * 4 {
        return Err(ConversionError::MalformedBody);
    }
    if nv == 0 {
        return Err(ConversionError::MalformedBody);
    }
    let vblock: u64 = rem - (nf as u64) * 12 - (nlod as u64) * 4;
    let stride: u64 = vblock / (nv as u64);
    proof {
        vstd::arithmetic::div_mod::lemma_fundamental_div_mod(vblock as int, nv as int);
        vstd::arithmetic::div_mod::lemma_mod_bound(vblock as int, nv as int);
    }
    if stride != 40 && stride != 36 {
        return Err(ConversionError::MalformedBody);
    }
    assert((nv as int) * (stride as int) <= vblock as int);
    let foff: usize = if stride == 40 {
        24 + (nv as usize) * 40
    } else {
        24 + (nv as usize) * 36
    };
    let loff: usize = foff + (nf as usize) * 12;
    let vs = if stride == 40 {
        read_vertices_rgba(body, 24, nv as usize)
    } else {
        read_vertices_plain(body, 24, nv as usize)
    };
    let mut fs = read_faces(body, foff, nf as usize);
    let ghost fs0 = fs@;
    let lods = read_lods(body, loff, nlod as usize);
    truncate_lod(&mut fs, &lods, nf);
    if !check_faces(&fs, nv) {
        return Err(ConversionError::MalformedBody);
    }
    proof {
        let b = body@;
        let st = stride as int;
        assert(vs@ =~= Seq::new(nv as nat, |i: int| vertex_at(b, 24 + i * st)));
        assert(fs0 =~= Seq::new(nf as nat, |i: int| face_at(b, 24 + (nv as int) * st + i * 12)));
        assert(lods@ =~= Seq::new(
            nlod as nat,
            |i: int| u32_at(b, 24 + (nv as int) * st + (nf as int) * 12 + i * 4),
        ));
    }
    Ok(IntermediateMesh { vertices: vs, faces: fs })
}

/// Decodes a v5.00 body.
fn parse_v5(body: &[u8]) -> (r: Result<IntermediateMesh, ConversionError>)
    ensures
        decode_agrees(r, spec_parse_v5(body@)),
{
    let n = body.len();
    if n < 2 {
        return Err(ConversionError::TruncatedInput);
    }
    if read_u16_at(body, 0) != 32 {
        return Err(ConversionError::MalformedBody);
    }
    if n < 32 {
        return Err(ConversionError::TruncatedInput);
    }
    let bones = read_u16_at(body, 14);
    let bone_names = read_u32_at(body, 16);
    let subsets = read_u16_at(body, 20);
    if bones != 0 || bone_names != 0 || subsets != 0 {
        return Err(ConversionError::UnsupportedFeature);
    }
    let facs_format = read_u32_at(body, 24);
    let facs_size = read_u32_at(body, 28);
    if facs_format != 0 || facs_size != 0 {
        return Err(ConversionError::UnsupportedFeature);
    }
    let nv = read_u32_at(body, 4);
    let nf = read_u32_at(body, 8);
    let nlod = read_u16_at(body, 12);
    if (n as u64) < 32 + (nv as u64) * 40 {
        return Err(ConversionError::TruncatedInput);
    }
    let foff: usize = 32 + (nv as usize) * 40;
    if (n as u64) < (foff as u64) + (nf as u64) * 12 {
        return Err(ConversionError::TruncatedInput);
    }
    let loff: usize = foff + (nf as usize) * 12;
    if (n as u64) < (loff as u64) + (nlod as u64) * 4 {
        return Err(ConversionError::TruncatedInput);
    }
    let vs = read_vertices_rgba(body, 32, nv as usize);
    let mut fs = read_faces(body, foff, nf as usize);
    let ghost fs0 = fs@;
    let lods = read_lods(body, loff, nlod as usize);
    truncate_lod(&mut fs, &lods, nf);
    if !check_faces(&fs, nv) {
        return Err(ConversionError::MalformedBody);
    }
    proof {
        let b = body@;
        assert(vs@ =~= Seq::new(nv as nat, |i: int| vertex_at(b, 32 + i * 40)));
        assert(fs0 =~= Seq::new(nf as nat, |i: int| face_at(b, 32 + (nv as int) * 40 + i * 12)));
        assert(lods@ =~= Seq::new(
            nlod as nat,
            |i: int| u32_at(b, 32 + (nv as int) * 40 + (nf as int) * 12 + i * 4),
        ));
    }
    Ok(IntermediateMesh { vertices: vs, faces: fs })
}


/// What the comma-separated pieces of one bracket group parse to: each
/// piece, trimmed, must read as a single-precision decimal literal.
pub open spec fn spec_components(s: Seq<u8>) -> Option<Seq<u32>>
    decreases s.len(),
    via spec_components_dec
{
    match find_byte(s, 44) {
        None => match parsed_f32_bits(trimmed(s)) {
            None => None,
            Some(b) => Some(seq![b]),
        },
        Some(i) => match parsed_f32_bits(trimmed(s.take(i))) {
            None => None,
            Some(b) => match spec_components(s.skip(i + 1)) {
                None => None,
                Some(r) => Some(seq![b] + r),
            },
        },
    }
}

/// What a line of concatenated bracket groups parses to: for each `[`, a
/// matching `]` must follow, the text between them must read as exactly
/// three components, and text outside brackets is passed over.
pub open spec fn spec_vectors(s: Seq<u8>) -> Option<Seq<(u32, u32, u32)>>
    decreases s.len(),
    via spec_vectors_dec
{
    match find_byte(s, 91) {
        None => Some(Seq::empty()),
        Some(i) => match find_byte(s.skip(i + 1), 93) {
            None => None,
            Some(j) => match spec_components(s.skip(i + 1).take(j)) {
                None => None,
                Some(comps) => if comps.len() == 3 {
                    match spec_vectors(s.skip(i + 1 + j + 1)) {
                        None => None,
                        Some(rest) => Some(seq![(comps[0], comps[1], comps[2])] + rest),
                    }
                } else {
                    None
                },
            },
        },
    }
}

#[via_fn]
proof fn spec_components_dec(s: Seq<u8>) {
    crate::text::lemma_find_byte(s, 44);
}

#[via_fn]
proof fn spec_vectors_dec(s: Seq<u8>) {
    crate::text::lemma_find_byte(s, 91);
    match find_byte(s, 91) {
        Some(i) => {
            crate::text::lemma_find_byte(s.skip(i + 1), 93);
        },
        None => {},
    }
}

/// The vertex built from the three bracket groups of corner `k`: position
/// (halved for v1.00), normal, and UV with V flipped.
pub open spec fn v1_vertex(vecs: Seq<(u32, u32, u32)>, k: int, half: bool) -> IntermediateVertex {
    let p = vecs[3 * k];
    let nr = vecs[3 * k + 1];
    let t = vecs[3 * k + 2];
    IntermediateVertex {
        px: if half {
            half_bits(p.0)
        } else {
            p.0
        },
        py: if half {
            half_bits(p.1)
        } else {
            p.1
        },
        pz: if half {
            half_bits(p.2)
        } else {
            p.2
        },
        nx: nr.0,
        ny: nr.1,
        nz: nr.2,
        tu: t.0,
        tv: flip_bits(t.1),
    }
}

/// What an ASCII body decodes to. The first line is a decimal face count
/// `F`; the second line must hold exactly `F * 9` bracket groups, consumed
/// as position, normal, texture coordinate for each of three corners per
/// face. Corners are never deduplicated: face `i` references the fresh
/// vertex slots `3i`, `3i+1`, `3i+2`.
pub open spec fn spec_parse_v1(b: Seq<u8>, half: bool) -> Result<DecodedMesh, ConversionError> {
    let nl1 = find_byte(b, 10);
    let line1 = match nl1 {
        Some(i) => b.take(i),
        None => b,
    };
    match parse_dec_usize(trimmed(line1)) {
        None => Err(ConversionError::MalformedBody),
        Some(nf) => match nl1 {
            None => Err(ConversionError::MalformedBody),
            Some(i) => {
                let rest = b.skip(i + 1);
                if rest.len() == 0 {
                    Err(ConversionError::MalformedBody)
                } else {
                    let line2 = match find_byte(rest, 10) {
                        Some(j) => rest.take(j),
                        None => rest,
                    };
                    match spec_vectors(trimmed(line2)) {
                        None => Err(ConversionError::MalformedBody),
                        Some(vecs) => {
                            if vecs.len() != nf * 9 {
                                Err(ConversionError::MalformedBody)
                            } else if nf * 3 > u32::MAX {
                                Err(ConversionError::MalformedBody)
                            } else {
                                let vs = Seq::new(
                                    (nf * 3) as nat,
                                    |k: int| v1_vertex(vecs, k, half),
                                );
                                let fs = Seq::new(
                                    nf as nat,
                                    |i: int| FileMeshFace {
                                        a: (3 * i) as u32,
                                        b: (3 * i + 1) as u32,
                                        c: (3 * i + 2) as u32,
                                    },
                                );
                                Ok((vs, fs))
                            }
                        },
                    }
                }
            },
        },
    }
}

/// Parses the comma-separated components in `body[lo..hi)`.
fn parse_components(body: &[u8], lo: usize, hi: usize) -> (r: Option<Vec<u32>>)
    requires
        lo <= hi <= body@.len(),
    ensures
        match r {
            Some(v) => spec_components(body@.subrange(lo as int, hi as int)) == Some(v@),
            None => spec_components(body@.subrange(lo as int, hi as int)) == None::<Seq<u32>>,
        },
{
    let ghost whole = spec_components(body@.subrange(lo as int, hi as int));
    let mut acc: Vec<u32> = Vec::new();
    let mut cur = lo;
    proof {
        match spec_components(body@.subrange(cur as int, hi as int)) {
            Some(r) => {
                assert(acc@ + r =~= r);
            },
            None => {},
        }
    }
    loop
        invariant
            lo <= cur <= hi <= body@.len(),
            whole == spec_components(body@.subrange(lo as int, hi as int)),
            (match spec_components(body@.subrange(cur as int, hi as int)) {
                Some(rest) => whole == Some(acc@ + rest),
                None => whole == None::<Seq<u32>>,
            }),
        decreases hi - cur,
    {
        let ghost scur = body@.subrange(cur as int, hi as int);
        let comma = find_byte_in(body, cur, hi, 44);
        proof {
            assert(forall|j: int| 0 <= j < scur.len() ==> #[trigger] scur[j] == body@[cur + j]);
            match comma {
                Some(ci) => {
                    lemma_find_byte_from_facts(scur, 44, Some(ci - cur));
                },
                None => {
                    lemma_find_byte_from_facts(scur, 44, None::<int>);
                },
            }
        }
        match comma {
            None => {
                let (a, b) = trim_bounds(body, cur, hi);
                let piece = vstd::slice::slice_subrange(body, a, b);
                let parsed = parse_f32_text(piece);
                match parsed {
                    None => {
                        return None;
                    },
                    Some(bits) => {
                        acc.push(bits);
                        proof {
                            assert(spec_components(scur) == Some(seq![bits]));
                            assert(acc@.drop_last() + seq![bits] =~= acc@);
                        }
                        return Some(acc);
                    },
                }
            },
            Some(ci) => {
                let (a, b) = trim_bounds(body, cur, ci);
                let piece = vstd::slice::slice_subrange(body, a, b);
                let parsed = parse_f32_text(piece);
                proof {
                    assert(scur.take(ci - cur) =~= body@.subrange(cur as int, ci as int));
                }
                match parsed {
                    None => {
                        return None;
                    },
                    Some(bits) => {
                        let ghost snext = body@.subrange(ci + 1 as int, hi as int);
                        proof {
                            assert(scur.skip(ci - cur + 1) =~= snext);
                        }
                        acc.push(bits);
                        proof {
                            match spec_components(snext) {
                                Some(r) => {
                                    assert(spec_components(scur) == Some(seq![bits] + r));
                                    assert(acc@.drop_last() + (seq![bits] + r) =~= acc@ + r);
                                },
                                None => {
                                    assert(spec_components(scur) == None::<Seq<u32>>);
                                },
                            }
                        }
                        cur = ci + 1;
                    },
                }
            },
        }
    }
}

/// Parses every bracket group in `body[lo..hi)`.
fn parse_vectors(body: &[u8], lo: usize, hi: usize) -> (r: Option<Vec<(u32, u32, u32)>>)
    requires
        lo <= hi <= body@.len(),
    ensures
        match r {
            Some(v) => spec_vectors(body@.subrange(lo as int, hi as int)) == Some(v@),
            None => spec_vectors(body@.subrange(lo as int, hi as int)) == None::<
                Seq<(u32, u32, u32)>,
            >,
        },
{
    let ghost whole = spec_vectors(body@.subrange(lo as int, hi as int));
    let mut acc: Vec<(u32, u32, u32)> = Vec::new();
    let mut cur = lo;
    proof {
        match spec_vectors(body@.subrange(cur as int, hi as int)) {
            Some(r) => {
                assert(acc@ + r =~= r);
            },
            None => {},
        }
    }
    loop
        invariant
            lo <= cur <= hi <= body@.len(),
            whole == spec_vectors(body@.subrange(lo as int, hi as int)),
            (match spec_vectors(body@.subrange(cur as int, hi as int)) {
                Some(rest) => whole == Some(acc@ + rest),
                None => whole == None::<Seq<(u32, u32, u32)>>,
            }),
        decreases hi - cur,
    {
        let ghost scur = body@.subrange(cur as int, hi as int);
        let open_b = find_byte_in(body, cur, hi, 91);
        proof {
            assert(forall|j: int| 0 <= j < scur.len() ==> #[trigger] scur[j] == body@[cur + j]);
            match open_b {
                Some(oi) => {
                    lemma_find_byte_from_facts(scur, 91, Some(oi - cur));
                },
                None => {
                    lemma_find_byte_from_facts(scur, 91, None::<int>);
                },
            }
        }
        match open_b {
            None => {
                proof {
                    assert(spec_vectors(scur) == Some(Seq::<(u32, u32, u32)>::empty()));
                    assert(acc@ + Seq::<(u32, u32, u32)>::empty() =~= acc@);
                }
                return Some(acc);
            },
            Some(oi) => {
                let ghost safter = body@.subrange(oi + 1 as int, hi as int);
                proof {
                    assert(scur.skip(oi - cur + 1) =~= safter);
                }
                let close_b = find_byte_in(body, oi + 1, hi, 93);
                proof {
                    assert(forall|j: int|
                        0 <= j < safter.len() ==> #[trigger] safter[j] == body@[oi + 1 + j]);
                    match close_b {
                        Some(cj) => {
                            lemma_find_byte_from_facts(safter, 93, Some(cj - (oi + 1)));
                        },
                        None => {
                            lemma_find_byte_from_facts(safter, 93, None::<int>);
                        },
                    }
                }
                match close_b {
                    None => {
                        return None;
                    },
                    Some(cj) => {
                        proof {
                            assert(safter.take(cj - (oi + 1)) =~= body@.subrange(
                                oi + 1 as int,
                                cj as int,
                            ));
                        }
                        match parse_components(body, oi + 1, cj) {
                            None => {
                                return None;
                            },
                            Some(comps) => {
                                if comps.len() != 3 {
                                    return None;
                                }
                                let ghost snext = body@.subrange(cj + 1 as int, hi as int);
                                proof {
                                    assert(scur.skip((oi - cur) + 1 + (cj - (oi + 1)) + 1)
                                        =~= snext);
                                }
                                let c0 = comps[0];
                                let c1 = comps[1];
                                let c2 = comps[2];
                                acc.push((c0, c1, c2));
                                proof {
                                    match spec_vectors(snext) {
                                        Some(r) => {
                                            assert(spec_vectors(scur) == Some(
                                                seq![(c0, c1, c2)] + r,
                                            ));
                                            assert(acc@.drop_last() + (seq![(c0, c1, c2)] + r)
                                                =~= acc@ + r);
                                        },
                                        None => {
                                            assert(spec_vectors(scur) == None::<
                                                Seq<(u32, u32, u32)>,
                                            >);
                                        },
                                    }
                                }
                                cur = cj + 1;
                            },
                        }
                    },
                }
            },
        }
    }
}


/// Decodes an ASCII body. Positions are halved for v1.00 and passed
/// through for v1.01.
fn parse_v1(body: &[u8], half: bool) -> (r: Result<IntermediateMesh, ConversionError>)
    ensures
        decode_agrees(r, spec_parse_v1(body@, half)),
{
    let n = body.len();
    let nl1 = find_byte_from(body, 0, 10);
    proof {
        match nl1 {
            Some(i) => {
                lemma_find_byte_from_facts(body@, 10, Some(i as int));
            },
            None => {
                lemma_find_byte_from_facts(body@, 10, None::<int>);
            },
        }
    }
    let l1end = match nl1 {
        Some(i) => i,
        None => n,
    };
    let (l1a, l1b) = trim_bounds(body, 0, l1end);
    proof {
        match nl1 {
            Some(i) => {
                assert(body@.take(i as int) =~= body@.subrange(0, i as int));
            },
            None => {
                assert(body@ =~= body@.subrange(0, n as int));
            },
        }
    }
    let nf = match parse_usize_dec(body, l1a, l1b) {
        Some(v) => v,
        None => {
            return Err(ConversionError::MalformedBody);
        },
    };
    let nl = match nl1 {
        Some(i) => i,
        None => {
            return Err(ConversionError::MalformedBody);
        },
    };
    if nl + 1 == n {
        proof {
            assert(body@.skip(nl + 1).len() == 0);
        }
        return Err(ConversionError::MalformedBody);
    }
    let ghost rest = body@.skip(nl + 1);
    let nl2 = find_byte_from(body, nl + 1, 10);
    proof {
        assert(forall|j: int| 0 <= j < rest.len() ==> #[trigger] rest[j] == body@[nl + 1 + j]);
        match nl2 {
            Some(j) => {
                lemma_find_byte_from_facts(rest, 10, Some(j - (nl + 1)));
            },
            None => {
                lemma_find_byte_from_facts(rest, 10, None::<int>);
            },
        }
    }
    let l2end = match nl2 {
        Some(j) => j,
        None => n,
    };
    let (l2a, l2b) = trim_bounds(body, nl + 1, l2end);
    proof {
        match nl2 {
            Some(j) => {
                assert(rest.take(j - (nl + 1)) =~= body@.subrange(nl + 1 as int, j as int));
            },
            None => {
                assert(rest =~= body@.subrange(nl + 1 as int, n as int));
            },
        }
    }
    let vecs = match parse_vectors(body, l2a, l2b) {
        Some(v) => v,
        None => {
            return Err(ConversionError::MalformedBody);
        },
    };
    if (vecs.len() as u128) != (nf as u128) * 9 {
        return Err(ConversionError::MalformedBody);
    }
    if (nf as u128) * 3 > u32::MAX as u128 {
        return Err(ConversionError::MalformedBody);
    }
    let total: usize = nf * 3;
    let nvecs = vecs.len();
    let mut vs: Vec<IntermediateVertex> = Vec::new();
    let mut k: usize = 0;
    while k < total
        invariant
            k <= total == nf * 3,
            (nf as int) * 9 == nvecs == vecs@.len(),
            vs@ == Seq::new(k as nat, |j: int| v1_vertex(vecs@, j, half)),
        decreases total - k,
    {
        let p = vecs[3 * k];
        let nr = vecs[3 * k + 1];
        let t = vecs[3 * k + 2];
        let v = IntermediateVertex {
            px: if half {
                half_f32(p.0)
            } else {
                p.0
            },
            py: if half {
                half_f32(p.1)
            } else {
                p.1
            },
            pz: if half {
                half_f32(p.2)
            } else {
                p.2
            },
            nx: nr.0,
            ny: nr.1,
            nz: nr.2,
            tu: t.0,
            tv: one_minus_f32(t.1),
        };
        vs.push(v);
        proof {
            assert(vs@ =~= Seq::new((k + 1) as nat, |j: int| v1_vertex(vecs@, j, half)));
        }
        k = k + 1;
    }
    let mut fs: Vec<FileMeshFace> = Vec::new();
    let mut i: usize = 0;
    while i < nf
        invariant
            i <= nf,
            (nf as int) * 3 <= u32::MAX,
            fs@ == Seq::new(
                i as nat,
                (|j: int| FileMeshFace {
                    a: (3 * j) as u32,
                    b: (3 * j + 1) as u32,
                    c: (3 * j + 2) as u32,
                }),
            ),
        decreases nf - i,
    {
        let f = FileMeshFace { a: (3 * i) as u32, b: (3 * i + 1) as u32, c: (3 * i + 2) as u32 };
        fs.push(f);
        proof {
            assert(fs@ =~= Seq::new(
                (i + 1) as nat,
                (|j: int| FileMeshFace {
                    a: (3 * j) as u32,
                    b: (3 * j + 1) as u32,
                    c: (3 * j + 2) as u32,
                }),
            ));
        }
        i = i + 1;
    }
    Ok(IntermediateMesh { vertices: vs, faces: fs })
}


/// What a complete buffer decodes to: the text before the first line feed,
/// trimmed, selects the version handler for everything after it; a missing
/// line feed is a malformed header, and an unknown version text is
/// unsupported.
pub open spec fn spec_parse_filemesh(data: Seq<u8>) -> Result<DecodedMesh, ConversionError> {
    match find_byte(data, 10) {
        None => Err(ConversionError::MalformedHeader),
        Some(nl) => {
            let header = trimmed(data.take(nl));
            let body = data.skip(nl + 1);
            if header == ver_text(49, 48, 48) {
                spec_parse_v1(body, true)
            } else if header == ver_text(49, 48, 49) {
                spec_parse_v1(body, false)
            } else if header == ver_text(50, 48, 48) {
                spec_parse_v2(body)
            } else if header == ver_text(51, 48, 48) || header == ver_text(51, 48, 49) {
                spec_parse_v3(body)
            } else if header == ver_text(52, 48, 48) || header == ver_text(52, 48, 49) {
                spec_parse_v4(body)
            } else if header == ver_text(53, 48, 48) {
                spec_parse_v5(body)
            } else {
                Err(ConversionError::UnsupportedVersion)
            }
        },
    }
}

/// Compares `data[a..b)` against the version text with digits `d1.d2d3`.
fn header_is(data: &[u8], a: usize, b: usize, d1: u8, d2: u8, d3: u8) -> (r: bool)
    requires
        a <= b <= data@.len(),
    ensures
        r == (data@.subrange(a as int, b as int) == ver_text(d1, d2, d3)),
{
    let ghost s = data@.subrange(a as int, b as int);
    proof {
        assert(ver_text(d1, d2, d3).len() == 12);
    }
    if b - a != 12 {
        return false;
    }
    let mut exp: Vec<u8> = Vec::new();
    exp.push(118);
    exp.push(101);
    exp.push(114);
    exp.push(115);
    exp.push(105);
    exp.push(111);
    exp.push(110);
    exp.push(32);
    exp.push(d1);
    exp.push(46);
    exp.push(d2);
    exp.push(d3);
    proof {
        assert(exp@ =~= ver_text(d1, d2, d3));
    }
    let mut i: usize = 0;
    while i < 12
        invariant
            i <= 12,
            a + 12 == b <= data@.len(),
            s == data@.subrange(a as int, b as int),
            exp@ == ver_text(d1, d2, d3),
            forall|k: int| 0 <= k < i ==> #[trigger] s[k] == exp@[k],
        decreases 12 - i,
    {
        if *vstd::slice::slice_index_get(data, a + i) != exp[i] {
            proof {
                assert(s[i as int] != exp@[i as int]);
            }
            return false;
        }
        i = i + 1;
    }
    proof {
        assert(s =~= exp@);
    }
    true
}

/// Every mesh a version handler accepts is well formed: the face indices
/// point into the vertex sequence.
pub proof fn lemma_decoded_wf(pr: Result<DecodedMesh, ConversionError>, b: Seq<u8>, half: bool)
    requires
        pr == spec_parse_v1(b, half) || pr == spec_parse_v2(b) || pr == spec_parse_v3(b) || pr
            == spec_parse_v4(b) || pr == spec_parse_v5(b),
    ensures
        pr matches Ok(dm) ==> faces_in_bounds(dm.1, dm.0.len() as int),
{
    match pr {
        Ok(dm) => {
            if pr == spec_parse_v1(b, half) {
                assert(faces_in_bounds(dm.1, dm.0.len() as int)) by {
                    assert(forall|i: int|
                        0 <= i < dm.1.len() ==> (#[trigger] dm.1[i]).a < dm.0.len()
                            && dm.1[i].b < dm.0.len() && dm.1[i].c < dm.0.len());
                };
            }
        },
        Err(_) => {},
    }
}

/// Decodes a complete buffer: splits off the version line, dispatches on
/// the version text, and returns a well-formed mesh or the handler's error.
pub fn parse_filemesh(data: &[u8]) -> (r: Result<IntermediateMesh, ConversionError>)
    ensures
        decode_agrees(r, spec_parse_filemesh(data@)),
        r matches Ok(m) ==> m.wf(),
{
    let n = data.len();
    let nl = match find_byte_from(data, 0, 10) {
        Some(i) => i,
        None => {
            proof {
                lemma_find_byte_from_facts(data@, 10, None::<int>);
            }
            return Err(ConversionError::MalformedHeader);
        },
    };
    proof {
        lemma_find_byte_from_facts(data@, 10, Some(nl as int));
        assert(data@.take(nl as int) =~= data@.subrange(0, nl as int));
    }
    let (ha, hb) = trim_bounds(data, 0, nl);
    let body = vstd::slice::slice_subrange(data, nl + 1, n);
    proof {
        assert(body@ =~= data@.skip(nl + 1));
    }
    let r = if header_is(data, ha, hb, 49, 48, 48) {
        parse_v1(body, true)
    } else if header_is(data, ha, hb, 49, 48, 49) {
        parse_v1(body, false)
    } else if header_is(data, ha, hb, 50, 48, 48) {
        parse_v2(body)
    } else if header_is(data, ha, hb, 51, 48, 48) || header_is(data, ha, hb, 51, 48, 49) {
        parse_v3(body)
    } else if header_is(data, ha, hb, 52, 48, 48) || header_is(data, ha, hb, 52, 48, 49) {
        parse_v4(body)
    } else if header_is(data, ha, hb, 53, 48, 48) {
        parse_v5(body)
    } else {
        return Err(ConversionError::UnsupportedVersion);
    };
    proof {
        match &r {
            Ok(m) => {
                lemma_decoded_wf(
                    Ok((m.vertices@, m.faces@)),
                    body@,
                    data@.subrange(ha as int, hb as int) == ver_text(49, 48, 48),
                );
            },
            Err(_) => {},
        }
    }
    r
}

/// One position line: `v <x> <y> <z>`.
pub open spec fn obj_v_line(v: IntermediateVertex) -> Seq<u8> {
    seq![118u8, 32u8] + fmt6_bytes(v.px) + seq![32u8] + fmt6_bytes(v.py) + seq![32u8]
        + fmt6_bytes(v.pz) + seq![10u8]
}

/// One texture-coordinate line: `vt <u> <1-v>`, the V flip mirroring the
/// flip applied on decode.
pub open spec fn obj_vt_line(v: IntermediateVertex) -> Seq<u8> {
    seq![118u8, 116u8, 32u8] + fmt6_bytes(v.tu) + seq![32u8] + fmt6_bytes(flip_bits(v.tv))
        + seq![10u8]
}

/// One normal line: `vn <x> <y> <z>`.
pub open spec fn obj_vn_line(v: IntermediateVertex) -> Seq<u8> {
    seq![118u8, 110u8, 32u8] + fmt6_bytes(v.nx) + seq![32u8] + fmt6_bytes(v.ny) + seq![32u8]
        + fmt6_bytes(v.nz) + seq![10u8]
}

/// A face corner reference `i/i/i`, with the same one-based index for
/// position, texture coordinate and normal.
pub open spec fn obj_triple(i: u32) -> Seq<u8> {
    dec_rep((i + 1) as nat) + seq![47u8] + dec_rep((i + 1) as nat) + seq![47u8] + dec_rep(
        (i + 1) as nat,
    )
}

/// One face line: `f a/a/a b/b/b c/c/c`.
pub open spec fn obj_f_line(f: FileMeshFace) -> Seq<u8> {
    seq![102u8, 32u8] + obj_triple(f.a) + seq![32u8] + obj_triple(f.b) + seq![32u8] + obj_triple(
        f.c,
    ) + seq![10u8]
}

/// All position lines, in vertex order.
pub open spec fn obj_v_block(vs: Seq<IntermediateVertex>) -> Seq<u8>
    decreases vs.len(),
{
    if vs.len() == 0 {
        Seq::empty()
    } else {
        obj_v_block(vs.drop_last()) + obj_v_line(vs.last())
    }
}

/// All texture-coordinate lines, in vertex order.
pub open spec fn obj_vt_block(vs: Seq<IntermediateVertex>) -> Seq<u8>
    decreases vs.len(),
{
    if vs.len() == 0 {
        Seq::empty()
    } else {
        obj_vt_block(vs.drop_last()) + obj_vt_line(vs.last())
    }
}

/// All normal lines, in vertex order.
pub open spec fn obj_vn_block(vs: Seq<IntermediateVertex>) -> Seq<u8>
    decreases vs.len(),
{
    if vs.len() == 0 {
        Seq::empty()
    } else {
        obj_vn_block(vs.drop_last()) + obj_vn_line(vs.last())
    }
}

/// All face lines, in face order.
pub open spec fn obj_f_block(fs: Seq<FileMeshFace>) -> Seq<u8>
    decreases fs.len(),
{
    if fs.len() == 0 {
        Seq::empty()
    } else {
        obj_f_block(fs.drop_last()) + obj_f_line(fs.last())
    }
}

/// The complete polygon-text output: positions, then texture coordinates,
/// then normals, then faces.
pub open spec fn spec_obj_text(vs: Seq<IntermediateVertex>, fs: Seq<FileMeshFace>) -> Seq<u8> {
    obj_v_block(vs) + obj_vt_block(vs) + obj_vn_block(vs) + obj_f_block(fs)
}

/// Appends `i/i/i` with a one-based index.
fn push_triple(out: &mut Vec<u8>, i: u32)
    ensures
        final(out)@ == old(out)@ + obj_triple(i),
{
    let mut d1 = u64_dec(i as u64 + 1);
    out.append(&mut d1);
    out.push(47);
    let mut d2 = u64_dec(i as u64 + 1);
    out.append(&mut d2);
    out.push(47);
    let mut d3 = u64_dec(i as u64 + 1);
    out.append(&mut d3);
    proof {
        assert(out@ =~= old(out)@ + obj_triple(i));
    }
}

/// Emits the polygon-text form of a mesh. Infallible: the buffer is built
/// in memory.
#[verifier::rlimit(50)]
pub fn mesh_to_obj_bytes(mesh: &IntermediateMesh) -> (r: Result<Vec<u8>, ConversionError>)
    ensures
        r is Ok,
        r matches Ok(out) ==> out@ == spec_obj_text(mesh.vertices@, mesh.faces@),
{
    let mut out: Vec<u8> = Vec::new();
    let nv = mesh.vertices.len();
    let nf = mesh.faces.len();
    let mut i: usize = 0;
    while i < nv
        invariant
            i <= nv == mesh.vertices@.len(),
            out@ == obj_v_block(mesh.vertices@.take(i as int)),
        decreases nv - i,
    {
        let v = mesh.vertices[i];
        out.push(118);
        out.push(32);
        let mut x = fmt_f32_6(v.px);
        out.append(&mut x);
        out.push(32);
        let mut y = fmt_f32_6(v.py);
        out.append(&mut y);
        out.push(32);
        let mut z = fmt_f32_6(v.pz);
        out.append(&mut z);
        out.push(10);
        proof {
            assert(mesh.vertices@.take(i + 1).drop_last() =~= mesh.vertices@.take(i as int));
            assert(out@ =~= obj_v_block(mesh.vertices@.take(i + 1)));
        }
        i = i + 1;
    }
    proof {
        assert(mesh.vertices@.take(nv as int) =~= mesh.vertices@);
    }
    let ghost p1 = out@;
    let mut i: usize = 0;
    while i < nv
        invariant
            i <= nv == mesh.vertices@.len(),
            out@ == p1 + obj_vt_block(mesh.vertices@.take(i as int)),
        decreases nv - i,
    {
        let v = mesh.vertices[i];
        out.push(118);
        out.push(116);
        out.push(32);
        let mut u = fmt_f32_6(v.tu);
        out.append(&mut u);
        out.push(32);
        let mut w = fmt_f32_6(one_minus_f32(v.tv));
        out.append(&mut w);
        out.push(10);
        proof {
            assert(mesh.vertices@.take(i + 1).drop_last() =~= mesh.vertices@.take(i as int));
            assert(out@ =~= p1 + obj_vt_block(mesh.vertices@.take(i + 1)));
        }
        i = i + 1;
    }
    proof {
        assert(mesh.vertices@.take(nv as int) =~= mesh.vertices@);
    }
    let ghost p2 = out@;
    let mut i: usize = 0;
    while i < nv
        invariant
            i <= nv == mesh.vertices@.len(),
            out@ == p2 + obj_vn_block(mesh.vertices@.take(i as int)),
        decreases nv - i,
    {
        let v = mesh.vertices[i];
        out.push(118);
        out.push(110);
        out.push(32);
        let mut x = fmt_f32_6(v.nx);
        out.append(&mut x);
        out.push(32);
        let mut y = fmt_f32_6(v.ny);
        out.append(&mut y);
        out.push(32);
        let mut z = fmt_f32_6(v.nz);
        out.append(&mut z);
        out.push(10);
        proof {
            assert(mesh.vertices@.take(i + 1).drop_last() =~= mesh.vertices@.take(i as int));
            assert(out@ =~= p2 + obj_vn_block(mesh.vertices@.take(i + 1)));
        }
        i = i + 1;
    }
    proof {
        assert(mesh.vertices@.take(nv as int) =~= mesh.vertices@);
    }
    let ghost p3 = out@;
    let mut i: usize = 0;
    while i < nf
        invariant
            i <= nf == mesh.faces@.len(),
            out@ == p3 + obj_f_block(mesh.faces@.take(i as int)),
        decreases nf - i,
    {
        let f = mesh.faces[i];
        out.push(102);
        out.push(32);
        push_triple(&mut out, f.a);
        out.push(32);
        push_triple(&mut out, f.b);
        out.push(32);
        push_triple(&mut out, f.c);
        out.push(10);
        proof {
            assert(mesh.faces@.take(i + 1).drop_last() =~= mesh.faces@.take(i as int));
            assert(out@ =~= p3 + obj_f_block(mesh.faces@.take(i + 1)));
        }
        i = i + 1;
    }
    proof {
        assert(mesh.faces@.take(nf as int) =~= mesh.faces@);
        assert(out@ =~= spec_obj_text(mesh.vertices@, mesh.faces@));
    }
    Ok(out)
}

/// Decodes a buffer and re-emits it as polygon text in one step.
pub fn filemesh_to_obj_bytes(data: &[u8]) -> (r: Result<Vec<u8>, ConversionError>)
    ensures
        ({
            match spec_parse_filemesh(data@) {
                Ok(dm) => r matches Ok(out) && out@ == spec_obj_text(dm.0, dm.1),
                Err(e) => r matches Err(e2) && e2 == e,
            }
        }),
{
    let mesh = match parse_filemesh(data) {
        Ok(m) => m,
        Err(e) => {
            return Err(e);
        },
    };
    mesh_to_obj_bytes(&mesh)
}

} // verus!
