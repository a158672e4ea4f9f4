//! The per-version encoders: an intermediate mesh in, one byte buffer out.
//!
//! Every binary encoder writes the extended (colored) vertex layout with a
//! default tangent and opaque white color, and the mesh's V component
//! verbatim. The ASCII encoder writes bracketed component triplets with six
//! decimal places and no vertex deduplication.

use crate::error::ConversionError;
use crate::fbits::{fmt6_bytes, fmt_f32_6, twice_bits, twice_f32};
use crate::layout::{face_block_out, push_face_block, push_u16_le, push_u32_le, push_ver_line, push_vertex_block, ver_line, vertex_block_out};
use crate::mesh_types::{FileMeshFace, FileMeshHeaderV2, FileMeshHeaderV3, FileMeshHeaderV4, FileMeshHeaderV5, IntermediateMesh, IntermediateVertex};
use crate::text::dec_rep;
use crate::text::u64_dec;
use vstd::bytes::{spec_u16_to_le_bytes, spec_u32_to_le_bytes};
use vstd::prelude::*;

verus! {

/// The two sub-variants of the ASCII layout: they differ only in the
/// version line and in the position scale factor on write (2.0 or 1.0).
#[allow(non_camel_case_types)]
#[derive(Debug, Clone, Copy, PartialEq, Eq, Structural)]
pub enum V1Version {
    V1_00,
    V1_01,
}

/// A bracketed component triplet `[x,y,z]`.
pub open spec fn bracket3(x: Seq<u8>, y: Seq<u8>, z: Seq<u8>) -> Seq<u8> {
    seq![91u8] + x + seq![44u8] + y + seq![44u8] + z + seq![93u8]
}

/// The text one face corner contributes: position (doubled for v1.00),
/// normal, then UV with a constant zero third component, all with six
/// decimal places.
pub open spec fn corner_text(v: IntermediateVertex, twice: bool) -> Seq<u8> {
    let px = if twice {
        twice_bits(v.px)
    } else {
        v.px
    };
    let py = if twice {
        twice_bits(v.py)
    } else {
        v.py
    };
    let pz = if twice {
        twice_bits(v.pz)
    } else {
        v.pz
    };
    bracket3(fmt6_bytes(px), fmt6_bytes(py), fmt6_bytes(pz)) + bracket3(
        fmt6_bytes(v.nx),
        fmt6_bytes(v.ny),
        fmt6_bytes(v.nz),
    ) + bracket3(fmt6_bytes(v.tu), fmt6_bytes(v.tv), fmt6_bytes(0u32))
}

/// The text of one face: its three corners in order.
pub open spec fn face_text(vs: Seq<IntermediateVertex>, f: FileMeshFace, twice: bool) -> Seq<u8> {
    corner_text(vs[f.a as int], twice) + corner_text(vs[f.b as int], twice) + corner_text(
        vs[f.c as int],
        twice,
    )
}

/// The concatenated text of all faces.
pub open spec fn faces_text(vs: Seq<IntermediateVertex>, fs: Seq<FileMeshFace>, twice: bool) -> Seq<
    u8,
>
    decreases fs.len(),
{
    if fs.len() == 0 {
        Seq::empty()
    } else {
        faces_text(vs, fs.drop_last(), twice) + face_text(vs, fs.last(), twice)
    }
}

/// The complete ASCII output: version line, face count line, then the face
/// texts with no separators between bracket groups.
pub open spec fn spec_write_v1(vs: Seq<IntermediateVertex>, fs: Seq<FileMeshFace>, v100: bool) -> Seq<u8> {
    ver_line(
        49,
        48,
        if v100 {
            48
        } else {
            49
        },
    ) + dec_rep(fs.len() as nat).push(10u8) + faces_text(vs, fs, v100)
}

/// The complete v2.00 output.
pub open spec fn spec_write_v2(vs: Seq<IntermediateVertex>, fs: Seq<FileMeshFace>) -> Seq<u8> {
    ver_line(50, 48, 48) + spec_u16_to_le_bytes(12u16) + seq![40u8, 12u8] + spec_u32_to_le_bytes(
        vs.len() as u32,
    ) + spec_u32_to_le_bytes(fs.len() as u32) + vertex_block_out(vs) + face_block_out(fs)
}

/// The complete v3.00 output: one declared LOD offset with value zero.
pub open spec fn spec_write_v3(vs: Seq<IntermediateVertex>, fs: Seq<FileMeshFace>) -> Seq<u8> {
    ver_line(51, 48, 48) + spec_u16_to_le_bytes(16u16) + seq![40u8, 12u8] + spec_u16_to_le_bytes(
        4u16,
    ) + spec_u16_to_le_bytes(1u16) + spec_u32_to_le_bytes(vs.len() as u32) + spec_u32_to_le_bytes(
        fs.len() as u32,
    ) + vertex_block_out(vs) + face_block_out(fs) + spec_u32_to_le_bytes(0u32)
}

/// The complete v4.00 output: no bones, no subsets, one LOD offset of zero,
/// one high-quality LOD.
pub open spec fn spec_write_v4(vs: Seq<IntermediateVertex>, fs: Seq<FileMeshFace>) -> Seq<u8> {
    ver_line(52, 48, 48) + spec_u16_to_le_bytes(24u16) + spec_u16_to_le_bytes(0u16)
        + spec_u32_to_le_bytes(vs.len() as u32) + spec_u32_to_le_bytes(fs.len() as u32)
        + spec_u16_to_le_bytes(1u16) + spec_u16_to_le_bytes(0u16) + spec_u32_to_le_bytes(0u32)
        + spec_u16_to_le_bytes(0u16) + seq![1u8, 0u8] + vertex_block_out(vs) + face_block_out(fs)
        + spec_u32_to_le_bytes(0u32)
}

/// The complete v5.00 output: as v4 plus empty facial-capture fields.
pub open spec fn spec_write_v5(vs: Seq<IntermediateVertex>, fs: Seq<FileMeshFace>) -> Seq<u8> {
    ver_line(53, 48, 48) + spec_u16_to_le_bytes(32u16) + spec_u16_to_le_bytes(0u16)
        + spec_u32_to_le_bytes(vs.len() as u32) + spec_u32_to_le_bytes(fs.len() as u32)
        + spec_u16_to_le_bytes(1u16) + spec_u16_to_le_bytes(0u16) + spec_u32_to_le_bytes(0u32)
        + spec_u16_to_le_bytes(0u16) + seq![1u8, 0u8] + spec_u32_to_le_bytes(0u32)
        + spec_u32_to_le_bytes(0u32) + vertex_block_out(vs) + face_block_out(fs)
        + spec_u32_to_le_bytes(0u32)
}

/// Appends `[x,y,z]` with each component formatted to six decimal places.
fn push_bracket3(out: &mut Vec<u8>, x: u32, y: u32, z: u32)
    ensures
        final(out)@ == old(out)@ + bracket3(fmt6_bytes(x), fmt6_bytes(y), fmt6_bytes(z)),
{
    out.push(91);
    let mut a = fmt_f32_6(x);
    out.append(&mut a);
    out.push(44);
    let mut b = fmt_f32_6(y);
    out.append(&mut b);
    out.push(44);
    let mut c = fmt_f32_6(z);
    out.append(&mut c);
    out.push(93);
    proof {
        assert(out@ =~= old(out)@ + bracket3(fmt6_bytes(x), fmt6_bytes(y), fmt6_bytes(z)));
    }
}

/// Appends the three bracket groups of one face corner.
fn push_corner(out: &mut Vec<u8>, v: &IntermediateVertex, twice: bool)
    ensures
        final(out)@ == old(out)@ + corner_text(*v, twice),
{
    let px = if twice {
        twice_f32(v.px)
    } else {
        v.px
    };
    let py = if twice {
        twice_f32(v.py)
    } else {
        v.py
    };
    let pz = if twice {
        twice_f32(v.pz)
    } else {
        v.pz
    };
    push_bracket3(out, px, py, pz);
    push_bracket3(out, v.nx, v.ny, v.nz);
    push_bracket3(out, v.tu, v.tv, 0);
    proof {
        assert(out@ =~= old(out)@ + corner_text(*v, twice));
    }
}

/// Emits the ASCII layout. Every face corner re-emits its stored vertex, so
/// a vertex referenced by several faces appears once per reference.
#[verifier::rlimit(50)]
pub fn write_v1(mesh: &IntermediateMesh, version: V1Version) -> (r: Result<
    Vec<u8>,
    ConversionError,
>)
    requires
        mesh.wf(),
    ensures
        r is Ok,
        r matches Ok(out) ==> out@ == spec_write_v1(
            mesh.vertices@,
            mesh.faces@,
            version is V1_00,
        ),
{
    let twice = match version {
        V1Version::V1_00 => true,
        V1Version::V1_01 => false,
    };
    let mut out: Vec<u8> = Vec::new();
    if twice {
        push_ver_line(&mut out, 49, 48, 48);
    } else {
        push_ver_line(&mut out, 49, 48, 49);
    }
    let mut cnt = u64_dec(mesh.faces.len() as u64);
    out.append(&mut cnt);
    out.push(10);
    let ghost pre = out@;
    proof {
        assert(pre =~= ver_line(
            49,
            48,
            if version is V1_00 {
                48
            } else {
                49
            },
        ) + dec_rep(mesh.faces@.len() as nat).push(10u8));
    }
    let n = mesh.faces.len();
    let mut i: usize = 0;
    while i < n
        invariant
            i <= n == mesh.faces@.len(),
            mesh.wf(),
            twice == version is V1_00,
            out@ == pre + faces_text(mesh.vertices@, mesh.faces@.take(i as int), twice),
        decreases n - i,
    {
        let f = mesh.faces[i];
        assert(mesh.faces@[i as int].a < mesh.vertices@.len());
        let va = mesh.vertices[f.a as usize];
        let vb = mesh.vertices[f.b as usize];
        let vc = mesh.vertices[f.c as usize];
        push_corner(&mut out, &va, twice);
        push_corner(&mut out, &vb, twice);
        push_corner(&mut out, &vc, twice);
        proof {
            assert(mesh.faces@.take(i + 1).drop_last() =~= mesh.faces@.take(i as int));
            assert(mesh.faces@.take(i + 1).last() == mesh.faces@[i as int]);
            assert(faces_text(mesh.vertices@, mesh.faces@.take(i + 1), twice) == faces_text(
                mesh.vertices@,
                mesh.faces@.take(i as int),
                twice,
            ) + face_text(mesh.vertices@, mesh.faces@[i as int], twice));
            assert(out@ =~= pre + faces_text(mesh.vertices@, mesh.faces@.take(i + 1), twice));
        }
        i = i + 1;
    }
    proof {
        assert(mesh.faces@.take(n as int) =~= mesh.faces@);
    }
    Ok(out)
}

/// Emits the v2.00 layout.
pub fn write_v2(mesh: &IntermediateMesh) -> (r: Result<Vec<u8>, ConversionError>)
    requires
        mesh.vertices@.len() <= u32::MAX,
        mesh.faces@.len() <= u32::MAX,
    ensures
        r is Ok,
        r matches Ok(out) ==> out@ == spec_write_v2(mesh.vertices@, mesh.faces@),
{
    let mut out: Vec<u8> = Vec::new();
    push_ver_line(&mut out, 50, 48, 48);
    let header = FileMeshHeaderV2 {
        sizeof_FileMeshHeaderV2: 12,
        sizeof_FileMeshVertex: 40,
        sizeof_FileMeshFace: 12,
        numVerts: mesh.vertices.len() as u32,
        numFaces: mesh.faces.len() as u32,
    };
    push_u16_le(&mut out, header.sizeof_FileMeshHeaderV2);
    out.push(header.sizeof_FileMeshVertex);
    out.push(header.sizeof_FileMeshFace);
    push_u32_le(&mut out, header.numVerts);
    push_u32_le(&mut out, header.numFaces);
    push_vertex_block(&mut out, &mesh.vertices);
    push_face_block(&mut out, &mesh.faces);
    proof {
        assert(out@ =~= spec_write_v2(mesh.vertices@, mesh.faces@));
    }
    Ok(out)
}

/// Emits the v3.00 layout: one LOD offset, written as zero.
pub fn write_v3(mesh: &IntermediateMesh) -> (r: Result<Vec<u8>, ConversionError>)
    requires
        mesh.vertices@.len() <= u32::MAX,
        mesh.faces@.len() <= u32::MAX,
    ensures
        r is Ok,
        r matches Ok(out) ==> out@ == spec_write_v3(mesh.vertices@, mesh.faces@),
{
    let mut out: Vec<u8> = Vec::new();
    push_ver_line(&mut out, 51, 48, 48);
    let header = FileMeshHeaderV3 {
        sizeof_FileMeshHeaderV3: 16,
        sizeof_FileMeshVertex: 40,
        sizeof_FileMeshFace: 12,
        sizeof_LodOffset: 4,
        numLodOffsets: 1,
        numVerts: mesh.vertices.len() as u32,
        numFaces: mesh.faces.len() as u32,
    };
    push_u16_le(&mut out, header.sizeof_FileMeshHeaderV3);
    out.push(header.sizeof_FileMeshVertex);
    out.push(header.sizeof_FileMeshFace);
    push_u16_le(&mut out, header.sizeof_LodOffset);
    push_u16_le(&mut out, header.numLodOffsets);
    push_u32_le(&mut out, header.numVerts);
    push_u32_le(&mut out, header.numFaces);
    push_vertex_block(&mut out, &mesh.vertices);
    push_face_block(&mut out, &mesh.faces);
    push_u32_le(&mut out, 0);
    proof {
        assert(out@ =~= spec_write_v3(mesh.vertices@, mesh.faces@));
    }
    Ok(out)
}

/// Emits the v4.00 layout: no bones, no subsets, one LOD offset of zero.
pub fn write_v4(mesh: &IntermediateMesh) -> (r: Result<Vec<u8>, ConversionError>)
    requires
        mesh.vertices@.len() <= u32::MAX,
        mesh.faces@.len() <= u32::MAX,
    ensures
        r is Ok,
        r matches Ok(out) ==> out@ == spec_write_v4(mesh.vertices@, mesh.faces@),
{
    let mut out: Vec<u8> = Vec::new();
    push_ver_line(&mut out, 52, 48, 48);
    let header = FileMeshHeaderV4 {
        sizeof_FileMeshHeaderV4: 24,
        lodType: 0,
        numVerts: mesh.vertices.len() as u32,
        numFaces: mesh.faces.len() as u32,
        numLodOffsets: 1,
        numBones: 0,
        sizeof_boneNames: 0,
        numSubsets: 0,
        numHighQualityLODs: 1,
        unused: 0,
    };
    push_u16_le(&mut out, header.sizeof_FileMeshHeaderV4);
    push_u16_le(&mut out, header.lodType);
    push_u32_le(&mut out, header.numVerts);
    push_u32_le(&mut out, header.numFaces);
    push_u16_le(&mut out, header.numLodOffsets);
    push_u16_le(&mut out, header.numBones);
    push_u32_le(&mut out, header.sizeof_boneNames);
    push_u16_le(&mut out, header.numSubsets);
    out.push(header.numHighQualityLODs);
    out.push(header.unused);
    push_vertex_block(&mut out, &mesh.vertices);
    push_face_block(&mut out, &mesh.faces);
    push_u32_le(&mut out, 0);
    proof {
        assert(out@ =~= spec_write_v4(mesh.vertices@, mesh.faces@));
    }
    Ok(out)
}

/// Emits the v5.00 layout: as v4 plus empty facial-capture fields.
pub fn write_v5(mesh: &IntermediateMesh) -> (r: Result<Vec<u8>, ConversionError>)
    requires
        mesh.vertices@.len() <= u32::MAX,
        mesh.faces@.len() <= u32::MAX,
    ensures
        r is Ok,
        r matches Ok(out) ==> out@ == spec_write_v5(mesh.vertices@, mesh.faces@),
{
    let mut out: Vec<u8> = Vec::new();
    push_ver_line(&mut out, 53, 48, 48);
    let header = FileMeshHeaderV5 {
        sizeof_MeshHeader: 32,
        lodType: 0,
        numVerts: mesh.vertices.len() as u32,
        numFaces: mesh.faces.len() as u32,
        numLodOffsets: 1,
        numBones: 0,
        sizeof_boneNameBuffer: 0,
        numSubsets: 0,
        numHighQualityLODs: 1,
        unusedPadding: 0,
        facsDataFormat: 0,
        facsDataSize: 0,
    };
    push_u16_le(&mut out, header.sizeof_MeshHeader);
    push_u16_le(&mut out, header.lodType);
    push_u32_le(&mut out, header.numVerts);
    push_u32_le(&mut out, header.numFaces);
    push_u16_le(&mut out, header.numLodOffsets);
    push_u16_le(&mut out, header.numBones);
    push_u32_le(&mut out, header.sizeof_boneNameBuffer);
    push_u16_le(&mut out, header.numSubsets);
    out.push(header.numHighQualityLODs);
    out.push(header.unusedPadding);
    push_u32_le(&mut out, header.facsDataFormat);
    push_u32_le(&mut out, header.facsDataSize);
    push_vertex_block(&mut out, &mesh.vertices);
    push_face_block(&mut out, &mesh.faces);
    push_u32_le(&mut out, 0);
    proof {
        assert(out@ =~= spec_write_v5(mesh.vertices@, mesh.faces@));
    }
    Ok(out)
}

} // verus!
