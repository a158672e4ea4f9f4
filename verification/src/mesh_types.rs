#![allow(non_snake_case)]

use vstd::prelude::*;

verus! {

/// One vertex of the intermediate mesh: a position, a normal and a texture
/// coordinate, each component held as the bit pattern of an IEEE754
/// single-precision value.
#[derive(Debug, Clone, Copy, PartialEq, Eq, Structural)]
pub struct IntermediateVertex {
    pub px: u32,
    pub py: u32,
    pub pz: u32,
    pub nx: u32,
    pub ny: u32,
    pub nz: u32,
    pub tu: u32,
    pub tv: u32,
}

/// A triangle: three indices into a mesh's vertex sequence.
#[derive(Debug, Clone, Copy, PartialEq, Eq, Structural)]
pub struct FileMeshFace {
    pub a: u32,
    pub b: u32,
    pub c: u32,
}

/// True when every index of every face in `faces` points below `n`.
pub open spec fn faces_in_bounds(faces: Seq<FileMeshFace>, n: int) -> bool {
    forall|i: int|
        0 <= i < faces.len() ==> (#[trigger] faces[i]).a < n && faces[i].b < n && faces[i].c < n
}

/// The intermediate mesh: the single in-memory representation that every
/// decoder produces and every encoder consumes.
#[derive(Debug, PartialEq, Eq)]
pub struct IntermediateMesh {
    pub vertices: Vec<IntermediateVertex>,
    pub faces: Vec<FileMeshFace>,
}

impl IntermediateMesh {
    /// Every face index is a valid slot in the vertex sequence.
    pub open spec fn wf(self) -> bool {
        faces_in_bounds(self.faces@, self.vertices@.len() as int)
    }
}

/// The on-disk vertex record layout that includes the trailing color block:
/// eight single-precision components, four signed tangent bytes, four color
/// bytes. 40 bytes in all.
#[derive(Debug, Clone, Copy, PartialEq, Eq, Structural)]
pub struct FileMeshVertex {
    pub px: u32,
    pub py: u32,
    pub pz: u32,
    pub nx: u32,
    pub ny: u32,
    pub nz: u32,
    pub tu: u32,
    pub tv: u32,
    pub tx: i8,
    pub ty: i8,
    pub tz: i8,
    pub ts: i8,
    pub r: u8,
    pub g: u8,
    pub b: u8,
    pub a: u8,
}

/// The record that `FileMeshVertex::default` returns: all components zero,
/// a default tangent pointing along -Z with full reflectance sign, and an
/// opaque white color block.
pub open spec fn default_file_vertex() -> FileMeshVertex {
    FileMeshVertex {
        px: 0,
        py: 0,
        pz: 0,
        nx: 0,
        ny: 0,
        nz: 0,
        tu: 0,
        tv: 0,
        tx: 0,
        ty: 0,
        tz: -127i8,
        ts: 127i8,
        r: 255,
        g: 255,
        b: 255,
        a: 255,
    }
}

impl Default for FileMeshVertex {
    fn default() -> (r: Self)
        ensures
            r == default_file_vertex(),
    {
        FileMeshVertex {
            px: 0,
            py: 0,
            pz: 0,
            nx: 0,
            ny: 0,
            nz: 0,
            tu: 0,
            tv: 0,
            tx: 0,
            ty: 0,
            tz: -127,
            ts: 127,
            r: 255,
            g: 255,
            b: 255,
            a: 255,
        }
    }
}

/// The on-disk vertex record layout without the color block. 36 bytes.
#[derive(Debug, Clone, Copy, PartialEq, Eq, Structural)]
pub struct FileMeshVertexNoRgba {
    pub px: u32,
    pub py: u32,
    pub pz: u32,
    pub nx: u32,
    pub ny: u32,
    pub nz: u32,
    pub tu: u32,
    pub tv: u32,
    pub tx: i8,
    pub ty: i8,
    pub tz: i8,
    pub ts: i8,
}

/// The fixed header record of a v2.00 file, 12 bytes on disk.
#[derive(Debug, Clone, Copy, PartialEq, Eq, Structural)]
pub struct FileMeshHeaderV2 {
    pub sizeof_FileMeshHeaderV2: u16,
    pub sizeof_FileMeshVertex: u8,
    pub sizeof_FileMeshFace: u8,
    pub numVerts: u32,
    pub numFaces: u32,
}

/// The fixed header record of a v3.00/v3.01 file, 16 bytes on disk.
#[derive(Debug, Clone, Copy, PartialEq, Eq, Structural)]
pub struct FileMeshHeaderV3 {
    pub sizeof_FileMeshHeaderV3: u16,
    pub sizeof_FileMeshVertex: u8,
    pub sizeof_FileMeshFace: u8,
    pub sizeof_LodOffset: u16,
    pub numLodOffsets: u16,
    pub numVerts: u32,
    pub numFaces: u32,
}

/// The fixed header record of a v4.00/v4.01 file, 24 bytes on disk.
#[derive(Debug, Clone, Copy, PartialEq, Eq, Structural)]
pub struct FileMeshHeaderV4 {
    pub sizeof_FileMeshHeaderV4: u16,
    pub lodType: u16,
    pub numVerts: u32,
    pub numFaces: u32,
    pub numLodOffsets: u16,
    pub numBones: u16,
    pub sizeof_boneNames: u32,
    pub numSubsets: u16,
    pub numHighQualityLODs: u8,
    pub unused: u8,
}

/// The fixed header record of a v5.00 file, 32 bytes on disk.
#[derive(Debug, Clone, Copy, PartialEq, Eq, Structural)]
pub struct FileMeshHeaderV5 {
    pub sizeof_MeshHeader: u16,
    pub lodType: u16,
    pub numVerts: u32,
    pub numFaces: u32,
    pub numLodOffsets: u16,
    pub numBones: u16,
    pub sizeof_boneNameBuffer: u32,
    pub numSubsets: u16,
    pub numHighQualityLODs: u8,
    pub unusedPadding: u8,
    pub facsDataFormat: u32,
    pub facsDataSize: u32,
}

} // verus!
