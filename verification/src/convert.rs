//! The two byte-to-byte conversions: polygon text to a chosen mesh file
//! version, and a mesh file to polygon text.

use crate::error::ConversionError;
use crate::filemesh::{filemesh_to_obj_bytes, spec_obj_text, spec_parse_filemesh};
use crate::importer::{all_subs_ok, import_all, obj_to_intermediate, ObjSubMeshV};
use crate::ser::{spec_write_v1, spec_write_v2, spec_write_v3, spec_write_v4, spec_write_v5,
    write_v1, write_v2, write_v3, write_v4, write_v5, V1Version};
use vstd::prelude::*;

verus! {

/// The file versions a mesh can be encoded to.
#[allow(non_camel_case_types)]
#[derive(Debug, Clone, Copy, PartialEq, Eq, Structural)]
pub enum RobloxMeshVersion {
    V1_00,
    V1_01,
    V2_00,
    V3_00,
    V4_00,
    V5_00,
}

/// The bytes a mesh encodes to under each target version.
pub open spec fn spec_write_version(
    vs: Seq<crate::mesh_types::IntermediateVertex>,
    fs: Seq<crate::mesh_types::FileMeshFace>,
    version: RobloxMeshVersion,
) -> Seq<u8> {
    match version {
        RobloxMeshVersion::V1_00 => spec_write_v1(vs, fs, true),
        RobloxMeshVersion::V1_01 => spec_write_v1(vs, fs, false),
        RobloxMeshVersion::V2_00 => spec_write_v2(vs, fs),
        RobloxMeshVersion::V3_00 => spec_write_v3(vs, fs),
        RobloxMeshVersion::V4_00 => spec_write_v4(vs, fs),
        RobloxMeshVersion::V5_00 => spec_write_v5(vs, fs),
    }
}

/// Imports polygon text and encodes the merged mesh to the requested
/// version: the output is the encoding of the functional merge of the
/// sub-meshes the external reader produced.
pub fn convert_obj_to_filemesh(obj_data: &[u8], version: RobloxMeshVersion) -> (r: Result<
    Vec<u8>,
    ConversionError,
>)
    ensures
        r matches Ok(out) ==> exists|svs: Seq<ObjSubMeshV>|
            svs.len() > 0 && all_subs_ok(svs) && out@ == spec_write_version(
                import_all(svs, svs.len() as int).0,
                import_all(svs, svs.len() as int).1,
                version,
            ),
        r matches Err(e) ==> (e == ConversionError::ObjParse || e == ConversionError::NoMeshData),
{
    let mesh = match obj_to_intermediate(obj_data) {
        Ok(m) => m,
        Err(e) => {
            return Err(e);
        },
    };
    let out = match version {
        RobloxMeshVersion::V1_00 => write_v1(&mesh, V1Version::V1_00),
        RobloxMeshVersion::V1_01 => write_v1(&mesh, V1Version::V1_01),
        RobloxMeshVersion::V2_00 => write_v2(&mesh),
        RobloxMeshVersion::V3_00 => write_v3(&mesh),
        RobloxMeshVersion::V4_00 => write_v4(&mesh),
        RobloxMeshVersion::V5_00 => write_v5(&mesh),
    };
    match out {
        Ok(bytes) => {
            proof {
                let svs = choose|svs: Seq<ObjSubMeshV>|
                    svs.len() > 0 && all_subs_ok(svs) && (mesh.vertices@, mesh.faces@)
                        == import_all(svs, svs.len() as int);
                assert(bytes@ == spec_write_version(
                    import_all(svs, svs.len() as int).0,
                    import_all(svs, svs.len() as int).1,
                    version,
                ));
            }
            Ok(bytes)
        },
        Err(e) => Err(e),
    }
}

/// Decodes a mesh file and emits it as polygon text.
pub fn convert_filemesh_to_obj(filemesh_data: &[u8]) -> (r: Result<Vec<u8>, ConversionError>)
    ensures
        ({
            match spec_parse_filemesh(filemesh_data@) {
                Ok(dm) => r matches Ok(out) && out@ == spec_obj_text(dm.0, dm.1),
                Err(e) => r matches Err(e2) && e2 == e,
            }
        }),
{
    filemesh_to_obj_bytes(filemesh_data)
}

} // verus!
