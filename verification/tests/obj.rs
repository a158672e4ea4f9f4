use meshconv::convert::{convert_filemesh_to_obj, convert_obj_to_filemesh, RobloxMeshVersion};
use meshconv::error::ConversionError;
use meshconv::filemesh::{mesh_to_obj_bytes, parse_filemesh};
use meshconv::importer::{obj_to_intermediate, submeshes_to_mesh, ObjSubMesh};
use meshconv::mesh_types::{FileMeshFace, IntermediateMesh, IntermediateVertex};
use meshconv::place::{font_enum_from_text_size, font_size_name_from_value, is_binary_rbxl,
    normalize_font_size_value};

fn vert(p: [f32; 3], n: [f32; 3], uv: [f32; 2]) -> IntermediateVertex {
    IntermediateVertex {
        px: p[0].to_bits(),
        py: p[1].to_bits(),
        pz: p[2].to_bits(),
        nx: n[0].to_bits(),
        ny: n[1].to_bits(),
        nz: n[2].to_bits(),
        tu: uv[0].to_bits(),
        tv: uv[1].to_bits(),
    }
}

fn close(a: u32, b: f32) -> bool {
    (f32::from_bits(a) - b).abs() < 1e-5
}

#[test]
fn obj_round_trip_preserves_geometry() {
    let mesh = IntermediateMesh {
        vertices: vec![
            vert([1.0, 2.0, 3.0], [0.0, 1.0, 0.0], [0.25, 0.125]),
            vert([-1.5, 0.5, 2.0], [1.0, 0.0, 0.0], [0.5, 0.75]),
            vert([0.0, -2.0, 4.5], [0.0, 0.0, 1.0], [0.875, 1.0]),
        ],
        faces: vec![FileMeshFace { a: 0, b: 1, c: 2 }],
    };
    let text = mesh_to_obj_bytes(&mesh).unwrap();
    let back = obj_to_intermediate(&text).unwrap();
    assert_eq!(back.vertices.len(), mesh.vertices.len());
    assert_eq!(back.faces.len(), mesh.faces.len());
    for (a, b) in mesh.vertices.iter().zip(back.vertices.iter()) {
        assert!(close(b.px, f32::from_bits(a.px)));
        assert!(close(b.py, f32::from_bits(a.py)));
        assert!(close(b.pz, f32::from_bits(a.pz)));
        assert!(close(b.nx, f32::from_bits(a.nx)));
        assert!(close(b.ny, f32::from_bits(a.ny)));
        assert!(close(b.nz, f32::from_bits(a.nz)));
        assert!(close(b.tu, f32::from_bits(a.tu)));
        assert!(close(b.tv, f32::from_bits(a.tv)));
    }
    assert_eq!(back.faces[0], FileMeshFace { a: 0, b: 1, c: 2 });
}

#[test]
fn obj_groups_are_not_deduplicated_across_each_other() {
    let text = b"v 0 0 0\nv 1 0 0\nv 0 1 0\nvt 0 0\nvn 0 0 1\ng a\nf 1/1/1 2/1/1 3/1/1\ng b\nf 1/1/1 2/1/1 3/1/1\n";
    let mesh = obj_to_intermediate(text).unwrap();
    assert_eq!(mesh.faces.len(), 2);
    assert_eq!(mesh.vertices.len(), 6);
    for k in 0..3 {
        assert_eq!(mesh.vertices[k].px, mesh.vertices[k + 3].px);
        assert_eq!(mesh.vertices[k].py, mesh.vertices[k + 3].py);
        assert_eq!(mesh.vertices[k].pz, mesh.vertices[k + 3].pz);
    }
    assert_eq!(mesh.faces[0], FileMeshFace { a: 0, b: 1, c: 2 });
    assert_eq!(mesh.faces[1], FileMeshFace { a: 3, b: 4, c: 5 });
}

#[test]
fn obj_vertices_are_deduplicated_within_a_group() {
    let text = b"v 0 0 0\nv 1 0 0\nv 0 1 0\nv 1 1 0\nf 1 2 3\nf 2 3 4\n";
    let mesh = obj_to_intermediate(text).unwrap();
    assert_eq!(mesh.vertices.len(), 4);
    assert_eq!(mesh.faces.len(), 2);
    assert_eq!(mesh.faces[0], FileMeshFace { a: 0, b: 1, c: 2 });
    assert_eq!(mesh.faces[1], FileMeshFace { a: 1, b: 2, c: 3 });
}

#[test]
fn obj_missing_normals_default_to_up() {
    let text = b"v 0 0 0\nv 1 0 0\nv 0 1 0\nf 1 2 3\n";
    let mesh = obj_to_intermediate(text).unwrap();
    let v = &mesh.vertices[0];
    assert_eq!(f32::from_bits(v.nx), 0.0);
    assert_eq!(f32::from_bits(v.ny), 1.0);
    assert_eq!(f32::from_bits(v.nz), 0.0);
    assert_eq!(f32::from_bits(v.tu), 0.0);
    assert_eq!(f32::from_bits(v.tv), 1.0);
}

#[test]
fn obj_v_component_is_flipped_on_import() {
    let text = b"v 0 0 0\nv 1 0 0\nv 0 1 0\nvt 0.25 0.25\nvn 0 0 1\nf 1/1/1 2/1/1 3/1/1\n";
    let mesh = obj_to_intermediate(text).unwrap();
    assert_eq!(f32::from_bits(mesh.vertices[0].tu), 0.25);
    assert_eq!(f32::from_bits(mesh.vertices[0].tv), 0.75);
}

#[test]
fn obj_without_mesh_data_is_rejected() {
    let text = b"# nothing here\n";
    assert_eq!(
        obj_to_intermediate(text).unwrap_err(),
        ConversionError::NoMeshData
    );
}

#[test]
fn submeshes_merge_without_sharing_slots() {
    let sub = |x: f32| ObjSubMesh {
        positions: vec![
            x.to_bits(),
            0f32.to_bits(),
            0f32.to_bits(),
            x.to_bits(),
            1f32.to_bits(),
            0f32.to_bits(),
            x.to_bits(),
            0f32.to_bits(),
            1f32.to_bits(),
        ],
        normals: vec![],
        texcoords: vec![],
        indices: vec![0, 1, 2, 0, 1, 2],
    };
    let subs = vec![sub(1.0), sub(2.0)];
    let mesh = submeshes_to_mesh(&subs).unwrap();
    assert_eq!(mesh.vertices.len(), 6);
    assert_eq!(mesh.faces.len(), 4);
    assert_eq!(mesh.faces[1], FileMeshFace { a: 0, b: 1, c: 2 });
    assert_eq!(mesh.faces[2], FileMeshFace { a: 3, b: 4, c: 5 });
    assert_eq!(f32::from_bits(mesh.vertices[0].px), 1.0);
    assert_eq!(f32::from_bits(mesh.vertices[3].px), 2.0);
}

#[test]
fn submeshes_with_no_indices_are_rejected() {
    let subs = vec![ObjSubMesh {
        positions: vec![0, 0, 0],
        normals: vec![],
        texcoords: vec![],
        indices: vec![],
    }];
    assert_eq!(submeshes_to_mesh(&subs).unwrap_err(), ConversionError::NoMeshData);
    let none: Vec<ObjSubMesh> = vec![];
    assert_eq!(submeshes_to_mesh(&none).unwrap_err(), ConversionError::NoMeshData);
}

#[test]
fn submeshes_with_short_positions_are_rejected() {
    let subs = vec![ObjSubMesh {
        positions: vec![0, 0, 0],
        normals: vec![],
        texcoords: vec![],
        indices: vec![0, 1, 2],
    }];
    assert_eq!(submeshes_to_mesh(&subs).unwrap_err(), ConversionError::ObjParse);
}

#[test]
fn convert_obj_to_v2_and_back() {
    let text = b"v 1 2 3\nv 4 5 6\nv 7 8 9\nvn 0 1 0\nvt 0.5 0.5\nf 1/1/1 2/1/1 3/1/1\n";
    let bytes = convert_obj_to_filemesh(text, RobloxMeshVersion::V2_00).unwrap();
    let mesh = parse_filemesh(&bytes).unwrap();
    assert_eq!(mesh.vertices.len(), 3);
    assert_eq!(mesh.faces.len(), 1);
    assert_eq!(f32::from_bits(mesh.vertices[1].px), 4.0);
}

#[test]
fn convert_filemesh_to_obj_matches_direct_path() {
    let mesh = IntermediateMesh {
        vertices: vec![vert([1.0, 0.0, 0.0], [0.0, 1.0, 0.0], [0.0, 0.0])],
        faces: vec![FileMeshFace { a: 0, b: 0, c: 0 }],
    };
    let bytes = meshconv::ser::write_v3(&mesh).unwrap();
    let direct = meshconv::filemesh::filemesh_to_obj_bytes(&bytes).unwrap();
    assert_eq!(convert_filemesh_to_obj(&bytes).unwrap(), direct);
}

#[test]
fn binary_place_magic_is_detected() {
    let magic: [u8; 16] = [
        0x3C, 0x72, 0x6F, 0x62, 0x6C, 0x6F, 0x78, 0x21, 0x89, 0xFF, 0x0D, 0x0A, 0x1A, 0x0A, 0x00,
        0x00,
    ];
    let mut buf = magic.to_vec();
    buf.extend_from_slice(b"rest");
    assert!(is_binary_rbxl(&buf));
    assert!(!is_binary_rbxl(b"<roblox xml"));
    assert!(!is_binary_rbxl(&magic[..12]));
}

#[test]
fn font_size_helpers_match_legacy_tables() {
    assert_eq!(font_size_name_from_value(7), "Size24");
    assert_eq!(font_size_name_from_value(0), "Size8");
    assert_eq!(font_size_name_from_value(99), "Unknown");
    assert_eq!(normalize_font_size_value(12), 9);
    assert_eq!(normalize_font_size_value(5), 5);
    assert_eq!(font_enum_from_text_size(13), 4);
    assert_eq!(font_enum_from_text_size(100), 9);
    assert_eq!(font_enum_from_text_size(8), 0);
    assert_eq!(font_enum_from_text_size(-50), 0);
}
