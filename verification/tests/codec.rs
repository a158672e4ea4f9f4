use meshconv::error::ConversionError;
use meshconv::filemesh::{filemesh_to_obj_bytes, mesh_to_obj_bytes, parse_filemesh};
use meshconv::mesh_types::{FileMeshFace, IntermediateMesh, IntermediateVertex};
use meshconv::ser::{write_v1, write_v2, write_v3, write_v4, write_v5, V1Version};

fn vert(p: [f32; 3], n: [f32; 3], uv: [f32; 2]) -> IntermediateVertex {
    IntermediateVertex {
        px: p[0].to_bits(),
        py: p[1].to_bits(),
        pz: p[2].to_bits(),
        nx: n[0].to_bits(),
        ny: n[1].to_bits(),
        nz: n[2].to_bits(),
        tu: uv[0].to_bits(),
        tv: uv[1].to_bits(),
    }
}

fn sample_mesh() -> IntermediateMesh {
    IntermediateMesh {
        vertices: vec![
            vert([1.0, 2.0, 3.0], [0.0, 1.0, 0.0], [0.25, 0.25]),
            vert([-1.5, 0.5, 2.0], [1.0, 0.0, 0.0], [0.5, 0.125]),
            vert([0.0, -2.0, 4.5], [0.0, 0.0, 1.0], [0.75, 1.0]),
        ],
        faces: vec![FileMeshFace { a: 0, b: 1, c: 2 }],
    }
}

fn push_f32(out: &mut Vec<u8>, v: f32) {
    out.extend_from_slice(&v.to_bits().to_le_bytes());
}

fn push_vertex_rec(out: &mut Vec<u8>, p: [f32; 3], n: [f32; 3], uv: [f32; 2], color: bool) {
    push_f32(out, p[0]);
    push_f32(out, p[1]);
    push_f32(out, p[2]);
    push_f32(out, n[0]);
    push_f32(out, n[1]);
    push_f32(out, n[2]);
    push_f32(out, uv[0]);
    push_f32(out, uv[1]);
    out.extend_from_slice(&[0, 0, 0x81, 0x7F]);
    if color {
        out.extend_from_slice(&[255, 255, 255, 255]);
    }
}

fn push_face(out: &mut Vec<u8>, f: [u32; 3]) {
    out.extend_from_slice(&f[0].to_le_bytes());
    out.extend_from_slice(&f[1].to_le_bytes());
    out.extend_from_slice(&f[2].to_le_bytes());
}

fn v2_buffer(vertex_stride: u8, face_stride: u8) -> Vec<u8> {
    let mut out = b"version 2.00\n".to_vec();
    out.extend_from_slice(&12u16.to_le_bytes());
    out.push(vertex_stride);
    out.push(face_stride);
    out.extend_from_slice(&1u32.to_le_bytes());
    out.extend_from_slice(&1u32.to_le_bytes());
    push_vertex_rec(&mut out, [1.0, 2.0, 3.0], [0.0, 1.0, 0.0], [0.25, 0.25], vertex_stride == 40);
    push_face(&mut out, [0, 0, 0]);
    out
}

#[test]
fn unknown_version_is_rejected() {
    let data = b"version 9.99\nwhatever".to_vec();
    assert_eq!(parse_filemesh(&data), Err(ConversionError::UnsupportedVersion));
}

#[test]
fn unknown_version_ignores_body() {
    let mut data = b"version 2.50\n".to_vec();
    data.extend_from_slice(&v2_buffer(40, 12)[13..]);
    assert_eq!(parse_filemesh(&data), Err(ConversionError::UnsupportedVersion));
}

#[test]
fn missing_newline_is_malformed_header() {
    let data = b"version 2.00".to_vec();
    assert_eq!(parse_filemesh(&data), Err(ConversionError::MalformedHeader));
}

#[test]
fn header_tolerates_carriage_return_and_spaces() {
    let mut data = b" version 2.00 \r\n".to_vec();
    data.extend_from_slice(&v2_buffer(40, 12)[13..]);
    let mesh = parse_filemesh(&data).unwrap();
    assert_eq!(mesh.vertices.len(), 1);
    assert_eq!(mesh.faces.len(), 1);
}

#[test]
fn v2_decodes_colored_vertices() {
    let mesh = parse_filemesh(&v2_buffer(40, 12)).unwrap();
    assert_eq!(mesh.vertices.len(), 1);
    let v = &mesh.vertices[0];
    assert_eq!(f32::from_bits(v.px), 1.0);
    assert_eq!(f32::from_bits(v.py), 2.0);
    assert_eq!(f32::from_bits(v.pz), 3.0);
    assert_eq!(f32::from_bits(v.ny), 1.0);
    assert_eq!(f32::from_bits(v.tu), 0.25);
    assert_eq!(f32::from_bits(v.tv), 0.75);
    assert_eq!(mesh.faces[0], FileMeshFace { a: 0, b: 0, c: 0 });
}

#[test]
fn v2_decodes_plain_vertices() {
    let mesh = parse_filemesh(&v2_buffer(36, 12)).unwrap();
    assert_eq!(mesh.vertices.len(), 1);
    assert_eq!(f32::from_bits(mesh.vertices[0].pz), 3.0);
}

#[test]
fn v2_bad_face_stride_is_malformed() {
    assert_eq!(parse_filemesh(&v2_buffer(40, 13)), Err(ConversionError::MalformedBody));
}

#[test]
fn v2_bad_vertex_stride_is_malformed() {
    assert_eq!(parse_filemesh(&v2_buffer(20, 12)), Err(ConversionError::MalformedBody));
}

#[test]
fn v2_truncated_is_truncated_input() {
    let buf = v2_buffer(40, 12);
    let cut = &buf[..buf.len() - 5];
    assert_eq!(parse_filemesh(cut), Err(ConversionError::TruncatedInput));
}

#[test]
fn v2_out_of_range_face_index_is_malformed() {
    let mut out = b"version 2.00\n".to_vec();
    out.extend_from_slice(&12u16.to_le_bytes());
    out.push(40);
    out.push(12);
    out.extend_from_slice(&1u32.to_le_bytes());
    out.extend_from_slice(&1u32.to_le_bytes());
    push_vertex_rec(&mut out, [0.0; 3], [0.0; 3], [0.0; 2], true);
    push_face(&mut out, [0, 1, 0]);
    assert_eq!(parse_filemesh(&out), Err(ConversionError::MalformedBody));
}

#[test]
fn v2_round_trip_flips_v_only() {
    let mesh = sample_mesh();
    let bytes = write_v2(&mesh).unwrap();
    let back = parse_filemesh(&bytes).unwrap();
    assert_eq!(back.vertices.len(), 3);
    assert_eq!(back.faces, mesh.faces);
    for (a, b) in mesh.vertices.iter().zip(back.vertices.iter()) {
        assert_eq!(a.px, b.px);
        assert_eq!(a.py, b.py);
        assert_eq!(a.pz, b.pz);
        assert_eq!(a.nx, b.nx);
        assert_eq!(a.ny, b.ny);
        assert_eq!(a.nz, b.nz);
        assert_eq!(a.tu, b.tu);
        assert_eq!(f32::from_bits(b.tv), 1.0 - f32::from_bits(a.tv));
    }
    // the V components themselves do not survive the round trip
    assert_ne!(mesh.vertices[0].tv, back.vertices[0].tv);
}

#[test]
fn v3_lod_offsets_keep_first_segment_only() {
    let mut out = b"version 3.00\n".to_vec();
    out.extend_from_slice(&16u16.to_le_bytes());
    out.push(40);
    out.push(12);
    out.extend_from_slice(&4u16.to_le_bytes());
    out.extend_from_slice(&3u16.to_le_bytes());
    out.extend_from_slice(&3u32.to_le_bytes());
    out.extend_from_slice(&5u32.to_le_bytes());
    for _ in 0..3 {
        push_vertex_rec(&mut out, [0.0; 3], [0.0; 3], [0.0; 2], true);
    }
    for _ in 0..5 {
        push_face(&mut out, [0, 1, 2]);
    }
    out.extend_from_slice(&0u32.to_le_bytes());
    out.extend_from_slice(&2u32.to_le_bytes());
    out.extend_from_slice(&5u32.to_le_bytes());
    let mesh = parse_filemesh(&out).unwrap();
    assert_eq!(mesh.faces.len(), 2);
    assert_eq!(mesh.vertices.len(), 3);
}

#[test]
fn v3_wrong_vertex_stride_is_malformed() {
    let mut out = b"version 3.00\n".to_vec();
    out.extend_from_slice(&16u16.to_le_bytes());
    out.push(36);
    out.push(12);
    out.extend_from_slice(&4u16.to_le_bytes());
    out.extend_from_slice(&0u16.to_le_bytes());
    out.extend_from_slice(&0u32.to_le_bytes());
    out.extend_from_slice(&0u32.to_le_bytes());
    assert_eq!(parse_filemesh(&out), Err(ConversionError::MalformedBody));
}

fn v4_buffer(bones: u16, bone_names: u32, subsets: u16, stride: usize) -> Vec<u8> {
    let mut out = b"version 4.00\n".to_vec();
    out.extend_from_slice(&24u16.to_le_bytes());
    out.extend_from_slice(&0u16.to_le_bytes());
    out.extend_from_slice(&2u32.to_le_bytes());
    out.extend_from_slice(&1u32.to_le_bytes());
    out.extend_from_slice(&0u16.to_le_bytes());
    out.extend_from_slice(&bones.to_le_bytes());
    out.extend_from_slice(&bone_names.to_le_bytes());
    out.extend_from_slice(&subsets.to_le_bytes());
    out.push(1);
    out.push(0);
    for _ in 0..2 {
        push_vertex_rec(&mut out, [1.0, 0.0, 0.0], [0.0, 1.0, 0.0], [0.0, 0.0], stride == 40);
    }
    push_face(&mut out, [0, 1, 0]);
    out
}

#[test]
fn v4_bones_are_unsupported() {
    assert_eq!(parse_filemesh(&v4_buffer(1, 0, 0, 40)), Err(ConversionError::UnsupportedFeature));
}

#[test]
fn v4_bone_names_are_unsupported() {
    assert_eq!(parse_filemesh(&v4_buffer(0, 7, 0, 40)), Err(ConversionError::UnsupportedFeature));
}

#[test]
fn v4_subsets_are_unsupported() {
    assert_eq!(parse_filemesh(&v4_buffer(0, 0, 2, 40)), Err(ConversionError::UnsupportedFeature));
}

#[test]
fn v4_infers_both_strides() {
    let mesh = parse_filemesh(&v4_buffer(0, 0, 0, 40)).unwrap();
    assert_eq!(mesh.vertices.len(), 2);
    assert_eq!(f32::from_bits(mesh.vertices[0].px), 1.0);
    let mesh36 = parse_filemesh(&v4_buffer(0, 0, 0, 36)).unwrap();
    assert_eq!(mesh36.vertices.len(), 2);
    assert_eq!(f32::from_bits(mesh36.vertices[1].ny), 1.0);
}

#[test]
fn v5_facs_data_is_unsupported() {
    let mut out = b"version 5.00\n".to_vec();
    out.extend_from_slice(&32u16.to_le_bytes());
    out.extend_from_slice(&0u16.to_le_bytes());
    out.extend_from_slice(&0u32.to_le_bytes());
    out.extend_from_slice(&0u32.to_le_bytes());
    out.extend_from_slice(&0u16.to_le_bytes());
    out.extend_from_slice(&0u16.to_le_bytes());
    out.extend_from_slice(&0u32.to_le_bytes());
    out.extend_from_slice(&0u16.to_le_bytes());
    out.push(0);
    out.push(0);
    out.extend_from_slice(&1u32.to_le_bytes());
    out.extend_from_slice(&16u32.to_le_bytes());
    assert_eq!(parse_filemesh(&out), Err(ConversionError::UnsupportedFeature));
}

#[test]
fn v5_round_trip_preserves_structure() {
    let mesh = sample_mesh();
    let bytes = write_v5(&mesh).unwrap();
    let back = parse_filemesh(&bytes).unwrap();
    assert_eq!(back.vertices.len(), 3);
    assert_eq!(back.faces, mesh.faces);
}

#[test]
fn v3_and_v4_round_trips_preserve_structure() {
    let mesh = sample_mesh();
    let back3 = parse_filemesh(&write_v3(&mesh).unwrap()).unwrap();
    assert_eq!(back3.faces, mesh.faces);
    assert_eq!(back3.vertices.len(), 3);
    let back4 = parse_filemesh(&write_v4(&mesh).unwrap()).unwrap();
    assert_eq!(back4.faces, mesh.faces);
    assert_eq!(back4.vertices.len(), 3);
}

#[test]
fn write_v1_emits_exact_text() {
    let mesh = IntermediateMesh {
        vertices: vec![vert([1.0, 2.0, 3.0], [0.0, 1.0, 0.0], [0.25, 0.25])],
        faces: vec![FileMeshFace { a: 0, b: 0, c: 0 }],
    };
    let corner01 = "[1.000000,2.000000,3.000000][0.000000,1.000000,0.000000][0.250000,0.250000,0.000000]";
    let expected01 = format!("version 1.01\n1\n{}{}{}", corner01, corner01, corner01);
    assert_eq!(write_v1(&mesh, V1Version::V1_01).unwrap(), expected01.into_bytes());
    let corner00 = "[2.000000,4.000000,6.000000][0.000000,1.000000,0.000000][0.250000,0.250000,0.000000]";
    let expected00 = format!("version 1.00\n1\n{}{}{}", corner00, corner00, corner00);
    assert_eq!(write_v1(&mesh, V1Version::V1_00).unwrap(), expected00.into_bytes());
}

#[test]
fn v1_versions_scale_positions_differently_on_parse() {
    let body = "1\n[2,4,8][0,1,0][0,0,0][2,4,8][0,1,0][0,0,0][2,4,8][0,1,0][0,0,0]";
    let m100 = parse_filemesh(format!("version 1.00\n{}", body).as_bytes()).unwrap();
    let m101 = parse_filemesh(format!("version 1.01\n{}", body).as_bytes()).unwrap();
    assert_eq!(f32::from_bits(m100.vertices[0].px), 1.0);
    assert_eq!(f32::from_bits(m100.vertices[0].py), 2.0);
    assert_eq!(f32::from_bits(m100.vertices[0].pz), 4.0);
    assert_eq!(f32::from_bits(m101.vertices[0].px), 2.0);
    assert_eq!(f32::from_bits(m101.vertices[0].py), 4.0);
    assert_eq!(f32::from_bits(m101.vertices[0].pz), 8.0);
    assert_eq!(m100.faces[0], FileMeshFace { a: 0, b: 1, c: 2 });
}

#[test]
fn v1_flips_v_and_keeps_u() {
    let body = "1\n[1,1,1][0,1,0][0.25,0.25,0][1,1,1][0,1,0][0.25,0.25,0][1,1,1][0,1,0][0.25,0.25,0]";
    let mesh = parse_filemesh(format!("version 1.01\n{}", body).as_bytes()).unwrap();
    assert_eq!(f32::from_bits(mesh.vertices[0].tu), 0.25);
    assert_eq!(f32::from_bits(mesh.vertices[0].tv), 0.75);
}

#[test]
fn v1_missing_bracket_is_malformed() {
    let data = b"version 1.01\n1\n[1,1,1][0,1,0][0.25,0.25,0[1,1,1][0,1,0][0.25,0.25,0][1,1,1][0,1,0][0.25,0.25,0]".to_vec();
    assert_eq!(parse_filemesh(&data), Err(ConversionError::MalformedBody));
}

#[test]
fn v1_bad_float_is_malformed() {
    let data = b"version 1.01\n1\n[1,x,1][0,1,0][0,0,0][1,1,1][0,1,0][0,0,0][1,1,1][0,1,0][0,0,0]".to_vec();
    assert_eq!(parse_filemesh(&data), Err(ConversionError::MalformedBody));
}

#[test]
fn v1_wrong_component_count_is_malformed() {
    let data = b"version 1.01\n1\n[1,1][0,1,0][0,0,0][1,1,1][0,1,0][0,0,0][1,1,1][0,1,0][0,0,0]".to_vec();
    assert_eq!(parse_filemesh(&data), Err(ConversionError::MalformedBody));
}

#[test]
fn v1_wrong_vector_count_is_malformed() {
    let data = b"version 1.01\n2\n[1,1,1][0,1,0][0,0,0][1,1,1][0,1,0][0,0,0][1,1,1][0,1,0][0,0,0]".to_vec();
    assert_eq!(parse_filemesh(&data), Err(ConversionError::MalformedBody));
}

#[test]
fn v1_bad_face_count_is_malformed() {
    let data = b"version 1.00\nxyz\n[1,1,1]".to_vec();
    assert_eq!(parse_filemesh(&data), Err(ConversionError::MalformedBody));
}

#[test]
fn v1_missing_data_line_is_malformed() {
    let data = b"version 1.00\n0\n".to_vec();
    assert_eq!(parse_filemesh(&data), Err(ConversionError::MalformedBody));
}

#[test]
fn v1_zero_faces_with_empty_line_is_ok() {
    let data = b"version 1.00\n0\n\n".to_vec();
    let mesh = parse_filemesh(&data).unwrap();
    assert_eq!(mesh.vertices.len(), 0);
    assert_eq!(mesh.faces.len(), 0);
}

#[test]
fn obj_export_emits_exact_text() {
    let mesh = IntermediateMesh {
        vertices: vec![vert([1.0, 2.0, 3.0], [0.0, 1.0, 0.0], [0.25, 0.25])],
        faces: vec![FileMeshFace { a: 0, b: 0, c: 0 }],
    };
    let expected = "v 1.000000 2.000000 3.000000\nvt 0.250000 0.750000\nvn 0.000000 1.000000 0.000000\nf 1/1/1 1/1/1 1/1/1\n";
    assert_eq!(mesh_to_obj_bytes(&mesh).unwrap(), expected.as_bytes().to_vec());
}

#[test]
fn filemesh_to_obj_converts_v2_in_one_step() {
    let obj = filemesh_to_obj_bytes(&v2_buffer(40, 12)).unwrap();
    let text = String::from_utf8(obj).unwrap();
    assert!(text.starts_with("v 1.000000 2.000000 3.000000\n"));
    // V was flipped on decode and flipped again on export
    assert!(text.contains("vt 0.250000 0.250000\n"));
    assert!(text.contains("f 1/1/1 1/1/1 1/1/1\n"));
}

#[test]
fn filemesh_to_obj_propagates_errors() {
    assert_eq!(filemesh_to_obj_bytes(b"version 7.00\nx"), Err(ConversionError::UnsupportedVersion));
}

#[test]
fn write_v2_emits_exact_bytes() {
    let mesh = IntermediateMesh {
        vertices: vec![vert([1.0, 2.0, 3.0], [0.0, 1.0, 0.0], [0.25, 0.25])],
        faces: vec![FileMeshFace { a: 0, b: 0, c: 0 }],
    };
    assert_eq!(write_v2(&mesh).unwrap(), v2_buffer(40, 12));
}

#[test]
fn v4_lod_offsets_truncate_faces() {
    let mut out = b"version 4.00\n".to_vec();
    out.extend_from_slice(&24u16.to_le_bytes());
    out.extend_from_slice(&0u16.to_le_bytes());
    out.extend_from_slice(&3u32.to_le_bytes());
    out.extend_from_slice(&2u32.to_le_bytes());
    out.extend_from_slice(&2u16.to_le_bytes());
    out.extend_from_slice(&0u16.to_le_bytes());
    out.extend_from_slice(&0u32.to_le_bytes());
    out.extend_from_slice(&0u16.to_le_bytes());
    out.push(1);
    out.push(0);
    for _ in 0..3 {
        push_vertex_rec(&mut out, [0.0; 3], [0.0; 3], [0.0; 2], true);
    }
    push_face(&mut out, [0, 1, 2]);
    push_face(&mut out, [2, 1, 0]);
    out.extend_from_slice(&0u32.to_le_bytes());
    out.extend_from_slice(&1u32.to_le_bytes());
    let mesh = parse_filemesh(&out).unwrap();
    assert_eq!(mesh.faces.len(), 1);
    assert_eq!(mesh.faces[0], FileMeshFace { a: 0, b: 1, c: 2 });
}

#[test]
fn empty_mesh_round_trips_through_v2() {
    let mesh = IntermediateMesh { vertices: vec![], faces: vec![] };
    let bytes = write_v2(&mesh).unwrap();
    let back = parse_filemesh(&bytes).unwrap();
    assert_eq!(back.vertices.len(), 0);
    assert_eq!(back.faces.len(), 0);
}

#[test]
fn v2_trailing_bytes_are_ignored() {
    let mut buf = v2_buffer(40, 12);
    buf.extend_from_slice(b"junk");
    let mesh = parse_filemesh(&buf).unwrap();
    assert_eq!(mesh.vertices.len(), 1);
}
