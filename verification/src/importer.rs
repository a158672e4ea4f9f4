//! The polygon-text importer: parsed sub-meshes in, one merged mesh out.
//!
//! The text itself is read by an external polygon-mesh reader behind
//! trusted wrappers; everything from its output onward — per-sub-mesh
//! vertex deduplication, default normals and texture coordinates, the V
//! flip, and the merge into a single mesh — is verified against the
//! functional model below.

use crate::error::ConversionError;
use crate::fbits::flip_bits;
use crate::fbits::one_minus_f32;
use crate::mesh_types::{faces_in_bounds, FileMeshFace, IntermediateMesh, IntermediateVertex};
use std::collections::HashMap;
use vstd::prelude::*;

verus! {

broadcast use vstd::std_specs::hash::group_hash_axioms;

/// One sub-mesh of parsed polygon text: flattened position, normal and
/// texture-coordinate component bits, and triangulated single-index face
/// indices.
pub struct ObjSubMesh {
    pub positions: Vec<u32>,
    pub normals: Vec<u32>,
    pub texcoords: Vec<u32>,
    pub indices: Vec<u32>,
}

/// The mathematical value of a sub-mesh.
pub struct ObjSubMeshV {
    pub positions: Seq<u32>,
    pub normals: Seq<u32>,
    pub texcoords: Seq<u32>,
    pub indices: Seq<u32>,
}

impl View for ObjSubMesh {
    type V = ObjSubMeshV;

    open spec fn view(&self) -> ObjSubMeshV {
        ObjSubMeshV {
            positions: self.positions@,
            normals: self.normals@,
            texcoords: self.texcoords@,
            indices: self.indices@,
        }
    }
}

#[verifier::external_type_specification]
#[verifier::external_body]
pub struct ExTobjModel(tobj::Model);

/// Relies on tobj::load_obj_buf with triangulation and single indexing
/// enabled and no material files: the buffer's models, or nothing if the
/// reader rejects the text.
#[verifier::external_body]
fn load_obj_models(data: &[u8]) -> (r: Option<Vec<tobj::Model>>) {
    let options = tobj::LoadOptions { triangulate: true, single_index: true, ..Default::default() };
    let mut reader = data;
    match tobj::load_obj_buf(&mut reader, &options, |_p| Ok(Default::default())) {
        Ok((models, _materials)) => Some(models),
        Err(_) => None,
    }
}

/// Relies on the public fields of tobj::Model: every component is carried
/// over as its bit pattern and every index verbatim, one for one.
#[verifier::external_body]
fn submesh_of_model(m: &tobj::Model) -> (r: ObjSubMesh) {
    ObjSubMesh {
        positions: m.mesh.positions.iter().map(|x| x.to_bits()).collect(),
        normals: m.mesh.normals.iter().map(|x| x.to_bits()).collect(),
        texcoords: m.mesh.texcoords.iter().map(|x| x.to_bits()).collect(),
        indices: m.mesh.indices.clone(),
    }
}

/// True when every index referenced by a complete face triple of `sv` has
/// its three position components in range.
pub open spec fn sub_ok(sv: ObjSubMeshV) -> bool {
    forall|t: int|
        0 <= t < 3 * (sv.indices.len() as int / 3) ==> 3 * (#[trigger] sv.indices[t] as int) + 2
            < sv.positions.len()
}

/// The vertex created the first time original index `orig` is referenced:
/// position copied, normal copied if fully present else the +Y default,
/// texture coordinate copied if fully present else zero, with V flipped
/// either way.
pub open spec fn mk_obj_vertex(sv: ObjSubMeshV, orig: int) -> IntermediateVertex {
    IntermediateVertex {
        px: sv.positions[3 * orig],
        py: sv.positions[3 * orig + 1],
        pz: sv.positions[3 * orig + 2],
        nx: if sv.normals.len() > 0 && 3 * orig + 2 < sv.normals.len() {
            sv.normals[3 * orig]
        } else {
            0
        },
        ny: if sv.normals.len() > 0 && 3 * orig + 2 < sv.normals.len() {
            sv.normals[3 * orig + 1]
        } else {
            0x3F800000
        },
        nz: if sv.normals.len() > 0 && 3 * orig + 2 < sv.normals.len() {
            sv.normals[3 * orig + 2]
        } else {
            0
        },
        tu: if sv.texcoords.len() > 0 && 2 * orig + 1 < sv.texcoords.len() {
            sv.texcoords[2 * orig]
        } else {
            0
        },
        tv: flip_bits(
            if sv.texcoords.len() > 0 && 2 * orig + 1 < sv.texcoords.len() {
                sv.texcoords[2 * orig + 1]
            } else {
                0
            },
        ),
    }
}

/// The vertices added and the index mapping built by the first `k`
/// references of one sub-mesh: a fresh slot (offset by `base`) the first
/// time an original index is seen, the recorded slot afterwards.
pub open spec fn sub_state(sv: ObjSubMeshV, k: int, base: int) -> (Seq<IntermediateVertex>, Map<
    u32,
    u32,
>)
    decreases k,
{
    if k <= 0 {
        (Seq::empty(), Map::empty())
    } else {
        let (vs, mp) = sub_state(sv, k - 1, base);
        let orig = sv.indices[k - 1];
        if mp.contains_key(orig) {
            (vs, mp)
        } else {
            (vs.push(mk_obj_vertex(sv, orig as int)), mp.insert(orig, (base + vs.len()) as u32))
        }
    }
}

/// The merged mesh of the first `i` sub-meshes: vertices in
/// first-reference order, faces resolved through each sub-mesh's own
/// mapping. Mappings are never shared across sub-meshes.
pub open spec fn import_all(subs: Seq<ObjSubMeshV>, i: int) -> (Seq<IntermediateVertex>, Seq<
    FileMeshFace,
>)
    decreases i,
{
    if i <= 0 {
        (Seq::empty(), Seq::empty())
    } else {
        let (vs, fs) = import_all(subs, i - 1);
        let sv = subs[i - 1];
        let nf = sv.indices.len() as int / 3;
        let (nvs, mp) = sub_state(sv, 3 * nf, vs.len() as int);
        let newfs = Seq::new(
            nf as nat,
            (|j: int| FileMeshFace {
                a: mp[sv.indices[3 * j]],
                b: mp[sv.indices[3 * j + 1]],
                c: mp[sv.indices[3 * j + 2]],
            }),
        );
        (vs + nvs, fs + newfs)
    }
}

/// Every sub-mesh references positions in range.
pub open spec fn all_subs_ok(subs: Seq<ObjSubMeshV>) -> bool {
    forall|i: int| 0 <= i < subs.len() ==> sub_ok(#[trigger] subs[i])
}

proof fn lemma_sub_state_len_mono(sv: ObjSubMeshV, k1: int, k2: int, base: int)
    requires
        0 <= k1 <= k2,
    ensures
        sub_state(sv, k1, base).0.len() <= sub_state(sv, k2, base).0.len(),
    decreases k2 - k1,
{
    if k1 < k2 {
        lemma_sub_state_len_mono(sv, k1, k2 - 1, base);
    }
}

proof fn lemma_import_len_mono(subs: Seq<ObjSubMeshV>, i1: int, i2: int)
    requires
        0 <= i1 <= i2,
    ensures
        import_all(subs, i1).0.len() <= import_all(subs, i2).0.len(),
        import_all(subs, i1).1.len() <= import_all(subs, i2).1.len(),
    decreases i2 - i1,
{
    if i1 < i2 {
        lemma_import_len_mono(subs, i1, i2 - 1);
    }
}

/// Merges already-parsed sub-meshes into one mesh, deduplicating vertices
/// within each sub-mesh only.
pub fn submeshes_to_mesh(subs: &Vec<ObjSubMesh>) -> (r: Result<IntermediateMesh, ConversionError>)
    ensures
        ({
            let svs = subs@.map_values(|s: ObjSubMesh| s@);
            match r {
                Ok(m) => {
                    &&& svs.len() > 0
                    &&& svs[0].indices.len() > 0
                    &&& all_subs_ok(svs)
                    &&& (m.vertices@, m.faces@) == import_all(svs, svs.len() as int)
                    &&& m.wf()
                    &&& m.vertices@.len() <= u32::MAX
                    &&& m.faces@.len() <= u32::MAX
                },
                Err(e) => {
                    ||| (e == ConversionError::NoMeshData && (svs.len() == 0 || svs[0].indices.len()
                        == 0))
                    ||| (e == ConversionError::ObjParse && svs.len() > 0 && (!all_subs_ok(svs)
                        || import_all(svs, svs.len() as int).0.len() > u32::MAX || import_all(
                        svs,
                        svs.len() as int,
                    ).1.len() > u32::MAX))
                },
            }
        }),
{
    let ghost svs = subs@.map_values(|s: ObjSubMesh| s@);
    let nsubs = subs.len();
    if nsubs == 0 {
        return Err(ConversionError::NoMeshData);
    }
    if subs[0].indices.len() == 0 {
        proof {
            assert(svs[0] == subs@[0]@);
        }
        return Err(ConversionError::NoMeshData);
    }
    let mut verts: Vec<IntermediateVertex> = Vec::new();
    let mut faces: Vec<FileMeshFace> = Vec::new();
    let mut si: usize = 0;
    while si < nsubs
        invariant
            si <= nsubs == subs@.len(),
            svs == subs@.map_values(|s: ObjSubMesh| s@),
            svs.len() == subs@.len(),
            forall|q: int| 0 <= q < si ==> sub_ok(#[trigger] svs[q]),
            (verts@, faces@) == import_all(svs, si as int),
            faces_in_bounds(faces@, verts@.len() as int),
            verts@.len() <= u32::MAX,
            faces@.len() <= u32::MAX,
        decreases nsubs - si,
    {
        let sub = &subs[si];
        proof {
            assert(svs[si as int] == subs@[si as int]@);
        }
        let ghost sv = svs[si as int];
        let ghost base = verts@.len() as int;
        let ghost vs0 = verts@;
        let ghost fs0 = faces@;
        let nidx = sub.indices.len();
        let nf = nidx / 3;
        let total: usize = nf * 3;
        let mut map: HashMap<u32, u32> = HashMap::new();
        let mut t: usize = 0;
        while t < total
            invariant
                t <= total,
                total == 3 * (sv.indices.len() as int / 3) <= sv.indices.len(),
                sv == subs@[si as int]@,
                svs == subs@.map_values(|s: ObjSubMesh| s@),
                sv == svs[si as int],
                si < subs@.len() == svs.len(),
                (vs0, fs0) == import_all(svs, si as int),
                faces@ == fs0,
                sub == &subs@[si as int],
                base == vs0.len() as int,
                0 <= base <= verts@.len(),
                verts@.len() <= base + t,
                verts@.len() <= u32::MAX,
                faces@.len() <= u32::MAX,
                (verts@.skip(base), map@) == sub_state(sv, t as int, base),
                vs0 == verts@.take(base),
                forall|o: u32|
                    map@.contains_key(o) ==> base <= #[trigger] map@[o] < verts@.len(),
                forall|o: u32|
                    map@.contains_key(o) ==> 3 * (o as int) + 2 < sv.positions.len(),
                forall|t2: int| 0 <= t2 < t ==> map@.contains_key(#[trigger] sv.indices[t2]),
                forall|t2: int|
                    0 <= t2 < t ==> 3 * (#[trigger] sv.indices[t2] as int) + 2
                        < sv.positions.len(),
            decreases total - t,
        {
            let orig = sub.indices[t];
            if !map.contains_key(&orig) {
                if (orig as u64) * 3 + 2 >= sub.positions.len() as u64 {
                    proof {
                        assert(!sub_ok(sv));
                    }
                    return Err(ConversionError::ObjParse);
                }
                let oi = orig as usize;
                let has_n = sub.normals.len() > 0 && 3 * (orig as u64) + 2 < sub.normals.len()
                    as u64;
                let has_t = sub.texcoords.len() > 0 && 2 * (orig as u64) + 1
                    < sub.texcoords.len() as u64;
                let v = IntermediateVertex {
                    px: sub.positions[3 * oi],
                    py: sub.positions[3 * oi + 1],
                    pz: sub.positions[3 * oi + 2],
                    nx: if has_n {
                        sub.normals[3 * oi]
                    } else {
                        0
                    },
                    ny: if has_n {
                        sub.normals[3 * oi + 1]
                    } else {
                        0x3F800000
                    },
                    nz: if has_n {
                        sub.normals[3 * oi + 2]
                    } else {
                        0
                    },
                    tu: if has_t {
                        sub.texcoords[2 * oi]
                    } else {
                        0
                    },
                    tv: one_minus_f32(
                        if has_t {
                            sub.texcoords[2 * oi + 1]
                        } else {
                            0
                        },
                    ),
                };
                if verts.len() >= 4294967295 {
                    proof {
                        let st_t = sub_state(sv, t as int, base);
                        let st_t1 = sub_state(sv, t + 1, base);
                        assert(st_t1.0.len() == st_t.0.len() + 1);
                        lemma_sub_state_len_mono(sv, t + 1, total as int, base);
                        assert(import_all(svs, si + 1).0.len() == vs0.len() + sub_state(
                            sv,
                            total as int,
                            base,
                        ).0.len());
                        assert(import_all(svs, si + 1).0.len() > u32::MAX);
                        lemma_import_len_mono(svs, si + 1, svs.len() as int);
                    }
                    return Err(ConversionError::ObjParse);
                }
                let slot = verts.len() as u32;
                verts.push(v);
                map.insert(orig, slot);
                proof {
                    assert(v == mk_obj_vertex(sv, orig as int));
                    assert(verts@.skip(base) =~= sub_state(sv, t as int, base).0.push(v));
                    assert(map@ =~= sub_state(sv, t as int, base).1.insert(
                        orig,
                        (base + sub_state(sv, t as int, base).0.len()) as u32,
                    ));
                    assert(verts@.take(base) =~= vs0);
                }
            }
            t = t + 1;
        }
        proof {
            assert(sub_ok(sv));
        }
        let mut j: usize = 0;
        let ghost fprev = faces@;
        while j < nf
            invariant
                j <= nf,
                total == 3 * nf == 3 * (sv.indices.len() as int / 3) <= sv.indices.len(),
                sv == subs@[si as int]@,
                svs == subs@.map_values(|s: ObjSubMesh| s@),
                sv == svs[si as int],
                si < subs@.len() == svs.len(),
                (vs0, fs0) == import_all(svs, si as int),
                fprev == fs0,
                vs0 == verts@.take(base),
                base == vs0.len() as int,
                sub == &subs@[si as int],
                (verts@.skip(base), map@) == sub_state(sv, total as int, base),
                0 <= base <= verts@.len(),
                forall|t2: int|
                    0 <= t2 < total ==> map@.contains_key(#[trigger] sv.indices[t2]),
                forall|o: u32|
                    map@.contains_key(o) ==> base <= #[trigger] map@[o] < verts@.len(),
                faces@ == fprev + Seq::new(
                    j as nat,
                    (|q: int| FileMeshFace {
                        a: sub_state(sv, total as int, base).1[sv.indices[3 * q]],
                        b: sub_state(sv, total as int, base).1[sv.indices[3 * q + 1]],
                        c: sub_state(sv, total as int, base).1[sv.indices[3 * q + 2]],
                    }),
                ),
                faces_in_bounds(faces@, verts@.len() as int),
                verts@.len() <= u32::MAX,
                faces@.len() <= u32::MAX,
            decreases nf - j,
        {
            let ia = sub.indices[3 * j];
            let ib = sub.indices[3 * j + 1];
            let ic = sub.indices[3 * j + 2];
            let fa = *map.get(&ia).unwrap();
            let fb = *map.get(&ib).unwrap();
            let fc = *map.get(&ic).unwrap();
            if faces.len() >= 4294967295 {
                proof {
                    assert(import_all(svs, si + 1).1.len() == fs0.len() + nf);
                    assert(faces@.len() == fs0.len() + j);
                    assert(import_all(svs, si + 1).1.len() > u32::MAX);
                    lemma_import_len_mono(svs, si + 1, svs.len() as int);
                }
                return Err(ConversionError::ObjParse);
            }
            faces.push(FileMeshFace { a: fa, b: fb, c: fc });
            proof {
                assert(faces@ =~= fprev + Seq::new(
                    (j + 1) as nat,
                    (|q: int| FileMeshFace {
                        a: sub_state(sv, total as int, base).1[sv.indices[3 * q]],
                        b: sub_state(sv, total as int, base).1[sv.indices[3 * q + 1]],
                        c: sub_state(sv, total as int, base).1[sv.indices[3 * q + 2]],
                    }),
                ));
            }
            j = j + 1;
        }
        proof {
            let (mvs, mfs) = import_all(svs, si + 1);
            assert(verts@ =~= vs0 + verts@.skip(base));
            assert(mvs =~= verts@);
            assert(mfs =~= faces@);
        }
        si = si + 1;
    }
    proof {
        assert(svs[0] == subs@[0]@);
    }
    Ok(IntermediateMesh { vertices: verts, faces })
}

/// Reads polygon text and merges its sub-meshes into one mesh: the result
/// is the functional merge of the sub-meshes the external reader produced.
pub fn obj_to_intermediate(obj_data: &[u8]) -> (r: Result<IntermediateMesh, ConversionError>)
    ensures
        r matches Ok(m) ==> m.wf() && m.vertices@.len() <= u32::MAX && m.faces@.len()
            <= u32::MAX && exists|svs: Seq<ObjSubMeshV>|
            svs.len() > 0 && all_subs_ok(svs) && (m.vertices@, m.faces@) == import_all(
                svs,
                svs.len() as int,
            ),
        r matches Err(e) ==> (e == ConversionError::ObjParse || e == ConversionError::NoMeshData),
{
    let models = match load_obj_models(obj_data) {
        Some(ms) => ms,
        None => {
            return Err(ConversionError::ObjParse);
        },
    };
    let nm = models.len();
    let mut subs: Vec<ObjSubMesh> = Vec::new();
    let mut i: usize = 0;
    while i < nm
        invariant
            i <= nm == models@.len(),
            subs@.len() == i,
        decreases nm - i,
    {
        subs.push(submesh_of_model(&models[i]));
        i = i + 1;
    }
    let r = submeshes_to_mesh(&subs);
    proof {
        match &r {
            Ok(m) => {
                let svs = subs@.map_values(|s: ObjSubMesh| s@);
                assert(svs.len() > 0 && all_subs_ok(svs) && (m.vertices@, m.faces@) == import_all(
                    svs,
                    svs.len() as int,
                ));
            },
            Err(_) => {},
        }
    }
    r
}

} // verus!
