//! Scene geometry decoded from the asset, validated and flattened.
//!
//! The asset decoder (outside this library) turns the scene file into
//! plain attribute arrays, one [`MeshPrimitive`] per decoded primitive.
//! [`build_geometry`] checks them — some mesh must exist, attribute
//! arrays must agree in length, only triangle lists are drawable — and
//! concatenates them into one vertex list and one index list whose
//! indices are rebased past the vertices of earlier primitives, so the
//! model renderer can issue a single indexed draw.

use vstd::prelude::*;

use crate::vecmath::Vec3Fx;

verus! {

/// An RGBA color; `FX_ONE` is full intensity of a channel.
#[derive(Clone, Copy, Debug, PartialEq, Eq, Structural)]
pub struct ColorFx {
    pub r: i64,
    pub g: i64,
    pub b: i64,
    pub a: i64,
}

/// One vertex as the model renderer uploads it.
#[derive(Clone, Copy, Debug, PartialEq, Eq, Structural)]
pub struct GPUVertex {
    pub pos: Vec3Fx,
    pub norm: Vec3Fx,
    pub color: ColorFx,
}

/// Primitive topologies a decoded mesh may carry.
#[derive(Clone, Copy, Debug, PartialEq, Eq, Structural)]
pub enum Topology {
    Points,
    Lines,
    LineStrip,
    Triangles,
    TriangleStrip,
    TriangleFan,
}

/// One decoded mesh primitive, as plain attribute arrays.
pub struct MeshPrimitive {
    pub positions: Vec<Vec3Fx>,
    pub normals: Vec<Vec3Fx>,
    pub colors: Vec<ColorFx>,
    pub indices: Vec<u32>,
    pub topology: Topology,
}

/// Why a decoded asset was rejected.
#[derive(Clone, Copy, Debug, PartialEq, Eq, Structural)]
pub enum AssetError {
    /// The asset holds no mesh primitive at all.
    NoMeshes,
    /// A primitive's position, normal and color arrays disagree in length.
    MismatchedAttributes,
    /// A primitive is not a triangle list.
    UnsupportedTopology,
}

/// Flattened scene geometry, ready for upload and one indexed draw.
pub struct Geometry {
    pub vertices: Vec<GPUVertex>,
    pub indices: Vec<u32>,
}

/// The attribute arrays of a primitive agree in length.
pub open spec fn prim_lengths_ok(p: MeshPrimitive) -> bool {
    p.normals@.len() == p.positions@.len() && p.colors@.len() == p.positions@.len()
}

/// A primitive is drawable: a triangle list with matching attributes.
pub open spec fn prim_ok(p: MeshPrimitive) -> bool {
    p.topology == Topology::Triangles && prim_lengths_ok(p)
}

/// The vertices of one primitive, attributes zipped positionally.
pub open spec fn prim_vertices(p: MeshPrimitive) -> Seq<GPUVertex> {
    Seq::new(
        p.positions@.len(),
        |i: int|
            GPUVertex { pos: p.positions@[i], norm: p.normals@[i], color: p.colors@[i] },
    )
}

/// All vertices of a primitive sequence, concatenated in order.
pub open spec fn flat_vertices(s: Seq<MeshPrimitive>) -> Seq<GPUVertex>
    decreases s.len(),
{
    if s.len() == 0 {
        Seq::empty()
    } else {
        flat_vertices(s.drop_last()) + prim_vertices(s.last())
    }
}

/// All indices of a primitive sequence, each rebased past the vertices
/// of the primitives before it.
pub open spec fn flat_indices(s: Seq<MeshPrimitive>) -> Seq<int>
    decreases s.len(),
{
    if s.len() == 0 {
        Seq::empty()
    } else {
        flat_indices(s.drop_last()) + s.last().indices@.map_values(
            |ix: u32| ix + flat_vertices(s.drop_last()).len(),
        )
    }
}

/// The first reason, scanning from primitive `i` on, why the asset is
/// rejected; `None` when every remaining primitive is drawable.
pub open spec fn scan_error(s: Seq<MeshPrimitive>, i: int) -> Option<AssetError>
    decreases s.len() - i,
{
    if i < 0 || i >= s.len() {
        None
    } else if s[i].topology != Topology::Triangles {
        Some(AssetError::UnsupportedTopology)
    } else if !prim_lengths_ok(s[i]) {
        Some(AssetError::MismatchedAttributes)
    } else {
        scan_error(s, i + 1)
    }
}

/// The verdict on a decoded asset: rejected for the given reason, or
/// accepted (`None`).
pub open spec fn asset_error_of(s: Seq<MeshPrimitive>) -> Option<AssetError> {
    if s.len() == 0 {
        Some(AssetError::NoMeshes)
    } else {
        scan_error(s, 0)
    }
}

/// A clean scan means every primitive from `i` on is drawable.
proof fn lemma_scan_none(s: Seq<MeshPrimitive>, i: int)
    requires
        0 <= i,
        scan_error(s, i) is None,
    ensures
        forall|j: int| i <= j < s.len() ==> prim_ok(#[trigger] s[j]),
    decreases s.len() - i,
{
    if i < s.len() {
        lemma_scan_none(s, i + 1);
    }
}

/// A prefix never holds more vertices than the whole sequence.
proof fn lemma_flat_prefix_le(s: Seq<MeshPrimitive>, k: int)
    requires
        0 <= k <= s.len(),
    ensures
        flat_vertices(s.take(k)).len() <= flat_vertices(s).len(),
    decreases s.len() - k,
{
    if k == s.len() {
        assert(s.take(k) =~= s);
    } else {
        lemma_flat_prefix_le(s, k + 1);
        assert(s.take(k + 1).drop_last() =~= s.take(k));
        assert(flat_vertices(s.take(k + 1)) == flat_vertices(s.take(k)) + prim_vertices(
            s.take(k + 1).last(),
        ));
    }
}

/// Validate the decoded primitives and flatten them.
///
/// Succeeds exactly when the asset has at least one primitive and every
/// primitive is a triangle list with matching attribute lengths; rejected
/// assets report the first offending primitive's reason.  On success the
/// vertices are the primitives' vertices in order, and the indices are
/// the primitives' indices rebased to the flat vertex list.
#[verifier::rlimit(30)]
pub fn build_geometry(prims: &Vec<MeshPrimitive>) -> (r: Result<Geometry, AssetError>)
    requires
        flat_vertices(prims@).len() <= u32::MAX,
        forall|j: int, l: int|
            0 <= j < prims@.len() && 0 <= l < prims@[j].indices@.len() ==> (
            #[trigger] prims@[j].indices@[l]) < prims@[j].positions@.len(),
    ensures
        match r {
            Ok(g) => {
                &&& asset_error_of(prims@) is None
                &&& g.vertices@ == flat_vertices(prims@)
                &&& g.indices@.map_values(|ix: u32| ix as int) == flat_indices(prims@)
            },
            Err(e) => asset_error_of(prims@) == Some(e),
        },
{
    let n: usize = prims.len();
    if n == 0 {
        return Err(AssetError::NoMeshes);
    }
    let mut k: usize = 0;
    while k < n
        invariant
            0 <= k <= n,
            n == prims@.len(),
            scan_error(prims@, 0) == scan_error(prims@, k as int),
        decreases n - k,
    {
        let p = &prims[k];
        if !matches!(p.topology, Topology::Triangles) {
            return Err(AssetError::UnsupportedTopology);
        }
        if p.normals.len() != p.positions.len() || p.colors.len() != p.positions.len() {
            return Err(AssetError::MismatchedAttributes);
        }
        k += 1;
    }
    proof {
        lemma_scan_none(prims@, 0);
    }
    let mut vertices: Vec<GPUVertex> = Vec::new();
    let mut indices: Vec<u32> = Vec::new();
    let mut k: usize = 0;
    while k < n
        invariant
            0 <= k <= n,
            n == prims@.len(),
            forall|j: int| 0 <= j < prims@.len() ==> prim_ok(#[trigger] prims@[j]),
            forall|j: int, l: int|
                0 <= j < prims@.len() && 0 <= l < prims@[j].indices@.len() ==> (
                #[trigger] prims@[j].indices@[l]) < prims@[j].positions@.len(),
            flat_vertices(prims@).len() <= u32::MAX,
            vertices@ == flat_vertices(prims@.take(k as int)),
            indices@.map_values(|ix: u32| ix as int) == flat_indices(prims@.take(k as int)),
        decreases n - k,
    {
        let p = &prims[k];
        proof {
            assert(prims@.take(k as int + 1).drop_last() =~= prims@.take(k as int));
            assert(prims@.take(k as int + 1).last() == prims@[k as int]);
            lemma_flat_prefix_le(prims@, k as int + 1);
        }
        let base: u32 = vertices.len() as u32;
        let mut j: usize = 0;
        let vlen: usize = p.positions.len();
        while j < vlen
            invariant
                0 <= j <= vlen,
                vlen == p.positions@.len(),
                prim_ok(*p),
                vertices@ == flat_vertices(prims@.take(k as int)) + prim_vertices(*p).take(
                    j as int,
                ),
            decreases vlen - j,
        {
            vertices.push(
                GPUVertex { pos: p.positions[j], norm: p.normals[j], color: p.colors[j] },
            );
            proof {
                assert(prim_vertices(*p).take(j as int + 1) =~= prim_vertices(*p).take(
                    j as int,
                ).push(prim_vertices(*p)[j as int]));
            }
            j += 1;
        }
        proof {
            assert(prim_vertices(*p).take(vlen as int) =~= prim_vertices(*p));
            assert(vertices@ == flat_vertices(prims@.take(k as int + 1)));
        }
        let mut j: usize = 0;
        let ilen: usize = p.indices.len();
        while j < ilen
            invariant
                0 <= j <= ilen,
                ilen == p.indices@.len(),
                prim_ok(*p),
                p == &prims@[k as int],
                0 <= k < prims@.len(),
                forall|l: int|
                    0 <= l < p.indices@.len() ==> (#[trigger] p.indices@[l])
                        < p.positions@.len(),
                base as int == flat_vertices(prims@.take(k as int)).len(),
                base + p.positions@.len() <= u32::MAX,
                indices@.map_values(|ix: u32| ix as int) == flat_indices(
                    prims@.take(k as int),
                ) + p.indices@.take(j as int).map_values(|ix: u32| ix + base as int),
            decreases ilen - j,
        {
            let ix: u32 = p.indices[j];
            let ghost prev: Seq<u32> = indices@;
            indices.push(ix + base);
            proof {
                assert(indices@ =~= prev.push((ix + base) as u32));
                assert(p.indices@.take(j as int + 1) =~= p.indices@.take(j as int).push(
                    p.indices@[j as int],
                ));
                assert(p.indices@.take(j as int + 1).map_values(|ix: u32| ix + base as int)
                    =~= p.indices@.take(j as int).map_values(|ix: u32| ix + base as int).push(
                    p.indices@[j as int] + base as int,
                ));
                assert(prev.push((ix + base) as u32).map_values(|ix: u32| ix as int) =~= prev.map_values(
                    |ix: u32| ix as int,
                ).push((ix + base) as int));
                assert(indices@.map_values(|ix: u32| ix as int) =~= flat_indices(
                    prims@.take(k as int),
                ) + p.indices@.take(j as int + 1).map_values(|ix: u32| ix + base as int));
            }
            j += 1;
        }
        proof {
            assert(p.indices@.take(ilen as int) =~= p.indices@);
            assert(p.indices@.map_values(|ix: u32| ix + base as int) =~= p.indices@.map_values(
                |ix: u32| ix + flat_vertices(prims@.take(k as int + 1).drop_last()).len(),
            ));
            assert(indices@.map_values(|ix: u32| ix as int) == flat_indices(
                prims@.take(k as int + 1),
            ));
        }
        k += 1;
    }
    proof {
        assert(prims@.take(n as int) =~= prims@);
    }
    Ok(Geometry { vertices, indices })
}

} // verus!
