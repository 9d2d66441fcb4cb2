use meshview::geometry::{
    build_geometry, AssetError, ColorFx, GPUVertex, MeshPrimitive, Topology,
};
use meshview::vecmath::Vec3Fx;

const FX: i64 = 1_000_000;

fn prim(n: i64, indices: Vec<u32>, topology: Topology) -> MeshPrimitive {
    let positions: Vec<Vec3Fx> = (0..n).map(|k| Vec3Fx { x: k * FX, y: 0, z: 0 }).collect();
    let normals: Vec<Vec3Fx> = (0..n).map(|_| Vec3Fx { x: 0, y: 0, z: FX }).collect();
    let colors: Vec<ColorFx> = (0..n).map(|_| ColorFx { r: FX, g: 0, b: 0, a: FX }).collect();
    MeshPrimitive { positions, normals, colors, indices, topology }
}

#[test]
fn empty_asset_is_rejected() {
    let r = build_geometry(&vec![]);
    assert_eq!(r.err(), Some(AssetError::NoMeshes));
}

#[test]
fn mismatched_attribute_lengths_are_rejected() {
    let mut p = prim(3, vec![0, 1, 2], Topology::Triangles);
    p.normals.pop();
    let r = build_geometry(&vec![p]);
    assert_eq!(r.err(), Some(AssetError::MismatchedAttributes));
}

#[test]
fn non_triangle_topology_is_rejected() {
    let p = prim(3, vec![0, 1, 2], Topology::LineStrip);
    let r = build_geometry(&vec![p]);
    assert_eq!(r.err(), Some(AssetError::UnsupportedTopology));
}

#[test]
fn first_offending_primitive_decides_the_error() {
    let good = prim(3, vec![0, 1, 2], Topology::Triangles);
    let bad_topo = prim(3, vec![0, 1, 2], Topology::Points);
    let mut bad_len = prim(3, vec![0, 1, 2], Topology::Triangles);
    bad_len.colors.pop();
    let r = build_geometry(&vec![good, bad_topo, bad_len]);
    assert_eq!(r.err(), Some(AssetError::UnsupportedTopology));
}

#[test]
fn two_primitives_are_concatenated_with_rebased_indices() {
    let a = prim(3, vec![0, 1, 2], Topology::Triangles);
    let b = prim(4, vec![0, 1, 2, 0, 2, 3], Topology::Triangles);
    let g = build_geometry(&vec![a, b]).unwrap();
    assert_eq!(g.vertices.len(), 7);
    assert_eq!(g.indices, vec![0, 1, 2, 3, 4, 5, 3, 5, 6]);
    // The zipped attributes survive flattening in order.
    let v3: &GPUVertex = &g.vertices[3];
    assert_eq!(v3.pos, Vec3Fx { x: 0, y: 0, z: 0 });
    let v6: &GPUVertex = &g.vertices[6];
    assert_eq!(v6.pos, Vec3Fx { x: 3 * FX, y: 0, z: 0 });
    assert_eq!(v6.norm, Vec3Fx { x: 0, y: 0, z: FX });
    assert_eq!(v6.color.r, FX);
}

#[test]
fn single_primitive_round_trips_unchanged() {
    let p = prim(3, vec![2, 1, 0], Topology::Triangles);
    let g = build_geometry(&vec![p]).unwrap();
    assert_eq!(g.vertices.len(), 3);
    assert_eq!(g.indices, vec![2, 1, 0]);
}
