//! Depth sorting on concrete splat sets: the output is one permutation
//! applied to all three arrays, ordered by descending key, with the keys
//! computed from the centroid projection exactly as the application does.

use splatview::load::{AlphaSpread, ColorTerm, Pos3, TSplat, TriPositions};
use splatview::sort::{apply_order, depth_sort, sort_order};

#[test]
fn order_is_descending_permutation() {
    let keys: Vec<u64> = vec![5, 1, 9, 3];
    let order = sort_order(&keys);
    assert_eq!(order, vec![2, 0, 3, 1]);
}

#[test]
fn equal_keys_still_permute() {
    let keys: Vec<u64> = vec![7, 7, 7];
    let mut order = sort_order(&keys);
    order.sort();
    assert_eq!(order, vec![0, 1, 2]);
}

#[test]
fn empty_keys_give_empty_order() {
    let keys: Vec<u64> = Vec::new();
    assert!(sort_order(&keys).is_empty());
}

#[test]
fn gather_follows_order() {
    let data: Vec<u16> = vec![10, 20, 30];
    let order: Vec<usize> = vec![2, 2, 0];
    assert_eq!(apply_order(&data, &order), vec![30, 30, 10]);
}

fn tri(z: f32) -> TriPositions {
    let p = |x: f32, y: f32| Pos3 { x: x.to_bits(), y: y.to_bits(), z: z.to_bits() };
    TriPositions { p0: p(0.0, 0.0), p1: p(1.0, 0.0), p2: p(0.0, 1.0) }
}

/// The key the application derives per triangle: the centroid term projected
/// onto the fixed forward direction, encoded so integer order matches float
/// order.
fn projection_key(t: &TriPositions) -> u64 {
    let v = |p: &Pos3| {
        nalgebra::Vector3::new(f32::from_bits(p.x), f32::from_bits(p.y), f32::from_bits(p.z))
    };
    let forward = nalgebra::Vector3::new(0.8644f32, 0.4385, 0.2458);
    let c = v(&t.p0) + v(&t.p1) + v(&t.p2) / 3.0;
    let bits = c.dot(&forward).to_bits();
    let ordered = if bits & 0x8000_0000 != 0 { !bits } else { bits | 0x8000_0000 };
    ordered as u64
}

#[test]
fn splats_sort_back_to_front() {
    let tris = vec![tri(0.5), tri(3.0), tri(-1.0), tri(2.0)];
    let splats = TSplat {
        points: tris.clone(),
        alpha_sigma: (0..4).map(|i| AlphaSpread { alpha: i, spread: 100 + i }).collect(),
        sh: (0..4u16).map(|i| ColorTerm { c0: i, c1: 0, c2: 0, c3: 0 }).collect(),
    };
    let keys: Vec<u64> = tris.iter().map(projection_key).collect();
    let sorted = depth_sort(splats, &keys);

    assert_eq!(sorted.points.len(), 4);
    // Farther along the forward direction comes first: descending z here.
    let zs: Vec<f32> = sorted.points.iter().map(|t| f32::from_bits(t.p0.z)).collect();
    assert_eq!(zs, vec![3.0, 2.0, 0.5, -1.0]);
    // The same permutation is applied to every array, so records stay
    // index-aligned with their triangle.
    for i in 0..4 {
        let original_index = tris
            .iter()
            .position(|t| t == &sorted.points[i])
            .expect("output triangles are a permutation of the input");
        assert_eq!(sorted.alpha_sigma[i].alpha as usize, original_index);
        assert_eq!(sorted.alpha_sigma[i].spread as usize, 100 + original_index);
        assert_eq!(sorted.sh[i].c0 as usize, original_index);
    }
    // And the keys of the output never increase.
    let out_keys: Vec<u64> = sorted.points.iter().map(projection_key).collect();
    for w in out_keys.windows(2) {
        assert!(w[0] >= w[1]);
    }
}
