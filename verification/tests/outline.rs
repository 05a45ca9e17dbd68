use asteroids::asteroid::{
    draw_vertex_count, neighbours, pick_variant, ring_indices, ASTEROID_VARIANTS,
    OUTLINE_VERTICES_END, OUTLINE_VERTICES_MIN,
};
use bevy_turborand::RngComponent;

#[test]
fn neighbours_wrap_around_the_outline() {
    assert_eq!(neighbours(0, 8), (7, 1));
    assert_eq!(neighbours(3, 8), (2, 4));
    assert_eq!(neighbours(7, 8), (6, 0));
    assert_eq!(neighbours(0, 1), (0, 0));
    assert_eq!(neighbours(1, 2), (0, 0));
}

#[test]
fn ring_of_three_vertices() {
    assert_eq!(
        ring_indices(3),
        vec![0, 3, 1, 3, 4, 1, 1, 4, 2, 4, 5, 2, 2, 5, 0, 5, 3, 0]
    );
}

#[test]
fn ring_of_one_vertex_folds_onto_itself() {
    assert_eq!(ring_indices(1), vec![0, 1, 0, 1, 1, 0]);
}

#[test]
fn ring_without_vertices_is_empty() {
    assert_eq!(ring_indices(0), Vec::<u32>::new());
}

#[test]
fn ring_has_two_triangles_per_outline_vertex() {
    for num_verts in OUTLINE_VERTICES_MIN..OUTLINE_VERTICES_END {
        let indices = ring_indices(num_verts);
        assert_eq!(indices.len(), 6 * num_verts);
        assert!(indices.iter().all(|&index| (index as usize) < 2 * num_verts));
        for (i, quad) in indices.chunks(6).enumerate() {
            let next = (i + 1) % num_verts;
            let expected = [i, i + num_verts, next, i + num_verts, next + num_verts, next];
            assert_eq!(quad.to_vec(), expected.map(|index| index as u32).to_vec());
        }
    }
}

#[test]
fn ring_triangles_wind_one_way() {
    for num_verts in 2..OUTLINE_VERTICES_END {
        let indices = ring_indices(num_verts);
        let mut edges: Vec<(u32, u32)> = Vec::new();
        for triangle in indices.chunks(3) {
            for side in 0..3 {
                edges.push((triangle[side], triangle[(side + 1) % 3]));
            }
        }
        for (at, edge) in edges.iter().enumerate() {
            assert!(!edges[at + 1..].contains(edge));
        }
        // From three vertices on, every edge between two triangles is met
        // once in each direction, and the rims of the band are met once.
        if num_verts >= 3 {
            let shared = edges.iter().filter(|(from, to)| edges.contains(&(*to, *from))).count();
            assert_eq!(shared, 4 * num_verts);
        }
    }
}

#[test]
fn variant_is_drawn_from_the_pool() {
    let mut rng = RngComponent::with_seed(1024);
    let mut seen = [false; ASTEROID_VARIANTS];
    for _ in 0..10_000 {
        let variant = pick_variant(&mut rng);
        assert!(variant < ASTEROID_VARIANTS);
        seen[variant] = true;
    }
    assert!(seen.iter().all(|&hit| hit));
}

#[test]
fn vertex_count_is_drawn_from_eight_to_eleven() {
    let mut rng = RngComponent::with_seed(1024);
    let mut seen = [false; OUTLINE_VERTICES_END];
    for _ in 0..1_000 {
        let num_verts = draw_vertex_count(&mut rng);
        assert!(OUTLINE_VERTICES_MIN <= num_verts && num_verts < OUTLINE_VERTICES_END);
        seen[num_verts] = true;
    }
    assert_eq!(
        seen,
        [false, false, false, false, false, false, false, false, true, true, true, true]
    );
}

#[test]
fn draws_repeat_for_the_same_seed() {
    let mut first = RngComponent::with_seed(7);
    let mut second = RngComponent::with_seed(7);
    for _ in 0..100 {
        assert_eq!(draw_vertex_count(&mut first), draw_vertex_count(&mut second));
        assert_eq!(pick_variant(&mut first), pick_variant(&mut second));
    }
}
