use isometric::terrain::{
    adjacent_indices, corner_indices, get_edge_matrix, get_index_for_edge, get_index_for_node,
    get_index_for_tile, select_border, takes_adjacent_triangles, tile_triangles, triangulate, Edge,
};
use isometric::{v2, v3, V2, V3};
use nalgebra::DMatrix;

#[test]
fn edges_should_be_canonical() {
    let edge = Edge::new(v2(1, 10), v2(10, 10));
    assert_eq!((*edge.from(), *edge.to()), (v2(1, 10), v2(10, 10)));

    let edge = Edge::new(v2(10, 10), v2(1, 10));
    assert_eq!((*edge.from(), *edge.to()), (v2(1, 10), v2(10, 10)));

    let edge = Edge::new(v2(10, 1), v2(10, 10));
    assert_eq!((*edge.from(), *edge.to()), (v2(10, 1), v2(10, 10)));

    let edge = Edge::new(v2(10, 10), v2(10, 1));
    assert_eq!((*edge.from(), *edge.to()), (v2(10, 1), v2(10, 10)));
}

#[test]
fn test_horizontal() {
    let edge = Edge::new(v2(1, 10), v2(10, 10));
    assert!(edge.horizontal());

    let edge = Edge::new(v2(10, 1), v2(10, 10));
    assert!(!edge.horizontal());
}

#[test]
fn edge_built_either_way_is_the_same() {
    assert_eq!(Edge::new(v2(3, 4), v2(3, 5)), Edge::new(v2(3, 5), v2(3, 4)));
    assert_eq!(Edge::new(v2(7, 2), v2(6, 2)), Edge::new(v2(6, 2), v2(7, 2)));
    assert_eq!(Edge::new(v2(4, 4), v2(4, 4)), Edge::new(v2(4, 4), v2(4, 4)));
}

#[test]
fn anti_diagonal_edge_keeps_its_order() {
    let edge = Edge::new(v2(2, 1), v2(1, 2));
    assert_eq!((*edge.from(), *edge.to()), (v2(2, 1), v2(1, 2)));
}

#[test]
fn test_get_edge_matrix() {
    let edges = vec![
        Edge::new(v2(0, 1), v2(1, 1)),
        Edge::new(v2(1, 1), v2(2, 1)),
        Edge::new(v2(1, 1), v2(1, 2)),
    ];
    let expected = DMatrix::from_row_slice(6, 6, &[
        false, false, false, false, false, false,
        false, false, false, false, false, false,
        false, true , false, true , false, false,
        false, false, true , false, false, false,
        false, false, false, false, false, false,
        false, false, false, false, false, false,
    ]).transpose();

    let actual = get_edge_matrix(3, 3, &edges);

    assert_eq!(expected.shape(), (6, 6));
    assert_eq!(actual.cell(6, 0), None);
    assert_eq!(actual.cell(0, 6), None);
    for x in 0..6 {
        for y in 0..6 {
            assert_eq!(actual.cell(x, y), Some(expected[(x, y)]));
        }
    }
}

#[test]
fn edge_matrix_cell_outside_is_none() {
    let actual = get_edge_matrix(3, 3, &vec![]);
    assert_eq!(actual.cell(6, 0), None);
    assert_eq!(actual.cell(0, 6), None);
    assert_eq!(actual.cell(5, 5), Some(false));
}

#[test]
fn test_get_index_for_node() {
    let mut actual = vec![];
    for y in 0..3 {
        for x in 0..3 {
            actual.push(get_index_for_node(&v2(x, y)));
        }
    }
    let expected = vec![
        v2(0, 0),
        v2(2, 0),
        v2(4, 0),
        v2(0, 2),
        v2(2, 2),
        v2(4, 2),
        v2(0, 4),
        v2(2, 4),
        v2(4, 4),
    ];

    assert_eq!(actual, expected);
}

#[test]
fn test_get_index_for_tile() {
    let mut actual = vec![];
    for y in 0..2 {
        for x in 0..2 {
            actual.push(get_index_for_tile(&v2(x, y)));
        }
    }
    let expected = vec![v2(1, 1), v2(3, 1), v2(1, 3), v2(3, 3)];

    assert_eq!(actual, expected);
}

#[test]
fn index_for_edge_sits_between_nodes() {
    assert_eq!(get_index_for_edge(&Edge::new(v2(1, 1), v2(2, 1))), v2(3, 2));
    assert_eq!(get_index_for_edge(&Edge::new(v2(1, 2), v2(1, 1))), v2(2, 3));
}

#[test]
fn tile_neighbours_are_its_edge_cells() {
    let tile = v2(1, 0);
    let cell = get_index_for_tile(&tile);
    let neighbours = adjacent_indices(&cell);
    assert_eq!(neighbours[0], get_index_for_edge(&Edge::new(v2(1, 0), v2(1, 1))));
    assert_eq!(neighbours[1], get_index_for_edge(&Edge::new(v2(2, 0), v2(2, 1))));
    assert_eq!(neighbours[2], get_index_for_edge(&Edge::new(v2(1, 0), v2(2, 0))));
    assert_eq!(neighbours[3], get_index_for_edge(&Edge::new(v2(1, 1), v2(2, 1))));
}

#[test]
fn corners_go_round_the_cell() {
    assert_eq!(corner_indices(&v2(2, 1)), [v2(2, 1), v2(3, 1), v2(3, 2), v2(2, 2)]);
}

fn p(x: f32, y: f32, z: f32) -> V3<f32> {
    v3(x, y, z)
}

#[test]
fn border_keeps_distinct_corners() {
    let corners = [p(0.5, 0.5, 4.0), p(1.5, 0.5, 4.0), p(1.5, 1.5, 4.0), p(0.5, 1.5, 4.0)];
    assert_eq!(select_border(&corners, &[true, true, true, true]), corners.to_vec());
    assert_eq!(
        select_border(&corners, &[false, true, true, false]),
        vec![corners[1], corners[2]]
    );
    assert_eq!(select_border(&corners, &[false, false, false, false]), vec![]);
}

#[test]
fn adjacent_triangles_are_taken_only_without_edge() {
    let edges = get_edge_matrix(3, 3, &vec![Edge::new(v2(1, 1), v2(2, 1))]);
    assert!(!takes_adjacent_triangles(&edges, &v2(3, 2), 1));
    assert!(takes_adjacent_triangles(&edges, &v2(2, 3), 1));
    assert!(takes_adjacent_triangles(&edges, &v2(2, 3), 2));
    assert!(!takes_adjacent_triangles(&edges, &v2(2, 3), 0));
    assert!(!takes_adjacent_triangles(&edges, &v2(2, 3), 3));
}

/// The grid of the terrain whose elevations are 0 0 0 / 0 4 3 / 0 2 1, with
/// nodes of half sizes 0.5, (0.4, 0.1), (0.1, 0.4) and 0 at (1, 1), (2, 1),
/// (1, 2) and (2, 2).
fn grid() -> Vec<Vec<V3<f32>>> {
    let mut g = vec![vec![p(0.0, 0.0, 0.0); 6]; 6];
    for x in 0..6 {
        for y in 0..6 {
            g[x][y] = p((x / 2) as f32, (y / 2) as f32, 0.0);
        }
    }
    g[2][2] = p(0.5, 0.5, 4.0);
    g[3][2] = p(1.5, 0.5, 4.0);
    g[2][3] = p(0.5, 1.5, 4.0);
    g[3][3] = p(1.5, 1.5, 4.0);
    g[4][2] = p(1.6, 0.9, 3.0);
    g[5][2] = p(2.4, 0.9, 3.0);
    g[4][3] = p(1.6, 1.1, 3.0);
    g[5][3] = p(2.4, 1.1, 3.0);
    g[2][4] = p(0.9, 1.6, 2.0);
    g[3][4] = p(1.1, 1.6, 2.0);
    g[2][5] = p(0.9, 2.4, 2.0);
    g[3][5] = p(1.1, 2.4, 2.0);
    for x in 4..6 {
        for y in 4..6 {
            g[x][y] = p(2.0, 2.0, 1.0);
        }
    }
    g
}

fn border(cell: V2) -> Vec<V3<f32>> {
    let g = grid();
    let c = corner_indices(&cell);
    let corners = [g[c[0].x][c[0].y], g[c[1].x][c[1].y], g[c[2].x][c[2].y], g[c[3].x][c[3].y]];
    let differs = [
        corners[0] != corners[1],
        corners[1] != corners[2],
        corners[2] != corners[3],
        corners[3] != corners[0],
    ];
    select_border(&corners, &differs)
}

#[test]
fn test_get_border_square() {
    assert_eq!(
        border(v2(2, 2)),
        vec![p(0.5, 0.5, 4.0), p(1.5, 0.5, 4.0), p(1.5, 1.5, 4.0), p(0.5, 1.5, 4.0)]
    );
}

#[test]
fn test_get_border_triangle() {
    assert_eq!(border(v2(2, 1)), vec![p(1.0, 0.0, 0.0), p(1.5, 0.5, 4.0), p(0.5, 0.5, 4.0)]);
}

#[test]
fn test_get_border_line() {
    assert_eq!(border(v2(1, 0)), vec![p(0.0, 0.0, 0.0), p(1.0, 0.0, 0.0)]);
}

#[test]
fn test_get_border_empty() {
    assert_eq!(border(v2(0, 0)), vec![]);
}

#[test]
fn test_get_triangles_square() {
    assert_eq!(
        triangulate(&border(v2(2, 2))),
        vec![
            [p(0.5, 0.5, 4.0), p(0.5, 1.5, 4.0), p(1.5, 1.5, 4.0)],
            [p(0.5, 0.5, 4.0), p(1.5, 1.5, 4.0), p(1.5, 0.5, 4.0)],
        ]
    );
}

#[test]
fn test_get_triangles_triangle() {
    assert_eq!(
        triangulate(&border(v2(2, 1))),
        vec![[p(1.0, 0.0, 0.0), p(0.5, 0.5, 4.0), p(1.5, 0.5, 4.0)]]
    );
}

#[test]
fn test_get_triangles_line() {
    let expected: Vec<[V3<f32>; 3]> = vec![];
    assert_eq!(triangulate(&border(v2(1, 0))), expected);
}

#[test]
fn test_get_triangles_point() {
    let expected: Vec<[V3<f32>; 3]> = vec![];
    assert_eq!(triangulate(&border(v2(0, 0))), expected);
}

fn clip_to_tile(mut point: V3<f32>, tile: &V2) -> V3<f32> {
    let x = tile.x as f32;
    let y = tile.y as f32;
    point.x = point.x.max(x).min(x + 1.0);
    point.y = point.y.max(y).min(y + 1.0);
    point
}

fn triangles_for_tile(tile: V2) -> Vec<[V3<f32>; 3]> {
    let edges = get_edge_matrix(
        3,
        3,
        &vec![
            Edge::new(v2(1, 1), v2(2, 1)),
            Edge::new(v2(2, 1), v2(2, 2)),
            Edge::new(v2(1, 2), v2(2, 2)),
        ],
    );
    let cell = get_index_for_tile(&tile);
    let own = triangulate(&border(cell));
    let mut neighbours = vec![];
    for adjacent in adjacent_indices(&cell).iter() {
        let mut triangles = triangulate(&border(*adjacent));
        for triangle in triangles.iter_mut() {
            for q in 0..3 {
                triangle[q] = clip_to_tile(triangle[q], &tile);
            }
        }
        neighbours.push(triangles);
    }
    tile_triangles(&edges, &tile, own, &neighbours)
}

#[test]
fn test_get_triangles_for_tile_a() {
    let actual = triangles_for_tile(v2(1, 0));

    assert!(actual.contains(&[p(1.0, 0.0, 0.0), p(1.5, 0.5, 4.0), p(1.6, 0.9, 3.0)]));
    assert!(actual.contains(&[p(1.0, 0.0, 0.0), p(1.6, 0.9, 3.0), p(2.0, 0.0, 0.0)]));
    assert!(actual.contains(&[p(1.0, 0.0, 0.0), p(1.0, 0.5, 4.0), p(1.5, 0.5, 4.0)]));
    assert!(actual.contains(&[p(2.0, 0.0, 0.0), p(1.6, 0.9, 3.0), p(2.0, 0.9, 3.0)]));
    assert_eq!(actual.len(), 4);
}

#[test]
fn test_get_triangles_for_tile_b() {
    let actual = triangles_for_tile(v2(1, 1));

    assert!(actual.contains(&[p(1.5, 1.5, 4.0), p(1.1, 1.6, 2.0), p(2.0, 2.0, 1.0)]));
    assert!(actual.contains(&[p(1.5, 1.5, 4.0), p(2.0, 2.0, 1.0), p(1.6, 1.1, 3.0)]));
    assert!(actual.contains(&[p(1.0, 1.5, 4.0), p(1.0, 1.6, 2.0), p(1.1, 1.6, 2.0)]));
    assert!(actual.contains(&[p(1.0, 1.5, 4.0), p(1.1, 1.6, 2.0), p(1.5, 1.5, 4.0)]));
    assert_eq!(actual.len(), 4);
}

#[test]
fn tile_takes_only_neighbours_without_edge_in_order() {
    let edges = get_edge_matrix(3, 3, &vec![Edge::new(v2(1, 1), v2(2, 1))]);
    let own = vec![[1u8, 1, 1]];
    let neighbours = vec![
        vec![[2u8, 2, 2], [3, 3, 3]],
        vec![[4u8, 4, 4]],
        vec![[5u8, 5, 5]],
        vec![[6u8, 6, 6], [7, 7, 7], [8, 8, 8]],
    ];
    // Tile (1, 1) sits at cell (3, 3); the edge from (1, 1) to (2, 1) sits
    // at cell (3, 2), the cell above it.
    assert_eq!(
        tile_triangles(&edges, &v2(1, 1), own, &neighbours),
        vec![[1u8, 1, 1], [2, 2, 2], [3, 3, 3], [4, 4, 4]]
    );
}
