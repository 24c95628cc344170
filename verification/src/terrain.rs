//! Edges between terrain nodes and the layout of the terrain grid: every node
//! `(x, y)` owns the grid cells `(2x, 2y)` to `(2x + 1, 2y + 1)`, edges sit
//! between them and tiles sit at the odd/odd cells.

use vstd::prelude::*;
use crate::{v2, V2};
use crate::grid_matrix::{bool_matrix_cells, bool_matrix_shape, BoolMatrix};

verus! {

/// An edge between two nodes, stored with `from` before `to`: the end that
/// lies further along an axis comes second. Nodes meant to be joined share a
/// row or a column; only a pair where the second node lies beyond the first on
/// both axes is refused.
#[derive(Clone, Copy, Debug, PartialEq, Eq)]
pub struct Edge {
    from: V2,
    to: V2,
}

/// The edge `Edge::new(a, b)` stores, as a `(from, to)` pair.
pub open spec fn canonical_edge(a: V2, b: V2) -> (V2, V2) {
    if b.x > a.x || b.y > a.y {
        (a, b)
    } else {
        (b, a)
    }
}

/// `b` lies strictly beyond `a` on both axes, which no edge may do.
pub open spec fn is_diagonal(a: V2, b: V2) -> bool {
    b.x > a.x && b.y > a.y
}

impl Edge {
    pub closed spec fn spec_from(self) -> V2 {
        self.from
    }

    pub closed spec fn spec_to(self) -> V2 {
        self.to
    }

    /// The edge between `from` and `to`, ordered so that the end further along
    /// an axis comes second.
    pub fn new(from: V2, to: V2) -> (edge: Edge)
        requires
            !is_diagonal(from, to),
        ensures
            (edge.spec_from(), edge.spec_to()) == canonical_edge(from, to),
    {
        if to.x > from.x || to.y > from.y {
            Edge { from, to }
        } else {
            Edge { from: to, to: from }
        }
    }

    pub fn from(&self) -> (res: &V2)
        ensures
            *res == self.spec_from(),
    {
        &self.from
    }

    pub fn to(&self) -> (res: &V2)
        ensures
            *res == self.spec_to(),
    {
        &self.to
    }

    pub open spec fn spec_horizontal(self) -> bool {
        self.spec_from().y == self.spec_to().y
    }

    /// Whether both ends lie on the same row.
    pub fn horizontal(&self) -> (res: bool)
        ensures
            res == self.spec_horizontal(),
    {
        self.from.y == self.to.y
    }
}

/// The grid cell of the node at `position`.
pub open spec fn node_index(position: V2) -> (int, int) {
    (2 * position.x, 2 * position.y)
}

/// The grid cell of an edge: right of its first node when horizontal, below
/// it otherwise.
pub open spec fn edge_index(edge: Edge) -> (int, int) {
    if edge.spec_horizontal() {
        (2 * edge.spec_from().x + 1, 2 * edge.spec_from().y)
    } else {
        (2 * edge.spec_from().x, 2 * edge.spec_from().y + 1)
    }
}

/// The grid cell of the tile at `tile`.
pub open spec fn tile_index(tile: V2) -> (int, int) {
    (2 * tile.x + 1, 2 * tile.y + 1)
}

pub open spec fn as_pair(v: V2) -> (int, int) {
    (v.x as int, v.y as int)
}

/// The grid cell of the node at `position`.
pub fn get_index_for_node(position: &V2) -> (index: V2)
    requires
        2 * position.x <= usize::MAX,
        2 * position.y <= usize::MAX,
    ensures
        as_pair(index) == node_index(*position),
{
    v2(position.x * 2, position.y * 2)
}

/// The grid cell of `edge`.
pub fn get_index_for_edge(edge: &Edge) -> (index: V2)
    requires
        2 * edge.spec_from().x + 1 <= usize::MAX,
        2 * edge.spec_from().y + 1 <= usize::MAX,
    ensures
        as_pair(index) == edge_index(*edge),
{
    if edge.horizontal() {
        v2(edge.from.x * 2 + 1, edge.from.y * 2)
    } else {
        v2(edge.from.x * 2, edge.from.y * 2 + 1)
    }
}

/// The grid cell of the tile at `tile_coordinate`.
pub fn get_index_for_tile(tile_coordinate: &V2) -> (index: V2)
    requires
        2 * tile_coordinate.x + 1 <= usize::MAX,
        2 * tile_coordinate.y + 1 <= usize::MAX,
    ensures
        as_pair(index) == tile_index(*tile_coordinate),
{
    v2((tile_coordinate.x * 2) + 1, (tile_coordinate.y * 2) + 1)
}

/// The cells whose grid points bound the cell `grid_index`, going round:
/// the cell itself, right, diagonal, below.
pub open spec fn corners(grid_index: V2) -> Seq<(int, int)> {
    let x = grid_index.x as int;
    let y = grid_index.y as int;
    seq![(x, y), (x + 1, y), (x + 1, y + 1), (x, y + 1)]
}

/// The four grid points that bound the cell `grid_index`, in the order in
/// which its border is walked.
pub fn corner_indices(grid_index: &V2) -> (res: [V2; 4])
    requires
        grid_index.x < usize::MAX,
        grid_index.y < usize::MAX,
    ensures
        forall|o: int| 0 <= o < 4 ==> as_pair(#[trigger] res@[o]) == corners(*grid_index)[o],
{
    let x = grid_index.x;
    let y = grid_index.y;
    [v2(x, y), v2(x + 1, y), v2(x + 1, y + 1), v2(x, y + 1)]
}

/// The border of a cell: each corner that differs from the next one round,
/// in order.
pub open spec fn border_of<T>(corners: Seq<T>, differs_from_next: Seq<bool>, n: nat) -> Seq<T>
    decreases n,
{
    if n == 0 {
        Seq::empty()
    } else {
        let rest = border_of(corners, differs_from_next, (n - 1) as nat);
        if differs_from_next[n - 1] {
            rest.push(corners[n - 1])
        } else {
            rest
        }
    }
}

/// Keeps each of the four corners that differs from the next corner round,
/// so that points that coincide count once.
pub fn select_border<T: Copy>(corners: &[T; 4], differs_from_next: &[bool; 4]) -> (border: Vec<T>)
    ensures
        border@ == border_of(corners@, differs_from_next@, 4),
{
    let mut out: Vec<T> = Vec::new();
    let mut o: usize = 0;
    while o < 4
        invariant
            o <= 4,
            out@ == border_of(corners@, differs_from_next@, o as nat),
        decreases 4 - o,
    {
        if differs_from_next[o] {
            out.push(corners[o]);
        }
        o = o + 1;
    }
    out
}

/// The triangles that cover a border: two for a quadrilateral, one for a
/// triangle, none for a line or a point.
pub open spec fn triangles_of<T>(border: Seq<T>) -> Seq<Seq<T>> {
    if border.len() == 4 {
        seq![seq![border[0], border[3], border[2]], seq![border[0], border[2], border[1]]]
    } else if border.len() == 3 {
        seq![seq![border[0], border[2], border[1]]]
    } else {
        Seq::empty()
    }
}

/// Splits a border into triangles.
pub fn triangulate<T: Copy>(border: &Vec<T>) -> (triangles: Vec<[T; 3]>)
    ensures
        triangles@.len() == triangles_of(border@).len(),
        forall|i: int| 0 <= i < triangles@.len() ==> #[trigger] triangles@[i]@ == triangles_of(border@)[i],
{
    if border.len() == 4 {
        let first = [border[0], border[3], border[2]];
        let second = [border[0], border[2], border[1]];
        assert(first@ == seq![border@[0], border@[3], border@[2]]);
        assert(second@ == seq![border@[0], border@[2], border@[1]]);
        vec![first, second]
    } else if border.len() == 3 {
        let only = [border[0], border[2], border[1]];
        assert(only@ == seq![border@[0], border@[2], border@[1]]);
        vec![only]
    } else {
        Vec::new()
    }
}

/// The cells next to `grid_index`: left, right, above, below.
pub open spec fn adjacents(grid_index: V2) -> Seq<(int, int)> {
    let x = grid_index.x as int;
    let y = grid_index.y as int;
    seq![(x - 1, y), (x + 1, y), (x, y - 1), (x, y + 1)]
}

/// The four cells next to `grid_index`, in the order in which a tile takes
/// in the triangles of its neighbours.
pub fn adjacent_indices(grid_index: &V2) -> (res: [V2; 4])
    requires
        0 < grid_index.x < usize::MAX,
        0 < grid_index.y < usize::MAX,
    ensures
        forall|o: int| 0 <= o < 4 ==> as_pair(#[trigger] res@[o]) == adjacents(*grid_index)[o],
{
    let x = grid_index.x;
    let y = grid_index.y;
    [v2(x - 1, y), v2(x + 1, y), v2(x, y - 1), v2(x, y + 1)]
}

/// Whether a tile takes in the triangles of the neighbouring cell `adjacent`:
/// only when no edge runs through that cell and it holds one or two
/// triangles.
pub fn takes_adjacent_triangles(edge: &BoolMatrix, adjacent: &V2, triangle_count: usize) -> (res: bool)
    requires
        adjacent.x < bool_matrix_shape(*edge).0,
        adjacent.y < bool_matrix_shape(*edge).1,
    ensures
        res == takes_triangles(bool_matrix_cells(*edge), as_pair(*adjacent), triangle_count as nat),
{
    let has_edge = edge.get(adjacent.x, adjacent.y);
    !has_edge && (triangle_count == 1 || triangle_count == 2)
}

/// The grid cell of the tile at `tile`, as a grid coordinate.
pub open spec fn tile_cell(tile: V2) -> V2 {
    V2 { x: (2 * tile.x + 1) as usize, y: (2 * tile.y + 1) as usize }
}

/// Whether a tile takes in the `count` triangles of the neighbouring cell
/// `cell` of a terrain whose edge cells are `edge_cells`.
pub open spec fn takes_triangles(edge_cells: Map<(int, int), bool>, cell: (int, int), count: nat) -> bool {
    !edge_cells[cell] && (count == 1 || count == 2)
}

/// The triangles that a tile takes in from the first `n` of its neighbouring
/// cells `cells`, whose triangles are `neighbours`, in that order.
pub open spec fn taken_triangles<T>(
    edge_cells: Map<(int, int), bool>,
    cells: Seq<(int, int)>,
    neighbours: Seq<Seq<[T; 3]>>,
    n: nat,
) -> Seq<[T; 3]>
    decreases n,
{
    if n == 0 {
        Seq::empty()
    } else {
        let o = n - 1;
        let rest = taken_triangles(edge_cells, cells, neighbours, (n - 1) as nat);
        if takes_triangles(edge_cells, cells[o], neighbours[o].len()) {
            rest + neighbours[o]
        } else {
            rest
        }
    }
}

/// The triangles that cover a tile: its own, then those of each neighbouring
/// cell (left, right, above, below) that no edge runs through and that holds
/// one or two triangles. `neighbours` holds the triangles of those four cells
/// in that order, already fitted to the tile.
pub fn tile_triangles<T: Copy>(
    edge: &BoolMatrix,
    tile_coordinate: &V2,
    own: Vec<[T; 3]>,
    neighbours: &Vec<Vec<[T; 3]>>,
) -> (out: Vec<[T; 3]>)
    requires
        2 * tile_coordinate.x + 2 < usize::MAX,
        2 * tile_coordinate.y + 2 < usize::MAX,
        2 * tile_coordinate.x + 2 < bool_matrix_shape(*edge).0,
        2 * tile_coordinate.y + 2 < bool_matrix_shape(*edge).1,
        neighbours@.len() == 4,
    ensures
        out@ == own@ + taken_triangles(
            bool_matrix_cells(*edge),
            adjacents(tile_cell(*tile_coordinate)),
            neighbours@.map_values(|v: Vec<[T; 3]>| v@),
            4,
        ),
{
    let ghost cells = bool_matrix_cells(*edge);
    let ghost adjacent = adjacents(tile_cell(*tile_coordinate));
    let ghost views = neighbours@.map_values(|v: Vec<[T; 3]>| v@);
    let ghost own_view = own@;
    let grid_index = get_index_for_tile(tile_coordinate);
    let adjacent_cells = adjacent_indices(&grid_index);
    assert(adjacent == adjacents(grid_index));
    let mut out = own;
    let mut o: usize = 0;
    while o < 4
        invariant
            o <= 4,
            neighbours@.len() == 4,
            views == neighbours@.map_values(|v: Vec<[T; 3]>| v@),
            cells == bool_matrix_cells(*edge),
            grid_index.x + 1 < bool_matrix_shape(*edge).0,
            grid_index.y + 1 < bool_matrix_shape(*edge).1,
            0 < grid_index.x,
            0 < grid_index.y,
            forall|k: int| 0 <= k < 4 ==> as_pair(#[trigger] adjacent_cells@[k]) == adjacent[k],
            adjacent == adjacents(grid_index),
            out@ == own_view + taken_triangles(cells, adjacent, views, o as nat),
        decreases 4 - o,
    {
        let triangles = &neighbours[o];
        let cell = adjacent_cells[o];
        assert(as_pair(adjacent_cells@[o as int]) == adjacent[o as int]);
        assert(views[o as int] == triangles@);
        if takes_adjacent_triangles(edge, &cell, triangles.len()) {
            let ghost before = out@;
            let mut i: usize = 0;
            while i < triangles.len()
                invariant
                    i <= triangles@.len(),
                    out@ == before + triangles@.take(i as int),
                decreases triangles@.len() - i,
            {
                out.push(triangles[i]);
                i = i + 1;
                assert(out@ =~= before + triangles@.take(i as int));
            }
            assert(triangles@.take(triangles@.len() as int) =~= triangles@);
            assert(out@ =~= own_view + taken_triangles(cells, adjacent, views, (o + 1) as nat));
        }
        o = o + 1;
    }
    out
}

/// Whether some edge of `edges` sits at `cell`.
pub open spec fn has_edge_at(edges: Seq<Edge>, cell: (int, int)) -> bool {
    exists|k: int| 0 <= k < edges.len() && edge_index(#[trigger] edges[k]) == cell
}

/// The edge cells of a `width` by `height` terrain.
pub open spec fn edge_cells(width: nat, height: nat, edges: Seq<Edge>) -> Map<(int, int), bool> {
    Map::new(
        |k: (int, int)| 0 <= k.0 < 2 * width && 0 <= k.1 < 2 * height,
        |k: (int, int)| has_edge_at(edges, k),
    )
}

/// An edge sits at a cell of `s.push(e)` when it sits there in `s` or `e`
/// sits there.
proof fn lemma_has_edge_at_push(s: Seq<Edge>, e: Edge)
    ensures
        forall|k: (int, int)|
            #[trigger] has_edge_at(s.push(e), k) == (has_edge_at(s, k) || edge_index(e) == k),
{
    assert forall|k: (int, int)|
        #[trigger] has_edge_at(s.push(e), k) == (has_edge_at(s, k) || edge_index(e) == k) by {
        let t = s.push(e);
        if has_edge_at(s, k) {
            let w = choose|w: int| 0 <= w < s.len() && edge_index(#[trigger] s[w]) == k;
            assert(t[w] == s[w]);
        }
        if edge_index(e) == k {
            assert(t[s.len() as int] == e);
        }
        if has_edge_at(t, k) {
            let w = choose|w: int| 0 <= w < t.len() && edge_index(#[trigger] t[w]) == k;
            if w < s.len() {
                assert(t[w] == s[w]);
            }
        }
    }
}

/// Marks the grid cell of every edge in a `2 * width` by `2 * height` matrix.
pub fn get_edge_matrix(width: usize, height: usize, edges: &Vec<Edge>) -> (out: BoolMatrix)
    requires
        2 * width <= usize::MAX,
        2 * height <= usize::MAX,
        (2 * width) * (2 * height) <= isize::MAX,
        forall|k: int|
            0 <= k < edges@.len() ==> {
                &&& #[trigger] edge_index(edges@[k]).0 < 2 * width
                &&& edge_index(edges@[k]).1 < 2 * height
            },
    ensures
        bool_matrix_shape(out) == ((2 * width) as nat, (2 * height) as nat),
        bool_matrix_cells(out) == edge_cells(width as nat, height as nat, edges@),
{
    let rows = width * 2;
    let cols = height * 2;
    let mut out = BoolMatrix::from_element(rows, cols, false);
    let mut i: usize = 0;
    while i < edges.len()
        invariant
            i <= edges@.len(),
            rows == 2 * width,
            cols == 2 * height,
            forall|k: int|
                0 <= k < edges@.len() ==> {
                    &&& #[trigger] edge_index(edges@[k]).0 < 2 * width
                    &&& edge_index(edges@[k]).1 < 2 * height
                },
            bool_matrix_shape(out) == (rows as nat, cols as nat),
            bool_matrix_cells(out) == Map::new(
                |k: (int, int)| 0 <= k.0 < rows && 0 <= k.1 < cols,
                |k: (int, int)| has_edge_at(edges@.take(i as int), k),
            ),
        decreases edges@.len() - i,
    {
        let edge = &edges[i];
        assert(edge_index(edges@[i as int]).0 < 2 * width);
        let position = get_index_for_edge(edge);
        out.set(position.x, position.y, true);
        proof {
            let before = edges@.take(i as int);
            let after = edges@.take(i as int + 1);
            assert(after =~= before.push(edges@[i as int]));
            lemma_has_edge_at_push(before, edges@[i as int]);
            assert(bool_matrix_cells(out) =~= Map::new(
                |k: (int, int)| 0 <= k.0 < rows && 0 <= k.1 < cols,
                |k: (int, int)| has_edge_at(after, k),
            ));
        }
        i = i + 1;
    }
    assert(edges@.take(edges@.len() as int) =~= edges@);
    out
}

/// Edges are canonical: an edge between two nodes that share a row or a
/// column is the same whichever end it is built from, and its first node
/// never lies beyond its second.
pub proof fn lemma_edge_is_canonical(a: V2, b: V2)
    requires
        a.x == b.x || a.y == b.y,
    ensures
        !is_diagonal(a, b),
        !is_diagonal(b, a),
        canonical_edge(a, b) == canonical_edge(b, a),
        canonical_edge(a, b).0.x <= canonical_edge(a, b).1.x,
        canonical_edge(a, b).0.y <= canonical_edge(a, b).1.y,
{
}

/// An edge is horizontal exactly when the nodes it was built from share a
/// row.
pub proof fn lemma_edge_horizontal(a: V2, b: V2, e: Edge)
    requires
        !is_diagonal(a, b),
        (e.spec_from(), e.spec_to()) == canonical_edge(a, b),
    ensures
        e.spec_horizontal() == (a.y == b.y),
{
}

/// The cell of an edge between two neighbouring nodes lies halfway between
/// the cells of those nodes.
pub proof fn lemma_edge_cell_between_nodes(a: V2, b: V2, e: Edge)
    requires
        (a.x == b.x && (a.y + 1 == b.y || b.y + 1 == a.y)) || (a.y == b.y && (a.x + 1 == b.x
            || b.x + 1 == a.x)),
        (e.spec_from(), e.spec_to()) == canonical_edge(a, b),
    ensures
        2 * edge_index(e).0 == node_index(a).0 + node_index(b).0,
        2 * edge_index(e).1 == node_index(a).1 + node_index(b).1,
{
}

/// The four cells next to a tile are the cells of the four edges around it:
/// left, right, top and bottom.
pub proof fn lemma_tile_neighbours_are_edge_cells(t: V2, left: Edge, right: Edge, top: Edge, bottom: Edge)
    requires
        2 * t.x + 2 <= usize::MAX,
        2 * t.y + 2 <= usize::MAX,
        (left.spec_from(), left.spec_to()) == canonical_edge(t, V2 { x: t.x, y: (t.y + 1) as usize }),
        (right.spec_from(), right.spec_to()) == canonical_edge(
            V2 { x: (t.x + 1) as usize, y: t.y },
            V2 { x: (t.x + 1) as usize, y: (t.y + 1) as usize },
        ),
        (top.spec_from(), top.spec_to()) == canonical_edge(t, V2 { x: (t.x + 1) as usize, y: t.y }),
        (bottom.spec_from(), bottom.spec_to()) == canonical_edge(
            V2 { x: t.x, y: (t.y + 1) as usize },
            V2 { x: (t.x + 1) as usize, y: (t.y + 1) as usize },
        ),
    ensures
        ({
            let cell = V2 { x: (2 * t.x + 1) as usize, y: (2 * t.y + 1) as usize };
            &&& as_pair(cell) == tile_index(t)
            &&& adjacents(cell) == seq![
                edge_index(left),
                edge_index(right),
                edge_index(top),
                edge_index(bottom),
            ]
        }),
{
    let cell = V2 { x: (2 * t.x + 1) as usize, y: (2 * t.y + 1) as usize };
    assert(adjacents(cell) =~= seq![
        edge_index(left),
        edge_index(right),
        edge_index(top),
        edge_index(bottom),
    ]);
}


/// A tile takes in each of its four neighbouring cells on its own merit: the
/// triangles it takes in are those of the first neighbour, then the second,
/// third and fourth, each present exactly when no edge runs through that
/// neighbour's cell and it holds one or two triangles, and absent otherwise.
pub proof fn lemma_tile_takes_each_free_neighbour<T>(
    edge_cells: Map<(int, int), bool>,
    cells: Seq<(int, int)>,
    neighbours: Seq<Seq<[T; 3]>>,
)
    requires
        cells.len() == 4,
        neighbours.len() == 4,
    ensures
        ({
            let piece = |o: int|
                if !edge_cells[cells[o]] && (neighbours[o].len() == 1 || neighbours[o].len() == 2) {
                    neighbours[o]
                } else {
                    Seq::<[T; 3]>::empty()
                };
            taken_triangles(edge_cells, cells, neighbours, 4) == piece(0) + piece(1) + piece(2) + piece(3)
        }),
        taken_triangles(edge_cells, cells, neighbours, 4).len() == (if !edge_cells[cells[0]] && (
        neighbours[0].len() == 1 || neighbours[0].len() == 2) {
            neighbours[0].len()
        } else {
            0
        }) + (if !edge_cells[cells[1]] && (neighbours[1].len() == 1 || neighbours[1].len() == 2) {
            neighbours[1].len()
        } else {
            0
        }) + (if !edge_cells[cells[2]] && (neighbours[2].len() == 1 || neighbours[2].len() == 2) {
            neighbours[2].len()
        } else {
            0
        }) + (if !edge_cells[cells[3]] && (neighbours[3].len() == 1 || neighbours[3].len() == 2) {
            neighbours[3].len()
        } else {
            0
        }),
{
    let piece = |o: int|
        if !edge_cells[cells[o]] && (neighbours[o].len() == 1 || neighbours[o].len() == 2) {
            neighbours[o]
        } else {
            Seq::<[T; 3]>::empty()
        };
    reveal_with_fuel(taken_triangles, 5);
    let t0 = taken_triangles(edge_cells, cells, neighbours, 0);
    let t1 = taken_triangles(edge_cells, cells, neighbours, 1);
    let t2 = taken_triangles(edge_cells, cells, neighbours, 2);
    let t3 = taken_triangles(edge_cells, cells, neighbours, 3);
    let t4 = taken_triangles(edge_cells, cells, neighbours, 4);
    assert(t0 =~= Seq::<[T; 3]>::empty());
    assert(t1 =~= piece(0));
    assert(t2 =~= piece(0) + piece(1));
    assert(t3 =~= piece(0) + piece(1) + piece(2));
    assert(t4 =~= piece(0) + piece(1) + piece(2) + piece(3));
}

/// The four neighbouring cells that a tile looks at are those left of,
/// right of, above and below its own cell, in that order.
pub proof fn lemma_tile_looks_at_all_four_sides(tile: V2)
    requires
        2 * tile.x + 1 <= usize::MAX,
        2 * tile.y + 1 <= usize::MAX,
    ensures
        adjacents(tile_cell(tile)).len() == 4,
        adjacents(tile_cell(tile))[0] == (2 * tile.x, 2 * tile.y + 1),
        adjacents(tile_cell(tile))[1] == (2 * tile.x + 2, 2 * tile.y + 1),
        adjacents(tile_cell(tile))[2] == (2 * tile.x + 1, 2 * tile.y),
        adjacents(tile_cell(tile))[3] == (2 * tile.x + 1, 2 * tile.y + 2),
{
}

} // verus!
