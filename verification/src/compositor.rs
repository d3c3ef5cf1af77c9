//! The scene compositor: resolves room walls to boxes, dispatches every
//! element variant to its primitive geometry, and concatenates the results
//! into one mesh with index rebasing.

use vstd::prelude::*;
use crate::fixed::{
    abs_i, div_trunc, div_trunc_i64, floor_sqrt, fx_mul, isqrt_u64, lemma_div_trunc_bounds,
    lemma_div_trunc_double, lemma_floor_sqrt_abs, lemma_mul_bound, mul_fx, Vec2Fx, Vec3Fx,
    COORD_LIMIT, SCALE,
};
use crate::mesh::{lemma_mesh_concat_wf, mesh_concat, GeometryError, Mesh, MeshView};
use crate::primitives::{
    box_indices, box_vertices, create_box, create_cylinder, create_plane, cylinder_indices,
    cylinder_vertices, plane_indices, plane_vertices,
};
use crate::scene::{
    ColumnShape, Element, Furniture, FurnitureType, Room, Scene, Stairs, Wall, WallSide,
};

verus! {

/// Thickness of every room wall, in sub-units (0.2 world units).
pub const WALL_THICKNESS: i64 = 200;

/// Truncating halving: the compositor's rounding for midpoints and spans.
pub open spec fn half(a: int) -> int {
    div_trunc(a, 2)
}

/// Where a room wall's box is centered: mid-height, over the middle of the
/// room's edge for the requested side (North +Z, South -Z, East +X,
/// West -X).
pub open spec fn wall_center(room: Room, side: WallSide) -> Vec3Fx {
    let px = room.position.x as int;
    let py = room.position.y as int;
    let pz = room.position.z as int;
    let hw = half(room.dimensions.width as int);
    let hh = half(room.dimensions.height as int);
    let hd = half(room.dimensions.depth as int);
    match side {
        WallSide::North => Vec3Fx { x: px as i64, y: (py + hh) as i64, z: (pz + hd) as i64 },
        WallSide::South => Vec3Fx { x: px as i64, y: (py + hh) as i64, z: (pz - hd) as i64 },
        WallSide::East => Vec3Fx { x: (px + hw) as i64, y: (py + hh) as i64, z: pz as i64 },
        WallSide::West => Vec3Fx { x: (px - hw) as i64, y: (py + hh) as i64, z: pz as i64 },
    }
}

/// The resolved span of a room edge: the magnitude of twice the truncated
/// half extent.
pub open spec fn edge_span(extent: i64) -> int {
    abs_i(2 * half(extent as int))
}

/// The wall box's dimensions. The long axis follows the edge — X for
/// North/South, Z for East/West — and the short axis is the fixed
/// thickness; swapping them would stand the wall rotated a quarter turn.
pub open spec fn wall_size(room: Room, side: WallSide) -> Vec3Fx {
    let len_w = edge_span(room.dimensions.width);
    let len_d = edge_span(room.dimensions.depth);
    let h = room.dimensions.height;
    match side {
        WallSide::North => Vec3Fx { x: len_w as i64, y: h, z: WALL_THICKNESS },
        WallSide::South => Vec3Fx { x: len_w as i64, y: h, z: WALL_THICKNESS },
        WallSide::East => Vec3Fx { x: WALL_THICKNESS, y: h, z: len_d as i64 },
        WallSide::West => Vec3Fx { x: WALL_THICKNESS, y: h, z: len_d as i64 },
    }
}

/// The wall box has positive extent on every axis.
pub open spec fn wall_valid(room: Room, side: WallSide) -> bool {
    wall_size(room, side).x > 0 && wall_size(room, side).y > 0 && wall_size(room, side).z > 0
}

/// The mesh of one room wall.
pub open spec fn wall_box_mesh(room: Room, side: WallSide) -> MeshView {
    MeshView {
        vertices: box_vertices(wall_center(room, side), wall_size(room, side)),
        indices: box_indices(),
    }
}

/// The floor of the Euclidean distance between two points.
pub open spec fn seg_len(a: Vec3Fx, b: Vec3Fx) -> int {
    floor_sqrt((b.x - a.x) * (b.x - a.x) + (b.y - a.y) * (b.y - a.y) + (b.z - a.z) * (b.z - a.z))
}

/// Euclidean distance, rounded down, for points whose coordinates differ
/// by a bounded amount on each axis.
pub fn segment_length(a: Vec3Fx, b: Vec3Fx) -> (r: i64)
    requires
        -2_400_000_000 <= b.x - a.x <= 2_400_000_000,
        -2_400_000_000 <= b.y - a.y <= 2_400_000_000,
        -2_400_000_000 <= b.z - a.z <= 2_400_000_000,
    ensures
        r as int == seg_len(a, b),
        crate::fixed::is_floor_sqrt(
            (b.x - a.x) * (b.x - a.x) + (b.y - a.y) * (b.y - a.y) + (b.z - a.z) * (b.z - a.z),
            r as int,
        ),
        0 <= r <= 4_200_000_000,
{
    let dx = b.x - a.x;
    let dy = b.y - a.y;
    let dz = b.z - a.z;
    let ax: u64 = if dx >= 0 {
        dx as u64
    } else {
        (-dx) as u64
    };
    let ay: u64 = if dy >= 0 {
        dy as u64
    } else {
        (-dy) as u64
    };
    let az: u64 = if dz >= 0 {
        dz as u64
    } else {
        (-dz) as u64
    };
    proof {
        lemma_mul_bound(ax as int, ax as int, 2_400_000_000, 2_400_000_000);
        lemma_mul_bound(ay as int, ay as int, 2_400_000_000, 2_400_000_000);
        lemma_mul_bound(az as int, az as int, 2_400_000_000, 2_400_000_000);
        assert((ax as int) * (ax as int) == (dx as int) * (dx as int)) by (nonlinear_arith)
            requires
                ax as int == dx as int || ax as int == -(dx as int),
        ;
        assert((ay as int) * (ay as int) == (dy as int) * (dy as int)) by (nonlinear_arith)
            requires
                ay as int == dy as int || ay as int == -(dy as int),
        ;
        assert((az as int) * (az as int) == (dz as int) * (dz as int)) by (nonlinear_arith)
            requires
                az as int == dz as int || az as int == -(dz as int),
        ;
    }
    let s = ax * ax + ay * ay + az * az;
    let r64 = isqrt_u64(s);
    proof {
        assert(r64 as int <= 4_200_000_000) by (nonlinear_arith)
            requires
                (r64 as int) * (r64 as int) <= s as int,
                s as int <= 17_280_000_000_000_000_000,
                r64 >= 0,
        ;
    }
    r64 as i64
}

/// One wall of a room: the box over the requested edge, at the fixed
/// thickness, mid-height over the room's base. A wall's openings are not
/// yet subtracted from its box. Rejects degenerate walls: a resolved span
/// of zero or a non-positive room height.
pub fn create_room_wall(room: &Room, side: WallSide) -> (r: Result<Mesh, GeometryError>)
    requires
        room.wf(),
    ensures
        r is Ok <==> wall_valid(*room, side),
        r is Err ==> r->Err_0 == GeometryError::InvalidDimension,
        r is Ok ==> (r->Ok_0)@ == wall_box_mesh(*room, side),
        r is Ok ==> (r->Ok_0)@.vertices.len() == 24 && (r->Ok_0)@.indices.len() == 36,
        r is Ok ==> (r->Ok_0)@.wf(),
{
    let hw = div_trunc_i64(room.dimensions.width, 2);
    let hd = div_trunc_i64(room.dimensions.depth, 2);
    let hh = div_trunc_i64(room.dimensions.height, 2);
    let p = room.position;
    let (start, end) = match side {
        WallSide::North => (
            Vec3Fx { x: p.x - hw, y: p.y, z: p.z + hd },
            Vec3Fx { x: p.x + hw, y: p.y, z: p.z + hd },
        ),
        WallSide::South => (
            Vec3Fx { x: p.x + hw, y: p.y, z: p.z - hd },
            Vec3Fx { x: p.x - hw, y: p.y, z: p.z - hd },
        ),
        WallSide::East => (
            Vec3Fx { x: p.x + hw, y: p.y, z: p.z + hd },
            Vec3Fx { x: p.x + hw, y: p.y, z: p.z - hd },
        ),
        WallSide::West => (
            Vec3Fx { x: p.x - hw, y: p.y, z: p.z - hd },
            Vec3Fx { x: p.x - hw, y: p.y, z: p.z + hd },
        ),
    };
    let cx = div_trunc_i64(start.x + end.x, 2);
    let cy = div_trunc_i64(start.y + end.y, 2);
    let cz = div_trunc_i64(start.z + end.z, 2);
    let center = Vec3Fx { x: cx, y: cy + hh, z: cz };
    let wall_length = segment_length(start, end);
    let size = match side {
        WallSide::North | WallSide::South => Vec3Fx {
            x: wall_length,
            y: room.dimensions.height,
            z: WALL_THICKNESS,
        },
        WallSide::East | WallSide::West => Vec3Fx {
            x: WALL_THICKNESS,
            y: room.dimensions.height,
            z: wall_length,
        },
    };
    proof {
        lemma_div_trunc_double(p.x as int);
        lemma_div_trunc_double(p.y as int);
        lemma_div_trunc_double(p.z as int);
        lemma_div_trunc_double(p.x as int + hw as int);
        lemma_div_trunc_double(p.x as int - hw as int);
        lemma_div_trunc_double(p.z as int + hd as int);
        lemma_div_trunc_double(p.z as int - hd as int);
        assert((end.y - start.y) * (end.y - start.y) == 0) by (nonlinear_arith)
            requires
                end.y == start.y,
        ;
        match side {
            WallSide::North | WallSide::South => {
                assert((end.z - start.z) * (end.z - start.z) == 0) by (nonlinear_arith)
                    requires
                        end.z == start.z,
                ;
                lemma_floor_sqrt_abs(end.x as int - start.x as int);
            },
            WallSide::East | WallSide::West => {
                assert((end.x - start.x) * (end.x - start.x) == 0) by (nonlinear_arith)
                    requires
                        end.x == start.x,
                ;
                lemma_floor_sqrt_abs(end.z as int - start.z as int);
            },
        }
        assert(center == wall_center(*room, side));
        assert(size == wall_size(*room, side));
    }
    create_box(center, size)
}

/// The sixteen rim directions used for round columns: the fixed-point unit
/// circle at equal steps (cosine then sine), each component the nearest
/// integer at this scale.
pub open spec fn ring16() -> Seq<Vec2Fx> {
    seq![
        Vec2Fx { x: 1000, y: 0 },
        Vec2Fx { x: 924, y: 383 },
        Vec2Fx { x: 707, y: 707 },
        Vec2Fx { x: 383, y: 924 },
        Vec2Fx { x: 0, y: 1000 },
        Vec2Fx { x: (-383) as i64, y: 924 },
        Vec2Fx { x: (-707) as i64, y: 707 },
        Vec2Fx { x: (-924) as i64, y: 383 },
        Vec2Fx { x: (-1000) as i64, y: 0 },
        Vec2Fx { x: (-924) as i64, y: (-383) as i64 },
        Vec2Fx { x: (-707) as i64, y: (-707) as i64 },
        Vec2Fx { x: (-383) as i64, y: (-924) as i64 },
        Vec2Fx { x: 0, y: (-1000) as i64 },
        Vec2Fx { x: 383, y: (-924) as i64 },
        Vec2Fx { x: 707, y: (-707) as i64 },
        Vec2Fx { x: 924, y: (-383) as i64 },
    ]
}

/// Builds the sixteen-direction rim table.
pub fn sixteen_ring() -> (r: Vec<Vec2Fx>)
    ensures
        r@ == ring16(),
        r@.len() == 16,
        forall|i: int|
            0 <= i < r@.len() ==> -SCALE <= (#[trigger] r@[i]).x <= SCALE && -SCALE <= r@[i].y
                <= SCALE,
{
    let mut r: Vec<Vec2Fx> = Vec::new();
    r.push(Vec2Fx { x: 1000, y: 0 });
    r.push(Vec2Fx { x: 924, y: 383 });
    r.push(Vec2Fx { x: 707, y: 707 });
    r.push(Vec2Fx { x: 383, y: 924 });
    r.push(Vec2Fx { x: 0, y: 1000 });
    r.push(Vec2Fx { x: -383, y: 924 });
    r.push(Vec2Fx { x: -707, y: 707 });
    r.push(Vec2Fx { x: -924, y: 383 });
    r.push(Vec2Fx { x: -1000, y: 0 });
    r.push(Vec2Fx { x: -924, y: -383 });
    r.push(Vec2Fx { x: -707, y: -707 });
    r.push(Vec2Fx { x: -383, y: -924 });
    r.push(Vec2Fx { x: 0, y: -1000 });
    r.push(Vec2Fx { x: 383, y: -924 });
    r.push(Vec2Fx { x: 707, y: -707 });
    r.push(Vec2Fx { x: 924, y: -383 });
    proof {
        assert(r@ =~= ring16());
    }
    r
}

/// The upward axis normal.
pub open spec fn up_normal() -> Vec3Fx {
    Vec3Fx { x: 0, y: SCALE, z: 0 }
}

/// The downward axis normal.
pub open spec fn down_normal() -> Vec3Fx {
    Vec3Fx { x: 0, y: (-SCALE) as i64, z: 0 }
}

/// A free wall's box center: the segment midpoint at half the wall height.
pub open spec fn wall_elem_center(w: Wall) -> Vec3Fx {
    Vec3Fx {
        x: half(w.start.x + w.end.x) as i64,
        y: half(w.height as int) as i64,
        z: half(w.start.z + w.end.z) as i64,
    }
}

/// A free wall's box size: resolved segment length, height, thickness.
pub open spec fn wall_elem_size(w: Wall) -> Vec3Fx {
    Vec3Fx { x: seg_len(w.start, w.end) as i64, y: w.height, z: w.thickness }
}

/// A ceiling's plane center: its position lifted to its declared height.
pub open spec fn ceiling_center(c: crate::scene::Ceiling) -> Vec3Fx {
    Vec3Fx { x: c.position.x, y: c.height, z: c.position.z }
}

/// A square or hexagonal column's box: footprint twice the radius, raised
/// by half the height.
pub open spec fn column_box_center(c: crate::scene::Column) -> Vec3Fx {
    Vec3Fx { x: c.position.x, y: (c.position.y + half(c.height as int)) as i64, z: c.position.z }
}

pub open spec fn column_box_size(c: crate::scene::Column) -> Vec3Fx {
    Vec3Fx { x: (2 * c.radius as int) as i64, y: c.height, z: (2 * c.radius as int) as i64 }
}

/// Step `i` of a stair run: risen and advanced by `i` steps plus half a
/// step, so the box sits on the run's rising diagonal.
pub open spec fn step_box_center(st: Stairs, i: int) -> Vec3Fx {
    Vec3Fx {
        x: st.position.x,
        y: (st.position.y + i * (st.step_height as int) + half(st.step_height as int)) as i64,
        z: (st.position.z + i * (st.step_depth as int) + half(st.step_depth as int)) as i64,
    }
}

pub open spec fn step_box_size(st: Stairs) -> Vec3Fx {
    Vec3Fx { x: st.width, y: st.step_height, z: st.step_depth }
}

/// The first `i` step boxes of a stair run, concatenated in order.
pub open spec fn stairs_mesh(st: Stairs, i: int) -> MeshView
    decreases i,
{
    if i <= 0 {
        MeshView::empty()
    } else {
        mesh_concat(
            stairs_mesh(st, i - 1),
            MeshView {
                vertices: box_vertices(step_box_center(st, i - 1), step_box_size(st)),
                indices: box_indices(),
            },
        )
    }
}

/// The first `i` walls of a room, concatenated in order.
pub open spec fn room_walls_mesh(room: Room, i: int) -> MeshView
    decreases i,
{
    if i <= 0 {
        MeshView::empty()
    } else {
        mesh_concat(room_walls_mesh(room, i - 1), wall_box_mesh(room, room.walls@[i - 1].side))
    }
}

/// A table top's box center: the top slab sits just under the table height.
pub open spec fn table_top_center(f: Furniture, height: i64) -> Vec3Fx {
    Vec3Fx { x: f.position.x, y: (f.position.y + height - 50) as i64, z: f.position.z }
}

/// Leg `k` of a table (0 to 3): offset by four tenths of the width and
/// depth toward each corner, raised by half the height.
pub open spec fn table_leg_center(f: Furniture, width: i64, depth: i64, height: i64, k: int) -> Vec3Fx {
    let lx = fx_mul(width as int, 400);
    let lz = fx_mul(depth as int, 400);
    let sx = if k == 0 || k == 2 {
        -lx
    } else {
        lx
    };
    let sz = if k < 2 {
        -lz
    } else {
        lz
    };
    Vec3Fx {
        x: (f.position.x + sx) as i64,
        y: (f.position.y + half(height as int)) as i64,
        z: (f.position.z + sz) as i64,
    }
}

pub open spec fn table_leg_size(height: i64) -> Vec3Fx {
    Vec3Fx { x: 50, y: (height - 100) as i64, z: 50 }
}

pub open spec fn table_leg_mesh(f: Furniture, width: i64, depth: i64, height: i64, k: int) -> MeshView {
    MeshView {
        vertices: box_vertices(table_leg_center(f, width, depth, height, k), table_leg_size(height)),
        indices: box_indices(),
    }
}

/// A table: one top box and four leg boxes. Any other furniture kind falls
/// back to a unit box at its position — those kinds are declared in the
/// data model but have no dedicated geometry yet.
pub open spec fn furniture_mesh(f: Furniture) -> MeshView {
    match f.furniture_type {
        FurnitureType::Table { width, depth, height } => {
            let top = MeshView {
                vertices: box_vertices(
                    table_top_center(f, height),
                    Vec3Fx { x: width, y: 100, z: depth },
                ),
                indices: box_indices(),
            };
            let m1 = mesh_concat(top, table_leg_mesh(f, width, depth, height, 0));
            let m2 = mesh_concat(m1, table_leg_mesh(f, width, depth, height, 1));
            let m3 = mesh_concat(m2, table_leg_mesh(f, width, depth, height, 2));
            mesh_concat(m3, table_leg_mesh(f, width, depth, height, 3))
        },
        _ => MeshView {
            vertices: box_vertices(f.position, Vec3Fx { x: 1000, y: 1000, z: 1000 }),
            indices: box_indices(),
        },
    }
}

pub open spec fn furniture_valid(f: Furniture) -> bool {
    match f.furniture_type {
        FurnitureType::Table { width, depth, height } => width > 0 && depth > 0 && height > 100,
        _ => true,
    }
}

/// A room's geometry succeeds when each of its walls does and the wall
/// boxes together fit 16-bit indexing.
pub open spec fn room_valid(room: Room) -> bool {
    24 * room.walls@.len() <= 65536 && forall|i: int|
        0 <= i < room.walls@.len() ==> wall_valid(room, (#[trigger] room.walls@[i]).side)
}

pub open spec fn stairs_valid(st: Stairs) -> bool {
    st.steps == 0 || (st.width > 0 && st.step_height > 0 && st.step_depth > 0 && 24 * (
    st.steps as int) <= 65536)
}

/// Whether the element's geometry rule succeeds on its parameters.
pub open spec fn element_valid(e: Element) -> bool {
    match e {
        Element::Room(room) => room_valid(room),
        Element::Wall(w) => seg_len(w.start, w.end) > 0 && w.height > 0 && w.thickness > 0,
        Element::Floor(f) => f.dimensions.x > 0 && f.dimensions.y > 0,
        Element::Ceiling(c) => c.dimensions.x > 0 && c.dimensions.y > 0,
        Element::Stairs(st) => stairs_valid(st),
        Element::Column(c) => c.radius > 0 && c.height > 0,
        Element::Furniture(f) => furniture_valid(f),
    }
}

/// The error an element's geometry rule reports when it fails: a size cap
/// breach for rooms and stair runs whose dimensions are fine, a dimension
/// complaint otherwise.
pub open spec fn element_error(e: Element) -> GeometryError {
    match e {
        Element::Room(room) => if 24 * room.walls@.len() > 65536 {
            GeometryError::IndexOverflow
        } else {
            GeometryError::InvalidDimension
        },
        Element::Stairs(st) => if st.width <= 0 || st.step_height <= 0 || st.step_depth <= 0 {
            GeometryError::InvalidDimension
        } else {
            GeometryError::IndexOverflow
        },
        _ => GeometryError::InvalidDimension,
    }
}

/// The mesh each element variant resolves to.
pub open spec fn element_mesh(e: Element) -> MeshView {
    match e {
        Element::Room(room) => room_walls_mesh(room, room.walls@.len() as int),
        Element::Wall(w) => MeshView {
            vertices: box_vertices(wall_elem_center(w), wall_elem_size(w)),
            indices: box_indices(),
        },
        Element::Floor(f) => MeshView {
            vertices: plane_vertices(f.position, f.dimensions, up_normal()),
            indices: plane_indices(up_normal()),
        },
        Element::Ceiling(c) => MeshView {
            vertices: plane_vertices(ceiling_center(c), c.dimensions, down_normal()),
            indices: plane_indices(down_normal()),
        },
        Element::Stairs(st) => stairs_mesh(st, st.steps as int),
        Element::Column(c) => match c.shape {
            ColumnShape::Round => MeshView {
                vertices: cylinder_vertices(c.position, c.radius, c.height, ring16()),
                indices: cylinder_indices(16),
            },
            _ => MeshView {
                vertices: box_vertices(column_box_center(c), column_box_size(c)),
                indices: box_indices(),
            },
        },
        Element::Furniture(f) => furniture_mesh(f),
    }
}

/// The walls of a room, concatenated in declaration order with index
/// rebasing; overlapping walls (two specs for one side) are kept as they
/// come.
pub fn room_to_mesh(room: &Room) -> (r: Result<Mesh, GeometryError>)
    requires
        room.wf(),
    ensures
        r is Ok <==> room_valid(*room),
        r is Ok ==> (r->Ok_0)@ == room_walls_mesh(*room, room.walls@.len() as int),
        r is Ok ==> (r->Ok_0)@.wf() && (r->Ok_0)@.vertices.len() == 24 * room.walls@.len() && (
        r->Ok_0)@.indices.len() == 36 * room.walls@.len(),
        r is Err && 24 * room.walls@.len() > 65536 ==> r->Err_0 == GeometryError::IndexOverflow,
        r is Err && 24 * room.walls@.len() <= 65536 ==> r->Err_0 == GeometryError::InvalidDimension,
{
    if room.walls.len() > 2730 {
        return Err(GeometryError::IndexOverflow);
    }
    let mut mesh = Mesh::new();
    let mut i: usize = 0;
    while i < room.walls.len()
        invariant
            room.wf(),
            room.walls@.len() <= 2730,
            i <= room.walls@.len(),
            forall|j: int| 0 <= j < i ==> wall_valid(*room, (#[trigger] room.walls@[j]).side),
            mesh@ == room_walls_mesh(*room, i as int),
            mesh@.wf(),
            mesh@.vertices.len() == 24 * i,
            mesh@.indices.len() == 36 * i,
        decreases room.walls@.len() - i,
    {
        let side = room.walls[i].side;
        let wall = match create_room_wall(room, side) {
            Ok(m) => m,
            Err(e) => {
                return Err(e);
            },
        };
        proof {
            lemma_mesh_concat_wf(mesh@, wall@);
        }
        mesh.append(&wall);
        i += 1;
    }
    Ok(mesh)
}

/// A stair run: `steps` boxes, each risen and advanced by one step from
/// the last. A run of zero steps is an empty mesh.
pub fn stairs_to_mesh(stairs: &Stairs) -> (r: Result<Mesh, GeometryError>)
    requires
        stairs.wf(),
    ensures
        r is Ok <==> stairs_valid(*stairs),
        r is Ok ==> (r->Ok_0)@ == stairs_mesh(*stairs, stairs.steps as int),
        r is Ok ==> (r->Ok_0)@.wf() && (r->Ok_0)@.vertices.len() == 24 * (stairs.steps as int) && (
        r->Ok_0)@.indices.len() == 36 * (stairs.steps as int),
        r is Err ==> r->Err_0 == element_error(Element::Stairs(*stairs)),
{
    if stairs.steps == 0 {
        return Ok(Mesh::new());
    }
    if stairs.width <= 0 || stairs.step_height <= 0 || stairs.step_depth <= 0 {
        return Err(GeometryError::InvalidDimension);
    }
    if stairs.steps > 2730 {
        return Err(GeometryError::IndexOverflow);
    }
    let steps = stairs.steps as usize;
    let hy = div_trunc_i64(stairs.step_height, 2);
    let hz = div_trunc_i64(stairs.step_depth, 2);
    let mut mesh = Mesh::new();
    let mut i: usize = 0;
    while i < steps
        invariant
            stairs.wf(),
            stairs.width > 0,
            stairs.step_height > 0,
            stairs.step_depth > 0,
            steps == stairs.steps as int,
            steps <= 2730,
            i <= steps,
            hy == half(stairs.step_height as int),
            0 <= hy <= stairs.step_height,
            hz == half(stairs.step_depth as int),
            0 <= hz <= stairs.step_depth,
            mesh@ == stairs_mesh(*stairs, i as int),
            mesh@.wf(),
            mesh@.vertices.len() == 24 * i,
            mesh@.indices.len() == 36 * i,
        decreases steps - i,
    {
        proof {
            lemma_mul_bound(i as int, stairs.step_height as int, 2730, COORD_LIMIT as int);
            lemma_mul_bound(i as int, stairs.step_depth as int, 2730, COORD_LIMIT as int);
        }
        let rise = (i as i64) * stairs.step_height;
        let run = (i as i64) * stairs.step_depth;
        let center = Vec3Fx {
            x: stairs.position.x,
            y: stairs.position.y + rise + hy,
            z: stairs.position.z + run + hz,
        };
        let size = Vec3Fx { x: stairs.width, y: stairs.step_height, z: stairs.step_depth };
        let step = match create_box(center, size) {
            Ok(m) => m,
            Err(e) => {
                proof {
                    assert(false);
                }
                return Err(e);
            },
        };
        proof {
            assert(center == step_box_center(*stairs, i as int));
            lemma_mesh_concat_wf(mesh@, step@);
        }
        mesh.append(&step);
        i += 1;
    }
    Ok(mesh)
}

/// Furniture geometry: a table becomes a top slab on four corner legs;
/// every other kind falls back to a unit box at its position.
pub fn furniture_to_mesh(furniture: &Furniture) -> (r: Result<Mesh, GeometryError>)
    requires
        furniture.wf(),
    ensures
        r is Ok <==> furniture_valid(*furniture),
        r is Ok ==> (r->Ok_0)@ == furniture_mesh(*furniture),
        r is Ok ==> (r->Ok_0)@.wf() && (r->Ok_0)@.vertices.len() <= 120,
        r is Err ==> r->Err_0 == GeometryError::InvalidDimension,
{
    match &furniture.furniture_type {
        FurnitureType::Table { width, depth, height } => {
            let width = *width;
            let depth = *depth;
            let height = *height;
            if width <= 0 || depth <= 0 || height <= 100 {
                return Err(GeometryError::InvalidDimension);
            }
            proof {
                lemma_mul_bound(width as int, 400, COORD_LIMIT as int, 400);
                lemma_mul_bound(depth as int, 400, COORD_LIMIT as int, 400);
            }
            let lx = mul_fx(width, 400);
            let lz = mul_fx(depth, 400);
            let hh = div_trunc_i64(height, 2);
            let p = furniture.position;
            let top = match create_box(
                Vec3Fx { x: p.x, y: p.y + height - 50, z: p.z },
                Vec3Fx { x: width, y: 100, z: depth },
            ) {
                Ok(m) => m,
                Err(e) => {
                    proof {
                        assert(false);
                    }
                    return Err(e);
                },
            };
            let mut mesh = top;
            let leg_size = Vec3Fx { x: 50, y: height - 100, z: 50 };
            let centers: [Vec3Fx; 4] = [
                Vec3Fx { x: p.x - lx, y: p.y + hh, z: p.z - lz },
                Vec3Fx { x: p.x + lx, y: p.y + hh, z: p.z - lz },
                Vec3Fx { x: p.x - lx, y: p.y + hh, z: p.z + lz },
                Vec3Fx { x: p.x + lx, y: p.y + hh, z: p.z + lz },
            ];
            let mut k: usize = 0;
            while k < 4
                invariant
                    k <= 4,
                    furniture.wf(),
                    width > 0,
                    depth > 0,
                    height > 100,
                    furniture.furniture_type == (FurnitureType::Table { width, depth, height }),
                    p == furniture.position,
                    lx as int == fx_mul(width as int, 400),
                    0 <= lx <= width as int * 400,
                    lz as int == fx_mul(depth as int, 400),
                    0 <= lz <= depth as int * 400,
                    hh == half(height as int),
                    0 <= hh <= height,
                    leg_size == table_leg_size(height),
                    forall|j: int|
                        0 <= j < 4 ==> centers@[j] == table_leg_center(
                            *furniture,
                            width,
                            depth,
                            height,
                            j,
                        ),
                    mesh@ == table_partial_mesh(*furniture, width, depth, height, k as int),
                    mesh@.wf(),
                    mesh@.vertices.len() == 24 + 24 * k,
                decreases 4 - k,
            {
                let leg = match create_box(centers[k], leg_size) {
                    Ok(m) => m,
                    Err(e) => {
                        proof {
                            assert(false);
                        }
                        return Err(e);
                    },
                };
                proof {
                    lemma_mesh_concat_wf(mesh@, leg@);
                }
                mesh.append(&leg);
                k += 1;
            }
            proof {
                reveal_with_fuel(table_partial_mesh, 5);
                assert(mesh@ == furniture_mesh(*furniture));
            }
            Ok(mesh)
        },
        _ => {
            let r = create_box(furniture.position, Vec3Fx { x: 1000, y: 1000, z: 1000 });
            match r {
                Ok(m) => Ok(m),
                Err(e) => {
                    proof {
                        assert(false);
                    }
                    Err(e)
                },
            }
        },
    }
}

/// One element's own mesh, indices local to it. Exactly one geometry rule
/// runs per variant; the furniture fallback arm keeps future variants loud.
pub fn element_to_mesh(element: &Element) -> (r: Result<Mesh, GeometryError>)
    requires
        element.wf(),
    ensures
        r is Ok <==> element_valid(*element),
        r is Ok ==> (r->Ok_0)@ == element_mesh(*element),
        r is Ok ==> (r->Ok_0)@.wf() && (r->Ok_0)@.vertices.len() <= 65536,
        r is Err ==> r->Err_0 == element_error(*element),
{
    match element {
        Element::Room(room) => room_to_mesh(room),
        Element::Wall(w) => {
            let len = segment_length(w.start, w.end);
            let cx = div_trunc_i64(w.start.x + w.end.x, 2);
            let cy = div_trunc_i64(w.height, 2);
            let cz = div_trunc_i64(w.start.z + w.end.z, 2);
            create_box(
                Vec3Fx { x: cx, y: cy, z: cz },
                Vec3Fx { x: len, y: w.height, z: w.thickness },
            )
        },
        Element::Floor(f) => create_plane(f.position, f.dimensions, Vec3Fx { x: 0, y: SCALE, z: 0 }),
        Element::Ceiling(c) => create_plane(
            Vec3Fx { x: c.position.x, y: c.height, z: c.position.z },
            c.dimensions,
            Vec3Fx { x: 0, y: -SCALE, z: 0 },
        ),
        Element::Column(c) => match c.shape {
            ColumnShape::Round => {
                let ring = sixteen_ring();
                create_cylinder(c.position, c.radius, c.height, &ring)
            },
            ColumnShape::Square | ColumnShape::Hexagonal => {
                // hexagonal columns are not distinguished from square ones:
                // both resolve to a box (a known simplification)
                let hh = div_trunc_i64(c.height, 2);
                create_box(
                    Vec3Fx { x: c.position.x, y: c.position.y + hh, z: c.position.z },
                    Vec3Fx { x: 2 * c.radius, y: c.height, z: 2 * c.radius },
                )
            },
        },
        Element::Stairs(st) => stairs_to_mesh(st),
        Element::Furniture(f) => furniture_to_mesh(f),
    }
}

/// The base reference plane every composed scene starts from: a fixed
/// footprint 50 world units square, slightly below ground level to avoid
/// z-fighting with element floors. A presentation policy, not scene data.
pub open spec fn base_floor_mesh() -> MeshView {
    MeshView {
        vertices: plane_vertices(
            Vec3Fx { x: 0, y: (-10) as i64, z: 0 },
            Vec2Fx { x: 50000, y: 50000 },
            up_normal(),
        ),
        indices: plane_indices(up_normal()),
    }
}

/// Folds the elements onto an accumulator mesh in order: stop at the first
/// invalid element with its error, or with an index overflow as soon as the
/// running vertex count would no longer fit 16-bit indices.
pub open spec fn compose_elements(elements: Seq<Element>, acc: MeshView) -> Result<
    MeshView,
    GeometryError,
>
    decreases elements.len(),
{
    if elements.len() == 0 {
        Ok(acc)
    } else if !element_valid(elements[0]) {
        Err(element_error(elements[0]))
    } else if acc.vertices.len() + element_mesh(elements[0]).vertices.len() > 65536 {
        Err(GeometryError::IndexOverflow)
    } else {
        compose_elements(elements.drop_first(), mesh_concat(acc, element_mesh(elements[0])))
    }
}

/// What a whole scene composes to, starting from the base plane.
pub open spec fn scene_mesh(scene: Scene) -> Result<MeshView, GeometryError> {
    compose_elements(scene.elements@, base_floor_mesh())
}

/// The whole scene as one mesh: the base plane, then every element's mesh
/// appended in scene order, indices rebased by the running vertex count.
/// Surfaces an error instead of letting the 16-bit rebasing wrap.
pub fn scene_to_mesh(scene: &Scene) -> (r: Result<Mesh, GeometryError>)
    requires
        scene.wf(),
    ensures
        r is Ok <==> scene_mesh(*scene) is Ok,
        r is Ok ==> Ok::<MeshView, GeometryError>((r->Ok_0)@) == scene_mesh(*scene),
        r is Ok ==> (r->Ok_0)@.wf(),
        r is Err ==> scene_mesh(*scene) == Err::<MeshView, GeometryError>(r->Err_0),
{
    let mut mesh = match create_plane(
        Vec3Fx { x: 0, y: -10, z: 0 },
        Vec2Fx { x: 50000, y: 50000 },
        Vec3Fx { x: 0, y: SCALE, z: 0 },
    ) {
        Ok(m) => m,
        Err(e) => {
            proof {
                assert(false);
            }
            return Err(e);
        },
    };
    proof {
        assert(mesh@ == base_floor_mesh());
        assert(scene.elements@.subrange(0, scene.elements@.len() as int) =~= scene.elements@);
    }
    let n = scene.elements.len();
    let mut i: usize = 0;
    while i < n
        invariant
            scene.wf(),
            n == scene.elements@.len(),
            i <= n,
            mesh@.wf(),
            mesh@.vertices.len() <= 65536,
            compose_elements(scene.elements@.subrange(i as int, n as int), mesh@) == scene_mesh(
                *scene,
            ),
        decreases n - i,
    {
        let ghost rest = scene.elements@.subrange(i as int, n as int);
        proof {
            assert(rest[0] == scene.elements@[i as int]);
        }
        let element = &scene.elements[i];
        let sub = match element_to_mesh(element) {
            Ok(m) => m,
            Err(e) => {
                return Err(e);
            },
        };
        if mesh.vertices.len() + sub.vertices.len() > 65536 {
            return Err(GeometryError::IndexOverflow);
        }
        proof {
            lemma_mesh_concat_wf(mesh@, sub@);
            assert(rest.drop_first() =~= scene.elements@.subrange(i + 1 as int, n as int));
        }
        mesh.append(&sub);
        i += 1;
    }
    proof {
        assert(scene.elements@.subrange(n as int, n as int) =~= Seq::<Element>::empty());
    }
    Ok(mesh)
}

/// Composing a scene is a pure function of the scene value: two runs over
/// the same scene yield bit-identical vertex and index sequences.
pub proof fn lemma_scene_mesh_deterministic(scene: Scene, a: MeshView, b: MeshView)
    requires
        scene_mesh(scene) == Ok::<MeshView, GeometryError>(a),
        scene_mesh(scene) == Ok::<MeshView, GeometryError>(b),
    ensures
        a == b,
{
}

/// North and South walls of one room share box dimensions and differ only
/// in position: the South wall is the North wall shifted along -Z by the
/// room's resolved depth (mirrored through the room's center plane);
/// vertex normals, texture coordinates and indices agree.
pub proof fn lemma_wall_mirror(room: Room)
    requires
        room.wf(),
    ensures
        wall_size(room, WallSide::South) == wall_size(room, WallSide::North),
        wall_center(room, WallSide::South).x == wall_center(room, WallSide::North).x,
        wall_center(room, WallSide::South).y == wall_center(room, WallSide::North).y,
        wall_center(room, WallSide::South).z + wall_center(room, WallSide::North).z == 2
            * room.position.z,
        wall_box_mesh(room, WallSide::South).indices == wall_box_mesh(
            room,
            WallSide::North,
        ).indices,
        forall|k: int|
            0 <= k < 24 ==> {
                let vn = #[trigger] wall_box_mesh(room, WallSide::North).vertices[k];
                let vs = wall_box_mesh(room, WallSide::South).vertices[k];
                &&& vs.position.x == vn.position.x
                &&& vs.position.y == vn.position.y
                &&& vs.position.z as int == vn.position.z - 2 * half(room.dimensions.depth as int)
                &&& vs.normal == vn.normal
                &&& vs.tex_coords == vn.tex_coords
            },
{
    lemma_div_trunc_bounds(room.dimensions.width as int, 2);
    lemma_div_trunc_bounds(room.dimensions.height as int, 2);
    lemma_div_trunc_bounds(room.dimensions.depth as int, 2);
    crate::primitives::lemma_box_translated(
        wall_center(room, WallSide::North),
        wall_center(room, WallSide::South),
        wall_size(room, WallSide::North),
    );
}

/// The East wall swaps the roles of width and depth relative to the North
/// wall: its long axis is Z at the depth's resolved span, where the North
/// wall's long axis is X at the width's; the thickness moves to the other
/// axis and the height is shared.
pub proof fn lemma_wall_axis_swap(room: Room)
    requires
        room.wf(),
    ensures
        wall_size(room, WallSide::North).x as int == edge_span(room.dimensions.width),
        wall_size(room, WallSide::North).z == WALL_THICKNESS,
        wall_size(room, WallSide::East).x == WALL_THICKNESS,
        wall_size(room, WallSide::East).z as int == edge_span(room.dimensions.depth),
        wall_size(room, WallSide::East).y == wall_size(room, WallSide::North).y,
        room.dimensions.width == room.dimensions.depth ==> wall_size(room, WallSide::East).z
            == wall_size(room, WallSide::North).x,
{
    lemma_div_trunc_bounds(room.dimensions.width as int, 2);
    lemma_div_trunc_bounds(room.dimensions.depth as int, 2);
}

/// The table mesh after the top and the first `k` legs.
pub open spec fn table_partial_mesh(
    f: Furniture,
    width: i64,
    depth: i64,
    height: i64,
    k: int,
) -> MeshView
    decreases k,
{
    if k <= 0 {
        MeshView {
            vertices: box_vertices(
                table_top_center(f, height),
                Vec3Fx { x: width, y: 100, z: depth },
            ),
            indices: box_indices(),
        }
    } else {
        mesh_concat(
            table_partial_mesh(f, width, depth, height, k - 1),
            table_leg_mesh(f, width, depth, height, k - 1),
        )
    }
}

} // verus!
