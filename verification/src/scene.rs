//! The typed scene description: a camera and an ordered list of elements,
//! immutable once loaded. Geometric parameters are fixed-point sub-units;
//! well-formedness bounds every quantity the geometry arithmetic touches.

use vstd::prelude::*;
use crate::fixed::{coord_in_range, vec2_in_range, vec3_in_range, Vec2Fx, Vec3Fx, COORD_LIMIT};

verus! {

/// The side of a room a wall stands on: North is the +Z edge, South the
/// -Z edge, East the +X edge, West the -X edge.
#[derive(Clone, Copy, PartialEq, Eq, Structural, Debug)]
pub enum WallSide {
    North,
    South,
    East,
    West,
}

#[derive(Clone, Copy, PartialEq, Eq, Structural, Debug)]
pub enum DoorType {
    Single,
    Double,
    Sliding,
    Revolving,
}

#[derive(Clone, Copy, PartialEq, Eq, Structural, Debug)]
pub enum ColumnShape {
    Round,
    Square,
    Hexagonal,
}

/// A window in a wall. Data-only for now: carried through loading but not
/// yet subtracted from wall geometry.
#[derive(Clone, Copy, PartialEq, Eq, Debug)]
pub struct WindowFeature {
    pub position: Vec2Fx,
    pub size: Vec2Fx,
    pub sill_height: Option<i64>,
}

/// A door in a wall. Data-only, like `WindowFeature`.
#[derive(Clone, Copy, PartialEq, Eq, Debug)]
pub struct DoorFeature {
    pub position: Vec2Fx,
    pub size: Vec2Fx,
    pub door_type: DoorType,
}

#[derive(Clone, Copy, PartialEq, Eq, Debug)]
pub enum WallFeature {
    Window(WindowFeature),
    Door(DoorFeature),
}

/// One wall of a room. A room may declare at most one wall per side in
/// practice, but nothing here enforces that: a second spec for the same
/// side simply yields an overlapping wall.
#[derive(Clone, PartialEq, Eq, Debug)]
pub struct WallSpec {
    pub side: WallSide,
    pub features: Vec<WallFeature>,
}

#[derive(Clone, Copy, PartialEq, Eq, Structural, Debug)]
pub struct Dimensions {
    pub width: i64,
    pub height: i64,
    pub depth: i64,
}

/// A room: a world-space center, outer dimensions, and its walls.
#[derive(Clone, PartialEq, Eq, Debug)]
pub struct Room {
    pub position: Vec3Fx,
    pub dimensions: Dimensions,
    pub walls: Vec<WallSpec>,
}

/// A free-standing wall segment.
#[derive(Clone, PartialEq, Eq, Debug)]
pub struct Wall {
    pub start: Vec3Fx,
    pub end: Vec3Fx,
    pub height: i64,
    pub thickness: i64,
    pub features: Vec<WallFeature>,
}

#[derive(Clone, PartialEq, Eq, Debug)]
pub struct Floor {
    pub position: Vec3Fx,
    pub dimensions: Vec2Fx,
    pub material: String,
}

#[derive(Clone, PartialEq, Eq, Debug)]
pub struct Ceiling {
    pub position: Vec3Fx,
    pub dimensions: Vec2Fx,
    pub height: i64,
    pub material: String,
}

#[derive(Clone, Copy, PartialEq, Eq, Structural, Debug)]
pub struct Stairs {
    pub position: Vec3Fx,
    pub width: i64,
    pub steps: u32,
    pub step_height: i64,
    pub step_depth: i64,
    pub has_railing: bool,
}

#[derive(Clone, Copy, PartialEq, Eq, Structural, Debug)]
pub struct Column {
    pub position: Vec3Fx,
    pub radius: i64,
    pub height: i64,
    pub shape: ColumnShape,
}

#[derive(Clone, Copy, PartialEq, Eq, Debug)]
pub enum FurnitureType {
    Table { width: i64, depth: i64, height: i64 },
    Chair { seat_height: i64 },
    Sofa { width: i64, depth: i64 },
    Bed { width: i64, length: i64 },
    Desk { width: i64, depth: i64 },
    Cabinet { width: i64, depth: i64, height: i64 },
}

#[derive(Clone, Copy, PartialEq, Eq, Debug)]
pub struct Furniture {
    pub position: Vec3Fx,
    pub rotation: i64,
    pub furniture_type: FurnitureType,
}

/// One placeable scene entity; exactly one shape-producing rule exists per
/// variant.
#[derive(Clone, PartialEq, Eq, Debug)]
pub enum Element {
    Room(Room),
    Wall(Wall),
    Floor(Floor),
    Ceiling(Ceiling),
    Stairs(Stairs),
    Column(Column),
    Furniture(Furniture),
}

/// The authored camera of a scene: a position, a look-at point, and a
/// vertical field of view in fixed-point degrees.
#[derive(Clone, Copy, PartialEq, Eq, Structural, Debug)]
pub struct Camera {
    pub position: Vec3Fx,
    pub target: Vec3Fx,
    pub fov: i64,
}

/// A whole scene; replaced wholesale when a new one is loaded.
#[derive(Clone, PartialEq, Eq, Debug)]
pub struct Scene {
    pub name: String,
    pub camera: Camera,
    pub elements: Vec<Element>,
}

impl Room {
    pub open spec fn wf(self) -> bool {
        vec3_in_range(self.position) && coord_in_range(self.dimensions.width) && coord_in_range(
            self.dimensions.height,
        ) && coord_in_range(self.dimensions.depth)
    }
}

impl Wall {
    pub open spec fn wf(self) -> bool {
        vec3_in_range(self.start) && vec3_in_range(self.end) && coord_in_range(self.height)
            && coord_in_range(self.thickness)
    }
}

impl Floor {
    pub open spec fn wf(self) -> bool {
        vec3_in_range(self.position) && vec2_in_range(self.dimensions)
    }
}

impl Ceiling {
    pub open spec fn wf(self) -> bool {
        vec3_in_range(self.position) && vec2_in_range(self.dimensions) && coord_in_range(
            self.height,
        )
    }
}

impl Stairs {
    pub open spec fn wf(self) -> bool {
        vec3_in_range(self.position) && coord_in_range(self.width) && coord_in_range(
            self.step_height,
        ) && coord_in_range(self.step_depth)
    }
}

impl Column {
    pub open spec fn wf(self) -> bool {
        vec3_in_range(self.position) && coord_in_range(self.radius) && coord_in_range(self.height)
    }
}

impl Furniture {
    pub open spec fn wf(self) -> bool {
        vec3_in_range(self.position) && match self.furniture_type {
            FurnitureType::Table { width, depth, height } => coord_in_range(width) && coord_in_range(
                depth,
            ) && coord_in_range(height),
            _ => true,
        }
    }
}

impl Element {
    pub open spec fn wf(self) -> bool {
        match self {
            Element::Room(e) => e.wf(),
            Element::Wall(e) => e.wf(),
            Element::Floor(e) => e.wf(),
            Element::Ceiling(e) => e.wf(),
            Element::Stairs(e) => e.wf(),
            Element::Column(e) => e.wf(),
            Element::Furniture(e) => e.wf(),
        }
    }
}

impl Scene {
    pub open spec fn wf(self) -> bool {
        &&& vec3_in_range(self.camera.position)
        &&& vec3_in_range(self.camera.target)
        &&& coord_in_range(self.camera.fov)
        &&& forall|i: int| 0 <= i < self.elements@.len() ==> (#[trigger] self.elements@[i]).wf()
    }
}

/// Decides `coord_in_range`.
pub fn check_coord(c: i64) -> (b: bool)
    ensures
        b == coord_in_range(c),
{
    -COORD_LIMIT <= c && c <= COORD_LIMIT
}

/// Decides `vec3_in_range`.
pub fn check_vec3(v: &Vec3Fx) -> (b: bool)
    ensures
        b == vec3_in_range(*v),
{
    check_coord(v.x) && check_coord(v.y) && check_coord(v.z)
}

/// Decides `vec2_in_range`.
pub fn check_vec2(v: &Vec2Fx) -> (b: bool)
    ensures
        b == vec2_in_range(*v),
{
    check_coord(v.x) && check_coord(v.y)
}

/// Decides `Element::wf`.
pub fn element_well_formed(e: &Element) -> (b: bool)
    ensures
        b == e.wf(),
{
    match e {
        Element::Room(r) => check_vec3(&r.position) && check_coord(r.dimensions.width)
            && check_coord(r.dimensions.height) && check_coord(r.dimensions.depth),
        Element::Wall(w) => check_vec3(&w.start) && check_vec3(&w.end) && check_coord(w.height)
            && check_coord(w.thickness),
        Element::Floor(f) => check_vec3(&f.position) && check_vec2(&f.dimensions),
        Element::Ceiling(c) => check_vec3(&c.position) && check_vec2(&c.dimensions) && check_coord(
            c.height,
        ),
        Element::Stairs(s) => check_vec3(&s.position) && check_coord(s.width) && check_coord(
            s.step_height,
        ) && check_coord(s.step_depth),
        Element::Column(c) => check_vec3(&c.position) && check_coord(c.radius) && check_coord(
            c.height,
        ),
        Element::Furniture(f) => check_vec3(&f.position) && match &f.furniture_type {
            FurnitureType::Table { width, depth, height } => check_coord(*width) && check_coord(
                *depth,
            ) && check_coord(*height),
            _ => true,
        },
    }
}

/// Decides `Scene::wf`, so callers can establish the compositor's
/// precondition before asking for geometry.
pub fn scene_well_formed(scene: &Scene) -> (b: bool)
    ensures
        b == scene.wf(),
{
    if !(check_vec3(&scene.camera.position) && check_vec3(&scene.camera.target) && check_coord(
        scene.camera.fov,
    )) {
        return false;
    }
    let mut i: usize = 0;
    while i < scene.elements.len()
        invariant
            i <= scene.elements@.len(),
            vec3_in_range(scene.camera.position),
            vec3_in_range(scene.camera.target),
            coord_in_range(scene.camera.fov),
            forall|j: int| 0 <= j < i ==> (#[trigger] scene.elements@[j]).wf(),
        decreases scene.elements@.len() - i,
    {
        if !element_well_formed(&scene.elements[i]) {
            return false;
        }
        i += 1;
    }
    true
}

} // verus!
