use archgeom::compositor::{
    create_room_wall, element_to_mesh, scene_to_mesh, sixteen_ring, WALL_THICKNESS,
};
use archgeom::fixed::{Vec2Fx, Vec3Fx};
use archgeom::mesh::{GeometryError, Mesh, Vertex};
use archgeom::primitives::{create_box, create_cylinder, create_plane};
use archgeom::scene::{
    scene_well_formed, Camera, Ceiling, Column, ColumnShape, Dimensions, DoorFeature, DoorType,
    Element, Floor, Furniture, FurnitureType, Room, Scene, Stairs, Wall, WallFeature, WallSide,
    WallSpec,
};

fn v3(x: i64, y: i64, z: i64) -> Vec3Fx {
    Vec3Fx { x, y, z }
}

fn v2(x: i64, y: i64) -> Vec2Fx {
    Vec2Fx { x, y }
}

fn demo_camera() -> Camera {
    Camera { position: v3(0, 1500, -3000), target: v3(0, 1500, 0), fov: 60_000 }
}

#[test]
fn box_has_24_vertices_and_36_indices() {
    let m = create_box(v3(100, 200, 300), v3(1000, 2000, 3000)).unwrap();
    assert_eq!(m.vertices.len(), 24);
    assert_eq!(m.indices.len(), 36);
    let expected: Vec<u16> = vec![
        0, 1, 2, 0, 2, 3, 4, 5, 6, 4, 6, 7, 8, 9, 10, 8, 10, 11, 12, 13, 14, 12, 14, 15, 16, 17,
        18, 16, 18, 19, 20, 21, 22, 20, 22, 23,
    ];
    assert_eq!(m.indices, expected);
}

#[test]
fn box_faces_are_coplanar_and_equidistant() {
    let m = create_box(v3(100, 200, 300), v3(1000, 2000, 3000)).unwrap();
    // half extents 500, 1000, 1500
    for k in 0..4 {
        assert_eq!(m.vertices[k].position.z, 300 + 1500); // front +Z
        assert_eq!(m.vertices[k].normal, v3(0, 0, 1000));
    }
    for k in 4..8 {
        assert_eq!(m.vertices[k].position.z, 300 - 1500); // back -Z
        assert_eq!(m.vertices[k].normal, v3(0, 0, -1000));
    }
    for k in 8..12 {
        assert_eq!(m.vertices[k].position.x, 100 + 500); // right +X
    }
    for k in 12..16 {
        assert_eq!(m.vertices[k].position.x, 100 - 500); // left -X
    }
    for k in 16..20 {
        assert_eq!(m.vertices[k].position.y, 200 + 1000); // top +Y
    }
    for k in 20..24 {
        assert_eq!(m.vertices[k].position.y, 200 - 1000); // bottom -Y
    }
    // every index addresses a vertex
    for &i in &m.indices {
        assert!((i as usize) < m.vertices.len());
    }
    // a corner spelled out
    assert_eq!(
        m.vertices[0],
        Vertex { position: v3(-400, -800, 1800), normal: v3(0, 0, 1000), tex_coords: v2(0, 1000) },
    );
}

#[test]
fn box_rejects_non_positive_dimensions() {
    assert!(matches!(
        create_box(v3(0, 0, 0), v3(0, 1000, 1000)),
        Err(GeometryError::InvalidDimension)
    ));
    assert!(matches!(
        create_box(v3(0, 0, 0), v3(1000, -5, 1000)),
        Err(GeometryError::InvalidDimension)
    ));
}

#[test]
fn plane_up_vs_forward_winding_reversed() {
    let up = create_plane(v3(0, 0, 0), v2(2000, 2000), v3(0, 1000, 0)).unwrap();
    let fwd = create_plane(v3(0, 0, 0), v2(2000, 2000), v3(0, 0, 1000)).unwrap();
    assert_eq!(up.indices, vec![0, 3, 2, 0, 2, 1]);
    assert_eq!(fwd.indices, vec![0, 1, 2, 0, 2, 3]);
    // same triangles with swapped order and reversed orientation
    assert_eq!(up.indices[0], fwd.indices[3]);
    assert_eq!(up.indices[1], fwd.indices[5]);
    assert_eq!(up.indices[2], fwd.indices[4]);
}

#[test]
fn plane_up_corners() {
    // normal +Y picks +Z as reference, so right = +X, forward = +Z
    let m = create_plane(v3(0, 0, 0), v2(2000, 2000), v3(0, 1000, 0)).unwrap();
    assert_eq!(m.vertices.len(), 4);
    assert_eq!(m.vertices[0].position, v3(-1000, 0, -1000));
    assert_eq!(m.vertices[1].position, v3(1000, 0, -1000));
    assert_eq!(m.vertices[2].position, v3(1000, 0, 1000));
    assert_eq!(m.vertices[3].position, v3(-1000, 0, 1000));
    for k in 0..4 {
        assert_eq!(m.vertices[k].normal, v3(0, 1000, 0));
    }
}

#[test]
fn plane_rejects_bad_inputs() {
    assert!(matches!(
        create_plane(v3(0, 0, 0), v2(0, 2000), v3(0, 1000, 0)),
        Err(GeometryError::InvalidDimension)
    ));
    // a normal off the axis directions is not representable exactly
    assert!(matches!(
        create_plane(v3(0, 0, 0), v2(2000, 2000), v3(500, 500, 0)),
        Err(GeometryError::UnsupportedNormal)
    ));
}

#[test]
fn cylinder_counts_over_three_segments() {
    let ring = vec![v2(1000, 0), v2(0, 1000), v2(-1000, 0)];
    let m = create_cylinder(v3(0, 0, 0), 500, 2000, &ring).unwrap();
    assert_eq!(m.vertices.len(), 2 * 3 + 2);
    assert_eq!(m.indices.len(), 12 * 3);
    // rim pair 0: bottom then top, pushed out along +X, normal radial
    assert_eq!(m.vertices[0].position, v3(500, -1000, 0));
    assert_eq!(m.vertices[1].position, v3(500, 1000, 0));
    assert_eq!(m.vertices[0].normal, v3(1000, 0, 0));
    // rim pair 1 along +Z, with the seam-fraction texture coordinate
    assert_eq!(m.vertices[2].position, v3(0, -1000, 500));
    assert_eq!(m.vertices[2].tex_coords, v2(333, 0));
    // cap centers last
    assert_eq!(m.vertices[6].position, v3(0, -1000, 0));
    assert_eq!(m.vertices[6].normal, v3(0, -1000, 0));
    assert_eq!(m.vertices[7].position, v3(0, 1000, 0));
    assert_eq!(m.vertices[7].normal, v3(0, 1000, 0));
    // side quads wrap at the seam; caps fan from the centers
    let expected: Vec<u16> = vec![
        0, 2, 3, 0, 3, 1, 2, 4, 5, 2, 5, 3, 4, 0, 1, 4, 1, 5, // sides
        6, 2, 0, 7, 1, 3, 6, 4, 2, 7, 3, 5, 6, 0, 4, 7, 5, 1, // caps
    ];
    assert_eq!(m.indices, expected);
}

#[test]
fn cylinder_counts_over_sixteen_segments() {
    let ring = sixteen_ring();
    let m = create_cylinder(v3(0, 0, 0), 300, 2500, &ring).unwrap();
    assert_eq!(m.vertices.len(), 2 * 16 + 2);
    assert_eq!(m.indices.len(), 12 * 16);
    for &i in &m.indices {
        assert!((i as usize) < m.vertices.len());
    }
}

#[test]
fn cylinder_rejects_bad_inputs() {
    let ring2 = vec![v2(1000, 0), v2(-1000, 0)];
    assert!(matches!(
        create_cylinder(v3(0, 0, 0), 500, 2000, &ring2),
        Err(GeometryError::TooFewSegments)
    ));
    let ring3 = vec![v2(1000, 0), v2(0, 1000), v2(-1000, 0)];
    assert!(matches!(
        create_cylinder(v3(0, 0, 0), 0, 2000, &ring3),
        Err(GeometryError::InvalidDimension)
    ));
}

#[test]
fn room_wall_north_concrete() {
    // a room at the origin, 4 x 3 x 4 world units, one North wall:
    // the wall box is centered at (0, 1.5, 2) and sized (4, 3, 0.2)
    let room = Room {
        position: v3(0, 0, 0),
        dimensions: Dimensions { width: 4000, height: 3000, depth: 4000 },
        walls: vec![WallSpec { side: WallSide::North, features: vec![] }],
    };
    let wall = create_room_wall(&room, WallSide::North).unwrap();
    let same_box = create_box(v3(0, 1500, 2000), v3(4000, 3000, WALL_THICKNESS)).unwrap();
    assert_eq!(wall.vertices, same_box.vertices);
    assert_eq!(wall.indices, same_box.indices);
}

#[test]
fn room_walls_mirror_and_swap() {
    let room = Room {
        position: v3(500, 0, -700),
        dimensions: Dimensions { width: 4000, height: 3000, depth: 6000 },
        walls: vec![],
    };
    let north = create_room_wall(&room, WallSide::North).unwrap();
    let south = create_room_wall(&room, WallSide::South).unwrap();
    let east = create_room_wall(&room, WallSide::East).unwrap();
    assert_eq!(north.indices, south.indices);
    for k in 0..24 {
        let n = north.vertices[k];
        let s = south.vertices[k];
        // same box, shifted along -Z by the room depth
        assert_eq!(s.position.x, n.position.x);
        assert_eq!(s.position.y, n.position.y);
        assert_eq!(s.position.z, n.position.z - 6000);
        assert_eq!(s.normal, n.normal);
        assert_eq!(s.tex_coords, n.tex_coords);
    }
    // East swaps the long axis to Z at the depth's span
    let east_expected = create_box(v3(500 + 2000, 1500, -700), v3(WALL_THICKNESS, 3000, 6000))
        .unwrap();
    assert_eq!(east.vertices, east_expected.vertices);
}

#[test]
fn room_wall_rejects_flat_room() {
    let room = Room {
        position: v3(0, 0, 0),
        dimensions: Dimensions { width: 4000, height: 0, depth: 4000 },
        walls: vec![],
    };
    assert!(matches!(
        create_room_wall(&room, WallSide::North),
        Err(GeometryError::InvalidDimension)
    ));
}

#[test]
fn wall_element_length_is_euclidean() {
    // a 3-4-5 segment: the box's long axis gets the resolved length 5
    let wall = Wall {
        start: v3(0, 0, 0),
        end: v3(3000, 0, 4000),
        height: 2500,
        thickness: 200,
        features: vec![],
    };
    let m = element_to_mesh(&Element::Wall(wall)).unwrap();
    let expected = create_box(v3(1500, 1250, 2000), v3(5000, 2500, 200)).unwrap();
    assert_eq!(m.vertices, expected.vertices);
    assert_eq!(m.indices, expected.indices);
}

#[test]
fn element_dispatch_counts() {
    let round = Element::Column(Column {
        position: v3(0, 0, 0),
        radius: 300,
        height: 2500,
        shape: ColumnShape::Round,
    });
    assert_eq!(element_to_mesh(&round).unwrap().vertices.len(), 34);
    let square = Element::Column(Column {
        position: v3(0, 0, 0),
        radius: 300,
        height: 2500,
        shape: ColumnShape::Square,
    });
    assert_eq!(element_to_mesh(&square).unwrap().vertices.len(), 24);
    // hexagonal columns are not distinguished from square ones
    let hexagonal = Element::Column(Column {
        position: v3(0, 0, 0),
        radius: 300,
        height: 2500,
        shape: ColumnShape::Hexagonal,
    });
    let hexagonal_mesh = element_to_mesh(&hexagonal).unwrap();
    let square_mesh = element_to_mesh(&square).unwrap();
    assert_eq!(hexagonal_mesh.vertices, square_mesh.vertices);
    let table = Element::Furniture(Furniture {
        position: v3(0, 0, 0),
        rotation: 0,
        furniture_type: FurnitureType::Table { width: 1200, depth: 800, height: 750 },
    });
    assert_eq!(element_to_mesh(&table).unwrap().vertices.len(), 120);
    // non-table furniture falls back to a unit box
    let chair = Element::Furniture(Furniture {
        position: v3(2000, 0, 0),
        rotation: 0,
        furniture_type: FurnitureType::Chair { seat_height: 450 },
    });
    let chair_mesh = element_to_mesh(&chair).unwrap();
    let unit = create_box(v3(2000, 0, 0), v3(1000, 1000, 1000)).unwrap();
    assert_eq!(chair_mesh.vertices, unit.vertices);
    let floor = Element::Floor(Floor {
        position: v3(0, 0, 0),
        dimensions: v2(4000, 4000),
        material: String::from("wood"),
    });
    assert_eq!(element_to_mesh(&floor).unwrap().vertices.len(), 4);
}

#[test]
fn table_top_and_legs_placed() {
    let table = Furniture {
        position: v3(0, 0, 0),
        rotation: 0,
        furniture_type: FurnitureType::Table { width: 1200, depth: 800, height: 750 },
    };
    let m = element_to_mesh(&Element::Furniture(table)).unwrap();
    let top = create_box(v3(0, 700, 0), v3(1200, 100, 800)).unwrap();
    assert_eq!(&m.vertices[0..24], &top.vertices[..]);
    // first leg at (-0.48, 0.375, -0.32): offsets are 0.4 of width and depth
    let leg = create_box(v3(-480, 375, -320), v3(50, 650, 50)).unwrap();
    assert_eq!(&m.vertices[24..48], &leg.vertices[..]);
}

#[test]
fn stairs_stack_steps() {
    let stairs = Stairs {
        position: v3(0, 0, 0),
        width: 1000,
        steps: 3,
        step_height: 180,
        step_depth: 250,
        has_railing: false,
    };
    let m = element_to_mesh(&Element::Stairs(stairs)).unwrap();
    assert_eq!(m.vertices.len(), 3 * 24);
    assert_eq!(m.indices.len(), 3 * 36);
    // step 1 rises by one step height plus half a step
    let step1 = create_box(v3(0, 180 + 90, 250 + 125), v3(1000, 180, 250)).unwrap();
    assert_eq!(&m.vertices[24..48], &step1.vertices[..]);
    // its indices are rebased past step 0's vertices
    assert_eq!(m.indices[36], 24);
}

#[test]
fn stairs_errors() {
    let flat = Stairs {
        position: v3(0, 0, 0),
        width: 0,
        steps: 2,
        step_height: 180,
        step_depth: 250,
        has_railing: false,
    };
    assert!(matches!(
        element_to_mesh(&Element::Stairs(flat)),
        Err(GeometryError::InvalidDimension)
    ));
    let huge = Stairs {
        position: v3(0, 0, 0),
        width: 1000,
        steps: 2731,
        step_height: 180,
        step_depth: 250,
        has_railing: false,
    };
    assert!(matches!(
        element_to_mesh(&Element::Stairs(huge)),
        Err(GeometryError::IndexOverflow)
    ));
    let empty = Stairs {
        position: v3(0, 0, 0),
        width: 0,
        steps: 0,
        step_height: 0,
        step_depth: 0,
        has_railing: false,
    };
    let m = element_to_mesh(&Element::Stairs(empty)).unwrap();
    assert_eq!(m.vertices.len(), 0);
}

fn demo_scene() -> Scene {
    Scene {
        name: String::from("demo"),
        camera: demo_camera(),
        elements: vec![
            Element::Room(Room {
                position: v3(0, 0, 0),
                dimensions: Dimensions { width: 4000, height: 3000, depth: 4000 },
                walls: vec![
                    WallSpec { side: WallSide::North, features: vec![] },
                    WallSpec { side: WallSide::South, features: vec![] },
                    WallSpec { side: WallSide::East, features: vec![] },
                    WallSpec { side: WallSide::West, features: vec![] },
                ],
            }),
            Element::Column(Column {
                position: v3(1000, 0, 1000),
                radius: 300,
                height: 2500,
                shape: ColumnShape::Round,
            }),
            Element::Furniture(Furniture {
                position: v3(-500, 0, 500),
                rotation: 0,
                furniture_type: FurnitureType::Table { width: 1200, depth: 800, height: 750 },
            }),
        ],
    }
}

#[test]
fn scene_composes_in_order_with_rebasing() {
    let scene = demo_scene();
    let m = scene_to_mesh(&scene).unwrap();
    // base floor 4, room walls 96, column 34, table 120
    assert_eq!(m.vertices.len(), 4 + 96 + 34 + 120);
    assert_eq!(m.indices.len(), 6 + 4 * 36 + 192 + 5 * 36);
    for &i in &m.indices {
        assert!((i as usize) < m.vertices.len());
    }
    // the base floor's quad comes first, indices unshifted
    assert_eq!(&m.indices[0..6], &[0, 3, 2, 0, 2, 1]);
    // the room's first wall starts right after the base floor's 4 vertices
    assert_eq!(m.indices[6], 4);
    // the column's first index is rebased past floor and room
    assert_eq!(m.indices[6 + 144], 100);
}

#[test]
fn scene_to_mesh_twice_is_bit_identical() {
    let scene = demo_scene();
    let a = scene_to_mesh(&scene).unwrap();
    let b = scene_to_mesh(&scene).unwrap();
    assert_eq!(a.vertices, b.vertices);
    assert_eq!(a.indices, b.indices);
}

#[test]
fn empty_scene_is_just_the_base_floor() {
    let scene = Scene { name: String::from("empty"), camera: demo_camera(), elements: vec![] };
    let m = scene_to_mesh(&scene).unwrap();
    assert_eq!(m.vertices.len(), 4);
    assert_eq!(m.indices.len(), 6);
    // placed slightly below ground level over a 50-unit footprint
    assert_eq!(m.vertices[0].position, v3(-25000, -10, -25000));
    assert_eq!(m.vertices[2].position, v3(25000, -10, 25000));
}

#[test]
fn scene_overflow_is_surfaced_not_wrapped() {
    // 28 stair runs of 100 steps hold 67,200 vertices: past the 16-bit
    // index ceiling, so composition reports the overflow
    let mut elements: Vec<Element> = Vec::new();
    for _ in 0..28 {
        elements.push(Element::Stairs(Stairs {
            position: v3(0, 0, 0),
            width: 1000,
            steps: 100,
            step_height: 180,
            step_depth: 250,
            has_railing: false,
        }));
    }
    let scene = Scene { name: String::from("big"), camera: demo_camera(), elements };
    assert!(matches!(scene_to_mesh(&scene), Err(GeometryError::IndexOverflow)));
}

#[test]
fn scene_error_is_the_first_elements_error() {
    let scene = Scene {
        name: String::from("bad"),
        camera: demo_camera(),
        elements: vec![
            Element::Column(Column {
                position: v3(0, 0, 0),
                radius: 0,
                height: 2500,
                shape: ColumnShape::Round,
            }),
        ],
    };
    assert!(matches!(scene_to_mesh(&scene), Err(GeometryError::InvalidDimension)));
}

#[test]
fn well_formed_checker_bounds_coordinates() {
    let good = demo_scene();
    assert!(scene_well_formed(&good));
    let mut bad = demo_scene();
    bad.elements.push(Element::Floor(Floor {
        position: v3(2_000_000_000, 0, 0),
        dimensions: v2(1000, 1000),
        material: String::from("void"),
    }));
    assert!(!scene_well_formed(&bad));
}

#[test]
fn ceiling_sits_at_its_height_facing_down() {
    let ceiling = Element::Ceiling(Ceiling {
        position: v3(100, 0, 200),
        dimensions: v2(4000, 4000),
        height: 3000,
        material: String::from("plaster"),
    });
    let m = element_to_mesh(&ceiling).unwrap();
    // lifted to its declared height, normal -Y, default winding
    for v in &m.vertices {
        assert_eq!(v.position.y, 3000);
        assert_eq!(v.normal, v3(0, -1000, 0));
    }
    assert_eq!(m.indices, vec![0, 1, 2, 0, 2, 3]);
}

#[test]
fn duplicate_wall_sides_just_overlap() {
    // the data model does not enforce one wall per side: a second North
    // spec produces a second, identical wall
    let room = Room {
        position: v3(0, 0, 0),
        dimensions: Dimensions { width: 4000, height: 3000, depth: 4000 },
        walls: vec![
            WallSpec { side: WallSide::North, features: vec![] },
            WallSpec { side: WallSide::North, features: vec![] },
        ],
    };
    let m = element_to_mesh(&Element::Room(room)).unwrap();
    assert_eq!(m.vertices.len(), 48);
    assert_eq!(&m.vertices[0..24], &m.vertices[24..48]);
    // the second copy's indices are rebased past the first
    assert_eq!(m.indices[36], 24);
}

#[test]
fn wall_features_are_carried_not_cut() {
    // a doored wall yields the same box as a bare one: openings are
    // recorded in the data model but not yet subtracted
    let bare = Room {
        position: v3(0, 0, 0),
        dimensions: Dimensions { width: 4000, height: 3000, depth: 4000 },
        walls: vec![WallSpec { side: WallSide::North, features: vec![] }],
    };
    let doored = Room {
        walls: vec![WallSpec {
            side: WallSide::North,
            features: vec![WallFeature::Door(DoorFeature {
                position: v2(1000, 0),
                size: v2(900, 2100),
                door_type: DoorType::Single,
            })],
        }],
        ..bare.clone()
    };
    let a = element_to_mesh(&Element::Room(bare)).unwrap();
    let b = element_to_mesh(&Element::Room(doored)).unwrap();
    assert_eq!(a.vertices, b.vertices);
    assert_eq!(a.indices, b.indices);
}

#[test]
fn mesh_append_rebases_indices() {
    let mut a = create_box(v3(0, 0, 0), v3(1000, 1000, 1000)).unwrap();
    let b = create_box(v3(5000, 0, 0), v3(1000, 1000, 1000)).unwrap();
    a.append(&b);
    assert_eq!(a.vertices.len(), 48);
    assert_eq!(a.indices.len(), 72);
    assert_eq!(a.indices[36], 24);
    assert_eq!(a.indices[71], 47);
}

#[test]
fn mesh_builders_by_hand() {
    let mut m = Mesh::new();
    let i0 = m.add_vertex(Vertex::new(v3(0, 0, 0), v3(0, 1000, 0), v2(0, 0)));
    let i1 = m.add_vertex(Vertex::new(v3(1000, 0, 0), v3(0, 1000, 0), v2(1000, 0)));
    let i2 = m.add_vertex(Vertex::new(v3(1000, 0, 1000), v3(0, 1000, 0), v2(1000, 1000)));
    let i3 = m.add_vertex(Vertex::new(v3(0, 0, 1000), v3(0, 1000, 0), v2(0, 1000)));
    assert_eq!((i0, i1, i2, i3), (0, 1, 2, 3));
    m.add_triangle(i0, i1, i2);
    m.add_quad(i0, i1, i2, i3);
    assert_eq!(m.indices, vec![0, 1, 2, 0, 1, 2, 0, 2, 3]);
}
