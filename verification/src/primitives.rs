//! Primitive geometry factories: axis-aligned box, axis-aligned plane,
//! Y-axis cylinder. Each returns a self-contained mesh whose indices start
//! at zero; callers rebase on concatenation.

use vstd::prelude::*;
use crate::fixed::{
    div_trunc, div_trunc_i64, fx_mul, geom_in_range, mul_fx, vec2_in_geom_range,
    vec3_in_geom_range, Vec2Fx, Vec3Fx, GEOM_LIMIT, SCALE,
};
use crate::mesh::{GeometryError, Mesh, MeshView, Vertex};

verus! {

/// A vertex from integer coordinates; the workhorse of the mesh specs.
pub open spec fn vert(px: int, py: int, pz: int, nx: int, ny: int, nz: int, u: int, v: int) -> Vertex {
    Vertex {
        position: Vec3Fx { x: px as i64, y: py as i64, z: pz as i64 },
        normal: Vec3Fx { x: nx as i64, y: ny as i64, z: nz as i64 },
        tex_coords: Vec2Fx { x: u as i64, y: v as i64 },
    }
}

/// The 24 vertices of a box: four per face, faces ordered +Z, -Z, +X, -X,
/// +Y, -Y, each with its outward axis normal, wound to face front under
/// the right-handed counter-clockwise convention. Half-extents round
/// toward zero.
pub open spec fn box_vertices(center: Vec3Fx, size: Vec3Fx) -> Seq<Vertex> {
    let cx = center.x as int;
    let cy = center.y as int;
    let cz = center.z as int;
    let hx = div_trunc(size.x as int, 2);
    let hy = div_trunc(size.y as int, 2);
    let hz = div_trunc(size.z as int, 2);
    let s = SCALE as int;
    seq![
        // front (+Z)
        vert(cx - hx, cy - hy, cz + hz, 0, 0, s, 0, s),
        vert(cx + hx, cy - hy, cz + hz, 0, 0, s, s, s),
        vert(cx + hx, cy + hy, cz + hz, 0, 0, s, s, 0),
        vert(cx - hx, cy + hy, cz + hz, 0, 0, s, 0, 0),
        // back (-Z)
        vert(cx + hx, cy - hy, cz - hz, 0, 0, -s, 0, s),
        vert(cx - hx, cy - hy, cz - hz, 0, 0, -s, s, s),
        vert(cx - hx, cy + hy, cz - hz, 0, 0, -s, s, 0),
        vert(cx + hx, cy + hy, cz - hz, 0, 0, -s, 0, 0),
        // right (+X)
        vert(cx + hx, cy - hy, cz + hz, s, 0, 0, 0, s),
        vert(cx + hx, cy - hy, cz - hz, s, 0, 0, s, s),
        vert(cx + hx, cy + hy, cz - hz, s, 0, 0, s, 0),
        vert(cx + hx, cy + hy, cz + hz, s, 0, 0, 0, 0),
        // left (-X)
        vert(cx - hx, cy - hy, cz - hz, -s, 0, 0, 0, s),
        vert(cx - hx, cy - hy, cz + hz, -s, 0, 0, s, s),
        vert(cx - hx, cy + hy, cz + hz, -s, 0, 0, s, 0),
        vert(cx - hx, cy + hy, cz - hz, -s, 0, 0, 0, 0),
        // top (+Y)
        vert(cx - hx, cy + hy, cz + hz, 0, s, 0, 0, 0),
        vert(cx + hx, cy + hy, cz + hz, 0, s, 0, s, 0),
        vert(cx + hx, cy + hy, cz - hz, 0, s, 0, s, s),
        vert(cx - hx, cy + hy, cz - hz, 0, s, 0, 0, s),
        // bottom (-Y)
        vert(cx - hx, cy - hy, cz - hz, 0, -s, 0, 0, 0),
        vert(cx + hx, cy - hy, cz - hz, 0, -s, 0, s, 0),
        vert(cx + hx, cy - hy, cz + hz, 0, -s, 0, s, s),
        vert(cx - hx, cy - hy, cz + hz, 0, -s, 0, 0, s),
    ]
}

/// The 36 box indices: each face's quad fanned `(0,1,2) (0,2,3)`.
pub open spec fn box_indices() -> Seq<u16> {
    seq![
        0u16, 1u16, 2u16, 0u16, 2u16, 3u16,
        4u16, 5u16, 6u16, 4u16, 6u16, 7u16,
        8u16, 9u16, 10u16, 8u16, 10u16, 11u16,
        12u16, 13u16, 14u16, 12u16, 14u16, 15u16,
        16u16, 17u16, 18u16, 16u16, 18u16, 19u16,
        20u16, 21u16, 22u16, 20u16, 22u16, 23u16,
    ]
}

/// Six quads with outward axis-aligned normals; front-facing under the
/// right-handed, counter-clockwise-front convention. Rejects any
/// non-positive dimension.
pub fn create_box(center: Vec3Fx, size: Vec3Fx) -> (r: Result<Mesh, GeometryError>)
    requires
        vec3_in_geom_range(center),
        vec3_in_geom_range(size),
    ensures
        r is Ok <==> size.x > 0 && size.y > 0 && size.z > 0,
        r is Err ==> r->Err_0 == GeometryError::InvalidDimension,
        r is Ok ==> (r->Ok_0)@ == (MeshView {
            vertices: box_vertices(center, size),
            indices: box_indices(),
        }),
        r is Ok ==> (r->Ok_0)@.vertices.len() == 24 && (r->Ok_0)@.indices.len() == 36,
        r is Ok ==> (r->Ok_0)@.wf(),
{
    if size.x <= 0 || size.y <= 0 || size.z <= 0 {
        return Err(GeometryError::InvalidDimension);
    }
    let hx = div_trunc_i64(size.x, 2);
    let hy = div_trunc_i64(size.y, 2);
    let hz = div_trunc_i64(size.z, 2);
    let s = SCALE;
    let mut mesh = Mesh::new();

    // front (+Z)
    let v0 = mesh.add_vertex(
        Vertex::new(
            Vec3Fx { x: center.x - hx, y: center.y - hy, z: center.z + hz },
            Vec3Fx { x: 0, y: 0, z: s },
            Vec2Fx { x: 0, y: s },
        ),
    );
    let v1 = mesh.add_vertex(
        Vertex::new(
            Vec3Fx { x: center.x + hx, y: center.y - hy, z: center.z + hz },
            Vec3Fx { x: 0, y: 0, z: s },
            Vec2Fx { x: s, y: s },
        ),
    );
    let v2 = mesh.add_vertex(
        Vertex::new(
            Vec3Fx { x: center.x + hx, y: center.y + hy, z: center.z + hz },
            Vec3Fx { x: 0, y: 0, z: s },
            Vec2Fx { x: s, y: 0 },
        ),
    );
    let v3 = mesh.add_vertex(
        Vertex::new(
            Vec3Fx { x: center.x - hx, y: center.y + hy, z: center.z + hz },
            Vec3Fx { x: 0, y: 0, z: s },
            Vec2Fx { x: 0, y: 0 },
        ),
    );
    mesh.add_quad(v0, v1, v2, v3);

    // back (-Z)
    let v4 = mesh.add_vertex(
        Vertex::new(
            Vec3Fx { x: center.x + hx, y: center.y - hy, z: center.z - hz },
            Vec3Fx { x: 0, y: 0, z: -s },
            Vec2Fx { x: 0, y: s },
        ),
    );
    let v5 = mesh.add_vertex(
        Vertex::new(
            Vec3Fx { x: center.x - hx, y: center.y - hy, z: center.z - hz },
            Vec3Fx { x: 0, y: 0, z: -s },
            Vec2Fx { x: s, y: s },
        ),
    );
    let v6 = mesh.add_vertex(
        Vertex::new(
            Vec3Fx { x: center.x - hx, y: center.y + hy, z: center.z - hz },
            Vec3Fx { x: 0, y: 0, z: -s },
            Vec2Fx { x: s, y: 0 },
        ),
    );
    let v7 = mesh.add_vertex(
        Vertex::new(
            Vec3Fx { x: center.x + hx, y: center.y + hy, z: center.z - hz },
            Vec3Fx { x: 0, y: 0, z: -s },
            Vec2Fx { x: 0, y: 0 },
        ),
    );
    mesh.add_quad(v4, v5, v6, v7);

    // right (+X)
    let v8 = mesh.add_vertex(
        Vertex::new(
            Vec3Fx { x: center.x + hx, y: center.y - hy, z: center.z + hz },
            Vec3Fx { x: s, y: 0, z: 0 },
            Vec2Fx { x: 0, y: s },
        ),
    );
    let v9 = mesh.add_vertex(
        Vertex::new(
            Vec3Fx { x: center.x + hx, y: center.y - hy, z: center.z - hz },
            Vec3Fx { x: s, y: 0, z: 0 },
            Vec2Fx { x: s, y: s },
        ),
    );
    let v10 = mesh.add_vertex(
        Vertex::new(
            Vec3Fx { x: center.x + hx, y: center.y + hy, z: center.z - hz },
            Vec3Fx { x: s, y: 0, z: 0 },
            Vec2Fx { x: s, y: 0 },
        ),
    );
    let v11 = mesh.add_vertex(
        Vertex::new(
            Vec3Fx { x: center.x + hx, y: center.y + hy, z: center.z + hz },
            Vec3Fx { x: s, y: 0, z: 0 },
            Vec2Fx { x: 0, y: 0 },
        ),
    );
    mesh.add_quad(v8, v9, v10, v11);

    // left (-X)
    let v12 = mesh.add_vertex(
        Vertex::new(
            Vec3Fx { x: center.x - hx, y: center.y - hy, z: center.z - hz },
            Vec3Fx { x: -s, y: 0, z: 0 },
            Vec2Fx { x: 0, y: s },
        ),
    );
    let v13 = mesh.add_vertex(
        Vertex::new(
            Vec3Fx { x: center.x - hx, y: center.y - hy, z: center.z + hz },
            Vec3Fx { x: -s, y: 0, z: 0 },
            Vec2Fx { x: s, y: s },
        ),
    );
    let v14 = mesh.add_vertex(
        Vertex::new(
            Vec3Fx { x: center.x - hx, y: center.y + hy, z: center.z + hz },
            Vec3Fx { x: -s, y: 0, z: 0 },
            Vec2Fx { x: s, y: 0 },
        ),
    );
    let v15 = mesh.add_vertex(
        Vertex::new(
            Vec3Fx { x: center.x - hx, y: center.y + hy, z: center.z - hz },
            Vec3Fx { x: -s, y: 0, z: 0 },
            Vec2Fx { x: 0, y: 0 },
        ),
    );
    mesh.add_quad(v12, v13, v14, v15);

    // top (+Y)
    let v16 = mesh.add_vertex(
        Vertex::new(
            Vec3Fx { x: center.x - hx, y: center.y + hy, z: center.z + hz },
            Vec3Fx { x: 0, y: s, z: 0 },
            Vec2Fx { x: 0, y: 0 },
        ),
    );
    let v17 = mesh.add_vertex(
        Vertex::new(
            Vec3Fx { x: center.x + hx, y: center.y + hy, z: center.z + hz },
            Vec3Fx { x: 0, y: s, z: 0 },
            Vec2Fx { x: s, y: 0 },
        ),
    );
    let v18 = mesh.add_vertex(
        Vertex::new(
            Vec3Fx { x: center.x + hx, y: center.y + hy, z: center.z - hz },
            Vec3Fx { x: 0, y: s, z: 0 },
            Vec2Fx { x: s, y: s },
        ),
    );
    let v19 = mesh.add_vertex(
        Vertex::new(
            Vec3Fx { x: center.x - hx, y: center.y + hy, z: center.z - hz },
            Vec3Fx { x: 0, y: s, z: 0 },
            Vec2Fx { x: 0, y: s },
        ),
    );
    mesh.add_quad(v16, v17, v18, v19);

    // bottom (-Y)
    let v20 = mesh.add_vertex(
        Vertex::new(
            Vec3Fx { x: center.x - hx, y: center.y - hy, z: center.z - hz },
            Vec3Fx { x: 0, y: -s, z: 0 },
            Vec2Fx { x: 0, y: 0 },
        ),
    );
    let v21 = mesh.add_vertex(
        Vertex::new(
            Vec3Fx { x: center.x + hx, y: center.y - hy, z: center.z - hz },
            Vec3Fx { x: 0, y: -s, z: 0 },
            Vec2Fx { x: s, y: 0 },
        ),
    );
    let v22 = mesh.add_vertex(
        Vertex::new(
            Vec3Fx { x: center.x + hx, y: center.y - hy, z: center.z + hz },
            Vec3Fx { x: 0, y: -s, z: 0 },
            Vec2Fx { x: s, y: s },
        ),
    );
    let v23 = mesh.add_vertex(
        Vertex::new(
            Vec3Fx { x: center.x - hx, y: center.y - hy, z: center.z + hz },
            Vec3Fx { x: 0, y: -s, z: 0 },
            Vec2Fx { x: 0, y: s },
        ),
    );
    mesh.add_quad(v20, v21, v22, v23);

    proof {
        assert(mesh@.vertices =~= box_vertices(center, size));
        assert(mesh@.indices =~= box_indices());
    }
    Ok(mesh)
}

/// Each box face's four vertices share the coordinate along the face's
/// outward axis, displaced from the center by the truncated half-extent:
/// the faces are coplanar and equidistant from the center.
pub proof fn lemma_box_face_offsets(center: Vec3Fx, size: Vec3Fx)
    requires
        vec3_in_geom_range(center),
        vec3_in_geom_range(size),
        size.x > 0,
        size.y > 0,
        size.z > 0,
    ensures
        box_vertices(center, size).len() == 24,
        box_indices().len() == 36,
        forall|k: int|
            0 <= k < 4 ==> #[trigger] box_vertices(center, size)[k].position.z == center.z
                + div_trunc(size.z as int, 2),
        forall|k: int|
            4 <= k < 8 ==> #[trigger] box_vertices(center, size)[k].position.z == center.z
                - div_trunc(size.z as int, 2),
        forall|k: int|
            8 <= k < 12 ==> #[trigger] box_vertices(center, size)[k].position.x == center.x
                + div_trunc(size.x as int, 2),
        forall|k: int|
            12 <= k < 16 ==> #[trigger] box_vertices(center, size)[k].position.x == center.x
                - div_trunc(size.x as int, 2),
        forall|k: int|
            16 <= k < 20 ==> #[trigger] box_vertices(center, size)[k].position.y == center.y
                + div_trunc(size.y as int, 2),
        forall|k: int|
            20 <= k < 24 ==> #[trigger] box_vertices(center, size)[k].position.y == center.y
                - div_trunc(size.y as int, 2),
{
    let hx = div_trunc(size.x as int, 2);
    let hy = div_trunc(size.y as int, 2);
    let hz = div_trunc(size.z as int, 2);
    assert(0 <= hx <= size.x as int && 0 <= hy <= size.y as int && 0 <= hz <= size.z as int)
        by (nonlinear_arith)
        requires
            size.x > 0,
            size.y > 0,
            size.z > 0,
            hx == size.x as int / 2,
            hy == size.y as int / 2,
            hz == size.z as int / 2,
    ;
}

/// Boxes of one size at two centers hold the same vertices shifted by the
/// difference of the centers; normals, texture coordinates and indices are
/// unchanged.
pub proof fn lemma_box_translated(c1: Vec3Fx, c2: Vec3Fx, size: Vec3Fx)
    requires
        vec3_in_geom_range(c1),
        vec3_in_geom_range(c2),
        vec3_in_geom_range(size),
    ensures
        box_vertices(c1, size).len() == 24,
        box_vertices(c2, size).len() == 24,
        forall|k: int|
            0 <= k < 24 ==> {
                let v1 = #[trigger] box_vertices(c1, size)[k];
                let v2 = box_vertices(c2, size)[k];
                &&& v2.position.x as int == v1.position.x + (c2.x - c1.x)
                &&& v2.position.y as int == v1.position.y + (c2.y - c1.y)
                &&& v2.position.z as int == v1.position.z + (c2.z - c1.z)
                &&& v2.normal == v1.normal
                &&& v2.tex_coords == v1.tex_coords
            },
{
    crate::fixed::lemma_div_trunc_bounds(size.x as int, 2);
    crate::fixed::lemma_div_trunc_bounds(size.y as int, 2);
    crate::fixed::lemma_div_trunc_bounds(size.z as int, 2);
}

/// The reference direction the plane basis is built from: +Z when the
/// normal lies on the Y axis (either way, so the cross product below never
/// degenerates), +Y otherwise.
pub open spec fn plane_up(normal: Vec3Fx) -> Vec3Fx {
    if normal.y == SCALE || normal.y == -SCALE {
        Vec3Fx { x: 0, y: 0, z: SCALE }
    } else {
        Vec3Fx { x: 0, y: SCALE, z: 0 }
    }
}

/// Cross product of two fixed-point vectors, rescaled back by `SCALE`; for
/// perpendicular axis units this is their exact unit cross product.
pub open spec fn cross_unit_spec(a: Vec3Fx, b: Vec3Fx) -> Vec3Fx {
    Vec3Fx {
        x: (div_trunc(a.y * b.z - a.z * b.y, SCALE as int)) as i64,
        y: (div_trunc(a.z * b.x - a.x * b.z, SCALE as int)) as i64,
        z: (div_trunc(a.x * b.y - a.y * b.x, SCALE as int)) as i64,
    }
}

/// The normal is one of the six fixed-point unit axis directions.
pub open spec fn is_axis_unit(n: Vec3Fx) -> bool {
    ||| n == (Vec3Fx { x: SCALE, y: 0, z: 0 })
    ||| n == (Vec3Fx { x: (-SCALE) as i64, y: 0, z: 0 })
    ||| n == (Vec3Fx { x: 0, y: SCALE, z: 0 })
    ||| n == (Vec3Fx { x: 0, y: (-SCALE) as i64, z: 0 })
    ||| n == (Vec3Fx { x: 0, y: 0, z: SCALE })
    ||| n == (Vec3Fx { x: 0, y: 0, z: (-SCALE) as i64 })
}

/// The four plane vertices: corners `center ± right·hw ± forward·hh` in the
/// order (--, +-, ++, -+), all carrying the plane's normal.
pub open spec fn plane_vertices(center: Vec3Fx, size: Vec2Fx, normal: Vec3Fx) -> Seq<Vertex> {
    let right = cross_unit_spec(normal, plane_up(normal));
    let forward = cross_unit_spec(right, normal);
    let hw = div_trunc(size.x as int, 2);
    let hh = div_trunc(size.y as int, 2);
    let s = SCALE as int;
    let n = normal;
    let rx = fx_mul(right.x as int, hw);
    let ry = fx_mul(right.y as int, hw);
    let rz = fx_mul(right.z as int, hw);
    let fx = fx_mul(forward.x as int, hh);
    let fy = fx_mul(forward.y as int, hh);
    let fz = fx_mul(forward.z as int, hh);
    let cx = center.x as int;
    let cy = center.y as int;
    let cz = center.z as int;
    seq![
        vert(cx - rx - fx, cy - ry - fy, cz - rz - fz, n.x as int, n.y as int, n.z as int, 0, 0),
        vert(cx + rx - fx, cy + ry - fy, cz + rz - fz, n.x as int, n.y as int, n.z as int, s, 0),
        vert(cx + rx + fx, cy + ry + fy, cz + rz + fz, n.x as int, n.y as int, n.z as int, s, s),
        vert(cx - rx + fx, cy - ry + fy, cz - rz + fz, n.x as int, n.y as int, n.z as int, 0, s),
    ]
}

/// One quad; its diagonal winding is reversed for an upward-facing plane
/// (normal's Y component above half a unit) so the visible face points up.
pub open spec fn plane_indices(normal: Vec3Fx) -> Seq<u16> {
    if normal.y > SCALE / 2 {
        seq![0u16, 3u16, 2u16, 0u16, 2u16, 1u16]
    } else {
        seq![0u16, 1u16, 2u16, 0u16, 2u16, 3u16]
    }
}

/// Cross product rescaled by `SCALE`, exact for small inputs; the result's
/// components keep the magnitude of the rescaled numerators.
fn cross_unit(a: Vec3Fx, b: Vec3Fx) -> (r: Vec3Fx)
    requires
        -2000 <= a.x <= 2000,
        -2000 <= a.y <= 2000,
        -2000 <= a.z <= 2000,
        -2000 <= b.x <= 2000,
        -2000 <= b.y <= 2000,
        -2000 <= b.z <= 2000,
    ensures
        r == cross_unit_spec(a, b),
        -8000 <= r.x <= 8000,
        -8000 <= r.y <= 8000,
        -8000 <= r.z <= 8000,
        (-1000 <= a.x <= 1000 && -1000 <= a.y <= 1000 && -1000 <= a.z <= 1000 && -1000 <= b.x
            <= 1000 && -1000 <= b.y <= 1000 && -1000 <= b.z <= 1000) ==> (-2000 <= r.x <= 2000
            && -2000 <= r.y <= 2000 && -2000 <= r.z <= 2000),
{
    proof {
        crate::fixed::lemma_mul_bound(a.y as int, b.z as int, 2000, 2000);
        crate::fixed::lemma_mul_bound(a.z as int, b.y as int, 2000, 2000);
        crate::fixed::lemma_mul_bound(a.z as int, b.x as int, 2000, 2000);
        crate::fixed::lemma_mul_bound(a.x as int, b.z as int, 2000, 2000);
        crate::fixed::lemma_mul_bound(a.x as int, b.y as int, 2000, 2000);
        crate::fixed::lemma_mul_bound(a.y as int, b.x as int, 2000, 2000);
        crate::fixed::lemma_div_trunc_mono_bound(
            a.y * b.z - a.z * b.y,
            SCALE as int,
            8000000,
        );
        crate::fixed::lemma_div_trunc_mono_bound(
            a.z * b.x - a.x * b.z,
            SCALE as int,
            8000000,
        );
        crate::fixed::lemma_div_trunc_mono_bound(
            a.x * b.y - a.y * b.x,
            SCALE as int,
            8000000,
        );
        if -1000 <= a.x <= 1000 && -1000 <= a.y <= 1000 && -1000 <= a.z <= 1000 && -1000 <= b.x
            <= 1000 && -1000 <= b.y <= 1000 && -1000 <= b.z <= 1000 {
            crate::fixed::lemma_mul_bound(a.y as int, b.z as int, 1000, 1000);
            crate::fixed::lemma_mul_bound(a.z as int, b.y as int, 1000, 1000);
            crate::fixed::lemma_mul_bound(a.z as int, b.x as int, 1000, 1000);
            crate::fixed::lemma_mul_bound(a.x as int, b.z as int, 1000, 1000);
            crate::fixed::lemma_mul_bound(a.x as int, b.y as int, 1000, 1000);
            crate::fixed::lemma_mul_bound(a.y as int, b.x as int, 1000, 1000);
            crate::fixed::lemma_div_trunc_mono_bound(
                a.y * b.z - a.z * b.y,
                SCALE as int,
                2000000,
            );
            crate::fixed::lemma_div_trunc_mono_bound(
                a.z * b.x - a.x * b.z,
                SCALE as int,
                2000000,
            );
            crate::fixed::lemma_div_trunc_mono_bound(
                a.x * b.y - a.y * b.x,
                SCALE as int,
                2000000,
            );
        }
    }
    Vec3Fx {
        x: div_trunc_i64(a.y * b.z - a.z * b.y, SCALE),
        y: div_trunc_i64(a.z * b.x - a.x * b.z, SCALE),
        z: div_trunc_i64(a.x * b.y - a.y * b.x, SCALE),
    }
}

/// One quad in the plane through `center` with the given axis-unit normal.
/// The in-plane basis comes from the normal crossed with a reference "up"
/// (+Y, or +Z when the normal itself lies on the Y axis). Rejects
/// non-positive sizes, and normals off the six axis directions, which the
/// exact integer basis cannot represent.
pub fn create_plane(center: Vec3Fx, size: Vec2Fx, normal: Vec3Fx) -> (r: Result<
    Mesh,
    GeometryError,
>)
    requires
        vec3_in_geom_range(center),
        vec2_in_geom_range(size),
    ensures
        r is Ok <==> size.x > 0 && size.y > 0 && is_axis_unit(normal),
        r is Err && (size.x <= 0 || size.y <= 0) ==> r->Err_0 == GeometryError::InvalidDimension,
        r is Err && size.x > 0 && size.y > 0 ==> r->Err_0 == GeometryError::UnsupportedNormal,
        r is Ok ==> (r->Ok_0)@ == (MeshView {
            vertices: plane_vertices(center, size, normal),
            indices: plane_indices(normal),
        }),
        r is Ok ==> (r->Ok_0)@.vertices.len() == 4 && (r->Ok_0)@.indices.len() == 6,
        r is Ok ==> (r->Ok_0)@.wf(),
{
    if size.x <= 0 || size.y <= 0 {
        return Err(GeometryError::InvalidDimension);
    }
    let s = SCALE;
    let axis = (normal.x == s && normal.y == 0 && normal.z == 0) || (normal.x == -s && normal.y
        == 0 && normal.z == 0) || (normal.x == 0 && normal.y == s && normal.z == 0) || (normal.x
        == 0 && normal.y == -s && normal.z == 0) || (normal.x == 0 && normal.y == 0 && normal.z
        == s) || (normal.x == 0 && normal.y == 0 && normal.z == -s);
    if !axis {
        return Err(GeometryError::UnsupportedNormal);
    }
    let up = if normal.y == s || normal.y == -s {
        Vec3Fx { x: 0, y: 0, z: s }
    } else {
        Vec3Fx { x: 0, y: s, z: 0 }
    };
    let right = cross_unit(normal, up);
    let forward = cross_unit(right, normal);
    let hw = div_trunc_i64(size.x, 2);
    let hh = div_trunc_i64(size.y, 2);
    proof {
        crate::fixed::lemma_mul_bound(right.x as int, hw as int, 8000, GEOM_LIMIT as int);
        crate::fixed::lemma_mul_bound(right.y as int, hw as int, 8000, GEOM_LIMIT as int);
        crate::fixed::lemma_mul_bound(right.z as int, hw as int, 8000, GEOM_LIMIT as int);
        crate::fixed::lemma_mul_bound(forward.x as int, hh as int, 8000, GEOM_LIMIT as int);
        crate::fixed::lemma_mul_bound(forward.y as int, hh as int, 8000, GEOM_LIMIT as int);
        crate::fixed::lemma_mul_bound(forward.z as int, hh as int, 8000, GEOM_LIMIT as int);
    }
    let rx = mul_fx(right.x, hw);
    let ry = mul_fx(right.y, hw);
    let rz = mul_fx(right.z, hw);
    let fx = mul_fx(forward.x, hh);
    let fy = mul_fx(forward.y, hh);
    let fz = mul_fx(forward.z, hh);

    let mut mesh = Mesh::new();
    let v0 = mesh.add_vertex(
        Vertex::new(
            Vec3Fx { x: center.x - rx - fx, y: center.y - ry - fy, z: center.z - rz - fz },
            normal,
            Vec2Fx { x: 0, y: 0 },
        ),
    );
    let v1 = mesh.add_vertex(
        Vertex::new(
            Vec3Fx { x: center.x + rx - fx, y: center.y + ry - fy, z: center.z + rz - fz },
            normal,
            Vec2Fx { x: s, y: 0 },
        ),
    );
    let v2 = mesh.add_vertex(
        Vertex::new(
            Vec3Fx { x: center.x + rx + fx, y: center.y + ry + fy, z: center.z + rz + fz },
            normal,
            Vec2Fx { x: s, y: s },
        ),
    );
    let v3 = mesh.add_vertex(
        Vertex::new(
            Vec3Fx { x: center.x - rx + fx, y: center.y - ry + fy, z: center.z - rz + fz },
            normal,
            Vec2Fx { x: 0, y: s },
        ),
    );
    if normal.y > 500 {
        mesh.add_quad(v0, v3, v2, v1);
    } else {
        mesh.add_quad(v0, v1, v2, v3);
    }
    proof {
        assert(mesh@.vertices =~= plane_vertices(center, size, normal));
        assert(mesh@.indices =~= plane_indices(normal));
    }
    Ok(mesh)
}

/// An upward-facing plane is wound opposite to a forward-facing one: its
/// two triangles are the other plane's two triangles in swapped order, each
/// with its trailing vertices exchanged (the reversed orientation).
pub proof fn lemma_plane_winding_reversed(up: Vec3Fx, fwd: Vec3Fx)
    requires
        up == (Vec3Fx { x: 0, y: SCALE, z: 0 }),
        fwd == (Vec3Fx { x: 0, y: 0, z: SCALE }),
    ensures
        plane_indices(up).len() == 6 && plane_indices(fwd).len() == 6,
        plane_indices(up)[0] == plane_indices(fwd)[3] && plane_indices(up)[1] == plane_indices(
            fwd,
        )[5] && plane_indices(up)[2] == plane_indices(fwd)[4],
        plane_indices(up)[3] == plane_indices(fwd)[0] && plane_indices(up)[4] == plane_indices(
            fwd,
        )[2] && plane_indices(up)[5] == plane_indices(fwd)[1],
        plane_indices(up) != plane_indices(fwd),
{
    assert(plane_indices(up) =~= seq![0u16, 3u16, 2u16, 0u16, 2u16, 1u16]);
    assert(plane_indices(fwd) =~= seq![0u16, 1u16, 2u16, 0u16, 2u16, 3u16]);
    assert(plane_indices(up)[1] != plane_indices(fwd)[1]);
}

/// The bottom and top rim vertex for rim direction `d` at slot `i` of `n`:
/// the direction scaled by the radius, pushed out from the center, with the
/// direction itself as the outward normal.
pub open spec fn rim_pair(
    center: Vec3Fx,
    radius: i64,
    height: i64,
    d: Vec2Fx,
    i: int,
    n: int,
) -> Seq<Vertex> {
    let hh = div_trunc(height as int, 2);
    let x = fx_mul(d.x as int, radius as int);
    let z = fx_mul(d.y as int, radius as int);
    let u = (i * (SCALE as int)) / n;
    seq![
        vert(center.x + x, center.y - hh, center.z + z, d.x as int, 0, d.y as int, u, 0),
        vert(
            center.x + x,
            center.y + hh,
            center.z + z,
            d.x as int,
            0,
            d.y as int,
            u,
            SCALE as int,
        ),
    ]
}

/// The first `i` rim pairs, bottom vertex before top, in ring order.
pub open spec fn rim_vertices(
    center: Vec3Fx,
    radius: i64,
    height: i64,
    ring: Seq<Vec2Fx>,
    i: int,
) -> Seq<Vertex>
    decreases i,
{
    if i <= 0 {
        Seq::empty()
    } else {
        rim_vertices(center, radius, height, ring, i - 1) + rim_pair(
            center,
            radius,
            height,
            ring[i - 1],
            i - 1,
            ring.len() as int,
        )
    }
}

/// All cylinder vertices: the full rim, then the bottom and top cap
/// centers, whose normals point down and up.
pub open spec fn cylinder_vertices(
    center: Vec3Fx,
    radius: i64,
    height: i64,
    ring: Seq<Vec2Fx>,
) -> Seq<Vertex> {
    let hh = div_trunc(height as int, 2);
    let s = SCALE as int;
    rim_vertices(center, radius, height, ring, ring.len() as int) + seq![
        vert(center.x as int, center.y - hh, center.z as int, 0, -s, 0, s / 2, s / 2),
        vert(center.x as int, center.y + hh, center.z as int, 0, s, 0, s / 2, s / 2),
    ]
}

/// The side quad joining rim slot `i` to its successor (wrapping at the
/// seam), fanned `(0,1,2) (0,2,3)`.
pub open spec fn side_quad(n: int, i: int) -> Seq<u16> {
    let nx = if i + 1 == n {
        0int
    } else {
        i + 1
    };
    seq![
        (2 * i) as u16,
        (2 * nx) as u16,
        (2 * nx + 1) as u16,
        (2 * i) as u16,
        (2 * nx + 1) as u16,
        (2 * i + 1) as u16,
    ]
}

/// The first `i` side quads.
pub open spec fn side_indices(n: int, i: int) -> Seq<u16>
    decreases i,
{
    if i <= 0 {
        Seq::empty()
    } else {
        side_indices(n, i - 1) + side_quad(n, i - 1)
    }
}

/// The two cap triangles for rim slot `i`: one fanned from the bottom
/// center (index `2n`), wound opposite to the matching top-cap triangle
/// fanned from the top center (index `2n + 1`).
pub open spec fn cap_tris(n: int, i: int) -> Seq<u16> {
    let nx = if i + 1 == n {
        0int
    } else {
        i + 1
    };
    seq![
        (2 * n) as u16,
        (2 * nx) as u16,
        (2 * i) as u16,
        (2 * n + 1) as u16,
        (2 * i + 1) as u16,
        (2 * nx + 1) as u16,
    ]
}

/// The first `i` cap triangle pairs.
pub open spec fn cap_indices(n: int, i: int) -> Seq<u16>
    decreases i,
{
    if i <= 0 {
        Seq::empty()
    } else {
        cap_indices(n, i - 1) + cap_tris(n, i - 1)
    }
}

/// All cylinder indices: side quads first, then the caps.
pub open spec fn cylinder_indices(n: int) -> Seq<u16> {
    side_indices(n, n) + cap_indices(n, n)
}

pub proof fn lemma_rim_vertices_len(
    center: Vec3Fx,
    radius: i64,
    height: i64,
    ring: Seq<Vec2Fx>,
    i: int,
)
    requires
        0 <= i,
    ensures
        rim_vertices(center, radius, height, ring, i).len() == 2 * i,
    decreases i,
{
    if i > 0 {
        lemma_rim_vertices_len(center, radius, height, ring, i - 1);
    }
}

pub proof fn lemma_side_indices_len(n: int, i: int)
    requires
        0 <= i,
    ensures
        side_indices(n, i).len() == 6 * i,
    decreases i,
{
    if i > 0 {
        lemma_side_indices_len(n, i - 1);
    }
}

pub proof fn lemma_cap_indices_len(n: int, i: int)
    requires
        0 <= i,
    ensures
        cap_indices(n, i).len() == 6 * i,
    decreases i,
{
    if i > 0 {
        lemma_cap_indices_len(n, i - 1);
    }
}

/// Every side index stays below `2n`: side quads touch only rim vertices.
pub proof fn lemma_side_indices_bounded(n: int, i: int)
    requires
        1 <= n <= 32767,
        0 <= i <= n,
    ensures
        forall|k: int|
            0 <= k < side_indices(n, i).len() ==> (#[trigger] side_indices(n, i)[k] as int) < 2 * n,
    decreases i,
{
    if i > 0 {
        lemma_side_indices_bounded(n, i - 1);
        lemma_side_indices_len(n, i - 1);
    }
}

/// Every cap index stays below `2n + 2`: the rim plus the two centers.
pub proof fn lemma_cap_indices_bounded(n: int, i: int)
    requires
        1 <= n <= 32767,
        0 <= i <= n,
    ensures
        forall|k: int|
            0 <= k < cap_indices(n, i).len() ==> (#[trigger] cap_indices(n, i)[k] as int) < 2 * n
                + 2,
    decreases i,
{
    if i > 0 {
        lemma_cap_indices_bounded(n, i - 1);
        lemma_cap_indices_len(n, i - 1);
    }
}

/// Over `n` rim directions a cylinder carries `2n + 2` vertices and `12n`
/// indices: `6n` from the `n` side quads and `6n` from the two `n`-triangle
/// caps.
pub proof fn lemma_cylinder_counts(center: Vec3Fx, radius: i64, height: i64, ring: Seq<Vec2Fx>)
    ensures
        cylinder_vertices(center, radius, height, ring).len() == 2 * ring.len() + 2,
        side_indices(ring.len() as int, ring.len() as int).len() == 6 * ring.len(),
        cap_indices(ring.len() as int, ring.len() as int).len() == 6 * ring.len(),
        cylinder_indices(ring.len() as int).len() == 12 * ring.len(),
{
    let n = ring.len() as int;
    lemma_rim_vertices_len(center, radius, height, ring, n);
    lemma_side_indices_len(n, n);
    lemma_cap_indices_len(n, n);
}

/// A cylinder on the Y axis through `center`: one bottom/top vertex pair
/// per rim direction in `ring` (each a fixed-point unit vector, X and Z
/// components), `n` side quads wrapping at the seam, and two `n`-triangle
/// caps fanned from center vertices, the bottom cap wound opposite to the
/// top. Rejects non-positive dimensions, rings of fewer than three
/// directions, and rings too large for 16-bit indexing.
pub fn create_cylinder(center: Vec3Fx, radius: i64, height: i64, ring: &Vec<Vec2Fx>) -> (r: Result<
    Mesh,
    GeometryError,
>)
    requires
        vec3_in_geom_range(center),
        geom_in_range(radius),
        geom_in_range(height),
        forall|i: int|
            0 <= i < ring@.len() ==> -SCALE <= (#[trigger] ring@[i]).x <= SCALE && -SCALE
                <= ring@[i].y <= SCALE,
    ensures
        r is Ok <==> radius > 0 && height > 0 && 3 <= ring@.len() <= 32767,
        r is Err && (radius <= 0 || height <= 0) ==> r->Err_0 == GeometryError::InvalidDimension,
        r is Err && radius > 0 && height > 0 && ring@.len() < 3 ==> r->Err_0
            == GeometryError::TooFewSegments,
        r is Err && radius > 0 && height > 0 && ring@.len() > 32767 ==> r->Err_0
            == GeometryError::IndexOverflow,
        r is Ok ==> (r->Ok_0)@ == (MeshView {
            vertices: cylinder_vertices(center, radius, height, ring@),
            indices: cylinder_indices(ring@.len() as int),
        }),
        r is Ok ==> (r->Ok_0)@.vertices.len() == 2 * ring@.len() + 2,
        r is Ok ==> (r->Ok_0)@.indices.len() == 12 * ring@.len(),
        r is Ok ==> (r->Ok_0)@.wf(),
{
    if radius <= 0 || height <= 0 {
        return Err(GeometryError::InvalidDimension);
    }
    let n = ring.len();
    if n < 3 {
        return Err(GeometryError::TooFewSegments);
    }
    if n > 32767 {
        return Err(GeometryError::IndexOverflow);
    }
    let hh = div_trunc_i64(height, 2);
    let mut mesh = Mesh::new();

    let mut i: usize = 0;
    while i < n
        invariant
            n == ring@.len(),
            3 <= n <= 32767,
            i <= n,
            vec3_in_geom_range(center),
            geom_in_range(radius),
            geom_in_range(height),
            radius > 0,
            height > 0,
            forall|j: int|
                0 <= j < ring@.len() ==> -SCALE <= (#[trigger] ring@[j]).x <= SCALE && -SCALE
                    <= ring@[j].y <= SCALE,
            hh == div_trunc(height as int, 2),
            0 <= hh <= height,
            mesh@.indices.len() == 0,
            mesh@.vertices == rim_vertices(center, radius, height, ring@, i as int),
        decreases n - i,
    {
        proof {
            lemma_rim_vertices_len(center, radius, height, ring@, i as int);
            crate::fixed::lemma_mul_bound(
                ring@[i as int].x as int,
                radius as int,
                SCALE as int,
                GEOM_LIMIT as int,
            );
            crate::fixed::lemma_mul_bound(
                ring@[i as int].y as int,
                radius as int,
                SCALE as int,
                GEOM_LIMIT as int,
            );
            vstd::arithmetic::div_mod::lemma_div_pos_is_pos((i * 1000) as int, n as int);
            vstd::arithmetic::div_mod::lemma_div_nonincreasing((i * 1000) as int, n as int);
        }
        let d = ring[i];
        let x = mul_fx(d.x, radius);
        let z = mul_fx(d.y, radius);
        let u = ((i * 1000) / n) as i64;
        mesh.add_vertex(
            Vertex::new(
                Vec3Fx { x: center.x + x, y: center.y - hh, z: center.z + z },
                Vec3Fx { x: d.x, y: 0, z: d.y },
                Vec2Fx { x: u, y: 0 },
            ),
        );
        mesh.add_vertex(
            Vertex::new(
                Vec3Fx { x: center.x + x, y: center.y + hh, z: center.z + z },
                Vec3Fx { x: d.x, y: 0, z: d.y },
                Vec2Fx { x: u, y: SCALE },
            ),
        );
        i += 1;
        proof {
            assert(mesh@.vertices =~= rim_vertices(center, radius, height, ring@, i as int));
        }
    }

    proof {
        lemma_rim_vertices_len(center, radius, height, ring@, n as int);
    }
    let bottom_center = mesh.add_vertex(
        Vertex::new(
            Vec3Fx { x: center.x, y: center.y - hh, z: center.z },
            Vec3Fx { x: 0, y: -SCALE, z: 0 },
            Vec2Fx { x: 500, y: 500 },
        ),
    );
    let top_center = mesh.add_vertex(
        Vertex::new(
            Vec3Fx { x: center.x, y: center.y + hh, z: center.z },
            Vec3Fx { x: 0, y: SCALE, z: 0 },
            Vec2Fx { x: 500, y: 500 },
        ),
    );
    proof {
        assert(mesh@.vertices =~= cylinder_vertices(center, radius, height, ring@));
    }

    let mut i: usize = 0;
    while i < n
        invariant
            n == ring@.len(),
            3 <= n <= 32767,
            i <= n,
            mesh@.vertices == cylinder_vertices(center, radius, height, ring@),
            mesh@.indices == side_indices(n as int, i as int),
        decreases n - i,
    {
        let nx: usize = if i + 1 == n {
            0
        } else {
            i + 1
        };
        mesh.add_quad((2 * i) as u16, (2 * nx) as u16, (2 * nx + 1) as u16, (2 * i + 1) as u16);
        i += 1;
        proof {
            assert(mesh@.indices =~= side_indices(n as int, i as int));
        }
    }

    let mut i: usize = 0;
    while i < n
        invariant
            n == ring@.len(),
            3 <= n <= 32767,
            i <= n,
            bottom_center as int == 2 * (n as int),
            top_center as int == 2 * (n as int) + 1,
            mesh@.vertices == cylinder_vertices(center, radius, height, ring@),
            mesh@.indices == side_indices(n as int, n as int) + cap_indices(n as int, i as int),
        decreases n - i,
    {
        let nx: usize = if i + 1 == n {
            0
        } else {
            i + 1
        };
        mesh.add_triangle(bottom_center, (2 * nx) as u16, (2 * i) as u16);
        mesh.add_triangle(top_center, (2 * i + 1) as u16, (2 * nx + 1) as u16);
        i += 1;
        proof {
            assert(mesh@.indices =~= side_indices(n as int, n as int) + cap_indices(
                n as int,
                i as int,
            ));
        }
    }

    proof {
        lemma_cylinder_counts(center, radius, height, ring@);
        lemma_side_indices_bounded(n as int, n as int);
        lemma_cap_indices_bounded(n as int, n as int);
        assert(mesh@.indices =~= cylinder_indices(n as int));
        assert forall|k: int| 0 <= k < mesh@.indices.len() implies (mesh@.indices[k] as int)
            < mesh@.vertices.len() by {
            if k < side_indices(n as int, n as int).len() {
                assert(mesh@.indices[k] == side_indices(n as int, n as int)[k]);
            } else {
                let j = k - side_indices(n as int, n as int).len();
                assert(mesh@.indices[k] == cap_indices(n as int, n as int)[j]);
            }
        }
    }
    Ok(mesh)
}

} // verus!
