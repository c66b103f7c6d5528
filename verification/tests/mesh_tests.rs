//! Kernel tests: the recipes are realized on the csgrs mesh kernel and
//! the resulting triangle meshes are measured.

use csgrs::csg::CSG;
use csgrs::plane::Plane;
use rusty_bird::BirdGenInputs;
use rusty_bird::Solid;
use rusty_bird::generate_bird_body_mesh;
use rusty_bird::generate_bird_head_mesh;

type Mesh = CSG<()>;

const NANO: f64 = 1_000_000_000.0;

fn units(v: i64) -> f64 {
    v as f64 / NANO
}

/// Replays a recipe bottom-up on the csgrs kernel; `Cuboid` is centered
/// on the vertical axis and rests on z = 0, and a mirrored solid has its
/// winding flipped back outward after the reflection.
fn realize_here(s: &Solid) -> Mesh {
    match s {
        Solid::Sphere { radius, segments, stacks } => {
            Mesh::sphere(units(*radius), *segments, *stacks, None)
        }
        Solid::Cylinder { radius, height, segments } => {
            Mesh::cylinder(units(*radius), units(*height), *segments, None)
        }
        Solid::Cuboid { x, y, z } => {
            let (w, l, h) = (units(*x), units(*y), units(*z));
            Mesh::cube(w, l, h, None).translate([-w / 2.0, -l / 2.0, 0.0].into())
        }
        Solid::Scale { body, x, y, z } => {
            realize_here(body).scale(units(*x), units(*y), units(*z))
        }
        Solid::Translate { body, x, y, z } => {
            realize_here(body).translate([units(*x), units(*y), units(*z)].into())
        }
        Solid::Rotate { body, x, y, z } => {
            realize_here(body).rotate(units(*x), units(*y), units(*z))
        }
        Solid::Union { left, right } => realize_here(left).union(&realize_here(right)),
        Solid::Difference { left, right } => {
            realize_here(left).difference(&realize_here(right))
        }
        Solid::ConvexHull { body } => hull_of(body),
        Solid::Mirror { body, nx, ny, nz, offset } => {
            let mut m = realize_here(body).mirror(Plane {
                normal: [units(*nx), units(*ny), units(*nz)].into(),
                w: units(*offset),
            });
            for p in &mut m.polygons {
                p.flip();
            }
            m
        }
        Solid::Renormalize { body } => {
            let mut m = realize_here(body);
            m.renormalize();
            m
        }
        Solid::Subdivide { body, levels } => realize_here(body).subdivide_triangles(*levels),
    }
}

/// Realizes a recipe on a thread with a generous stack: the kernel's
/// boolean operations recurse once per polygon along unbalanced splits.
fn realize(s: &Solid) -> Mesh {
    crossbeam_utils::thread::scope(|scope| {
        scope
            .builder()
            .stack_size(512 * 1024 * 1024)
            .spawn(|_| realize_here(s))
            .expect("spawn realization thread")
            .join()
            .expect("realization thread")
    })
    .expect("realization scope")
}

/// Collects the vertices a convex hull must cover. A union below a hull
/// contributes the points of both operands directly - the hull of a union
/// is the hull of the two point sets - which sidesteps the kernel's
/// boolean step exactly as the chained-hull technique intends; a
/// renormalization moves no points.
fn hull_points(s: &Solid, out: &mut Vec<parry3d_f64::na::Point3<f64>>) {
    match s {
        Solid::Union { left, right } => {
            hull_points(left, out);
            hull_points(right, out);
        }
        Solid::Renormalize { body } => hull_points(body, out),
        _ => out.extend(realize_here(s).vertices().iter().map(|v| v.pos)),
    }
}

/// The convex hull of a recipe's realized points, built with parry's
/// deterministic hull; the kernel's own hull helper retriangulates
/// coplanar rings in a hash-dependent order, which both varies from call
/// to call and destabilizes the downstream boolean operations.
fn hull_of(body: &Solid) -> Mesh {
    let mut points = Vec::new();
    hull_points(body, &mut points);
    let (hull_points, hull_faces) = parry3d_f64::transformation::convex_hull(&points);
    let centroid = {
        let mut c = [0.0f64; 3];
        for p in &hull_points {
            c[0] += p.x;
            c[1] += p.y;
            c[2] += p.z;
        }
        let n = hull_points.len() as f64;
        [c[0] / n, c[1] / n, c[2] / n]
    };
    let mut polygons = Vec::new();
    for face in &hull_faces {
        let (a, b, c) = (
            hull_points[face[0] as usize],
            hull_points[face[1] as usize],
            hull_points[face[2] as usize],
        );
        let mut normal = (b - a).cross(&(c - a));
        // Degenerate slivers get garbage planes and blow up the kernel's
        // splitting; the surface they would cover is negligible.
        if normal.norm() < 1e-7 {
            continue;
        }
        normal = normal.normalize();
        let outward = normal.x * (a.x - centroid[0])
            + normal.y * (a.y - centroid[1])
            + normal.z * (a.z - centroid[2]);
        let verts = if outward >= 0.0 {
            vec![
                csgrs::vertex::Vertex::new(a, normal),
                csgrs::vertex::Vertex::new(b, normal),
                csgrs::vertex::Vertex::new(c, normal),
            ]
        } else {
            vec![
                csgrs::vertex::Vertex::new(a, -normal),
                csgrs::vertex::Vertex::new(c, -normal),
                csgrs::vertex::Vertex::new(b, -normal),
            ]
        };
        polygons.push(csgrs::polygon::Polygon::new(verts, false, None));
    }
    Mesh::from_polygons(&polygons)
}

fn triangle_count(m: &Mesh) -> usize {
    m.polygons
        .iter()
        .map(|p| p.vertices.len().saturating_sub(2))
        .sum()
}

/// The documented minimum of every field.
fn all_minimums() -> BirdGenInputs {
    BirdGenInputs {
        beak_length: 0,
        beak_size: 20_000,
        beak_width: 0,
        beak_roundness: 10_000,
        head_size: 10_000,
        head_to_belly: -20_000,
        eye_size: 0,
        head_lateral_offset: -15_000,
        head_level: 0,
        head_yaw: -45_000,
        head_pitch: -80_000,
        belly_length: 10_000,
        belly_size: 20_000,
        belly_fat: 50_000,
        belly_to_bottom: 1_000,
        bottom_size: 5_000,
        tail_length: 0,
        tail_width: 1_000,
        tail_yaw: -45_000,
        tail_pitch: -45_000,
        tail_roundness: 10_000,
        base_flat: -100_000,
    }
}

/// The documented maximum of every field.
fn all_maximums() -> BirdGenInputs {
    BirdGenInputs {
        beak_length: 50_000,
        beak_size: 100_000,
        beak_width: 25_000,
        beak_roundness: 200_000,
        head_size: 40_000,
        head_to_belly: 50_000,
        eye_size: 20_000,
        head_lateral_offset: 15_000,
        head_level: 80_000,
        head_yaw: 45_000,
        head_pitch: 45_000,
        belly_length: 100_000,
        belly_size: 60_000,
        belly_fat: 150_000,
        belly_to_bottom: 50_000,
        bottom_size: 50_000,
        tail_length: 100_000,
        tail_width: 50_000,
        tail_yaw: 45_000,
        tail_pitch: 90_000,
        tail_roundness: 200_000,
        base_flat: 100_000,
    }
}

#[test]
fn default_head_mesh_is_nonempty() {
    let head = realize(&generate_bird_head_mesh(&BirdGenInputs::default()));
    assert!(triangle_count(&head) > 0);
}

#[test]
fn default_body_mesh_is_nonempty() {
    let body = realize(&generate_bird_body_mesh(&BirdGenInputs::default()));
    assert!(triangle_count(&body) > 0);
}

#[test]
fn default_bird_spans_roughly_the_nose_to_tail_length() {
    // beak_length + head_to_belly + belly_to_bottom + tail_length is
    // 15 + 32 + 25 + 50 = 122 units; the realized bird should roughly
    // span that along the main axis, give or take feature radii and the
    // pitched tail.
    let p = BirdGenInputs::default();
    let head = realize(&generate_bird_head_mesh(&p));
    let body = realize(&generate_bird_body_mesh(&p));
    let hb = head.bounding_box();
    let bb = body.bounding_box();
    let min_x = hb.mins.x.min(bb.mins.x);
    let max_x = hb.maxs.x.max(bb.maxs.x);
    let span = max_x - min_x;
    assert!(
        span > 100.0 && span < 180.0,
        "nose-to-tail span was {span}"
    );
}

#[test]
fn pointed_beak_still_yields_a_beak() {
    let mut p = BirdGenInputs::default();
    p.beak_width = 0;
    let head = realize(&generate_bird_head_mesh(&p));
    assert!(triangle_count(&head) > 0);
    // The beak reaches out to (beak_length + head_size / 2) times the
    // 1.1 inflation, about 28.6 units down what the final realignment
    // makes the positive main axis: a pointed beak, not a missing one.
    let bb = head.bounding_box();
    assert!(bb.maxs.x > 20.0, "beak tip only reached {}", bb.maxs.x);
}

/// Finds the union of the mirrored and the direct eye in a head recipe
/// and returns (the mirror node, the direct eye).
fn find_eye_pair(s: &Solid) -> Option<(&Solid, &Solid)> {
    if let Solid::Union { left, right } = s {
        if let Solid::Renormalize { body } = &**left {
            if let Solid::Union { left: _, right: mirrored } = &**body {
                if let Solid::Mirror { body: eye, .. } = &**mirrored {
                    if **eye == **right {
                        return Some((mirrored, right));
                    }
                }
            }
        }
    }
    match s {
        Solid::Sphere { .. } | Solid::Cylinder { .. } | Solid::Cuboid { .. } => None,
        Solid::Scale { body, .. }
        | Solid::Translate { body, .. }
        | Solid::Rotate { body, .. }
        | Solid::ConvexHull { body }
        | Solid::Mirror { body, .. }
        | Solid::Renormalize { body }
        | Solid::Subdivide { body, .. } => find_eye_pair(body),
        Solid::Union { left, right } | Solid::Difference { left, right } => {
            find_eye_pair(left).or_else(|| find_eye_pair(right))
        }
    }
}

#[test]
fn the_two_eyes_are_mirror_images() {
    let plan = generate_bird_head_mesh(&BirdGenInputs::default());
    let (mirror_node, direct) = find_eye_pair(&plan).expect("the default head has eyes");
    let m = realize(mirror_node);
    let d = realize(direct);
    assert!(triangle_count(&m) > 0 && triangle_count(&d) > 0);
    // Every vertex of the mirrored eye is the y-reflection of a vertex
    // of the direct eye, up to floating-point error.
    let dv = d.vertices();
    for v in m.vertices() {
        let reflected = (v.pos.x, -v.pos.y, v.pos.z);
        let hit = dv.iter().any(|w| {
            (w.pos.x - reflected.0).abs() < 1e-6
                && (w.pos.y - reflected.1).abs() < 1e-6
                && (w.pos.z - reflected.2).abs() < 1e-6
        });
        assert!(hit, "unmatched mirrored vertex at {:?}", v.pos);
    }
}

/// Squared distance from point `p` to the triangle `(a, b, c)`.
fn dist_sq_point_triangle(p: [f64; 3], a: [f64; 3], b: [f64; 3], c: [f64; 3]) -> f64 {
    fn sub(u: [f64; 3], v: [f64; 3]) -> [f64; 3] {
        [u[0] - v[0], u[1] - v[1], u[2] - v[2]]
    }
    fn dot(u: [f64; 3], v: [f64; 3]) -> f64 {
        u[0] * v[0] + u[1] * v[1] + u[2] * v[2]
    }
    let ab = sub(b, a);
    let ac = sub(c, a);
    let ap = sub(p, a);
    let d1 = dot(ab, ap);
    let d2 = dot(ac, ap);
    if d1 <= 0.0 && d2 <= 0.0 {
        return dot(ap, ap);
    }
    let bp = sub(p, b);
    let d3 = dot(ab, bp);
    let d4 = dot(ac, bp);
    if d3 >= 0.0 && d4 <= d3 {
        return dot(bp, bp);
    }
    let vc = d1 * d4 - d3 * d2;
    if vc <= 0.0 && d1 >= 0.0 && d3 <= 0.0 {
        let t = d1 / (d1 - d3);
        let q = sub(p, [a[0] + t * ab[0], a[1] + t * ab[1], a[2] + t * ab[2]]);
        return dot(q, q);
    }
    let cp = sub(p, c);
    let d5 = dot(ab, cp);
    let d6 = dot(ac, cp);
    if d6 >= 0.0 && d5 <= d6 {
        return dot(cp, cp);
    }
    let vb = d5 * d2 - d1 * d6;
    if vb <= 0.0 && d2 >= 0.0 && d6 <= 0.0 {
        let t = d2 / (d2 - d6);
        let q = sub(p, [a[0] + t * ac[0], a[1] + t * ac[1], a[2] + t * ac[2]]);
        return dot(q, q);
    }
    let va = d3 * d6 - d5 * d4;
    if va <= 0.0 && (d4 - d3) >= 0.0 && (d5 - d6) >= 0.0 {
        let t = (d4 - d3) / ((d4 - d3) + (d5 - d6));
        let bc = sub(c, b);
        let q = sub(p, [b[0] + t * bc[0], b[1] + t * bc[1], b[2] + t * bc[2]]);
        return dot(q, q);
    }
    let denom = 1.0 / (va + vb + vc);
    let v = vb * denom;
    let w = vc * denom;
    let q = sub(
        p,
        [
            a[0] + ab[0] * v + ac[0] * w,
            a[1] + ab[1] * v + ac[1] * w,
            a[2] + ab[2] * v + ac[2] * w,
        ],
    );
    dot(q, q)
}

/// Squared distance from a point to the mesh surface (fan-triangulated).
fn dist_sq_point_mesh(p: [f64; 3], m: &Mesh) -> f64 {
    let mut best = f64::INFINITY;
    for poly in &m.polygons {
        let vs = &poly.vertices;
        for i in 1..vs.len().saturating_sub(1) {
            let a = [vs[0].pos.x, vs[0].pos.y, vs[0].pos.z];
            let b = [vs[i].pos.x, vs[i].pos.y, vs[i].pos.z];
            let c = [vs[i + 1].pos.x, vs[i + 1].pos.y, vs[i + 1].pos.z];
            let d = dist_sq_point_triangle(p, a, b, c);
            if d < best {
                best = d;
            }
        }
    }
    best
}

#[test]
fn centered_head_is_symmetric_across_the_lateral_plane() {
    // With no yaw and no lateral offset the whole head solid is symmetric
    // across the authoring plane y = 0, which the final realignment maps
    // to the world plane z = 0: the reflection of every vertex must lie
    // on the mesh surface, up to the kernel's numerical tolerance.
    let mut p = BirdGenInputs::default();
    p.head_yaw = 0;
    p.head_lateral_offset = 0;
    let head = realize(&generate_bird_head_mesh(&p));
    let vs = head.vertices();
    assert!(!vs.is_empty());
    for v in vs.iter().step_by(47) {
        let reflected = [v.pos.x, v.pos.y, -v.pos.z];
        let d = dist_sq_point_mesh(reflected, &head).sqrt();
        assert!(
            d < 1e-3,
            "reflection of {:?} sits {d} away from the surface",
            v.pos
        );
    }
}

#[test]
fn base_cut_clips_the_body_at_the_cut_plane() {
    // Default record: the cut box spans heights -50 to -10, so the
    // body's underside is flattened at -10 model units (world y after
    // the final realignment); with the cut disabled the bottom sphere
    // reaches about -12.5.
    let p = BirdGenInputs::default();
    let cut = realize(&generate_bird_body_mesh(&p));
    let cut_bb = cut.bounding_box();
    assert!(
        (cut_bb.mins.y + 10.0).abs() < 0.5,
        "flat base was at {}",
        cut_bb.mins.y
    );

    let mut q = p;
    q.base_flat = -100_000;
    let free = realize(&generate_bird_body_mesh(&q));
    let free_bb = free.bounding_box();
    assert!(
        free_bb.mins.y < -11.0,
        "uncut body only reached {}",
        free_bb.mins.y
    );
}

#[test]
fn range_minimums_generate_nonempty_meshes() {
    let p = all_minimums();
    let head = realize(&generate_bird_head_mesh(&p));
    assert!(triangle_count(&head) > 0);
    let body = realize(&generate_bird_body_mesh(&p));
    assert!(triangle_count(&body) > 0);
}

#[test]
fn range_maximums_generate_nonempty_meshes() {
    let p = all_maximums();
    let head = realize(&generate_bird_head_mesh(&p));
    assert!(triangle_count(&head) > 0);
    let body = realize(&generate_bird_body_mesh(&p));
    assert!(triangle_count(&body) > 0);
}

#[test]
fn repeated_realization_of_a_hull_free_recipe_matches() {
    // The library's determinism is a proved contract: equal records give
    // equal recipes. The kernel side holds for the boolean operations;
    // its convex hull, however, retriangulates coplanar rings in a
    // hash-dependent order, so this check stays below the hull.
    let recipe = Solid::Renormalize {
        body: Box::new(Solid::Union {
            left: Box::new(Solid::Sphere {
                radius: 11_000_000_000,
                segments: 16,
                stacks: 16,
            }),
            right: Box::new(Solid::Translate {
                body: Box::new(Solid::Cylinder {
                    radius: 5_000_000_000,
                    height: 8_000_000_000,
                    segments: 12,
                }),
                x: 9_000_000_000,
                y: 0,
                z: 0,
            }),
        }),
    };
    let first = realize(&recipe);
    let second = realize(&recipe);
    assert_eq!(first.polygons.len(), second.polygons.len());
    assert_eq!(first.vertices().len(), second.vertices().len());
    assert!(triangle_count(&first) > 0);
}
