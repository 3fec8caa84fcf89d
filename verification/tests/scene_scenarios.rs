use glam::{Mat4, Quat, Vec3, Vec4};
use orengine::camera::{SlabDistances, TriangleProbe};
use orengine::instance::Instance;
use orengine::models::{MaterialSource, MeshSource, Triangle};
use orengine::picking::{get_hit_instance, InstanceProbe};
use orengine::rect::{Pos2, Rect};
use orengine::scalar::Scalar;
use orengine::state::{PhysicalSize, ProjectedPoint, State};

fn s(x: f32) -> Scalar {
    Scalar::from_bits(x.to_bits())
}

fn f(x: Scalar) -> f32 {
    f32::from_bits(x.to_bits())
}

fn v3(a: [Scalar; 3]) -> Vec3 {
    Vec3::new(f(a[0]), f(a[1]), f(a[2]))
}

fn instance(position: Vec3, rotation: Quat) -> Instance {
    Instance {
        position: orengine::camera::Vec3 { x: s(position.x), y: s(position.y), z: s(position.z) },
        rotation: orengine::instance::Quat {
            x: s(rotation.x),
            y: s(rotation.y),
            z: s(rotation.z),
            w: s(rotation.w),
        },
    }
}

fn position_of(i: &Instance) -> Vec3 {
    Vec3::new(f(i.position.x), f(i.position.y), f(i.position.z))
}

fn rotation_of(i: &Instance) -> Quat {
    Quat::from_xyzw(f(i.rotation.x), f(i.rotation.y), f(i.rotation.z), f(i.rotation.w))
}

/// A unit cube centred at the origin: eight corners, twelve triangles.
fn cube() -> MeshSource {
    let mut positions = Vec::new();
    for corner in 0..8 {
        for axis in 0..3 {
            positions.push(s(if corner >> axis & 1 == 1 { 0.5 } else { -0.5 }));
        }
    }
    let indices = vec![
        0, 1, 3, 0, 3, 2, // z = -0.5
        4, 7, 5, 4, 6, 7, // z = 0.5
        0, 4, 5, 0, 5, 1, // y = -0.5
        2, 3, 7, 2, 7, 6, // y = 0.5
        0, 2, 6, 0, 6, 4, // x = -0.5
        1, 5, 7, 1, 7, 3, // x = 0.5
    ];
    MeshSource {
        name: "cube".to_string(),
        positions,
        normals: Vec::new(),
        texcoords: Vec::new(),
        indices,
        material_id: None,
    }
}

fn scene(instances: Vec<Instance>) -> State {
    let materials = vec![MaterialSource { name: "m".to_string(), diffuse_texture: None }];
    State::new(Ok((vec![cube()], Ok(materials))), instances, PhysicalSize { width: 800, height: 600 })
        .unwrap()
}

fn slabs(origin: Vec3, direction: Vec3, min: Vec3, max: Vec3) -> SlabDistances {
    SlabDistances {
        x_min: s((min.x - origin.x) / direction.x),
        x_max: s((max.x - origin.x) / direction.x),
        y_min: s((min.y - origin.y) / direction.y),
        y_max: s((max.y - origin.y) / direction.y),
        z_min: s((min.z - origin.z) / direction.z),
        z_max: s((max.z - origin.z) / direction.z),
    }
}

fn triangle_probe(origin: Vec3, direction: Vec3, triangle: &Triangle) -> TriangleProbe {
    let (v0, v1, v2) = (v3(triangle.v0), v3(triangle.v1), v3(triangle.v2));
    let edge1 = v1 - v0;
    let edge2 = v2 - v0;
    let h = direction.cross(edge2);
    let a = edge1.dot(h);
    let inv = 1.0 / a;
    let to_origin = origin - v0;
    let u = inv * to_origin.dot(h);
    let q = to_origin.cross(edge1);
    let v = inv * direction.dot(q);
    let t = inv * edge2.dot(q);
    TriangleProbe { det: s(a), u: s(u), v: s(v), u_plus_v: s(u + v), t: s(t) }
}

fn probes(state: &State, origin: Vec3, direction: Vec3) -> Vec<InstanceProbe> {
    let triangles = state.triangles();
    let aabb = state.model_aabb();
    state
        .instances()
        .iter()
        .map(|instance| {
            let to_local = rotation_of(instance).inverse();
            let local_origin = to_local * (origin - position_of(instance));
            let local_direction = to_local * direction;
            InstanceProbe {
                slabs: slabs(local_origin, local_direction, v3(aabb.min), v3(aabb.max)),
                triangles: triangles
                    .iter()
                    .map(|t| triangle_probe(local_origin, local_direction, t))
                    .collect(),
            }
        })
        .collect()
}

fn pick(state: &State, origin: Vec3, direction: Vec3) -> Option<(usize, f32)> {
    get_hit_instance(&probes(state, origin, direction)).map(|(i, d)| (i, f(d)))
}

#[test]
fn ray_picks_the_nearer_of_two_cubes() {
    let near = instance(Vec3::new(0.0, 0.0, -4.0), Quat::IDENTITY);
    let far = instance(Vec3::new(0.0, 0.0, -9.0), Quat::IDENTITY);
    let origin = Vec3::new(0.1, 0.2, 3.0);
    let direction = Vec3::new(0.0, 0.0, -1.0);
    let state = scene(vec![near, far]);
    assert_eq!(pick(&state, origin, direction), Some((0, 6.5)));
    let state = scene(vec![far, near]);
    assert_eq!(pick(&state, origin, direction), Some((1, 6.5)));
}

#[test]
fn ray_picks_the_cube_it_points_at() {
    let instances = vec![
        instance(Vec3::new(-3.0, 0.0, 0.0), Quat::IDENTITY),
        instance(Vec3::new(0.0, 0.0, 0.0), Quat::from_axis_angle(Vec3::Y, 0.3)),
        instance(Vec3::new(3.0, 0.0, 0.0), Quat::from_axis_angle(Vec3::new(0.6, 0.8, 0.0), 1.0)),
    ];
    let state = scene(instances);
    let eye = Vec3::new(0.0, 1.0, 8.0);
    for (i, target) in [Vec3::new(-3.0, 0.0, 0.0), Vec3::ZERO, Vec3::new(3.0, 0.0, 0.0)].iter().enumerate() {
        let direction = (*target - eye).normalize();
        let hit = pick(&state, eye, direction);
        assert_eq!(hit.map(|(i, _)| i), Some(i));
        let distance = hit.unwrap().1;
        let to_centre = (*target - eye).length();
        assert!(distance > to_centre - 0.9 && distance < to_centre);
    }
    assert!(pick(&state, eye, Vec3::new(0.0, 1.0, 0.0)).is_none());
    assert!(pick(&state, eye, (eye - Vec3::ZERO).normalize()).is_none());
}

#[test]
fn ray_into_an_empty_scene_hits_nothing() {
    let state = scene(Vec::new());
    assert!(pick(&state, Vec3::new(0.0, 0.0, 3.0), Vec3::new(0.0, 0.0, -1.0)).is_none());
}

fn project(view_proj: Mat4, image: egui::Rect, position: Vec3) -> ProjectedPoint {
    let clip = view_proj * Vec4::new(position.x, position.y, position.z, 1.0);
    let ndc = clip / clip.w;
    let screen_x = image.min.x + (ndc.x + 1.0) * 0.5 * image.width();
    let screen_y = image.min.y + (1.0 - ndc.y) * 0.5 * image.height();
    ProjectedPoint { clip_w: s(clip.w), screen: Pos2 { x: s(screen_x), y: s(screen_y) } }
}

fn rect(min: (f32, f32), max: (f32, f32)) -> Rect {
    Rect { min: Pos2 { x: s(min.0), y: s(min.1) }, max: Pos2 { x: s(max.0), y: s(max.1) } }
}

#[test]
fn box_selection_by_projected_position() {
    let eye = Vec3::new(0.0, 1.0, 5.0);
    let view = Mat4::look_at_rh(eye, Vec3::new(0.0, 1.0, 0.0), Vec3::Y);
    let proj = Mat4::perspective_rh(45.0f32.to_radians(), 800.0 / 600.0, 0.1, 100.0);
    let view_proj = proj * view;
    let image = egui::Rect::from_min_max(egui::pos2(200.0, 30.0), egui::pos2(1000.0, 630.0));
    let instances = vec![
        instance(Vec3::new(0.0, 1.0, 0.0), Quat::IDENTITY),   // centre of the view
        instance(Vec3::new(-1.0, 1.0, 0.0), Quat::IDENTITY),  // left of it
        instance(Vec3::new(1.5, 1.5, -2.0), Quat::IDENTITY),  // right, above, farther
        instance(Vec3::new(0.0, 1.0, 9.0), Quat::IDENTITY),   // behind the camera
        instance(Vec3::new(0.0, -40.0, 0.0), Quat::IDENTITY), // far below the view
    ];
    let mut state = scene(instances);
    let projected: Vec<ProjectedPoint> =
        state.instances().iter().map(|i| project(view_proj, image, position_of(i))).collect();
    let at = |i: usize| (f(projected[i].screen.x), f(projected[i].screen.y));
    assert_eq!(at(0), (600.0, 330.0));
    assert!(at(1).0 < 600.0 && at(1).1 == 330.0);
    assert!(f(projected[3].clip_w) < 0.0);

    // A rectangle round the centre of the view.
    state.perform_box_selection(rect((590.0, 320.0), (610.0, 340.0)), &projected);
    assert_eq!(state.selected_instances(), vec![0]);

    // A rectangle over the left half, whose right side runs through the centre.
    state.perform_box_selection(rect((200.0, 30.0), (600.0, 630.0)), &projected);
    let mut selected = state.selected_instances();
    selected.sort();
    assert_eq!(selected, vec![0, 1]);

    // The same, a hair narrower: the centre is now strictly outside.
    state.perform_box_selection(rect((200.0, 30.0), (599.99994, 630.0)), &projected);
    assert_eq!(state.selected_instances(), vec![1]);

    // A rectangle with the second instance exactly on its corner.
    state.perform_box_selection(rect(at(1), (599.0, 629.0)), &projected);
    assert_eq!(state.selected_instances(), vec![1]);

    // The whole image: all that is in view and in front of the camera.
    state.perform_box_selection(rect((200.0, 30.0), (1000.0, 630.0)), &projected);
    let mut selected = state.selected_instances();
    selected.sort();
    assert_eq!(selected, vec![0, 1, 2]);

    // The whole plane: still nothing from behind the camera.
    state.perform_box_selection(rect((-1.0e9, -1.0e9), (1.0e9, 1.0e9)), &projected);
    let mut selected = state.selected_instances();
    selected.sort();
    assert_eq!(selected, vec![0, 1, 2, 4]);
}
