use orengine::camera::{ElementState, KeyCode, Vec3};
use orengine::error::OrengineError;
use orengine::input::{CursorRequest, MouseButton, WindowEvent};
use orengine::instance::{Instance, Quat};
use orengine::models::{MaterialSource, MeshSource};
use orengine::rect::{Pos2, Rect};
use orengine::scalar::Scalar;
use orengine::state::{
    BindGroup, DrawCall, FrameRequests, PhysicalSize, Pipeline, ProjectedPoint, ReleaseAction,
    State, ViewportResponse, CAMERA_SPEED_BITS, DRAG_THRESHOLD_BITS, LIGHT_OFFSET_BITS,
};

fn s(x: f32) -> Scalar {
    Scalar::from_bits(x.to_bits())
}

fn f(x: Scalar) -> f32 {
    f32::from_bits(x.to_bits())
}

fn f3(v: [Scalar; 3]) -> [f32; 3] {
    [f(v[0]), f(v[1]), f(v[2])]
}

fn pos(x: f32, y: f32) -> Pos2 {
    Pos2 { x: s(x), y: s(y) }
}

fn rect(x0: f32, y0: f32, x1: f32, y1: f32) -> Rect {
    Rect { min: pos(x0, y0), max: pos(x1, y1) }
}

fn corners(r: Rect) -> [f32; 4] {
    [f(r.min.x), f(r.min.y), f(r.max.x), f(r.max.y)]
}

fn instance_at(x: f32, y: f32, z: f32) -> Instance {
    Instance {
        position: Vec3 { x: s(x), y: s(y), z: s(z) },
        rotation: Quat { x: s(0.0), y: s(0.0), z: s(0.0), w: s(1.0) },
    }
}

fn mesh(name: &str, positions: &[f32], indices: &[u32], material_id: Option<usize>) -> MeshSource {
    MeshSource {
        name: name.to_string(),
        positions: positions.iter().map(|x| s(*x)).collect(),
        normals: Vec::new(),
        texcoords: Vec::new(),
        indices: indices.to_vec(),
        material_id,
    }
}

fn material(name: &str) -> MaterialSource {
    MaterialSource { name: name.to_string(), diffuse_texture: None }
}

type Parsed = Result<(Vec<MeshSource>, Result<Vec<MaterialSource>, tobj::LoadError>), tobj::LoadError>;

/// Two meshes: a triangle with material 1 and a quad with material 0.
fn two_meshes() -> Parsed {
    Ok((
        vec![
            mesh("tri", &[0.0, 0.0, 0.0, 1.0, 0.0, 0.0, 0.0, 1.0, 0.0], &[0, 1, 2], Some(1)),
            mesh(
                "quad",
                &[0.0, 0.0, 1.0, 1.0, 0.0, 1.0, 1.0, 1.0, 1.0, 0.0, 1.0, 1.0],
                &[0, 1, 2, 0, 2, 3],
                None,
            ),
        ],
        Ok(vec![material("a"), material("b")]),
    ))
}

const SIZE: PhysicalSize = PhysicalSize { width: 800, height: 600 };

fn scene(instances: usize) -> State {
    let instances = (0..instances).map(|i| instance_at(i as f32 * 3.0, 0.0, 0.0)).collect();
    State::new(two_meshes(), instances, SIZE).unwrap()
}

fn selected(state: &State) -> Vec<usize> {
    let mut v = state.selected_instances();
    v.sort();
    v
}

fn in_front(x: f32, y: f32) -> ProjectedPoint {
    ProjectedPoint { clip_w: s(1.0), screen: pos(x, y) }
}

fn overlay(bind_group: BindGroup, i: u32) -> Vec<DrawCall> {
    vec![
        DrawCall {
            pipeline: Pipeline::Wireframe,
            bind_group,
            mesh: 0,
            num_elements: 3,
            first_instance: i,
            end_instance: i + 1,
        },
        DrawCall {
            pipeline: Pipeline::Wireframe,
            bind_group,
            mesh: 1,
            num_elements: 6,
            first_instance: i,
            end_instance: i + 1,
        },
    ]
}

fn solid(instances: u32) -> Vec<DrawCall> {
    vec![
        DrawCall {
            pipeline: Pipeline::Solid,
            bind_group: BindGroup::Material(1),
            mesh: 0,
            num_elements: 3,
            first_instance: 0,
            end_instance: instances,
        },
        DrawCall {
            pipeline: Pipeline::Solid,
            bind_group: BindGroup::Material(0),
            mesh: 1,
            num_elements: 6,
            first_instance: 0,
            end_instance: instances,
        },
    ]
}

#[test]
fn state_constants() {
    assert_eq!(CAMERA_SPEED_BITS, 0.01f32.to_bits());
    assert_eq!(LIGHT_OFFSET_BITS, 2.0f32.to_bits());
    assert_eq!(DRAG_THRESHOLD_BITS, 5.0f32.to_bits());
}

#[test]
fn new_scene() {
    let state = scene(4);
    assert_eq!(state.size(), SIZE);
    assert_eq!(state.instances().len(), 4);
    assert_eq!(f(state.instances()[2].position.x), 6.0);
    assert_eq!(state.cpu_meshes().len(), 2);
    assert_eq!(state.cpu_meshes()[0].name, "tri");
    assert_eq!(state.cpu_meshes()[1].material_id, 0);
    assert_eq!(state.materials().len(), 2);
    assert_eq!(f3(state.model_aabb().min), [0.0, 0.0, 0.0]);
    assert_eq!(f3(state.model_aabb().max), [1.0, 1.0, 1.0]);
    assert!(!state.is_scene_hovered());
    assert!(state.selected_instances().is_empty());
    assert!(state.selection_drag_start().is_none());
    assert!(state.hovered_instance().is_none());
    let light = state.light_uniform();
    assert_eq!(f3(light.position), [2.0, 2.0, 2.0]);
    assert_eq!(f3(light.color), [1.0, 0.0, 0.0]);
    assert_eq!(light._padding, 0);
    assert_eq!(light._padding2, 0);
    let handler = state.input_handler();
    assert_eq!(f(handler.camera_controller.speed), 0.01);
    assert!(!handler.right_mouse_pressed);
    assert!(!handler.is_scene_focused);
}

#[test]
fn new_scene_hands_load_errors_on() {
    let r = State::new(Err(tobj::LoadError::OpenFileFailed), Vec::new(), SIZE);
    assert!(matches!(r, Err(OrengineError::Tobj(tobj::LoadError::OpenFileFailed))));
    let r = State::new(Ok((Vec::new(), Err(tobj::LoadError::ReadError))), Vec::new(), SIZE);
    assert!(matches!(r, Err(OrengineError::Tobj(tobj::LoadError::ReadError))));
    let meshes = vec![mesh("a", &[0.0, 0.0, 0.0], &[0, 0, 0], Some(0))];
    let r = State::new(Ok((meshes, Ok(Vec::new()))), Vec::new(), SIZE);
    assert!(matches!(r, Err(OrengineError::MismatchedMaterials)));
    let meshes = vec![mesh("a", &[0.0, 0.0, 0.0], &[0, 0, 1], Some(0))];
    let r = State::new(Ok((meshes, Ok(vec![material("m")]))), Vec::new(), SIZE);
    assert!(matches!(r, Err(OrengineError::Generic(_))));
}

#[test]
fn resize_takes_sizes_with_area() {
    let mut state = scene(1);
    assert!(state.resize(PhysicalSize { width: 1024, height: 768 }));
    assert_eq!(state.size(), PhysicalSize { width: 1024, height: 768 });
    assert!(!state.resize(PhysicalSize { width: 0, height: 768 }));
    assert!(!state.resize(PhysicalSize { width: 1024, height: 0 }));
    assert!(!state.resize(PhysicalSize { width: 0, height: 0 }));
    assert_eq!(state.size(), PhysicalSize { width: 1024, height: 768 });
    assert!(state.resize(PhysicalSize { width: 1, height: 1 }));
    assert_eq!(state.size(), PhysicalSize { width: 1, height: 1 });
}

#[test]
fn input_is_consumed_by_interface_or_handler() {
    let mut state = scene(1);
    let w = WindowEvent::KeyboardInput { keycode: KeyCode::KeyW, state: ElementState::Pressed };
    let out = state.input(&w, false);
    assert!(!out.consumed);
    let out = state.input(&w, true);
    assert!(out.consumed);
    assert!(!state.input_handler().camera_controller.is_forward_pressed);
    state.set_scene_hovered(true);
    let press = WindowEvent::MouseInput { button: MouseButton::Right, state: ElementState::Pressed };
    let out = state.input(&press, false);
    assert!(out.consumed);
    assert_eq!(out.cursor, CursorRequest::Confine);
    assert!(state.input_handler().is_scene_focused);
    let out = state.input(&w, false);
    assert!(out.consumed);
    assert_eq!(out.cursor, CursorRequest::Keep);
    assert!(state.input_handler().camera_controller.is_forward_pressed);
    state.handle_mouse_motion(s(0.25), s(-9.0));
    assert_eq!(f(state.input_handler().camera_controller.yaw), 0.25);
    assert_eq!(f(state.input_handler().camera_controller.pitch), -1.54);
    let release = WindowEvent::MouseInput { button: MouseButton::Right, state: ElementState::Released };
    let out = state.input(&release, true);
    assert!(out.consumed);
    assert_eq!(out.cursor, CursorRequest::Release);
    state.handle_mouse_motion(s(0.5), s(0.0));
    assert_eq!(f(state.input_handler().camera_controller.yaw), 0.25);
}

#[test]
fn light_is_taken_from_the_interface() {
    let mut state = scene(1);
    state.set_light([s(-10.0), s(0.5), s(10.0)], [s(0.1), s(0.2), s(0.3)]);
    let light = state.light_uniform();
    assert_eq!(f3(light.position), [-10.0, 0.5, 10.0]);
    assert_eq!(f3(light.color), [0.1, 0.2, 0.3]);
    assert_eq!(light._padding, 0);
    assert_eq!(light._padding2, 0);
}

#[test]
fn drag_spans_a_rectangle() {
    let mut state = scene(1);
    state.set_scene_hovered(true);
    assert!(state.drag_rect(Some(pos(1.0, 1.0))).is_none());
    state.begin_drag(Some(pos(30.0, 40.0)));
    assert_eq!(state.selection_drag_start().map(|p| (f(p.x), f(p.y))), Some((30.0, 40.0)));
    assert!(state.drag_rect(None).is_none());
    assert_eq!(state.drag_rect(Some(pos(50.0, 45.0))).map(corners), Some([30.0, 40.0, 50.0, 45.0]));
    assert_eq!(state.drag_rect(Some(pos(10.0, 60.0))).map(corners), Some([10.0, 40.0, 30.0, 60.0]));
    assert_eq!(state.drag_rect(Some(pos(10.0, 20.0))).map(corners), Some([10.0, 20.0, 30.0, 40.0]));
    assert_eq!(state.drag_rect(Some(pos(30.0, 40.0))).map(corners), Some([30.0, 40.0, 30.0, 40.0]));
    assert!(state.selected_instances().is_empty());
}

fn release(start: Option<Pos2>, end: Option<Pos2>, width: f32, height: f32) -> (Option<[f32; 4]>, bool) {
    let mut state = scene(1);
    state.set_scene_hovered(true);
    state.begin_drag(start);
    let action = state.end_drag(end, s(width), s(height));
    let still_dragging = state.selection_drag_start().is_some();
    match action {
        ReleaseAction::BoxSelect(r) => (Some(corners(r)), still_dragging),
        ReleaseAction::Pick => (None, still_dragging),
    }
}

#[test]
fn release_decides_between_box_and_pick() {
    let a = Some(pos(10.0, 10.0));
    let b = Some(pos(4.0, 30.0));
    let r = [4.0, 10.0, 10.0, 30.0];
    assert_eq!(release(a, b, 6.0, 20.0), (Some(r), false));
    assert_eq!(release(a, b, 6.0, 0.0), (Some(r), false));
    assert_eq!(release(a, b, 0.0, 20.0), (Some(r), false));
    assert_eq!(release(a, b, 5.0, 5.0), (None, false));
    assert_eq!(release(a, b, 5.0, 5.000001), (Some(r), false));
    assert_eq!(release(a, b, 5.000001, 5.0), (Some(r), false));
    assert_eq!(release(a, b, 4.999999, 4.999999), (None, false));
    assert_eq!(release(a, b, 0.0, 0.0), (None, false));
    assert_eq!(release(a, b, f32::NAN, f32::NAN), (None, false));
    assert_eq!(release(a, b, f32::INFINITY, 0.0), (Some(r), false));
    // Without a start or an end there is no rectangle, however far the pointer went.
    assert_eq!(release(None, b, 100.0, 100.0), (None, false));
    assert_eq!(release(a, None, 100.0, 100.0), (None, false));
    assert_eq!(release(None, None, 100.0, 100.0), (None, false));
}

#[test]
fn box_selection_takes_points_inside_and_on_the_border() {
    let mut state = scene(9);
    let r = rect(100.0, 200.0, 300.0, 400.0);
    let projected = vec![
        in_front(200.0, 300.0),      // strictly inside
        in_front(100.0, 300.0),      // on the left side
        in_front(300.0, 400.0),      // on a corner
        in_front(99.99999, 300.0),   // just left of it
        in_front(200.0, 400.00003),  // just below it
        in_front(500.0, 500.0),      // far outside
        ProjectedPoint { clip_w: s(-1.0), screen: pos(200.0, 300.0) }, // behind the camera
        ProjectedPoint { clip_w: s(0.0), screen: pos(200.0, 300.0) },  // in the camera's plane
        in_front(f32::NAN, 300.0),   // nowhere
    ];
    state.perform_box_selection(r, &projected);
    assert_eq!(selected(&state), vec![0, 1, 2]);
    for i in 0..9 {
        assert_eq!(state.is_selected(i), i < 3);
    }
    assert!(!state.is_selected(9));
}

#[test]
fn box_selection_replaces_the_selection() {
    let mut state = scene(3);
    let r = rect(0.0, 0.0, 10.0, 10.0);
    state.perform_box_selection(r, &vec![in_front(1.0, 1.0), in_front(20.0, 1.0), in_front(2.0, 2.0)]);
    assert_eq!(selected(&state), vec![0, 2]);
    state.perform_box_selection(r, &vec![in_front(50.0, 1.0), in_front(5.0, 1.0), in_front(50.0, 2.0)]);
    assert_eq!(selected(&state), vec![1]);
    state.perform_box_selection(r, &vec![in_front(50.0, 1.0), in_front(50.0, 1.0), in_front(50.0, 2.0)]);
    assert!(selected(&state).is_empty());
}

#[test]
fn box_selection_goes_by_the_instances_that_exist() {
    let mut state = scene(2);
    let r = rect(0.0, 0.0, 10.0, 10.0);
    state.perform_box_selection(r, &vec![in_front(1.0, 1.0), in_front(1.0, 1.0), in_front(1.0, 1.0)]);
    assert_eq!(selected(&state), vec![0, 1]);
    state.perform_box_selection(r, &vec![in_front(1.0, 1.0)]);
    assert_eq!(selected(&state), vec![0]);
    state.perform_box_selection(r, &Vec::new());
    assert!(selected(&state).is_empty());
}

#[test]
fn box_selection_leaves_hover_alone() {
    let mut state = scene(3);
    state.set_scene_hovered(true);
    state.apply_pick(Some(2), false);
    state.perform_box_selection(rect(0.0, 0.0, 10.0, 10.0), &vec![in_front(1.0, 1.0)]);
    assert_eq!(state.hovered_instance(), Some(2));
    assert_eq!(selected(&state), vec![0]);
}

#[test]
fn click_selects_only_the_hit_instance() {
    let mut state = scene(5);
    state.set_scene_hovered(true);
    state.perform_box_selection(
        rect(0.0, 0.0, 10.0, 10.0),
        &vec![in_front(1.0, 1.0), in_front(1.0, 1.0), in_front(1.0, 1.0)],
    );
    assert_eq!(selected(&state), vec![0, 1, 2]);
    state.apply_pick(Some(4), true);
    assert_eq!(selected(&state), vec![4]);
    assert_eq!(state.hovered_instance(), Some(4));
}

#[test]
fn click_on_selected_instance_keeps_it_selected() {
    let mut state = scene(5);
    state.set_scene_hovered(true);
    state.apply_pick(Some(3), true);
    assert_eq!(selected(&state), vec![3]);
    state.apply_pick(Some(3), true);
    assert_eq!(selected(&state), vec![3]);
    state.apply_pick(Some(3), true);
    assert_eq!(selected(&state), vec![3]);
    assert!(state.is_selected(3));
}

#[test]
fn click_on_nothing_clears_the_selection() {
    let mut state = scene(5);
    state.set_scene_hovered(true);
    state.apply_pick(Some(3), true);
    state.apply_pick(None, true);
    assert!(selected(&state).is_empty());
    assert!(state.hovered_instance().is_none());
}

#[test]
fn hover_follows_the_pointer_without_selecting() {
    let mut state = scene(5);
    state.set_scene_hovered(true);
    state.apply_pick(Some(1), true);
    state.apply_pick(Some(2), false);
    assert_eq!(state.hovered_instance(), Some(2));
    assert_eq!(selected(&state), vec![1]);
    state.apply_pick(None, false);
    assert!(state.hovered_instance().is_none());
    assert_eq!(selected(&state), vec![1]);
}

#[test]
fn pointer_beside_the_scene_changes_nothing() {
    let mut state = scene(5);
    state.set_scene_hovered(true);
    state.apply_pick(Some(1), true);
    state.set_scene_hovered(false);
    state.apply_pick(Some(2), false);
    state.apply_pick(Some(3), true);
    state.apply_pick(None, true);
    assert_eq!(state.hovered_instance(), Some(1));
    assert_eq!(selected(&state), vec![1]);
}

#[test]
fn hover_rests_during_a_drag() {
    let mut state = scene(5);
    state.set_scene_hovered(true);
    state.apply_pick(Some(1), false);
    state.begin_drag(Some(pos(1.0, 1.0)));
    state.apply_pick(Some(2), false);
    state.apply_pick(None, false);
    assert_eq!(state.hovered_instance(), Some(1));
    let action = state.end_drag(Some(pos(2.0, 2.0)), s(1.0), s(1.0));
    assert!(matches!(action, ReleaseAction::Pick));
    state.apply_pick(Some(2), true);
    assert_eq!(state.hovered_instance(), Some(2));
    assert_eq!(selected(&state), vec![2]);
}

#[test]
fn frame_without_selection_draws_every_mesh_once() {
    let state = scene(100);
    assert_eq!(state.render(), solid(100));
    let state = scene(0);
    assert_eq!(state.render(), solid(0));
}

#[test]
fn frame_outlines_selected_and_hovered_instances() {
    let mut state = scene(10);
    state.set_scene_hovered(true);
    state.apply_pick(Some(7), true);
    state.apply_pick(Some(2), false);
    let mut want = solid(10);
    want.extend(overlay(BindGroup::Selection, 7));
    want.extend(overlay(BindGroup::Hover, 2));
    assert_eq!(state.render(), want);
}

#[test]
fn frame_does_not_outline_a_selected_instance_twice() {
    let mut state = scene(10);
    state.set_scene_hovered(true);
    state.apply_pick(Some(7), true);
    let mut want = solid(10);
    want.extend(overlay(BindGroup::Selection, 7));
    assert_eq!(state.render(), want);
}

#[test]
fn frame_outlines_each_selected_instance_once() {
    let mut state = scene(6);
    state.set_scene_hovered(true);
    state.apply_pick(Some(5), false);
    let projected: Vec<ProjectedPoint> =
        (0..6).map(|i| in_front(if i % 2 == 0 { 1.0 } else { 50.0 }, 1.0)).collect();
    state.perform_box_selection(rect(0.0, 0.0, 10.0, 10.0), &projected);
    let calls = state.render();
    assert_eq!(calls.len(), 2 + 3 * 2 + 2);
    assert_eq!(calls[..2].to_vec(), solid(6));
    assert_eq!(calls[8..].to_vec(), overlay(BindGroup::Hover, 5));
    let mut outlined = Vec::new();
    for pair in calls[2..8].chunks(2) {
        let i = pair[0].first_instance;
        assert_eq!(pair.to_vec(), overlay(BindGroup::Selection, i));
        outlined.push(i);
    }
    outlined.sort();
    assert_eq!(outlined, vec![0, 2, 4]);
}

#[test]
fn triangles_of_the_scene() {
    let state = scene(1);
    let triangles = state.triangles();
    assert_eq!(triangles.len(), 3);
    assert_eq!(f3(triangles[0].v1), [1.0, 0.0, 0.0]);
    assert_eq!(f3(triangles[1].v2), [1.0, 1.0, 1.0]);
    assert_eq!(f3(triangles[2].v0), [0.0, 0.0, 1.0]);
    assert_eq!(f3(triangles[2].v1), [1.0, 1.0, 1.0]);
    assert_eq!(f3(triangles[2].v2), [0.0, 1.0, 1.0]);
}

#[test]
fn press_beside_the_scene_begins_no_drag() {
    let mut state = scene(1);
    state.begin_drag(Some(pos(30.0, 40.0)));
    assert!(state.selection_drag_start().is_none());
    assert!(state.drag_rect(Some(pos(50.0, 45.0))).is_none());
    let action = state.end_drag(Some(pos(50.0, 45.0)), s(20.0), s(5.0));
    assert!(matches!(action, ReleaseAction::Pick));
}

#[test]
fn hit_on_an_instance_that_is_not_there_is_no_hit() {
    let mut state = scene(3);
    state.set_scene_hovered(true);
    state.apply_pick(Some(1), true);
    state.apply_pick(Some(3), false);
    assert!(state.hovered_instance().is_none());
    assert_eq!(selected(&state), vec![1]);
    state.apply_pick(Some(usize::MAX), true);
    assert!(state.hovered_instance().is_none());
    assert!(selected(&state).is_empty());
    assert_eq!(state.render(), solid(3));
}

fn quiet() -> ViewportResponse {
    ViewportResponse {
        hovered: true,
        hover_pos: Some(pos(120.0, 130.0)),
        drag_started: false,
        dragged: false,
        drag_stopped: false,
        clicked: false,
        interact_pointer_pos: None,
        rect: rect(100.0, 100.0, 500.0, 400.0),
    }
}

fn measured(state: &State, response: &ViewportResponse) -> (f32, f32) {
    match state.release_rect(response) {
        Some(r) => (f(r.max.x) - f(r.min.x), f(r.max.y) - f(r.min.y)),
        None => (0.0, 0.0),
    }
}

fn frame(state: &mut State, response: &ViewportResponse) -> FrameRequests {
    let (width, height) = measured(state, response);
    state.handle_viewport(response, s(width), s(height))
}

#[test]
fn frame_with_the_pointer_over_the_image_asks_for_a_hit_test() {
    let mut state = scene(3);
    let requests = frame(&mut state, &quiet());
    assert!(state.is_scene_hovered());
    assert_eq!(requests.hover.map(|(p, r)| (f(p.x), f(p.y), corners(r))), Some((120.0, 130.0, [100.0, 100.0, 500.0, 400.0])));
    assert!(!requests.click);
    assert!(requests.box_selection.is_none());
    assert!(requests.rubber_band.is_none());
}

#[test]
fn frame_with_the_pointer_elsewhere_asks_for_nothing() {
    let mut state = scene(3);
    frame(&mut state, &quiet());
    let away = ViewportResponse { hovered: false, hover_pos: None, ..quiet() };
    let requests = frame(&mut state, &away);
    assert!(!state.is_scene_hovered());
    assert!(requests.hover.is_none());
    assert!(!requests.click);
    let odd = ViewportResponse { hovered: false, ..quiet() };
    assert!(frame(&mut state, &odd).hover.is_none());
    let blind = ViewportResponse { hover_pos: None, ..quiet() };
    assert!(frame(&mut state, &blind).hover.is_none());
}

#[test]
fn frame_with_a_click_asks_for_a_pick() {
    let mut state = scene(3);
    let requests = frame(&mut state, &ViewportResponse { clicked: true, ..quiet() });
    assert!(requests.click);
    assert!(requests.hover.is_some());
    assert!(requests.box_selection.is_none());
}

#[test]
fn frames_of_a_drag_end_in_a_box_selection() {
    let mut state = scene(3);
    let press = ViewportResponse {
        drag_started: true,
        dragged: true,
        interact_pointer_pos: Some(pos(200.0, 200.0)),
        ..quiet()
    };
    let requests = frame(&mut state, &press);
    assert_eq!(state.selection_drag_start().map(|p| (f(p.x), f(p.y))), Some((200.0, 200.0)));
    assert_eq!(requests.rubber_band.map(corners), Some([200.0, 200.0, 200.0, 200.0]));
    assert!(requests.box_selection.is_none());
    assert!(!requests.click);

    let drag = ViewportResponse { dragged: true, interact_pointer_pos: Some(pos(150.0, 260.0)), ..quiet() };
    let requests = frame(&mut state, &drag);
    assert_eq!(requests.rubber_band.map(corners), Some([150.0, 200.0, 200.0, 260.0]));
    assert!(requests.box_selection.is_none());
    assert!(state.selection_drag_start().is_some());

    let release = ViewportResponse {
        drag_stopped: true,
        interact_pointer_pos: Some(pos(140.0, 270.0)),
        ..quiet()
    };
    assert_eq!(state.release_rect(&release).map(corners), Some([140.0, 200.0, 200.0, 270.0]));
    let requests = frame(&mut state, &release);
    assert_eq!(
        requests.box_selection.map(|(r, image)| (corners(r), corners(image))),
        Some(([140.0, 200.0, 200.0, 270.0], [100.0, 100.0, 500.0, 400.0]))
    );
    assert!(!requests.click);
    assert!(requests.rubber_band.is_none());
    assert!(state.selection_drag_start().is_none());
}

#[test]
fn a_short_drag_ends_in_a_pick() {
    let mut state = scene(3);
    let press = ViewportResponse { drag_started: true, interact_pointer_pos: Some(pos(200.0, 200.0)), ..quiet() };
    frame(&mut state, &press);
    let release = ViewportResponse { drag_stopped: true, interact_pointer_pos: Some(pos(205.0, 195.0)), ..quiet() };
    let requests = frame(&mut state, &release);
    assert!(requests.click);
    assert!(requests.box_selection.is_none());
    assert!(state.selection_drag_start().is_none());
}

#[test]
fn a_drag_within_one_frame() {
    let mut state = scene(3);
    let both = ViewportResponse {
        drag_started: true,
        drag_stopped: true,
        interact_pointer_pos: Some(pos(200.0, 200.0)),
        ..quiet()
    };
    assert_eq!(state.release_rect(&both).map(corners), Some([200.0, 200.0, 200.0, 200.0]));
    let requests = frame(&mut state, &both);
    assert!(requests.click);
    assert!(requests.box_selection.is_none());
    assert!(state.selection_drag_start().is_none());
}

#[test]
fn no_release_no_rectangle_to_measure() {
    let mut state = scene(3);
    let press = ViewportResponse { drag_started: true, interact_pointer_pos: Some(pos(200.0, 200.0)), ..quiet() };
    frame(&mut state, &press);
    let drag = ViewportResponse { dragged: true, interact_pointer_pos: Some(pos(300.0, 300.0)), ..quiet() };
    assert!(state.release_rect(&drag).is_none());
    // Sizes handed in without a release are not read.
    let requests = state.handle_viewport(&drag, s(100.0), s(100.0));
    assert!(requests.box_selection.is_none());
    assert!(!requests.click);
}

#[test]
fn frame_keeps_to_what_the_scene_has() {
    let mut state = scene(4);
    state.set_scene_hovered(true);
    state.apply_pick(Some(3), false);
    state.perform_box_selection(
        rect(0.0, 0.0, 10.0, 10.0),
        &vec![in_front(1.0, 1.0), in_front(1.0, 1.0), in_front(50.0, 1.0), in_front(50.0, 1.0)],
    );
    let calls = state.render();
    assert_eq!(calls.len(), 2 * (1 + 2 + 1));
    for call in &calls {
        assert!(call.mesh < state.cpu_meshes().len());
        assert_eq!(call.num_elements as usize, state.cpu_meshes()[call.mesh].indices.len());
        if let BindGroup::Material(id) = call.bind_group {
            assert!(id < state.materials().len());
            assert_eq!(id, state.cpu_meshes()[call.mesh].material_id);
        }
        assert!(call.first_instance <= call.end_instance);
        assert!(call.end_instance as usize <= state.instances().len());
    }
}

#[test]
fn model_without_materials_is_drawn_in_plain_white() {
    let parsed: Parsed = Ok((
        vec![mesh("tri", &[1.0, 1.0, 1.0, 2.0, 1.0, 1.0, 1.0, 2.0, 1.0], &[0, 1, 2], None)],
        Ok(Vec::new()),
    ));
    let mut state = State::new(parsed, vec![instance_at(0.0, 0.0, 0.0), instance_at(3.0, 0.0, 0.0)], SIZE).unwrap();
    assert!(state.materials().is_empty());
    assert_eq!(f3(state.model_aabb().min), [1.0, 1.0, 1.0]);
    assert_eq!(f3(state.model_aabb().max), [2.0, 2.0, 1.0]);
    let plain = DrawCall {
        pipeline: Pipeline::Solid,
        bind_group: BindGroup::Plain,
        mesh: 0,
        num_elements: 3,
        first_instance: 0,
        end_instance: 2,
    };
    assert_eq!(state.render(), vec![plain]);
    state.set_scene_hovered(true);
    state.apply_pick(Some(1), true);
    let outline = DrawCall {
        pipeline: Pipeline::Wireframe,
        bind_group: BindGroup::Selection,
        mesh: 0,
        num_elements: 3,
        first_instance: 1,
        end_instance: 2,
    };
    assert_eq!(state.render(), vec![plain, outline]);
}

#[test]
fn right_press_beside_the_scene_does_not_turn_the_camera() {
    let mut state = scene(1);
    let press = WindowEvent::MouseInput { button: MouseButton::Right, state: ElementState::Pressed };
    let out = state.input(&press, false);
    assert!(!out.consumed);
    assert_eq!(out.cursor, CursorRequest::Keep);
    assert!(!state.input_handler().right_mouse_pressed);
    let yaw = f(state.input_handler().camera_controller.yaw);
    state.handle_mouse_motion(s(0.25), s(0.5));
    assert_eq!(f(state.input_handler().camera_controller.yaw), yaw);
    assert_eq!(f(state.input_handler().camera_controller.pitch), 0.0);
}
