//! The scene's state: what is shown, hovered and selected, and what a frame
//! draws.
//!
//! The state owns the loaded model, the instances, the input handler and the
//! selection. It decides; the caller does what needs the window or the
//! graphics device, and whatever needs arithmetic on coordinates: it builds
//! the ray, projects the instances, and hands the numbers in.

use std::collections::HashSet;
use vstd::prelude::*;
use crate::error::OrengineError;
use crate::input::{InputHandler, InputOutcome, WindowEvent};
use crate::instance::Instance;
use crate::light::LightUniform;
use crate::models::{
    all_triangles, load_model, triangles_of, Aabb, Material, MaterialSource, Mesh, MeshSource,
    Model, Triangle,
};
use crate::rect::{Pos2, Rect};
use crate::scalar::Scalar;

verus! {

broadcast use vstd::std_specs::hash::group_hash_axioms;

/// Encoding of the camera's speed, 0.01 units per update.
pub const CAMERA_SPEED_BITS: u32 = 0x3c23_d70a;

/// Encoding of 2, the light's initial distance from the origin on each axis.
pub const LIGHT_OFFSET_BITS: u32 = 0x4000_0000;

/// Encoding of 5, the least width or height, in points, of a drag that
/// counts as a box selection.
pub const DRAG_THRESHOLD_BITS: u32 = 0x40a0_0000;

/// Size of the output surface, in pixels.
#[derive(Clone, Copy, Debug, PartialEq, Eq, Structural)]
pub struct PhysicalSize {
    pub width: u32,
    pub height: u32,
}

/// How triangles are drawn.
#[derive(Clone, Copy, Debug, PartialEq, Eq, Structural)]
pub enum Pipeline {
    /// Filled and textured.
    Solid,
    /// As lines, on top of the solid mesh.
    Wireframe,
}

/// Which texture a draw call uses.
#[derive(Clone, Copy, Debug, PartialEq, Eq, Structural)]
pub enum BindGroup {
    /// The texture of the material with this index.
    Material(usize),
    /// Plain white, for a mesh of a model that has no materials.
    Plain,
    /// The flat colour that marks selected instances.
    Selection,
    /// The flat colour that marks the hovered instance.
    Hover,
}

/// One indexed draw: all indices of one mesh, for a range of instances.
#[derive(Clone, Copy, Debug, PartialEq, Eq, Structural)]
pub struct DrawCall {
    pub pipeline: Pipeline,
    pub bind_group: BindGroup,
    /// Index of the mesh whose vertex and index buffers are bound.
    pub mesh: usize,
    /// Number of indices drawn, from the first on.
    pub num_elements: u32,
    /// First instance drawn.
    pub first_instance: u32,
    /// One past the last instance drawn.
    pub end_instance: u32,
}

/// An instance's position after projection: the fourth clip coordinate,
/// which is positive in front of the camera, and the place on screen.
#[derive(Clone, Copy, Debug)]
pub struct ProjectedPoint {
    pub clip_w: Scalar,
    pub screen: Pos2,
}

/// What the end of a pointer gesture asks for.
#[derive(Clone, Copy, Debug)]
pub enum ReleaseAction {
    /// Select every instance that shows inside the rectangle.
    BoxSelect(Rect),
    /// Select the instance under the pointer, or nothing.
    Pick,
}

/// What the scene's image in the interface reported of the pointer in one
/// frame.
#[derive(Clone, Copy, Debug)]
pub struct ViewportResponse {
    /// The pointer is over the image.
    pub hovered: bool,
    /// Where the pointer is, if it is over the image.
    pub hover_pos: Option<Pos2>,
    /// The primary button began a drag on the image in this frame.
    pub drag_started: bool,
    /// The primary button is dragging the image.
    pub dragged: bool,
    /// A drag of the image ended in this frame.
    pub drag_stopped: bool,
    /// The image was clicked in this frame.
    pub clicked: bool,
    /// Where the pointer is while it presses, drags or releases the image.
    pub interact_pointer_pos: Option<Pos2>,
    /// The place of the image on screen.
    pub rect: Rect,
}

/// What is to be done after the interface has run for one frame.
#[derive(Clone, Copy, Debug)]
pub struct FrameRequests {
    /// Cast a ray through this point of the image, which lies at this place
    /// on screen, and take the hit test's outcome with `apply_pick`.
    pub hover: Option<(Pos2, Rect)>,
    /// The hit test's outcome counts as a click.
    pub click: bool,
    /// Select what shows inside the first rectangle, the image lying at the
    /// second, with `perform_box_selection`.
    pub box_selection: Option<(Rect, Rect)>,
    /// Draw this rectangle: the drag under way spans it.
    pub rubber_band: Option<Rect>,
}

/// Where the selection gesture stands.
pub enum Phase {
    /// The pointer is not over the scene.
    Idle,
    /// The pointer is over the scene, on the given instance or on none.
    Hovering(Option<usize>),
    /// The primary button went down at the given point and is still held.
    Dragging(Pos2),
}

/// The scene's state.
pub struct State {
    size: PhysicalSize,
    light_uniform: LightUniform,
    model: Model,
    instances: Vec<Instance>,
    input_handler: InputHandler,
    is_scene_hovered: bool,
    selected_instances: HashSet<usize>,
    selection_drag_start: Option<Pos2>,
    hovered_instance: Option<usize>,
}

/// What a `State` holds, as mathematical values.
pub struct StateView {
    pub size: PhysicalSize,
    pub light_uniform: LightUniform,
    pub model: Model,
    pub instances: Seq<Instance>,
    pub input_handler: InputHandler,
    pub is_scene_hovered: bool,
    pub selected_instances: Set<usize>,
    pub selection_drag_start: Option<Pos2>,
    pub hovered_instance: Option<usize>,
}

impl DrawCall {
    /// The call keeps to what the scene has: it names one of the model's
    /// meshes and draws all its indices, it uses a material that the model
    /// has or one of the flat colours, and it draws a range of instances
    /// that exist.
    pub open spec fn in_bounds(self, state: StateView) -> bool {
        &&& self.mesh < state.model.meshes@.len()
        &&& self.num_elements == state.model.meshes@[self.mesh as int].indices@.len()
        &&& self.bind_group matches BindGroup::Material(id) ==> id < state.model.materials@.len()
        &&& self.first_instance <= self.end_instance <= state.instances.len()
    }
}

impl ProjectedPoint {
    /// The point lies in front of the camera: its fourth clip coordinate is
    /// not zero or less.
    pub open spec fn in_front(self) -> bool {
        !self.clip_w.le(Scalar::zero())
    }
}

/// The light of a new scene: at (2, 2, 2), red.
pub open spec fn initial_light() -> LightUniform {
    LightUniform {
        position: [
            Scalar { bits: LIGHT_OFFSET_BITS },
            Scalar { bits: LIGHT_OFFSET_BITS },
            Scalar { bits: LIGHT_OFFSET_BITS },
        ],
        _padding: 0,
        color: [Scalar::one(), Scalar::zero(), Scalar::zero()],
        _padding2: 0,
    }
}

/// The texture that a mesh is drawn with in a model of `material_count`
/// materials: that of its material, or plain white where the model has no
/// such material, which is so only for a model without materials.
pub open spec fn material_bind_group(mesh: Mesh, material_count: nat) -> BindGroup {
    if mesh.material_id < material_count {
        BindGroup::Material(mesh.material_id)
    } else {
        BindGroup::Plain
    }
}

/// The draw calls that show every mesh once for instances `first` up to
/// `end`, one call per mesh, in the order of the meshes: with the overlay
/// colour if there is one, else each mesh with its own texture.
pub open spec fn mesh_draws(
    meshes: Seq<Mesh>,
    material_count: nat,
    pipeline: Pipeline,
    overlay: Option<BindGroup>,
    first: int,
    end: int,
) -> Seq<DrawCall> {
    Seq::new(
        meshes.len(),
        |m: int|
            DrawCall {
                pipeline,
                bind_group: match overlay {
                    Some(bind_group) => bind_group,
                    None => material_bind_group(meshes[m], material_count),
                },
                mesh: m as usize,
                num_elements: meshes[m].indices@.len() as u32,
                first_instance: first as u32,
                end_instance: end as u32,
            },
    )
}

/// The selection overlay: for each selected instance, in the given order,
/// every mesh again as a wireframe in the selection colour.
pub open spec fn selection_draws(
    meshes: Seq<Mesh>,
    material_count: nat,
    order: Seq<usize>,
) -> Seq<DrawCall>
    decreases order.len(),
{
    if order.len() == 0 {
        Seq::empty()
    } else {
        selection_draws(meshes, material_count, order.drop_last()) + mesh_draws(
            meshes,
            material_count,
            Pipeline::Wireframe,
            Some(BindGroup::Selection),
            order.last() as int,
            order.last() + 1,
        )
    }
}

impl StateView {
    /// A new scene: nothing hovered or selected, no gesture under way, the
    /// initial light, and an input handler with the camera's speed.
    pub open spec fn initial(model: Model, instances: Seq<Instance>, size: PhysicalSize) -> StateView {
        StateView {
            size,
            light_uniform: initial_light(),
            model,
            instances,
            input_handler: InputHandler::initial(Scalar { bits: CAMERA_SPEED_BITS }),
            is_scene_hovered: false,
            selected_instances: Set::empty(),
            selection_drag_start: None,
            hovered_instance: None,
        }
    }

    /// Where the selection gesture stands.
    pub open spec fn phase(self) -> Phase {
        match self.selection_drag_start {
            Some(start) => Phase::Dragging(start),
            None => if self.is_scene_hovered {
                Phase::Hovering(self.hovered_instance)
            } else {
                Phase::Idle
            },
        }
    }

    /// The rectangle that a drag spans once the pointer is at `pos`.
    pub open spec fn drag_rect(self, pos: Option<Pos2>) -> Option<Rect> {
        match (self.selection_drag_start, pos) {
            (Some(start), Some(pos)) => Some(Rect::from_two_pos(start, pos)),
            _ => None,
        }
    }

    /// What the end of a gesture asks for, the pointer being released at
    /// `end` and the rectangle spanned being `width` wide and `height` high:
    /// a box selection if there is a rectangle and it is more than five
    /// points wide or more than five points high, else a pick.
    pub open spec fn release_action(self, end: Option<Pos2>, width: Scalar, height: Scalar) -> ReleaseAction {
        match self.drag_rect(end) {
            Some(rect) => if width.gt(Scalar { bits: DRAG_THRESHOLD_BITS }) || height.gt(
                Scalar { bits: DRAG_THRESHOLD_BITS },
            ) {
                ReleaseAction::BoxSelect(rect)
            } else {
                ReleaseAction::Pick
            },
            None => ReleaseAction::Pick,
        }
    }

    /// The state once a frame's hover flag and press are taken in.
    pub open spec fn after_greeting(self, response: ViewportResponse) -> StateView {
        let hovered = StateView { is_scene_hovered: response.hovered, ..self };
        if response.drag_started {
            hovered.after_press(response.interact_pointer_pos)
        } else {
            hovered
        }
    }

    /// The rectangle that a drag ending in this frame has spanned; none
    /// where no drag ends.
    pub open spec fn release_rect(self, response: ViewportResponse) -> Option<Rect> {
        if response.drag_stopped {
            self.after_greeting(response).drag_rect(response.interact_pointer_pos)
        } else {
            None
        }
    }

    /// The state after one frame of the interface: the hover flag is taken
    /// over, a press begins a drag, and a release ends it.
    pub open spec fn after_viewport(self, response: ViewportResponse) -> StateView {
        let greeted = self.after_greeting(response);
        if response.drag_stopped {
            StateView { selection_drag_start: None, ..greeted }
        } else {
            greeted
        }
    }

    /// What is to be done after one frame of the interface, `width` and
    /// `height` being those of the rectangle that `release_rect` gives.
    ///
    /// A hit test is due where the pointer is over the image. It counts as
    /// a click if the image was clicked, or if a drag ended that is no box
    /// selection. A box selection is due if a drag ended that is one. The
    /// rectangle of a drag shows as long as the button drags.
    pub open spec fn viewport_requests(
        self,
        response: ViewportResponse,
        width: Scalar,
        height: Scalar,
    ) -> FrameRequests {
        let greeted = self.after_greeting(response);
        let released = if response.drag_stopped {
            Some(greeted.release_action(response.interact_pointer_pos, width, height))
        } else {
            None
        };
        FrameRequests {
            hover: match response.hover_pos {
                Some(pos) => if response.hovered {
                    Some((pos, response.rect))
                } else {
                    None
                },
                None => None,
            },
            click: response.clicked || released matches Some(ReleaseAction::Pick),
            box_selection: match released {
                Some(ReleaseAction::BoxSelect(rect)) => Some((rect, response.rect)),
                _ => None,
            },
            rubber_band: if response.dragged {
                greeted.drag_rect(response.interact_pointer_pos)
            } else {
                None
            },
        }
    }

    /// Whether a box selection with rectangle `rect` takes instance `i`:
    /// the instance exists, its projected point is known and lies in front
    /// of the camera, and the point's place on screen is inside the
    /// rectangle or on its border.
    pub open spec fn box_selects(
        self,
        rect: Rect,
        projected: Seq<ProjectedPoint>,
        i: usize,
    ) -> bool {
        &&& i < self.instances.len()
        &&& i < projected.len()
        &&& projected[i as int].in_front()
        &&& rect.contains(projected[i as int].screen)
    }

    /// The state after a box selection: exactly the instances that the
    /// rectangle takes are selected.
    pub open spec fn after_box_selection(self, rect: Rect, projected: Seq<ProjectedPoint>) -> StateView {
        StateView {
            selected_instances: Set::new(|i: usize| self.box_selects(rect, projected, i)),
            ..self
        }
    }

    /// The state after the primary button went down at `pos`: over the
    /// scene a drag may begin there; elsewhere nothing changes.
    pub open spec fn after_press(self, pos: Option<Pos2>) -> StateView {
        if self.is_scene_hovered {
            StateView { selection_drag_start: pos, ..self }
        } else {
            self
        }
    }

    /// The instance that a hit test names, if it is one of the scene's
    /// instances; an index that names none counts as no hit.
    pub open spec fn known(self, hit: Option<usize>) -> Option<usize> {
        match hit {
            Some(i) => if i < self.instances.len() {
                Some(i)
            } else {
                None
            },
            None => None,
        }
    }

    /// The state after the pointer was found to be on instance `hit`, or on
    /// none. With a click, the instance becomes the hovered one and the only
    /// selected one; on none, the selection becomes empty. Without a click,
    /// the instance becomes the hovered one, unless a drag is under way,
    /// which changes nothing. While the pointer is not over the scene
    /// nothing changes either.
    pub open spec fn after_pick(self, hit: Option<usize>, click: bool) -> StateView {
        if !self.is_scene_hovered {
            self
        } else if click {
            StateView {
                hovered_instance: self.known(hit),
                selected_instances: match self.known(hit) {
                    Some(i) => set![i],
                    None => Set::empty(),
                },
                ..self
            }
        } else if self.selection_drag_start is Some {
            self
        } else {
            StateView { hovered_instance: self.known(hit), ..self }
        }
    }

    /// The hover overlay: every mesh as a wireframe in the hover colour for
    /// the hovered instance, unless that instance is selected and so
    /// outlined already.
    pub open spec fn hover_draws(self) -> Seq<DrawCall> {
        match self.hovered_instance {
            Some(i) => if self.selected_instances.contains(i) {
                Seq::empty()
            } else {
                mesh_draws(
                    self.model.meshes@,
                    self.model.materials@.len(),
                    Pipeline::Wireframe,
                    Some(BindGroup::Hover),
                    i as int,
                    i + 1,
                )
            },
            None => Seq::empty(),
        }
    }

    /// The draw calls of one frame, the selected instances being outlined in
    /// the given order: first every mesh, solid, for all instances, each with
    /// its material; then the selection overlay; then the hover overlay.
    pub open spec fn frame(self, order: Seq<usize>) -> Seq<DrawCall> {
        mesh_draws(
            self.model.meshes@,
            self.model.materials@.len(),
            Pipeline::Solid,
            None,
            0,
            self.instances.len() as int,
        ) + selection_draws(self.model.meshes@, self.model.materials@.len(), order)
            + self.hover_draws()
    }
}

impl View for State {
    type V = StateView;

    closed spec fn view(&self) -> StateView {
        StateView {
            size: self.size,
            light_uniform: self.light_uniform,
            model: self.model,
            instances: self.instances@,
            input_handler: self.input_handler,
            is_scene_hovered: self.is_scene_hovered,
            selected_instances: self.selected_instances@,
            selection_drag_start: self.selection_drag_start,
            hovered_instance: self.hovered_instance,
        }
    }
}

impl State {
    /// What holds of every state: the model is well formed, the instances
    /// can be counted in a draw call, and only instances that exist are
    /// hovered or selected.
    #[verifier::type_invariant]
    spec fn wf(self) -> bool {
        &&& self.model.wf()
        &&& self.instances@.len() <= u32::MAX
        &&& forall|i: usize| self.selected_instances@.contains(i) ==> i < self.instances@.len()
        &&& self.hovered_instance matches Some(i) ==> i < self.instances@.len()
    }

    /// What holds of every state, over its view.
    pub open spec fn inv(self) -> bool {
        &&& self@.model.wf()
        &&& self@.instances.len() <= u32::MAX
        &&& forall|i: usize| self@.selected_instances.contains(i) ==> i < self@.instances.len()
        &&& self@.hovered_instance matches Some(i) ==> i < self@.instances.len()
    }

    /// Sets up the scene from a parsed model and the instances that show it.
    ///
    /// Fails as `load_model` does where the model cannot be loaded, and with
    /// a `Generic` error where there are more instances than a draw call can
    /// count. Otherwise the scene shows the loaded model at the given
    /// instances, with nothing hovered or selected.
    pub fn new(
        parsed: Result<
            (Vec<MeshSource>, Result<Vec<MaterialSource>, tobj::LoadError>),
            tobj::LoadError,
        >,
        instances: Vec<Instance>,
        size: PhysicalSize,
    ) -> (r: Result<State, OrengineError>)
        ensures
            match parsed {
                Err(e) => r matches Err(OrengineError::Tobj(x)) && x == e,
                Ok((_, Err(e))) => r matches Err(OrengineError::Tobj(x)) && x == e,
                Ok((meshes, Ok(materials))) => {
                    if !crate::models::materials_consistent(meshes@, materials@.len()) {
                        r matches Err(OrengineError::MismatchedMaterials)
                    } else if !crate::models::all_drawable(meshes@) || instances@.len()
                        > u32::MAX {
                        r matches Err(OrengineError::Generic(_))
                    } else {
                        &&& r matches Ok(state)
                        &&& state@ == StateView::initial(state@.model, instances@, size)
                        &&& state@.model.built_from(meshes@, materials@)
                        &&& state@.model.enclosed()
                        &&& state.inv()
                    }
                },
            },
    {
        let model = match load_model(parsed) {
            Ok(model) => model,
            Err(e) => {
                return Err(e);
            },
        };
        if instances.len() > u32::MAX as usize {
            return Err(OrengineError::Generic(String::from_str("too many instances")));
        }
        let two = Scalar::from_bits(LIGHT_OFFSET_BITS);
        let state = State {
            size,
            light_uniform: LightUniform {
                position: [two, two, two],
                _padding: 0,
                color: [Scalar::one(), Scalar::zero(), Scalar::zero()],
                _padding2: 0,
            },
            model,
            instances,
            input_handler: InputHandler::new(Scalar::from_bits(CAMERA_SPEED_BITS)),
            is_scene_hovered: false,
            selected_instances: HashSet::new(),
            selection_drag_start: None,
            hovered_instance: None,
        };
        Ok(state)
    }

    /// Takes a new size of the output surface. A size without area is
    /// ignored. Returns whether the size was taken: the caller then has to
    /// configure the surface anew and to make the colour and depth targets
    /// again before the next frame is drawn.
    pub fn resize(&mut self, new_size: PhysicalSize) -> (resized: bool)
        ensures
            resized == (new_size.width > 0 && new_size.height > 0),
            final(self)@ == if resized {
                StateView { size: new_size, ..old(self)@ }
            } else {
                old(self)@
            },
            final(self).inv(),
    {
        proof {
            use_type_invariant(&*self);
        }
        if new_size.width > 0 && new_size.height > 0 {
            self.size = new_size;
            true
        } else {
            false
        }
    }

    /// Takes one window event, after the interface has seen it;
    /// `ui_consumed` says whether the interface used it up. The event is
    /// used up if the interface or the input handler used it up.
    pub fn input(&mut self, event: &WindowEvent, ui_consumed: bool) -> (outcome: InputOutcome)
        ensures
            final(self)@ == (StateView {
                input_handler: old(self)@.input_handler.after(
                    *event,
                    ui_consumed,
                    old(self)@.is_scene_hovered,
                ),
                ..old(self)@
            }),
            outcome.consumed == (ui_consumed || old(self)@.input_handler.outcome(
                *event,
                ui_consumed,
                old(self)@.is_scene_hovered,
            ).consumed),
            outcome.cursor == old(self)@.input_handler.outcome(
                *event,
                ui_consumed,
                old(self)@.is_scene_hovered,
            ).cursor,
            final(self).inv(),
    {
        proof {
            use_type_invariant(&*self);
        }
        let mut handler = self.input_handler;
        let handled = handler.process_input(event, ui_consumed, self.is_scene_hovered);
        self.input_handler = handler;
        InputOutcome { consumed: ui_consumed || handled.consumed, cursor: handled.cursor }
    }

    /// Takes a pointer motion, given as the yaw and pitch that it leads to.
    pub fn handle_mouse_motion(&mut self, yaw: Scalar, pitch: Scalar)
        ensures
            final(self)@ == (StateView {
                input_handler: old(self)@.input_handler.after_motion(yaw, pitch),
                ..old(self)@
            }),
            final(self).inv(),
    {
        proof {
            use_type_invariant(&*self);
        }
        let mut handler = self.input_handler;
        handler.handle_mouse_motion(yaw, pitch);
        self.input_handler = handler;
    }

    /// Records whether the pointer is over the scene.
    pub fn set_scene_hovered(&mut self, hovered: bool)
        ensures
            final(self)@ == (StateView { is_scene_hovered: hovered, ..old(self)@ }),
            final(self).inv(),
    {
        proof {
            use_type_invariant(&*self);
        }
        self.is_scene_hovered = hovered;
    }

    /// Takes the light as the interface edited it.
    pub fn set_light(&mut self, position: [Scalar; 3], color: [Scalar; 3])
        ensures
            final(self)@ == (StateView {
                light_uniform: LightUniform { position, color, ..old(self)@.light_uniform },
                ..old(self)@
            }),
            final(self).inv(),
    {
        proof {
            use_type_invariant(&*self);
        }
        let light = LightUniform {
            position,
            _padding: self.light_uniform._padding,
            color,
            _padding2: self.light_uniform._padding2,
        };
        self.light_uniform = light;
    }

    /// The primary button went down at `pos`. If the pointer is over the
    /// scene, a drag may begin there. The selection stays as it is.
    pub fn begin_drag(&mut self, pos: Option<Pos2>)
        ensures
            final(self)@ == old(self)@.after_press(pos),
            final(self).inv(),
    {
        proof {
            use_type_invariant(&*self);
        }
        if self.is_scene_hovered {
            self.selection_drag_start = pos;
        }
    }

    /// The rectangle that the drag spans, the pointer being at `pos`: shown
    /// while the drag goes on, and measured when it ends. There is none
    /// where no drag is under way or the pointer's place is unknown.
    pub fn drag_rect(&self, pos: Option<Pos2>) -> (rect: Option<Rect>)
        ensures
            rect == self@.drag_rect(pos),
    {
        match (self.selection_drag_start, pos) {
            (Some(start), Some(pos)) => Some(Rect::from_two_pos(start, pos)),
            _ => None,
        }
    }

    /// The primary button came up, at `end`. `width` and `height` are those
    /// of the rectangle that `drag_rect` gives for `end`; they are not read
    /// where there is no rectangle. The drag is over whatever follows.
    /// Returns what the gesture asks for.
    pub fn end_drag(&mut self, end: Option<Pos2>, width: Scalar, height: Scalar) -> (action:
        ReleaseAction)
        ensures
            action == old(self)@.release_action(end, width, height),
            final(self)@ == (StateView { selection_drag_start: None, ..old(self)@ }),
            final(self).inv(),
    {
        proof {
            use_type_invariant(&*self);
        }
        let threshold = Scalar::from_bits(DRAG_THRESHOLD_BITS);
        let action = match self.drag_rect(end) {
            Some(rect) => if width.gt(threshold) || height.gt(threshold) {
                ReleaseAction::BoxSelect(rect)
            } else {
                ReleaseAction::Pick
            },
            None => ReleaseAction::Pick,
        };
        self.selection_drag_start = None;
        action
    }

    /// The rectangle that a drag ending in this frame has spanned, for the
    /// caller to measure before it hands the frame to `handle_viewport`.
    pub fn release_rect(&self, response: &ViewportResponse) -> (rect: Option<Rect>)
        ensures
            rect == self@.release_rect(*response),
    {
        if !response.drag_stopped {
            return None;
        }
        let start = if response.drag_started && response.hovered {
            response.interact_pointer_pos
        } else {
            self.selection_drag_start
        };
        match (start, response.interact_pointer_pos) {
            (Some(start), Some(pos)) => Some(Rect::from_two_pos(start, pos)),
            _ => None,
        }
    }

    /// Takes what the scene's image reported in one frame: the hover flag,
    /// then a press, then the drag under way, then a release, then a click,
    /// in this order. `width` and `height` are those of the rectangle that
    /// `release_rect` gives for this frame; they are not read where it gives
    /// none. Returns what is left for the caller to do.
    pub fn handle_viewport(
        &mut self,
        response: &ViewportResponse,
        width: Scalar,
        height: Scalar,
    ) -> (requests: FrameRequests)
        ensures
            final(self)@ == old(self)@.after_viewport(*response),
            requests == old(self)@.viewport_requests(*response, width, height),
            final(self).inv(),
    {
        self.set_scene_hovered(response.hovered);
        let hover = match response.hover_pos {
            Some(pos) => if response.hovered {
                Some((pos, response.rect))
            } else {
                None
            },
            None => None,
        };
        if response.drag_started {
            self.begin_drag(response.interact_pointer_pos);
        }
        let rubber_band = if response.dragged {
            self.drag_rect(response.interact_pointer_pos)
        } else {
            None
        };
        let mut click = response.clicked;
        let mut box_selection: Option<(Rect, Rect)> = None;
        if response.drag_stopped {
            match self.end_drag(response.interact_pointer_pos, width, height) {
                ReleaseAction::BoxSelect(rect) => {
                    box_selection = Some((rect, response.rect));
                },
                ReleaseAction::Pick => {
                    click = true;
                },
            }
        }
        FrameRequests { hover, click, box_selection, rubber_band }
    }

    /// Box selection: replaces the selection by the instances whose
    /// projected position lies in front of the camera and, on screen,
    /// inside `selection_rect` or on its border. `projected[i]` is the
    /// projection of instance `i`.
    pub fn perform_box_selection(&mut self, selection_rect: Rect, projected: &Vec<ProjectedPoint>)
        ensures
            final(self)@ == old(self)@.after_box_selection(selection_rect, projected@),
            final(self).inv(),
    {
        proof {
            use_type_invariant(&*self);
        }
        let count = if projected.len() < self.instances.len() {
            projected.len()
        } else {
            self.instances.len()
        };
        let ghost view = self@;
        let mut selected: HashSet<usize> = HashSet::new();
        let mut i: usize = 0;
        while i < count
            invariant
                view.instances.len() == self.instances@.len(),
                count <= projected.len(),
                count <= self.instances@.len(),
                count == projected.len() || count == self.instances@.len(),
                0 <= i <= count,
                forall|j: usize|
                    selected@.contains(j) <==> j < i && view.box_selects(
                        selection_rect,
                        projected@,
                        j,
                    ),
            decreases count - i,
        {
            let point = projected[i];
            if !point.clip_w.le(Scalar::zero()) && selection_rect.contains(point.screen) {
                selected.insert(i);
            }
            i = i + 1;
        }
        proof {
            assert(selected@ =~= Set::new(
                |j: usize| view.box_selects(selection_rect, projected@, j),
            ));
        }
        self.selected_instances = selected;
    }

    /// Takes the outcome of a hit test at the pointer: `hit` is the instance
    /// under the pointer, if any; `click` says whether the pointer clicked.
    pub fn apply_pick(&mut self, hit: Option<usize>, click: bool)
        ensures
            final(self)@ == old(self)@.after_pick(hit, click),
            final(self).inv(),
    {
        proof {
            use_type_invariant(&*self);
        }
        if !self.is_scene_hovered {
            return ;
        }
        let hit = match hit {
            Some(i) => if i < self.instances.len() {
                Some(i)
            } else {
                None
            },
            None => None,
        };
        if click {
            let mut selected: HashSet<usize> = HashSet::new();
            if let Some(i) = hit {
                selected.insert(i);
            }
            self.hovered_instance = hit;
            self.selected_instances = selected;
        } else if self.selection_drag_start.is_none() {
            self.hovered_instance = hit;
        }
    }

    /// The selected instances, each once, in the order in which the frame
    /// outlines them.
    pub fn selected_instances(&self) -> (order: Vec<usize>)
        ensures
            order@.to_set() == self@.selected_instances,
            order@.no_duplicates(),
            forall|k: int| 0 <= k < order@.len() ==> order@[k] < self@.instances.len(),
    {
        broadcast use vstd::seq_lib::seq_to_set_is_finite;

        proof {
            use_type_invariant(self);
        }
        let ghost chosen = self.selected_instances@;
        let mut order: Vec<usize> = Vec::new();
        for i in it: self.selected_instances.iter()
            invariant
                chosen == self.selected_instances@,
                it.seq().unref().to_set() == chosen,
                it.seq().no_duplicates(),
                it.seq().len() == chosen.len(),
                chosen.finite(),
                order@.len() == it.index(),
                forall|k: int| 0 <= k < order@.len() ==> order@[k] == *it.seq()[k],
                forall|k: int| 0 <= k < order@.len() ==> chosen.contains(#[trigger] order@[k]),
                order@.no_duplicates(),
        {
            order.push(*i);
        }
        proof {
            order@.unique_seq_to_set();
            vstd::set_lib::lemma_len_subset(order@.to_set(), chosen);
            vstd::set_lib::lemma_subset_equality(order@.to_set(), chosen);
        }
        order
    }

    /// Appends to `calls` one draw call per mesh, for instances `first` up
    /// to `end`.
    fn push_mesh_draws(
        &self,
        calls: &mut Vec<DrawCall>,
        pipeline: Pipeline,
        overlay: Option<BindGroup>,
        first: u32,
        end: u32,
    )
        requires
            first <= end <= self@.instances.len(),
            overlay matches Some(bind_group) ==> !(bind_group is Material),
            forall|k: int| 0 <= k < old(calls)@.len() ==> (#[trigger] old(calls)@[k]).in_bounds(self@),
        ensures
            final(calls)@ == old(calls)@ + mesh_draws(
                self@.model.meshes@,
                self@.model.materials@.len(),
                pipeline,
                overlay,
                first as int,
                end as int,
            ),
            forall|k: int| 0 <= k < final(calls)@.len() ==> (#[trigger] final(calls)@[k]).in_bounds(
                self@,
            ),
    {
        proof {
            use_type_invariant(self);
        }
        let ghost start = calls@;
        let ghost all = mesh_draws(
            self.model.meshes@,
            self.model.materials@.len(),
            pipeline,
            overlay,
            first as int,
            end as int,
        );
        let mut m: usize = 0;
        while m < self.model.meshes.len()
            invariant
                self.model.wf(),
                all == mesh_draws(
                    self.model.meshes@,
                    self.model.materials@.len(),
                    pipeline,
                    overlay,
                    first as int,
                    end as int,
                ),
                0 <= m <= self.model.meshes.len(),
                calls@ == start + all.take(m as int),
                first <= end <= self@.instances.len(),
                overlay matches Some(bind_group) ==> !(bind_group is Material),
                forall|k: int| 0 <= k < calls@.len() ==> (#[trigger] calls@[k]).in_bounds(self@),
            decreases self.model.meshes.len() - m,
        {
            let mesh = &self.model.meshes[m];
            let call = DrawCall {
                pipeline,
                bind_group: match overlay {
                    Some(bind_group) => bind_group,
                    None => if mesh.material_id < self.model.materials.len() {
                        BindGroup::Material(mesh.material_id)
                    } else {
                        BindGroup::Plain
                    },
                },
                mesh: m,
                num_elements: mesh.indices.len() as u32,
                first_instance: first,
                end_instance: end,
            };
            calls.push(call);
            m = m + 1;
        }
    }

    /// The draw calls of one frame, in order: every mesh, solid and with its
    /// material, or in plain white where the model has no materials, for all
    /// instances; then, for each selected instance, every
    /// mesh as a wireframe in the selection colour; then the same in the
    /// hover colour for the hovered instance, unless it is selected. The
    /// selected instances are outlined each once, in no particular order.
    pub fn render(&self) -> (calls: Vec<DrawCall>)
        ensures
            exists|order: Seq<usize>|
                {
                    &&& order.no_duplicates()
                    &&& order.to_set() == self@.selected_instances
                    &&& calls@ == #[trigger] self@.frame(order)
                },
            forall|k: int| 0 <= k < calls@.len() ==> (#[trigger] calls@[k]).in_bounds(self@),
    {
        proof {
            use_type_invariant(self);
        }
        let mut calls: Vec<DrawCall> = Vec::new();
        self.push_mesh_draws(&mut calls, Pipeline::Solid, None, 0, self.instances.len() as u32);
        let ghost solid = calls@;
        let order = self.selected_instances();
        let mut k: usize = 0;
        while k < order.len()
            invariant
                0 <= k <= order.len(),
                self.instances@.len() <= u32::MAX,
                forall|j: int| 0 <= j < order@.len() ==> order@[j] < self@.instances.len(),
                calls@ == solid + selection_draws(
                    self@.model.meshes@,
                    self@.model.materials@.len(),
                    order@.take(k as int),
                ),
                forall|j: int| 0 <= j < calls@.len() ==> (#[trigger] calls@[j]).in_bounds(self@),
            decreases order.len() - k,
        {
            let i = order[k] as u32;
            self.push_mesh_draws(
                &mut calls,
                Pipeline::Wireframe,
                Some(BindGroup::Selection),
                i,
                i + 1,
            );
            proof {
                assert(order@.take(k + 1).drop_last() == order@.take(k as int));
            }
            k = k + 1;
        }
        proof {
            assert(order@.take(order.len() as int) == order@);
        }
        if let Some(i) = self.hovered_instance {
            if !self.selected_instances.contains(&i) {
                let i = i as u32;
                self.push_mesh_draws(
                    &mut calls,
                    Pipeline::Wireframe,
                    Some(BindGroup::Hover),
                    i,
                    i + 1,
                );
            }
        }
        proof {
            assert(calls@ == self@.frame(order@));
        }
        calls
    }

    /// Size of the output surface.
    pub fn size(&self) -> (size: PhysicalSize)
        ensures
            size == self@.size,
    {
        self.size
    }

    /// The light.
    pub fn light_uniform(&self) -> (light: LightUniform)
        ensures
            light == self@.light_uniform,
    {
        self.light_uniform
    }

    /// The model's meshes, as they are kept for picking.
    pub fn cpu_meshes(&self) -> (meshes: &Vec<Mesh>)
        ensures
            *meshes == self@.model.meshes,
    {
        &self.model.meshes
    }

    /// The model's materials.
    pub fn materials(&self) -> (materials: &Vec<Material>)
        ensures
            *materials == self@.model.materials,
    {
        &self.model.materials
    }

    /// The box around the model, in model space.
    pub fn model_aabb(&self) -> (aabb: Aabb)
        ensures
            aabb == self@.model.aabb,
    {
        self.model.aabb
    }

    /// The instances.
    pub fn instances(&self) -> (instances: &Vec<Instance>)
        ensures
            instances@ == self@.instances,
    {
        &self.instances
    }

    /// The input handler.
    pub fn input_handler(&self) -> (handler: InputHandler)
        ensures
            handler == self@.input_handler,
    {
        self.input_handler
    }

    /// Whether the pointer is over the scene.
    pub fn is_scene_hovered(&self) -> (hovered: bool)
        ensures
            hovered == self@.is_scene_hovered,
    {
        self.is_scene_hovered
    }

    /// Whether instance `i` is selected.
    pub fn is_selected(&self, i: usize) -> (selected: bool)
        ensures
            selected == self@.selected_instances.contains(i),
    {
        self.selected_instances.contains(&i)
    }

    /// Where the drag under way began, if one is under way.
    pub fn selection_drag_start(&self) -> (start: Option<Pos2>)
        ensures
            start == self@.selection_drag_start,
    {
        self.selection_drag_start
    }

    /// The instance under the pointer, if any.
    pub fn hovered_instance(&self) -> (hovered: Option<usize>)
        ensures
            hovered == self@.hovered_instance,
    {
        self.hovered_instance
    }

    /// The model's triangles, mesh after mesh: what a ray is tested against.
    pub fn triangles(&self) -> (triangles: Vec<Triangle>)
        ensures
            triangles@ == triangles_of(self@.model.meshes@),
    {
        proof {
            use_type_invariant(self);
        }
        all_triangles(&self.model.meshes)
    }
}

/// Box selection goes by the instance's projected position alone: an
/// instance in front of the camera is selected if that position lies
/// strictly inside the rectangle or on its border, and not selected if it
/// lies strictly outside. An instance behind the camera is never selected.
pub proof fn lemma_box_selection_containment(
    state: StateView,
    rect: Rect,
    projected: Seq<ProjectedPoint>,
    i: usize,
)
    requires
        i < state.instances.len(),
        i < projected.len(),
    ensures
        ({
            let point = projected[i as int];
            let selected = state.after_box_selection(rect, projected).selected_instances.contains(i);
            &&& point.in_front() && rect.strictly_inside(point.screen) ==> selected
            &&& point.in_front() && rect.on_border(point.screen) ==> selected
            &&& rect.strictly_outside(point.screen) ==> !selected
            &&& !point.in_front() ==> !selected
        }),
{
    crate::rect::lemma_contains_is_inclusive(rect, projected[i as int].screen);
}

/// A click on an instance leaves that instance as the only selected one,
/// whatever was selected before. So a click on the one selected instance
/// leaves the selection as it is, and does not take the instance out of it;
/// and a second click on the same instance changes nothing.
pub proof fn lemma_click_selects_only_hit(state: StateView, i: usize)
    requires
        state.is_scene_hovered,
        i < state.instances.len(),
    ensures
        state.after_pick(Some(i), true).selected_instances == set![i],
        state.selected_instances == set![i] ==> state.after_pick(
            Some(i),
            true,
        ).selected_instances == state.selected_instances,
        state.after_pick(Some(i), true).after_pick(Some(i), true) == state.after_pick(
            Some(i),
            true,
        ),
{
}

/// A click on no instance leaves nothing selected.
pub proof fn lemma_click_on_nothing_clears(state: StateView)
    requires
        state.is_scene_hovered,
    ensures
        state.after_pick(None, true).selected_instances == Set::<usize>::empty(),
{
}

/// While a drag is under way, moving the pointer changes nothing.
pub proof fn lemma_drag_keeps_state(state: StateView, hit: Option<usize>)
    requires
        state.phase() is Dragging,
    ensures
        state.after_pick(hit, false) == state,
{
}

} // verus!
