//! Between the model and the renderer: a frame is put together only when
//! the pose has changed, and the change counts as shown only when the
//! frame was presented.

use vstd::prelude::*;
use crate::camera::degenerate;
use crate::camera::view_matrix;
use crate::camera::ViewFrame;
use crate::model::Model;
use crate::projection::perspective_matrix;
use crate::projection::perspective_of;
use crate::projection::Perspective;
use crate::vector::Vec3;

verus! {

/// How far along the projection axis the object stands, in world units.
pub const OBJECT_DEPTH: i64 = 2;

/// The direction of the light, in tenths of a world unit.
pub open spec fn light() -> Vec3 {
    Vec3 { x: 14, y: 4, z: (-7) as i64 }
}

/// Whether a view lays the numbers of the pose over the picture.
#[derive(Clone, Copy, Debug, PartialEq, Eq, Structural)]
pub enum Overlay {
    WithOverlay,
    WithoutOverlay,
}

/// A view of the model. It decides when a frame is due.
#[derive(Clone, Copy, Debug, PartialEq, Eq, Structural)]
pub struct SceneView {
    pub overlay: Overlay,
}

/// All that the renderer is handed for one frame. The model matrix turns
/// the object by `rot` (roll about x, then pitch about y, then yaw about z),
/// scales it by `2^scale_exponent` and sets it `depth` units along the
/// projection axis; `offset` is added to every vertex after it.
#[derive(Clone, Copy, Debug, PartialEq, Eq, Structural)]
pub struct Frame {
    /// Roll, pitch and yaw, in twentieths of pi.
    pub rot: Vec3,
    pub scale_exponent: i64,
    pub depth: i64,
    /// The position of the object, in world units.
    pub offset: Vec3,
    pub view: ViewFrame,
    pub perspective: Perspective,
    /// The direction of the light, in tenths of a world unit.
    pub light: Vec3,
    /// Whether the numbers of the pose are laid over the picture.
    pub overlay: bool,
}

impl SceneView {
    /// `frame` is the frame that this view shows of `model` on a viewport of
    /// `width` by `height` pixels.
    pub open spec fn shows(self, model: Model, width: u32, height: u32, frame: Frame) -> bool {
        &&& frame.rot == model.rot
        &&& frame.scale_exponent == model.scale_exponent
        &&& frame.depth == OBJECT_DEPTH
        &&& frame.offset == model.object_position
        &&& frame.view.describes(model.view_position@, model.view_direction@, model.up@)
        &&& frame.perspective == perspective_of(width, height)
        &&& frame.light == light()
        &&& frame.overlay == (self.overlay == Overlay::WithOverlay)
    }

    /// A view with or without the overlay.
    pub fn new(overlay: Overlay) -> (view: SceneView)
        ensures
            view.overlay == overlay,
    {
        SceneView { overlay }
    }

    /// The frame to draw, if one is due: none while the pose is unchanged.
    /// The drawing itself is the caller's, who reports its outcome to
    /// [`SceneView::presented`].
    pub fn draw(&self, model: &Model, width: u32, height: u32) -> (due: Option<Frame>)
        requires
            width != 0,
            !degenerate(model.view_direction@, model.up@),
        ensures
            due is Some <==> model.changed,
            due is Some ==> self.shows(*model, width, height, due.unwrap()),
    {
        if model.has_changed() {
            Some(self.draw_object(model, width, height))
        } else {
            None
        }
    }

    /// The frame that shows the model as it is.
    pub fn draw_object(&self, model: &Model, width: u32, height: u32) -> (frame: Frame)
        requires
            width != 0,
            !degenerate(model.view_direction@, model.up@),
        ensures
            self.shows(*model, width, height, frame),
    {
        let overlay = match self.overlay {
            Overlay::WithOverlay => true,
            Overlay::WithoutOverlay => false,
        };
        Frame {
            rot: model.rot,
            scale_exponent: model.scale_exponent,
            depth: OBJECT_DEPTH,
            offset: model.object_position,
            view: view_matrix(&model.view_position, &model.view_direction, &model.up),
            perspective: perspective_matrix(width, height),
            light: Vec3 { x: 14, y: 4, z: -7 },
            overlay,
        }
    }

    /// Takes note of how the presenting of a frame ended. After a success
    /// the pose counts as shown. After a failure it still counts as
    /// changed, so that the next call of [`SceneView::draw`] tries again.
    pub fn presented(&self, model: &mut Model, success: bool)
        ensures
            *final(model) == (Model {
                changed: old(model).changed && !success,
                ..*old(model)
            }),
    {
        if success {
            model.reset_changed();
        }
    }
}

} // verus!
