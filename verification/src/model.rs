//! The pose of the object and of the camera, and the commands that change
//! it.
//!
//! Every field is an integer count of a fixed increment, so that a command
//! and its opposite cancel exactly:
//!
//! | field             | one count is            |
//! |-------------------|-------------------------|
//! | `view_position`   | a tenth of a world unit |
//! | `view_direction`  | one world unit          |
//! | `up`              | one world unit          |
//! | `rot`             | pi / 20 radians         |
//! | `object_position` | one world unit          |
//! | `scale_exponent`  | a factor of two         |
//!
//! An accumulator that has reached the end of `i64` stays there.

use vstd::prelude::*;
use crate::camera::degenerate;
use crate::mesh::Mesh;
use crate::mesh::to_left_handed;
use crate::vector::cross;
use crate::vector::Axis3;
use crate::vector::Vec3;

verus! {

/// The vertical step of the camera, in tenths of a world unit.
pub const VERTICAL_INCR: i64 = 1;

/// The horizontal step of the camera, in tenths of a world unit.
pub const HORIZONTAL_INCR: i64 = 2;

/// The step of a rotation, in twentieths of pi.
pub const ROTATION_INCR: i64 = 1;

/// The step by which the object moves along one axis, in world units.
pub const MOVE_INCR: i64 = 1;

/// `v + by`, held at the ends of `i64`.
pub open spec fn raised(v: i64, by: int) -> i64 {
    if v + by > i64::MAX {
        i64::MAX
    } else if v + by < i64::MIN {
        i64::MIN
    } else {
        (v + by) as i64
    }
}

/// The position that the camera starts from and is reset to, in tenths.
pub open spec fn initial_view_position() -> Vec3 {
    Vec3 { x: 30, y: 10, z: 10 }
}

/// The direction that the camera starts with and is reset to.
pub open spec fn initial_view_direction() -> Axis3 {
    Axis3 { x: (-3) as i16, y: (-1) as i16, z: 1 }
}

/// The up vector that the camera starts with and is reset to.
pub open spec fn initial_up() -> Axis3 {
    Axis3 { x: 0, y: 1, z: 0 }
}

/// The commands that change a [`Model`], one for each mutating method.
#[derive(Clone, Copy, Debug, PartialEq, Eq, Structural)]
pub enum Command {
    ResetView,
    ViewPositionUp,
    ViewPositionDown,
    ViewPositionForward,
    ViewPositionBackward,
    ViewPositionLeft,
    ViewPositionRight,
    RollUp,
    RollDown,
    RotateLeft,
    RotateRight,
    RotateUp,
    RotateDown,
    ScaleUp,
    ScaleDown,
    MoveXPos,
    MoveXNeg,
    MoveYPos,
    MoveYNeg,
    MoveZPos,
    MoveZNeg,
}

/// The state of the viewer: the mesh, the pose of the object, the pose of
/// the camera, and whether any of it changed since the last frame shown.
#[derive(Clone, Debug, PartialEq, Eq)]
pub struct Model {
    /// True when the pose changed since the last frame that was presented.
    pub changed: bool,
    /// The mesh, in the left-handed system of the renderer.
    pub object: Mesh,
    /// The object is drawn at `2^scale_exponent` times its size.
    pub scale_exponent: i64,
    /// Roll, pitch and yaw of the object, in twentieths of pi.
    pub rot: Vec3,
    /// The offset of the object, in world units.
    pub object_position: Vec3,
    /// The position of the camera, in tenths of a world unit.
    pub view_position: Vec3,
    /// Where the camera looks. It need not have unit length.
    pub view_direction: Axis3,
    /// The upward direction of the camera.
    pub up: Axis3,
}

fn step(v: i64, by: i64) -> (r: i64)
    ensures
        r == raised(v, by as int),
{
    if by >= 0 {
        if v <= i64::MAX - by {
            v + by
        } else {
            i64::MAX
        }
    } else {
        if v >= i64::MIN - by {
            v + by
        } else {
            i64::MIN
        }
    }
}

impl Model {
    /// The model at start-up, around a mesh that is already left-handed.
    pub open spec fn initial(object: Mesh) -> Model {
        Model {
            changed: true,
            object,
            scale_exponent: 0,
            rot: Vec3 { x: 0, y: 0, z: 0 },
            object_position: Vec3 { x: 0, y: 0, z: 0 },
            view_position: initial_view_position(),
            view_direction: initial_view_direction(),
            up: initial_up(),
        }
    }

    /// The model after one command.
    pub open spec fn after(self, c: Command) -> Model {
        match c {
            Command::ResetView => Model {
                changed: true,
                view_position: initial_view_position(),
                view_direction: initial_view_direction(),
                up: initial_up(),
                ..self
            },
            Command::ViewPositionUp => Model {
                changed: true,
                view_position: Vec3 {
                    y: raised(self.view_position.y, VERTICAL_INCR as int),
                    ..self.view_position
                },
                ..self
            },
            Command::ViewPositionDown => Model {
                changed: true,
                view_position: Vec3 {
                    y: raised(self.view_position.y, -VERTICAL_INCR),
                    ..self.view_position
                },
                ..self
            },
            Command::ViewPositionForward => Model {
                changed: true,
                view_position: Vec3 {
                    x: raised(self.view_position.x, -HORIZONTAL_INCR),
                    ..self.view_position
                },
                ..self
            },
            Command::ViewPositionBackward => Model {
                changed: true,
                view_position: Vec3 {
                    x: raised(self.view_position.x, HORIZONTAL_INCR as int),
                    ..self.view_position
                },
                ..self
            },
            Command::ViewPositionLeft => Model {
                changed: true,
                view_position: Vec3 {
                    z: raised(self.view_position.z, HORIZONTAL_INCR as int),
                    ..self.view_position
                },
                ..self
            },
            Command::ViewPositionRight => Model {
                changed: true,
                view_position: Vec3 {
                    z: raised(self.view_position.z, -HORIZONTAL_INCR),
                    ..self.view_position
                },
                ..self
            },
            Command::RollUp => Model {
                changed: true,
                rot: Vec3 { x: raised(self.rot.x, ROTATION_INCR as int), ..self.rot },
                ..self
            },
            Command::RollDown => Model {
                changed: true,
                rot: Vec3 { x: raised(self.rot.x, -ROTATION_INCR), ..self.rot },
                ..self
            },
            Command::RotateLeft => Model {
                changed: true,
                rot: Vec3 { y: raised(self.rot.y, ROTATION_INCR as int), ..self.rot },
                ..self
            },
            Command::RotateRight => Model {
                changed: true,
                rot: Vec3 { y: raised(self.rot.y, -ROTATION_INCR), ..self.rot },
                ..self
            },
            Command::RotateUp => Model {
                changed: true,
                rot: Vec3 { z: raised(self.rot.z, ROTATION_INCR as int), ..self.rot },
                ..self
            },
            Command::RotateDown => Model {
                changed: true,
                rot: Vec3 { z: raised(self.rot.z, -ROTATION_INCR), ..self.rot },
                ..self
            },
            Command::ScaleUp => Model {
                changed: true,
                scale_exponent: raised(self.scale_exponent, 1),
                ..self
            },
            Command::ScaleDown => Model {
                changed: true,
                scale_exponent: raised(self.scale_exponent, -1),
                ..self
            },
            Command::MoveXPos => Model {
                changed: true,
                object_position: Vec3 {
                    x: raised(self.object_position.x, MOVE_INCR as int),
                    ..self.object_position
                },
                ..self
            },
            Command::MoveXNeg => Model {
                changed: true,
                object_position: Vec3 {
                    x: raised(self.object_position.x, -MOVE_INCR),
                    ..self.object_position
                },
                ..self
            },
            Command::MoveYPos => Model {
                changed: true,
                object_position: Vec3 {
                    y: raised(self.object_position.y, MOVE_INCR as int),
                    ..self.object_position
                },
                ..self
            },
            Command::MoveYNeg => Model {
                changed: true,
                object_position: Vec3 {
                    y: raised(self.object_position.y, -MOVE_INCR),
                    ..self.object_position
                },
                ..self
            },
            Command::MoveZPos => Model {
                changed: true,
                object_position: Vec3 {
                    z: raised(self.object_position.z, MOVE_INCR as int),
                    ..self.object_position
                },
                ..self
            },
            Command::MoveZNeg => Model {
                changed: true,
                object_position: Vec3 {
                    z: raised(self.object_position.z, -MOVE_INCR),
                    ..self.object_position
                },
                ..self
            },
        }
    }

    /// Creates the model around a mesh as it was loaded, right-handed: the
    /// mesh is converted, the object stands unturned at the origin at its
    /// own size, the camera is in its initial pose, and a first frame is
    /// due.
    pub fn new(rh_object: &Mesh) -> (model: Model)
        ensures
            rh_object.mirrors(model.object),
            model == Model::initial(model.object),
            !degenerate(model.view_direction@, model.up@),
    {
        let object = to_left_handed(rh_object);
        assert(cross(initial_up()@, initial_view_direction()@).x == 1);
        Model {
            changed: true,
            object,
            scale_exponent: 0,
            rot: Vec3 { x: 0, y: 0, z: 0 },
            object_position: Vec3 { x: 0, y: 0, z: 0 },
            view_position: Vec3 { x: 30, y: 10, z: 10 },
            view_direction: Axis3 { x: -3, y: -1, z: 1 },
            up: Axis3 { x: 0, y: 1, z: 0 },
        }
    }

    /// Marks the pose as changed.
    pub fn changed(&mut self)
        ensures
            *final(self) == (Model { changed: true, ..*old(self) }),
    {
        self.changed = true;
    }

    /// Marks the pose as shown. For the caller that has presented a frame.
    pub fn reset_changed(&mut self)
        ensures
            *final(self) == (Model { changed: false, ..*old(self) }),
    {
        self.changed = false;
    }

    /// Whether the pose changed since the last frame that was presented.
    pub fn has_changed(&self) -> (dirty: bool)
        ensures
            dirty == self.changed,
    {
        self.changed
    }

    /// Puts the camera back into its initial pose. The object stays.
    pub fn reset_view(&mut self)
        ensures
            *final(self) == old(self).after(Command::ResetView),
            *final(self) == (Model {
                changed: true,
                view_position: initial_view_position(),
                view_direction: initial_view_direction(),
                up: initial_up(),
                ..*old(self)
            }),
    {
        self.view_position = Vec3 { x: 30, y: 10, z: 10 };
        self.view_direction = Axis3 { x: -3, y: -1, z: 1 };
        self.up = Axis3 { x: 0, y: 1, z: 0 };
        self.changed = true;
    }

    /// Moves the camera up by a tenth of a unit.
    pub fn view_position_up(&mut self)
        ensures
            *final(self) == old(self).after(Command::ViewPositionUp),
            *final(self) == (Model {
                changed: true,
                view_position: Vec3 { y: raised(old(self).view_position.y, VERTICAL_INCR as int), ..old(self).view_position },
                ..*old(self)
            }),
    {
        self.view_position.y = step(self.view_position.y, VERTICAL_INCR);
        self.changed();
    }

    /// Moves the camera down by a tenth of a unit.
    pub fn view_position_down(&mut self)
        ensures
            *final(self) == old(self).after(Command::ViewPositionDown),
            *final(self) == (Model {
                changed: true,
                view_position: Vec3 { y: raised(old(self).view_position.y, -VERTICAL_INCR), ..old(self).view_position },
                ..*old(self)
            }),
    {
        self.view_position.y = step(self.view_position.y, -VERTICAL_INCR);
        self.changed();
    }

    /// Moves the camera forward: two tenths of a unit down the x axis.
    pub fn view_position_forward(&mut self)
        ensures
            *final(self) == old(self).after(Command::ViewPositionForward),
            *final(self) == (Model {
                changed: true,
                view_position: Vec3 { x: raised(old(self).view_position.x, -HORIZONTAL_INCR), ..old(self).view_position },
                ..*old(self)
            }),
    {
        self.view_position.x = step(self.view_position.x, -HORIZONTAL_INCR);
        self.changed();
    }

    /// Moves the camera backward: two tenths of a unit up the x axis.
    pub fn view_position_backward(&mut self)
        ensures
            *final(self) == old(self).after(Command::ViewPositionBackward),
            *final(self) == (Model {
                changed: true,
                view_position: Vec3 { x: raised(old(self).view_position.x, HORIZONTAL_INCR as int), ..old(self).view_position },
                ..*old(self)
            }),
    {
        self.view_position.x = step(self.view_position.x, HORIZONTAL_INCR);
        self.changed();
    }

    /// Moves the camera to the left: two tenths of a unit up the z axis.
    pub fn view_position_left(&mut self)
        ensures
            *final(self) == old(self).after(Command::ViewPositionLeft),
            *final(self) == (Model {
                changed: true,
                view_position: Vec3 { z: raised(old(self).view_position.z, HORIZONTAL_INCR as int), ..old(self).view_position },
                ..*old(self)
            }),
    {
        self.view_position.z = step(self.view_position.z, HORIZONTAL_INCR);
        self.changed();
    }

    /// Moves the camera to the right: two tenths of a unit down the z axis.
    pub fn view_position_right(&mut self)
        ensures
            *final(self) == old(self).after(Command::ViewPositionRight),
            *final(self) == (Model {
                changed: true,
                view_position: Vec3 { z: raised(old(self).view_position.z, -HORIZONTAL_INCR), ..old(self).view_position },
                ..*old(self)
            }),
    {
        self.view_position.z = step(self.view_position.z, -HORIZONTAL_INCR);
        self.changed();
    }

    /// Rolls the object up: one step about the x axis.
    pub fn roll_up(&mut self)
        ensures
            *final(self) == old(self).after(Command::RollUp),
            *final(self) == (Model {
                changed: true,
                rot: Vec3 { x: raised(old(self).rot.x, ROTATION_INCR as int), ..old(self).rot },
                ..*old(self)
            }),
    {
        self.rot.x = step(self.rot.x, ROTATION_INCR);
        self.changed();
    }

    /// Rolls the object down: one step back about the x axis.
    pub fn roll_down(&mut self)
        ensures
            *final(self) == old(self).after(Command::RollDown),
            *final(self) == (Model {
                changed: true,
                rot: Vec3 { x: raised(old(self).rot.x, -ROTATION_INCR), ..old(self).rot },
                ..*old(self)
            }),
    {
        self.rot.x = step(self.rot.x, -ROTATION_INCR);
        self.changed();
    }

    /// Turns the object to the left: one step about the y axis.
    pub fn rotate_left(&mut self)
        ensures
            *final(self) == old(self).after(Command::RotateLeft),
            *final(self) == (Model {
                changed: true,
                rot: Vec3 { y: raised(old(self).rot.y, ROTATION_INCR as int), ..old(self).rot },
                ..*old(self)
            }),
    {
        self.rot.y = step(self.rot.y, ROTATION_INCR);
        self.changed();
    }

    /// Turns the object to the right: one step back about the y axis.
    pub fn rotate_right(&mut self)
        ensures
            *final(self) == old(self).after(Command::RotateRight),
            *final(self) == (Model {
                changed: true,
                rot: Vec3 { y: raised(old(self).rot.y, -ROTATION_INCR), ..old(self).rot },
                ..*old(self)
            }),
    {
        self.rot.y = step(self.rot.y, -ROTATION_INCR);
        self.changed();
    }

    /// Turns the object up: one step about the z axis.
    pub fn rotate_up(&mut self)
        ensures
            *final(self) == old(self).after(Command::RotateUp),
            *final(self) == (Model {
                changed: true,
                rot: Vec3 { z: raised(old(self).rot.z, ROTATION_INCR as int), ..old(self).rot },
                ..*old(self)
            }),
    {
        self.rot.z = step(self.rot.z, ROTATION_INCR);
        self.changed();
    }

    /// Turns the object down: one step back about the z axis.
    pub fn rotate_down(&mut self)
        ensures
            *final(self) == old(self).after(Command::RotateDown),
            *final(self) == (Model {
                changed: true,
                rot: Vec3 { z: raised(old(self).rot.z, -ROTATION_INCR), ..old(self).rot },
                ..*old(self)
            }),
    {
        self.rot.z = step(self.rot.z, -ROTATION_INCR);
        self.changed();
    }

    /// Doubles the size of the object.
    pub fn scale_up(&mut self)
        ensures
            *final(self) == old(self).after(Command::ScaleUp),
            *final(self) == (Model {
                changed: true,
                scale_exponent: raised(old(self).scale_exponent, 1),
                ..*old(self)
            }),
    {
        self.scale_exponent = step(self.scale_exponent, 1);
        self.changed();
    }

    /// Halves the size of the object.
    pub fn scale_down(&mut self)
        ensures
            *final(self) == old(self).after(Command::ScaleDown),
            *final(self) == (Model {
                changed: true,
                scale_exponent: raised(old(self).scale_exponent, -1),
                ..*old(self)
            }),
    {
        self.scale_exponent = step(self.scale_exponent, -1);
        self.changed();
    }

    /// Moves the object one unit up the x axis.
    pub fn move_x_pos(&mut self)
        ensures
            *final(self) == old(self).after(Command::MoveXPos),
            *final(self) == (Model {
                changed: true,
                object_position: Vec3 { x: raised(old(self).object_position.x, MOVE_INCR as int), ..old(self).object_position },
                ..*old(self)
            }),
    {
        self.object_position.x = step(self.object_position.x, MOVE_INCR);
        self.changed();
    }

    /// Moves the object one unit down the x axis.
    pub fn move_x_neg(&mut self)
        ensures
            *final(self) == old(self).after(Command::MoveXNeg),
            *final(self) == (Model {
                changed: true,
                object_position: Vec3 { x: raised(old(self).object_position.x, -MOVE_INCR), ..old(self).object_position },
                ..*old(self)
            }),
    {
        self.object_position.x = step(self.object_position.x, -MOVE_INCR);
        self.changed();
    }

    /// Moves the object one unit up the y axis.
    pub fn move_y_pos(&mut self)
        ensures
            *final(self) == old(self).after(Command::MoveYPos),
            *final(self) == (Model {
                changed: true,
                object_position: Vec3 { y: raised(old(self).object_position.y, MOVE_INCR as int), ..old(self).object_position },
                ..*old(self)
            }),
    {
        self.object_position.y = step(self.object_position.y, MOVE_INCR);
        self.changed();
    }

    /// Moves the object one unit down the y axis.
    pub fn move_y_neg(&mut self)
        ensures
            *final(self) == old(self).after(Command::MoveYNeg),
            *final(self) == (Model {
                changed: true,
                object_position: Vec3 { y: raised(old(self).object_position.y, -MOVE_INCR), ..old(self).object_position },
                ..*old(self)
            }),
    {
        self.object_position.y = step(self.object_position.y, -MOVE_INCR);
        self.changed();
    }

    /// Moves the object one unit up the z axis.
    pub fn move_z_pos(&mut self)
        ensures
            *final(self) == old(self).after(Command::MoveZPos),
            *final(self) == (Model {
                changed: true,
                object_position: Vec3 { z: raised(old(self).object_position.z, MOVE_INCR as int), ..old(self).object_position },
                ..*old(self)
            }),
    {
        self.object_position.z = step(self.object_position.z, MOVE_INCR);
        self.changed();
    }

    /// Moves the object one unit down the z axis.
    pub fn move_z_neg(&mut self)
        ensures
            *final(self) == old(self).after(Command::MoveZNeg),
            *final(self) == (Model {
                changed: true,
                object_position: Vec3 { z: raised(old(self).object_position.z, -MOVE_INCR), ..old(self).object_position },
                ..*old(self)
            }),
    {
        self.object_position.z = step(self.object_position.z, -MOVE_INCR);
        self.changed();
    }

    /// Carries out one command.
    pub fn apply(&mut self, c: Command)
        ensures
            *final(self) == old(self).after(c),
    {
        match c {
            Command::ResetView => self.reset_view(),
            Command::ViewPositionUp => self.view_position_up(),
            Command::ViewPositionDown => self.view_position_down(),
            Command::ViewPositionForward => self.view_position_forward(),
            Command::ViewPositionBackward => self.view_position_backward(),
            Command::ViewPositionLeft => self.view_position_left(),
            Command::ViewPositionRight => self.view_position_right(),
            Command::RollUp => self.roll_up(),
            Command::RollDown => self.roll_down(),
            Command::RotateLeft => self.rotate_left(),
            Command::RotateRight => self.rotate_right(),
            Command::RotateUp => self.rotate_up(),
            Command::RotateDown => self.rotate_down(),
            Command::ScaleUp => self.scale_up(),
            Command::ScaleDown => self.scale_down(),
            Command::MoveXPos => self.move_x_pos(),
            Command::MoveXNeg => self.move_x_neg(),
            Command::MoveYPos => self.move_y_pos(),
            Command::MoveYNeg => self.move_y_neg(),
            Command::MoveZPos => self.move_z_pos(),
            Command::MoveZNeg => self.move_z_neg(),
        }
    }
}

} // verus!
