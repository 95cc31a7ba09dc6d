//! The controller: what an event of the window does to the model, and
//! whether the program goes on.

use vstd::prelude::*;
use crate::camera::degenerate;
use crate::model::Command;
use crate::model::Model;
use crate::vector::cross;
use crate::vector::V3;
use crate::view::Frame;
use crate::view::SceneView;

verus! {

/// Whether a key went down or came up.
#[derive(Clone, Copy, Debug, PartialEq, Eq, Structural)]
pub enum ElementState {
    Pressed,
    Released,
}

/// The keys that the viewer knows, and one name for all the others.
#[derive(Clone, Copy, Debug, PartialEq, Eq, Structural)]
pub enum VirtualKeyCode {
    Key2,
    Key3,
    Key4,
    Key5,
    Key6,
    Key8,
    Key9,
    A,
    D,
    E,
    Q,
    S,
    W,
    Minus,
    Equals,
    Down,
    Up,
    PageUp,
    PageDown,
    Left,
    Right,
    Escape,
    Other,
}

/// One event of the keyboard.
#[derive(Clone, Copy, Debug, PartialEq, Eq, Structural)]
pub struct KeyboardInput {
    pub state: ElementState,
    /// The key, where the keyboard layout names one.
    pub virtual_keycode: Option<VirtualKeyCode>,
}

/// One event of the window.
#[derive(Clone, Copy, Debug, PartialEq, Eq, Structural)]
pub enum Event {
    /// The window is asked to close.
    CloseRequested,
    /// A key went down or came up.
    KeyboardInput(KeyboardInput),
    /// The time of the next frame has come, or the loop has just started.
    Tick,
    /// Anything else.
    Other,
}

/// What the event loop does next.
#[derive(Clone, Copy, Debug, PartialEq, Eq, Structural)]
pub enum ControlFlow {
    /// Wait until the next frame is due.
    WaitUntilNextFrame,
    /// Leave the loop.
    Exit,
}

/// The command that a key gives when it goes down.
pub open spec fn key_command(key: VirtualKeyCode) -> Option<Command> {
    match key {
        VirtualKeyCode::Key2 => Some(Command::ViewPositionDown),
        VirtualKeyCode::Key5 => Some(Command::ResetView),
        VirtualKeyCode::Key8 => Some(Command::ViewPositionUp),
        VirtualKeyCode::Key4 => Some(Command::ViewPositionLeft),
        VirtualKeyCode::Key6 => Some(Command::ViewPositionRight),
        VirtualKeyCode::Key9 => Some(Command::ViewPositionForward),
        VirtualKeyCode::Key3 => Some(Command::ViewPositionBackward),
        VirtualKeyCode::A => Some(Command::RotateLeft),
        VirtualKeyCode::D => Some(Command::RotateRight),
        VirtualKeyCode::W => Some(Command::RotateUp),
        VirtualKeyCode::S => Some(Command::RotateDown),
        VirtualKeyCode::Q => Some(Command::RollUp),
        VirtualKeyCode::E => Some(Command::RollDown),
        VirtualKeyCode::Minus => Some(Command::ScaleDown),
        VirtualKeyCode::Equals => Some(Command::ScaleUp),
        VirtualKeyCode::Down => Some(Command::MoveXPos),
        VirtualKeyCode::Up => Some(Command::MoveXNeg),
        VirtualKeyCode::PageUp => Some(Command::MoveYPos),
        VirtualKeyCode::PageDown => Some(Command::MoveYNeg),
        VirtualKeyCode::Left => Some(Command::MoveZNeg),
        VirtualKeyCode::Right => Some(Command::MoveZPos),
        VirtualKeyCode::Escape => None,
        VirtualKeyCode::Other => None,
    }
}

/// The command that an event of the keyboard gives: that of its key, when
/// the key has a name and goes down.
pub open spec fn input_command(input: KeyboardInput) -> Option<Command> {
    match (input.state, input.virtual_keycode) {
        (ElementState::Pressed, Some(key)) => key_command(key),
        _ => None,
    }
}

/// The event of the keyboard ends the program: Escape comes up.
pub open spec fn input_exits(input: KeyboardInput) -> bool {
    input.state == ElementState::Released && input.virtual_keycode == Some(VirtualKeyCode::Escape)
}

/// The command that an event gives.
pub open spec fn event_command(event: Event) -> Option<Command> {
    match event {
        Event::KeyboardInput(input) => input_command(input),
        _ => None,
    }
}

/// The event ends the program.
pub open spec fn event_exits(event: Event) -> bool {
    match event {
        Event::CloseRequested => true,
        Event::KeyboardInput(input) => input_exits(input),
        _ => false,
    }
}

/// The model after `command`, or as it is where there is none.
pub open spec fn after_command(model: Model, command: Option<Command>) -> Model {
    match command {
        Some(c) => model.after(c),
        None => model,
    }
}

/// Handles an event of the keyboard. A known key that goes down gives its
/// command to the model; Escape coming up ends the program; every other
/// event of the keyboard does nothing.
pub fn handle_keyboard_event(
    control_flow: &mut ControlFlow,
    model: &mut Model,
    input: &KeyboardInput,
)
    ensures
        *final(model) == after_command(*old(model), input_command(*input)),
        *final(control_flow) == if input_exits(*input) {
            ControlFlow::Exit
        } else {
            *old(control_flow)
        },
{
    let key_code = match input.virtual_keycode {
        Some(key_code) => key_code,
        None => {
            return ;
        },
    };
    match input.state {
        ElementState::Pressed => match key_code {
            VirtualKeyCode::Key2 => model.view_position_down(),
            VirtualKeyCode::Key5 => model.reset_view(),
            VirtualKeyCode::Key8 => model.view_position_up(),
            VirtualKeyCode::Key4 => model.view_position_left(),
            VirtualKeyCode::Key6 => model.view_position_right(),
            VirtualKeyCode::Key9 => model.view_position_forward(),
            VirtualKeyCode::Key3 => model.view_position_backward(),
            VirtualKeyCode::A => model.rotate_left(),
            VirtualKeyCode::D => model.rotate_right(),
            VirtualKeyCode::W => model.rotate_up(),
            VirtualKeyCode::S => model.rotate_down(),
            VirtualKeyCode::Q => model.roll_up(),
            VirtualKeyCode::E => model.roll_down(),
            VirtualKeyCode::Minus => model.scale_down(),
            VirtualKeyCode::Equals => model.scale_up(),
            VirtualKeyCode::Down => model.move_x_pos(),
            VirtualKeyCode::Up => model.move_x_neg(),
            VirtualKeyCode::PageUp => model.move_y_pos(),
            VirtualKeyCode::PageDown => model.move_y_neg(),
            VirtualKeyCode::Left => model.move_z_neg(),
            VirtualKeyCode::Right => model.move_z_pos(),
            _ => {},
        },
        ElementState::Released => match key_code {
            VirtualKeyCode::Escape => {
                *control_flow = ControlFlow::Exit;
            },
            _ => {},
        },
    }
}

/// Handles an event of the window: a request to close ends the program, an
/// event of the keyboard goes to [`handle_keyboard_event`], and nothing
/// else changes anything.
pub fn handle_event(event: &Event, model: &mut Model, control_flow: &mut ControlFlow)
    ensures
        *final(model) == after_command(*old(model), event_command(*event)),
        *final(control_flow) == if event_exits(*event) {
            ControlFlow::Exit
        } else {
            *old(control_flow)
        },
{
    match event {
        Event::CloseRequested => {
            *control_flow = ControlFlow::Exit;
        },
        Event::KeyboardInput(input) => {
            handle_keyboard_event(control_flow, model, input);
        },
        Event::Tick => {},
        Event::Other => {},
    }
}

/// A command leaves a camera that has a basis with one.
pub proof fn lemma_command_keeps_basis(model: Model, command: Option<Command>)
    requires
        !degenerate(model.view_direction@, model.up@),
    ensures
        !degenerate(
            after_command(model, command).view_direction@,
            after_command(model, command).up@,
        ),
{
    match command {
        Some(Command::ResetView) => {
            let after = model.after(Command::ResetView);
            assert(after.view_direction@ == (V3 { x: -3, y: -1, z: 1 }));
            assert(after.up@ == (V3 { x: 0, y: 1, z: 0 }));
            assert(cross(after.up@, after.view_direction@).x == 1);
        },
        Some(c) => {
            assert(model.after(c).view_direction == model.view_direction);
            assert(model.after(c).up == model.up);
        },
        None => {},
    }
}

/// One turn of the event loop: the loop is told to wait for the next frame
/// or to end, the event is handled, and the frame that is then due, if any,
/// is put together. The caller draws the frame and reports to
/// [`SceneView::presented`].
pub fn run(
    model: &mut Model,
    view: &SceneView,
    event: &Event,
    control_flow: &mut ControlFlow,
    width: u32,
    height: u32,
) -> (due: Option<Frame>)
    requires
        width != 0,
        !degenerate(old(model).view_direction@, old(model).up@),
    ensures
        *final(model) == after_command(*old(model), event_command(*event)),
        !degenerate(final(model).view_direction@, final(model).up@),
        *final(control_flow) == if event_exits(*event) {
            ControlFlow::Exit
        } else {
            ControlFlow::WaitUntilNextFrame
        },
        due is Some <==> final(model).changed,
        due is Some ==> view.shows(*final(model), width, height, due.unwrap()),
{
    *control_flow = ControlFlow::WaitUntilNextFrame;
    handle_event(event, model, control_flow);
    proof {
        lemma_command_keeps_basis(*old(model), event_command(*event));
    }
    view.draw(model, width, height)
}

} // verus!
