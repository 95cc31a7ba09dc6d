//! What holds of a [`Model`] over whole runs of commands.

use vstd::prelude::*;
use vstd::arithmetic::power2::pow2;
use vstd::arithmetic::power2::lemma2_to64;
use vstd::arithmetic::power2::lemma_pow2_adds;
use crate::camera::degenerate;
use crate::control::lemma_command_keeps_basis;
use crate::model::Command;
use crate::model::Model;
use crate::model::HORIZONTAL_INCR;
use crate::model::MOVE_INCR;
use crate::model::ROTATION_INCR;
use crate::model::VERTICAL_INCR;

verus! {

/// One call on a model: a command, or one of the two calls that touch only
/// the redraw flag.
pub enum Call {
    /// One of the mutating methods.
    Command(Command),
    /// `changed()`.
    Changed,
    /// `reset_changed()`.
    ResetChanged,
}

/// The model after one call.
pub open spec fn after_call(m: Model, call: Call) -> Model {
    match call {
        Call::Command(c) => m.after(c),
        Call::Changed => Model { changed: true, ..m },
        Call::ResetChanged => Model { changed: false, ..m },
    }
}

/// The model after a run of calls, first to last.
pub open spec fn after_calls(m: Model, calls: Seq<Call>) -> Model
    decreases calls.len(),
{
    if calls.len() == 0 {
        m
    } else {
        after_call(after_calls(m, calls.drop_last()), calls.last())
    }
}

/// The model after a run of commands, first to last.
pub open spec fn after_all(m: Model, cmds: Seq<Command>) -> Model
    decreases cmds.len(),
{
    if cmds.len() == 0 {
        m
    } else {
        after_all(m, cmds.drop_last()).after(cmds.last())
    }
}

/// How often `c` occurs in `cmds`.
pub open spec fn count(cmds: Seq<Command>, c: Command) -> nat
    decreases cmds.len(),
{
    if cmds.len() == 0 {
        0
    } else {
        count(cmds.drop_last(), c) + if cmds.last() == c {
            1nat
        } else {
            0nat
        }
    }
}

/// The command that undoes `c`, for every command but the reset.
pub open spec fn opposite(c: Command) -> Option<Command> {
    match c {
        Command::ResetView => None,
        Command::ViewPositionUp => Some(Command::ViewPositionDown),
        Command::ViewPositionDown => Some(Command::ViewPositionUp),
        Command::ViewPositionForward => Some(Command::ViewPositionBackward),
        Command::ViewPositionBackward => Some(Command::ViewPositionForward),
        Command::ViewPositionLeft => Some(Command::ViewPositionRight),
        Command::ViewPositionRight => Some(Command::ViewPositionLeft),
        Command::RollUp => Some(Command::RollDown),
        Command::RollDown => Some(Command::RollUp),
        Command::RotateLeft => Some(Command::RotateRight),
        Command::RotateRight => Some(Command::RotateLeft),
        Command::RotateUp => Some(Command::RotateDown),
        Command::RotateDown => Some(Command::RotateUp),
        Command::ScaleUp => Some(Command::ScaleDown),
        Command::ScaleDown => Some(Command::ScaleUp),
        Command::MoveXPos => Some(Command::MoveXNeg),
        Command::MoveXNeg => Some(Command::MoveXPos),
        Command::MoveYPos => Some(Command::MoveYNeg),
        Command::MoveYNeg => Some(Command::MoveYPos),
        Command::MoveZPos => Some(Command::MoveZNeg),
        Command::MoveZNeg => Some(Command::MoveZPos),
    }
}

/// Where `c` would take the accumulator that it moves, were there no end
/// to the integers. The reset moves none.
pub open spec fn target(m: Model, c: Command) -> int {
    match c {
        Command::ResetView => 0,
        Command::ViewPositionUp => m.view_position.y + VERTICAL_INCR,
        Command::ViewPositionDown => m.view_position.y - VERTICAL_INCR,
        Command::ViewPositionForward => m.view_position.x - HORIZONTAL_INCR,
        Command::ViewPositionBackward => m.view_position.x + HORIZONTAL_INCR,
        Command::ViewPositionLeft => m.view_position.z + HORIZONTAL_INCR,
        Command::ViewPositionRight => m.view_position.z - HORIZONTAL_INCR,
        Command::RollUp => m.rot.x + ROTATION_INCR,
        Command::RollDown => m.rot.x - ROTATION_INCR,
        Command::RotateLeft => m.rot.y + ROTATION_INCR,
        Command::RotateRight => m.rot.y - ROTATION_INCR,
        Command::RotateUp => m.rot.z + ROTATION_INCR,
        Command::RotateDown => m.rot.z - ROTATION_INCR,
        Command::ScaleUp => m.scale_exponent + 1,
        Command::ScaleDown => m.scale_exponent - 1,
        Command::MoveXPos => m.object_position.x + MOVE_INCR,
        Command::MoveXNeg => m.object_position.x - MOVE_INCR,
        Command::MoveYPos => m.object_position.y + MOVE_INCR,
        Command::MoveYNeg => m.object_position.y - MOVE_INCR,
        Command::MoveZPos => m.object_position.z + MOVE_INCR,
        Command::MoveZNeg => m.object_position.z - MOVE_INCR,
    }
}

/// The accumulator that `c` moves has room for the whole step.
pub open spec fn has_room(m: Model, c: Command) -> bool {
    i64::MIN <= target(m, c) <= i64::MAX
}

/// The numerator of `2^e` as a fraction in lowest terms.
pub open spec fn scale_numerator(e: int) -> nat {
    if e >= 0 {
        pow2(e as nat)
    } else {
        1
    }
}

/// The denominator of `2^e` as a fraction in lowest terms.
pub open spec fn scale_denominator(e: int) -> nat {
    if e >= 0 {
        1
    } else {
        pow2((-e) as nat)
    }
}

/// No prefix of `cmds` takes the exponent `e` out of `i64`, so that none
/// of its steps is held back.
pub open spec fn scaling_stays_in_range(e: int, cmds: Seq<Command>) -> bool {
    forall|k: int|
        0 <= k <= cmds.len() ==> i64::MIN <= e + count(#[trigger] cmds.take(k), Command::ScaleUp)
            - count(cmds.take(k), Command::ScaleDown) <= i64::MAX
}

/// Resetting the camera twice is resetting it once.
pub proof fn lemma_reset_view_idempotent(m: Model)
    ensures
        m.after(Command::ResetView).after(Command::ResetView) == m.after(Command::ResetView),
{
}

/// Every command leaves the redraw flag set.
pub proof fn lemma_command_sets_changed(m: Model, c: Command)
    ensures
        m.after(c).changed,
{
}

/// After a run of calls the redraw flag is clear exactly when the last call
/// was `reset_changed()`; with no call at all it is what it was.
pub proof fn lemma_changed_after_calls(m: Model, calls: Seq<Call>)
    ensures
        calls.len() == 0 ==> after_calls(m, calls).changed == m.changed,
        calls.len() > 0 ==> (!after_calls(m, calls).changed <==> calls.last() == Call::ResetChanged),
{
    if calls.len() > 0 {
        let before = after_calls(m, calls.drop_last());
        match calls.last() {
            Call::Command(c) => {
                lemma_command_sets_changed(before, c);
            },
            Call::Changed => {},
            Call::ResetChanged => {},
        }
    }
}

/// A command followed by its opposite leaves the pose as it was, with the
/// redraw flag set: `rotate_left()` then `rotate_right()` gives back the
/// very same yaw. The one exception is left out: an accumulator so near
/// the end of `i64` that the first command cannot make its whole step.
pub proof fn lemma_opposite_cancels(m: Model, c: Command)
    requires
        opposite(c) is Some,
        has_room(m, c),
    ensures
        m.after(c).after(opposite(c).unwrap()) == (Model { changed: true, ..m }),
{
    let same = Model { changed: true, ..m };
    match c {
        Command::ResetView => {},
        Command::ViewPositionUp => {
            assert(m.after(Command::ViewPositionUp).after(Command::ViewPositionDown) == same);
        },
        Command::ViewPositionDown => {
            assert(m.after(Command::ViewPositionDown).after(Command::ViewPositionUp) == same);
        },
        Command::ViewPositionForward => {
            assert(m.after(Command::ViewPositionForward).after(Command::ViewPositionBackward) == same);
        },
        Command::ViewPositionBackward => {
            assert(m.after(Command::ViewPositionBackward).after(Command::ViewPositionForward) == same);
        },
        Command::ViewPositionLeft => {
            assert(m.after(Command::ViewPositionLeft).after(Command::ViewPositionRight) == same);
        },
        Command::ViewPositionRight => {
            assert(m.after(Command::ViewPositionRight).after(Command::ViewPositionLeft) == same);
        },
        Command::RollUp => {
            assert(m.after(Command::RollUp).after(Command::RollDown) == same);
        },
        Command::RollDown => {
            assert(m.after(Command::RollDown).after(Command::RollUp) == same);
        },
        Command::RotateLeft => {
            assert(m.after(Command::RotateLeft).after(Command::RotateRight) == same);
        },
        Command::RotateRight => {
            assert(m.after(Command::RotateRight).after(Command::RotateLeft) == same);
        },
        Command::RotateUp => {
            assert(m.after(Command::RotateUp).after(Command::RotateDown) == same);
        },
        Command::RotateDown => {
            assert(m.after(Command::RotateDown).after(Command::RotateUp) == same);
        },
        Command::ScaleUp => {
            assert(m.after(Command::ScaleUp).after(Command::ScaleDown) == same);
        },
        Command::ScaleDown => {
            assert(m.after(Command::ScaleDown).after(Command::ScaleUp) == same);
        },
        Command::MoveXPos => {
            assert(m.after(Command::MoveXPos).after(Command::MoveXNeg) == same);
        },
        Command::MoveXNeg => {
            assert(m.after(Command::MoveXNeg).after(Command::MoveXPos) == same);
        },
        Command::MoveYPos => {
            assert(m.after(Command::MoveYPos).after(Command::MoveYNeg) == same);
        },
        Command::MoveYNeg => {
            assert(m.after(Command::MoveYNeg).after(Command::MoveYPos) == same);
        },
        Command::MoveZPos => {
            assert(m.after(Command::MoveZPos).after(Command::MoveZNeg) == same);
        },
        Command::MoveZNeg => {
            assert(m.after(Command::MoveZNeg).after(Command::MoveZPos) == same);
        },
    }
}

/// Rotating left and then right gives back the same `rot.y`, unless it was
/// already at the largest value.
pub proof fn lemma_rotate_left_right(m: Model)
    requires
        m.rot.y < i64::MAX,
    ensures
        m.after(Command::RotateLeft).after(Command::RotateRight).rot == m.rot,
{
}

/// The value `2^e`, written as a fraction, is `2^max(e, 0) / 2^max(-e, 0)`.
proof fn lemma_scale_fraction(e: int)
    ensures
        scale_numerator(e) == pow2(
            if e >= 0 {
                e as nat
            } else {
                0
            },
        ),
        scale_denominator(e) == pow2(
            if e >= 0 {
                0
            } else {
                (-e) as nat
            },
        ),
{
    lemma2_to64();
}

/// If the exponent went from `first` to `last` by `ups` doublings and
/// `downs` halvings, the scale went from `2^first` to
/// `2^first * 2^ups / 2^downs`.
pub proof fn lemma_scale_ratio(first: int, last: int, ups: nat, downs: nat)
    requires
        last == first + ups - downs,
    ensures
        scale_numerator(last) * scale_denominator(first) * pow2(downs) == scale_numerator(first)
            * scale_denominator(last) * pow2(ups),
{
    lemma_scale_fraction(first);
    lemma_scale_fraction(last);
    let a: nat = if last >= 0 { last as nat } else { 0 };
    let b: nat = if first >= 0 { 0 } else { (-first) as nat };
    let c: nat = if first >= 0 { first as nat } else { 0 };
    let d: nat = if last >= 0 { 0 } else { (-last) as nat };
    assert(a + b + downs == c + d + ups);
    lemma_pow2_adds(a, b);
    lemma_pow2_adds(a + b, downs);
    lemma_pow2_adds(c, d);
    lemma_pow2_adds(c + d, ups);
}

/// After any run of `scale_up` and `scale_down` the scale is the first
/// scale times `2^(ups - downs)`: the exponent has grown by the number of
/// ups less the number of downs. Left out are the runs in which the
/// exponent would leave `i64`, where a step is held back.
pub proof fn lemma_scale_after_run(m: Model, cmds: Seq<Command>)
    requires
        forall|i: int|
            0 <= i < cmds.len() ==> cmds[i] == Command::ScaleUp || cmds[i] == Command::ScaleDown,
        scaling_stays_in_range(m.scale_exponent as int, cmds),
    ensures
        after_all(m, cmds).scale_exponent == m.scale_exponent + count(cmds, Command::ScaleUp)
            - count(cmds, Command::ScaleDown),
        scale_numerator(after_all(m, cmds).scale_exponent as int) * scale_denominator(
            m.scale_exponent as int,
        ) * pow2(count(cmds, Command::ScaleDown)) == scale_numerator(m.scale_exponent as int)
            * scale_denominator(after_all(m, cmds).scale_exponent as int) * pow2(
            count(cmds, Command::ScaleUp),
        ),
    decreases cmds.len(),
{
    if cmds.len() > 0 {
        let prefix = cmds.drop_last();
        assert forall|k: int| 0 <= k <= prefix.len() implies i64::MIN <= m.scale_exponent + count(
            #[trigger] prefix.take(k),
            Command::ScaleUp,
        ) - count(prefix.take(k), Command::ScaleDown) <= i64::MAX by {
            assert(prefix.take(k) =~= cmds.take(k));
        }
        lemma_scale_after_run(m, prefix);
        assert(cmds.take(cmds.len() as int) =~= cmds);
        assert(cmds.take(cmds.len() - 1) =~= prefix);
    }
    lemma_scale_ratio(
        m.scale_exponent as int,
        after_all(m, cmds).scale_exponent as int,
        count(cmds, Command::ScaleUp),
        count(cmds, Command::ScaleDown),
    );
}

/// A camera that has a basis keeps one through every run of commands: no
/// command but the reset touches the direction or the up vector, and the
/// reset gives them values that are not parallel.
pub proof fn lemma_basis_after_all(m: Model, cmds: Seq<Command>)
    requires
        !degenerate(m.view_direction@, m.up@),
    ensures
        !degenerate(after_all(m, cmds).view_direction@, after_all(m, cmds).up@),
    decreases cmds.len(),
{
    if cmds.len() > 0 {
        lemma_basis_after_all(m, cmds.drop_last());
        lemma_command_keeps_basis(after_all(m, cmds.drop_last()), Some(cmds.last()));
    }
}

} // verus!
