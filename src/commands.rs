use vstd::prelude::*;

use crate::buttons::{is_pressed, Button, ButtonState};
use crate::frame::DerivedFrame;

verus! {

/// The analog axes of the virtual gamepad.
#[derive(Debug, Clone, Copy, PartialEq, Eq, Structural)]
pub enum Axis {
    Steering,
    LeftTrigger,
    RightTrigger,
}

/// One change handed to the virtual device.
#[derive(Debug, Clone, Copy, PartialEq, Eq, Structural)]
pub enum SinkCommand {
    SetAxis(Axis, u8),
    Press(Button),
    Release(Button),
    /// Commits every change since the last one as a single event batch.
    Synchronize,
}

/// When a button's state is sent to the virtual device.
#[derive(Debug, Clone, Copy, PartialEq, Eq, Structural)]
pub enum Emission {
    /// Every button is pressed or released on every cycle.
    Level,
    /// A button is sent only when it changed since the last cycle, and every
    /// button on the first cycle.
    Edge,
}

/// Sends button states to the virtual device under a policy, remembering
/// the last state it sent.
#[derive(Debug, Clone, Copy)]
pub struct ButtonEmitter {
    pub policy: Emission,
    pub last: Option<ButtonState>,
}

/// The order in which buttons are sent on a cycle.
pub open spec fn button_order() -> Seq<Button> {
    seq![
        Button::North,
        Button::East,
        Button::South,
        Button::West,
        Button::Up,
        Button::Right,
        Button::Down,
        Button::Left,
        Button::Start,
        Button::Select,
        Button::LeftShoulder,
        Button::RightShoulder,
    ]
}

/// The command that puts `b` in state `down`.
pub open spec fn level_command(b: Button, down: bool) -> SinkCommand {
    if down {
        SinkCommand::Press(b)
    } else {
        SinkCommand::Release(b)
    }
}

/// Whether `b` is sent under `policy`, the last state sent being `last`.
pub open spec fn emits(
    policy: Emission,
    last: Option<ButtonState>,
    cur: ButtonState,
    b: Button,
) -> bool {
    match last {
        Some(prev) => policy is Level || is_pressed(prev, b) != is_pressed(cur, b),
        None => true,
    }
}

/// The commands for the first `n` buttons of `button_order()`.
pub open spec fn commands_upto(
    policy: Emission,
    last: Option<ButtonState>,
    cur: ButtonState,
    n: nat,
) -> Seq<SinkCommand>
    decreases n,
{
    if n == 0 {
        Seq::empty()
    } else {
        let b = button_order()[n - 1];
        let before = commands_upto(policy, last, cur, (n - 1) as nat);
        if emits(policy, last, cur, b) {
            before.push(level_command(b, is_pressed(cur, b)))
        } else {
            before
        }
    }
}

/// The button commands of one cycle that sends `cur`.
pub open spec fn button_commands(
    policy: Emission,
    last: Option<ButtonState>,
    cur: ButtonState,
) -> Seq<SinkCommand> {
    commands_upto(policy, last, cur, button_order().len())
}

/// The commands of one cycle: the steering axis, the buttons, both
/// triggers, and a synchronisation that commits them together.
pub open spec fn cycle_commands_of(
    policy: Emission,
    last: Option<ButtonState>,
    frame: DerivedFrame,
    steering_axis: u8,
) -> Seq<SinkCommand> {
    seq![SinkCommand::SetAxis(Axis::Steering, steering_axis)] + button_commands(
        policy,
        last,
        frame.buttons,
    ) + seq![
        SinkCommand::SetAxis(Axis::LeftTrigger, frame.left_trigger),
        SinkCommand::SetAxis(Axis::RightTrigger, frame.right_trigger),
        SinkCommand::Synchronize,
    ]
}

proof fn lemma_level_upto(last: Option<ButtonState>, cur: ButtonState, n: nat)
    requires
        n <= button_order().len(),
    ensures
        commands_upto(Emission::Level, last, cur, n).len() == n,
        forall|i: int|
            0 <= i < n ==> commands_upto(Emission::Level, last, cur, n)[i] == level_command(
                button_order()[i],
                is_pressed(cur, button_order()[i]),
            ),
    decreases n,
{
    if n > 0 {
        lemma_level_upto(last, cur, (n - 1) as nat);
    }
}

/// Under the level policy every button is pressed or released on every
/// cycle, once each and in `button_order()`, whatever was sent before.
pub proof fn lemma_level_resends_every_button(last: Option<ButtonState>, cur: ButtonState)
    ensures
        button_commands(Emission::Level, last, cur).len() == button_order().len(),
        forall|i: int|
            0 <= i < button_order().len() ==> button_commands(Emission::Level, last, cur)[i]
                == level_command(button_order()[i], is_pressed(cur, button_order()[i])),
{
    lemma_level_upto(last, cur, button_order().len());
}

proof fn lemma_edge_upto(cur: ButtonState, n: nat)
    ensures
        commands_upto(Emission::Edge, Some(cur), cur, n).len() == 0,
    decreases n,
{
    if n > 0 {
        lemma_edge_upto(cur, (n - 1) as nat);
    }
}

/// Under the edge policy a state sent again unchanged sends nothing.
pub proof fn lemma_edge_suppresses_unchanged(cur: ButtonState)
    ensures
        button_commands(Emission::Edge, Some(cur), cur).len() == 0,
{
    lemma_edge_upto(cur, button_order().len());
}

/// `s` with `b` put in state `down`.
pub open spec fn with_button(s: ButtonState, b: Button, down: bool) -> ButtonState {
    match b {
        Button::North => ButtonState { north: down, ..s },
        Button::East => ButtonState { east: down, ..s },
        Button::South => ButtonState { south: down, ..s },
        Button::West => ButtonState { west: down, ..s },
        Button::Up => ButtonState { up: down, ..s },
        Button::Right => ButtonState { right: down, ..s },
        Button::Down => ButtonState { down: down, ..s },
        Button::Left => ButtonState { left: down, ..s },
        Button::Start => ButtonState { start: down, ..s },
        Button::Select => ButtonState { select: down, ..s },
        Button::LeftShoulder => ButtonState { left_shoulder: down, ..s },
        Button::RightShoulder => ButtonState { right_shoulder: down, ..s },
    }
}

/// The button state of a device that held `start` once `cmds` are applied;
/// axis and synchronisation commands leave it as it is.
pub open spec fn device_after(start: ButtonState, cmds: Seq<SinkCommand>) -> ButtonState
    decreases cmds.len(),
{
    if cmds.len() == 0 {
        start
    } else {
        let before = device_after(start, cmds.drop_last());
        match cmds.last() {
            SinkCommand::Press(b) => with_button(before, b, true),
            SinkCommand::Release(b) => with_button(before, b, false),
            _ => before,
        }
    }
}

proof fn lemma_states_equal(a: ButtonState, b: ButtonState)
    requires
        forall|i: int|
            0 <= i < button_order().len() ==> is_pressed(a, #[trigger] button_order()[i])
                == is_pressed(b, button_order()[i]),
    ensures
        a == b,
{
    let o = button_order();
    assert(is_pressed(a, o[0]) == is_pressed(b, o[0]));
    assert(is_pressed(a, o[1]) == is_pressed(b, o[1]));
    assert(is_pressed(a, o[2]) == is_pressed(b, o[2]));
    assert(is_pressed(a, o[3]) == is_pressed(b, o[3]));
    assert(is_pressed(a, o[4]) == is_pressed(b, o[4]));
    assert(is_pressed(a, o[5]) == is_pressed(b, o[5]));
    assert(is_pressed(a, o[6]) == is_pressed(b, o[6]));
    assert(is_pressed(a, o[7]) == is_pressed(b, o[7]));
    assert(is_pressed(a, o[8]) == is_pressed(b, o[8]));
    assert(is_pressed(a, o[9]) == is_pressed(b, o[9]));
    assert(is_pressed(a, o[10]) == is_pressed(b, o[10]));
    assert(is_pressed(a, o[11]) == is_pressed(b, o[11]));
}

proof fn lemma_with_button(s: ButtonState, b: Button, down: bool, other: Button)
    ensures
        is_pressed(with_button(s, b, down), other) == if other == b {
            down
        } else {
            is_pressed(s, other)
        },
{
}

proof fn lemma_order_distinct(i: int, j: int)
    requires
        0 <= i < button_order().len(),
        0 <= j < button_order().len(),
        button_order()[i] == button_order()[j],
    ensures
        i == j,
{
}

proof fn lemma_device_after_upto(
    policy: Emission,
    last: Option<ButtonState>,
    start: ButtonState,
    cur: ButtonState,
    n: nat,
)
    requires
        n <= button_order().len(),
        policy is Level || last is None || last == Some(start),
    ensures
        forall|i: int|
            0 <= i < button_order().len() ==> is_pressed(
                device_after(start, commands_upto(policy, last, cur, n)),
                #[trigger] button_order()[i],
            ) == if i < n {
                is_pressed(cur, button_order()[i])
            } else {
                is_pressed(start, button_order()[i])
            },
    decreases n,
{
    if n > 0 {
        let o = button_order();
        lemma_device_after_upto(policy, last, start, cur, (n - 1) as nat);
        let before = commands_upto(policy, last, cur, (n - 1) as nat);
        let prior = device_after(start, before);
        let b = o[n - 1];
        let after = device_after(start, commands_upto(policy, last, cur, n));
        if emits(policy, last, cur, b) {
            let cmds = before.push(level_command(b, is_pressed(cur, b)));
            assert(cmds.drop_last() =~= before);
            assert(after == with_button(prior, b, is_pressed(cur, b)));
        } else {
            assert(after == prior);
            assert(is_pressed(start, b) == is_pressed(cur, b));
        }
        assert forall|i: int| 0 <= i < o.len() implies is_pressed(after, #[trigger] o[i]) == if i
            < n {
            is_pressed(cur, o[i])
        } else {
            is_pressed(start, o[i])
        } by {
            if emits(policy, last, cur, b) {
                lemma_with_button(prior, b, is_pressed(cur, b), o[i]);
                if o[i] == b {
                    lemma_order_distinct(i, n - 1);
                }
            }
        }
    }
}

/// The button commands of a cycle leave the device holding exactly the
/// cycle's state, under either policy: under the level policy whatever the
/// device held, under the edge policy when it holds what was last sent.
pub proof fn lemma_commands_reach_state(
    policy: Emission,
    last: Option<ButtonState>,
    start: ButtonState,
    cur: ButtonState,
)
    requires
        policy is Level || last is None || last == Some(start),
    ensures
        device_after(start, button_commands(policy, last, cur)) == cur,
{
    lemma_device_after_upto(policy, last, start, cur, button_order().len());
    lemma_states_equal(device_after(start, button_commands(policy, last, cur)), cur);
}

/// The buttons in the order in which they are sent.
pub fn all_buttons() -> (r: Vec<Button>)
    ensures
        r@ == button_order(),
{
    let r = vec![
        Button::North,
        Button::East,
        Button::South,
        Button::West,
        Button::Up,
        Button::Right,
        Button::Down,
        Button::Left,
        Button::Start,
        Button::Select,
        Button::LeftShoulder,
        Button::RightShoulder,
    ];
    assert(r@ =~= button_order());
    r
}

impl ButtonEmitter {
    /// An emitter that has sent nothing yet.
    pub fn new(policy: Emission) -> (r: ButtonEmitter)
        ensures
            r.policy == policy,
            r.last is None,
    {
        ButtonEmitter { policy, last: None }
    }

    /// The button commands for a cycle that sends `cur`; `cur` becomes the
    /// last state sent.
    pub fn emit(&mut self, cur: &ButtonState) -> (r: Vec<SinkCommand>)
        ensures
            r@ == button_commands(old(self).policy, old(self).last, *cur),
            final(self).policy == old(self).policy,
            final(self).last == Some(*cur),
    {
        let order = all_buttons();
        let mut out: Vec<SinkCommand> = Vec::new();
        let mut i: usize = 0;
        while i < order.len()
            invariant
                order@ == button_order(),
                i <= order@.len(),
                out@ == commands_upto(self.policy, self.last, *cur, i as nat),
            decreases order@.len() - i,
        {
            let b = order[i];
            let down = cur.pressed(b);
            let send = match self.last {
                Some(prev) => match self.policy {
                    Emission::Level => true,
                    Emission::Edge => prev.pressed(b) != down,
                },
                None => true,
            };
            if send {
                if down {
                    out.push(SinkCommand::Press(b));
                } else {
                    out.push(SinkCommand::Release(b));
                }
            }
            i = i + 1;
        }
        self.last = Some(*cur);
        out
    }

    /// The commands of one cycle for `frame`, with the steering axis at
    /// `steering_axis`; the frame's buttons become the last state sent.
    pub fn cycle_commands(&mut self, frame: &DerivedFrame, steering_axis: u8) -> (r: Vec<
        SinkCommand,
    >)
        ensures
            r@ == cycle_commands_of(old(self).policy, old(self).last, *frame, steering_axis),
            final(self).policy == old(self).policy,
            final(self).last == Some(frame.buttons),
    {
        let mut out: Vec<SinkCommand> = Vec::new();
        out.push(SinkCommand::SetAxis(Axis::Steering, steering_axis));
        let mut buttons = self.emit(&frame.buttons);
        out.append(&mut buttons);
        out.push(SinkCommand::SetAxis(Axis::LeftTrigger, frame.left_trigger));
        out.push(SinkCommand::SetAxis(Axis::RightTrigger, frame.right_trigger));
        out.push(SinkCommand::Synchronize);
        assert(out@ =~= cycle_commands_of(
            old(self).policy,
            old(self).last,
            *frame,
            steering_axis,
        ));
        out
    }
}

} // verus!
