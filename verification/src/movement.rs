//! Keyboard flight: which held keys move the camera, along which of its own
//! axes, and in which order the moves are applied.

use vstd::prelude::*;

verus! {

/// Units that the camera travels per second along an axis while a key is held.
pub const SPEED: u16 = 5;

/// The movement keys that are down during a frame.
#[derive(Clone, Copy, Debug, PartialEq, Eq, Structural)]
pub struct HeldKeys {
    pub w: bool,
    pub s: bool,
    pub a: bool,
    pub d: bool,
}

/// An axis of the camera: a world axis turned by the camera's orientation.
#[derive(Clone, Copy, Debug, PartialEq, Eq, Structural)]
pub enum Axis {
    /// The world Z axis as the camera carries it.
    Forward,
    /// The world X axis as the camera carries it.
    Right,
}

/// Whether a move adds the axis to the position or takes it away.
#[derive(Clone, Copy, Debug, PartialEq, Eq, Structural)]
pub enum Sense {
    Against,
    Along,
}

/// One move of a frame: the axis times speed times elapsed time, added to or
/// taken from the camera's position.
#[derive(Clone, Copy, Debug, PartialEq, Eq, Structural)]
pub struct Step {
    pub axis: Axis,
    pub sense: Sense,
}

impl Step {
    /// The step's weight on `axis`: -1 or 1 on its own axis, 0 on the other.
    pub open spec fn weight(self, axis: Axis) -> int {
        if self.axis != axis {
            0
        } else if self.sense == Sense::Along {
            1
        } else {
            -1
        }
    }
}

/// The step of one key: present while the key is held.
pub open spec fn spec_key_step(held: bool, axis: Axis, sense: Sense) -> Seq<Step> {
    if held {
        seq![Step { axis, sense }]
    } else {
        Seq::empty()
    }
}

/// The moves of a frame, in the order in which they are applied: W against
/// and S along the forward axis, then A against and D along the right axis,
/// each only while its key is held.
pub open spec fn spec_steps(keys: HeldKeys) -> Seq<Step> {
    spec_key_step(keys.w, Axis::Forward, Sense::Against) + spec_key_step(
        keys.s,
        Axis::Forward,
        Sense::Along,
    ) + spec_key_step(keys.a, Axis::Right, Sense::Against) + spec_key_step(
        keys.d,
        Axis::Right,
        Sense::Along,
    )
}

/// The summed weight of `steps` on `axis`.
pub open spec fn net(steps: Seq<Step>, axis: Axis) -> int
    decreases steps.len(),
{
    if steps.len() == 0 {
        0
    } else {
        net(steps.drop_last(), axis) + steps.last().weight(axis)
    }
}

/// What `steps` add to a position in exact arithmetic, where `forward` and
/// `right` are the camera's two axes and `reach` is speed times elapsed time.
/// Keys add up as they are: two axes at once reach further than one.
pub open spec fn displacement(
    steps: Seq<Step>,
    forward: (int, int, int),
    right: (int, int, int),
    reach: int,
) -> (int, int, int) {
    let f = net(steps, Axis::Forward) * reach;
    let r = net(steps, Axis::Right) * reach;
    (f * forward.0 + r * right.0, f * forward.1 + r * right.1, f * forward.2 + r * right.2)
}

/// The moves to apply this frame for the keys that are held, in order. Both
/// axes are read from the camera's orientation before the first move.
pub fn steps(keys: HeldKeys) -> (plan: Vec<Step>)
    ensures
        plan@ == spec_steps(keys),
{
    let mut plan: Vec<Step> = Vec::new();
    if keys.w {
        plan.push(Step { axis: Axis::Forward, sense: Sense::Against });
    }
    if keys.s {
        plan.push(Step { axis: Axis::Forward, sense: Sense::Along });
    }
    if keys.a {
        plan.push(Step { axis: Axis::Right, sense: Sense::Against });
    }
    if keys.d {
        plan.push(Step { axis: Axis::Right, sense: Sense::Along });
    }
    assert(plan@ =~= spec_steps(keys));
    plan
}

/// The weight of two runs of steps is the sum of their weights.
pub proof fn lemma_net_concat(front: Seq<Step>, back: Seq<Step>, axis: Axis)
    ensures
        net(front + back, axis) == net(front, axis) + net(back, axis),
    decreases back.len(),
{
    if back.len() == 0 {
        assert(front + back =~= front);
    } else {
        lemma_net_concat(front, back.drop_last(), axis);
        assert((front + back).drop_last() =~= front + back.drop_last());
        assert((front + back).last() == back.last());
    }
}

/// The weight of one key's step on its own axis and on the other.
proof fn lemma_net_key_step(held: bool, own: Axis, sense: Sense, axis: Axis)
    ensures
        net(spec_key_step(held, own, sense), axis) == if held {
            (Step { axis: own, sense }).weight(axis)
        } else {
            0
        },
{
    let one = spec_key_step(held, own, sense);
    if held {
        assert(one.drop_last() =~= Seq::<Step>::empty());
        assert(net(one.drop_last(), axis) == 0);
        assert(one.last() == Step { axis: own, sense });
    }
}

/// Along each axis the held keys weigh as the difference of the two keys of
/// that axis: opposite keys cancel, and an axis knows nothing of the other's keys.
pub proof fn lemma_net_of_keys(keys: HeldKeys)
    ensures
        net(spec_steps(keys), Axis::Forward) == (if keys.s { 1int } else { 0 }) - (if keys.w {
            1int
        } else {
            0
        }),
        net(spec_steps(keys), Axis::Right) == (if keys.d { 1int } else { 0 }) - (if keys.a {
            1int
        } else {
            0
        }),
{
    let w = spec_key_step(keys.w, Axis::Forward, Sense::Against);
    let s = spec_key_step(keys.s, Axis::Forward, Sense::Along);
    let a = spec_key_step(keys.a, Axis::Right, Sense::Against);
    let d = spec_key_step(keys.d, Axis::Right, Sense::Along);
    lemma_net_key_step(keys.w, Axis::Forward, Sense::Against, Axis::Forward);
    lemma_net_key_step(keys.s, Axis::Forward, Sense::Along, Axis::Forward);
    lemma_net_key_step(keys.a, Axis::Right, Sense::Against, Axis::Forward);
    lemma_net_key_step(keys.d, Axis::Right, Sense::Along, Axis::Forward);
    lemma_net_key_step(keys.w, Axis::Forward, Sense::Against, Axis::Right);
    lemma_net_key_step(keys.s, Axis::Forward, Sense::Along, Axis::Right);
    lemma_net_key_step(keys.a, Axis::Right, Sense::Against, Axis::Right);
    lemma_net_key_step(keys.d, Axis::Right, Sense::Along, Axis::Right);
    lemma_net_concat(w, s, Axis::Forward);
    lemma_net_concat(w + s, a, Axis::Forward);
    lemma_net_concat(w + s + a, d, Axis::Forward);
    lemma_net_concat(w, s, Axis::Right);
    lemma_net_concat(w + s, a, Axis::Right);
    lemma_net_concat(w + s + a, d, Axis::Right);
}

/// With the camera's axes on the world's, holding W alone for `elapsed` moves
/// the camera by `SPEED * elapsed` against the world Z axis and not otherwise.
pub proof fn lemma_w_at_identity(elapsed: int)
    ensures
        displacement(
            spec_steps(HeldKeys { w: true, s: false, a: false, d: false }),
            (0, 0, 1),
            (1, 0, 0),
            SPEED * elapsed,
        ) == (0int, 0int, -(5 * elapsed)),
{
    lemma_net_of_keys(HeldKeys { w: true, s: false, a: false, d: false });
}

/// With the camera's axes on the world's, holding W and D together for
/// `elapsed` moves the camera by the sum of both moves, each of full length:
/// `SPEED * elapsed` along the world X axis and as much against the world Z axis.
pub proof fn lemma_w_and_d_at_identity(elapsed: int)
    ensures
        displacement(
            spec_steps(HeldKeys { w: true, s: false, a: false, d: true }),
            (0, 0, 1),
            (1, 0, 0),
            SPEED * elapsed,
        ) == (5 * elapsed, 0int, -(5 * elapsed)),
{
    lemma_net_of_keys(HeldKeys { w: true, s: false, a: false, d: true });
}

} // verus!
