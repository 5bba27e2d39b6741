use vstd::prelude::*;
use crate::profiles::{profile_interval, profile_keyboard, profile_mouse, SimProfile};

verus! {

/// A running simulation and the token that stops it.
pub struct SimulationHandle {
    pub profile: SimProfile,
    pub cancel: tokio_util::sync::CancellationToken,
}

/// One step of a simulated user action.
#[derive(Debug, Clone, Copy, PartialEq, Eq, Structural)]
pub enum SimStep {
    /// Move the mouse by a relative offset.
    MoveMouse { dx: i32, dy: i32 },
    /// Wait this many milliseconds.
    Pause { ms: u64 },
    /// Press the Shift key.
    PressShift,
    /// Release the Shift key.
    ReleaseShift,
}

/// A random number in `lo..=hi` (`rand::Rng::gen_range` on the thread-local generator).
/// The generator panics on an empty range, hence the precondition.
#[verifier::external_body]
fn random_u64_in(lo: u64, hi: u64) -> (r: u64)
    requires
        lo <= hi,
    ensures
        lo <= r <= hi,
{
    rand::Rng::gen_range(&mut rand::thread_rng(), lo..=hi)
}

/// A random number in `lo..=hi` (`rand::Rng::gen_range` on the thread-local generator).
/// The generator panics on an empty range, hence the precondition.
#[verifier::external_body]
fn random_i32_in(lo: i32, hi: i32) -> (r: i32)
    requires
        lo <= hi,
    ensures
        lo <= r <= hi,
{
    rand::Rng::gen_range(&mut rand::thread_rng(), lo..=hi)
}

/// Whether the profile's pause bounds form a non-empty range.
pub open spec fn interval_valid(p: SimProfile) -> bool {
    profile_interval(p).0 <= profile_interval(p).1
}

/// The pause before the next action: a random number of milliseconds within the
/// profile's bounds.
pub fn next_delay_ms(profile: &SimProfile) -> (r: u64)
    requires
        interval_valid(*profile),
    ensures
        profile_interval(*profile).0 <= r <= profile_interval(*profile).1,
{
    let (min_ms, max_ms) = profile.interval_range();
    random_u64_in(min_ms, max_ms)
}

/// The steps of one simulated action: with the mouse, a move by `(dx, dy)`, a pause and
/// the move back; with the keyboard, a pause then a press and (after a pause) a release
/// of Shift.
pub open spec fn action_plan(
    do_mouse: bool,
    do_keyboard: bool,
    dx: i32,
    dy: i32,
    mouse_pause: u64,
    key_lead: u64,
    key_hold: u64,
) -> Seq<SimStep> {
    (if do_mouse {
        seq![
            SimStep::MoveMouse { dx, dy },
            SimStep::Pause { ms: mouse_pause },
            SimStep::MoveMouse { dx: (-dx) as i32, dy: (-dy) as i32 },
        ]
    } else {
        Seq::empty()
    }) + (if do_keyboard {
        seq![
            SimStep::Pause { ms: key_lead },
            SimStep::PressShift,
            SimStep::Pause { ms: key_hold },
            SimStep::ReleaseShift,
        ]
    } else {
        Seq::empty()
    })
}

/// The random values an action may use: offsets of at most three pixels, a mouse pause
/// of 50 to 149 ms, a lead of 100 to 299 ms before the key and a hold of 30 to 79 ms.
pub open spec fn action_values_in_range(dx: i32, dy: i32, mouse_pause: u64, key_lead: u64, key_hold: u64) -> bool {
    &&& -3 <= dx <= 3
    &&& -3 <= dy <= 3
    &&& 50 <= mouse_pause < 150
    &&& 100 <= key_lead < 300
    &&& 30 <= key_hold < 80
}

/// Builds the steps of one simulated action from chosen values.
pub fn plan_action(
    do_mouse: bool,
    do_keyboard: bool,
    dx: i32,
    dy: i32,
    mouse_pause: u64,
    key_lead: u64,
    key_hold: u64,
) -> (r: Vec<SimStep>)
    requires
        dx != i32::MIN,
        dy != i32::MIN,
    ensures
        r@ == action_plan(do_mouse, do_keyboard, dx, dy, mouse_pause, key_lead, key_hold),
{
    let mut steps: Vec<SimStep> = Vec::new();
    if do_mouse {
        steps.push(SimStep::MoveMouse { dx, dy });
        steps.push(SimStep::Pause { ms: mouse_pause });
        steps.push(SimStep::MoveMouse { dx: -dx, dy: -dy });
    }
    if do_keyboard {
        steps.push(SimStep::Pause { ms: key_lead });
        steps.push(SimStep::PressShift);
        steps.push(SimStep::Pause { ms: key_hold });
        steps.push(SimStep::ReleaseShift);
    }
    assert(steps@ =~= action_plan(do_mouse, do_keyboard, dx, dy, mouse_pause, key_lead, key_hold));
    steps
}

/// The steps of one simulated action, with offsets and pauses drawn at random.
pub fn simulate_action(do_mouse: bool, do_keyboard: bool) -> (r: Vec<SimStep>)
    ensures
        exists|dx: i32, dy: i32, mouse_pause: u64, key_lead: u64, key_hold: u64|
            action_values_in_range(dx, dy, mouse_pause, key_lead, key_hold)
            && r@ == #[trigger] action_plan(do_mouse, do_keyboard, dx, dy, mouse_pause, key_lead, key_hold),
{
    let mut dx: i32 = 0;
    let mut dy: i32 = 0;
    let mut mouse_pause: u64 = 50;
    if do_mouse {
        dx = random_i32_in(-3, 3);
        dy = random_i32_in(-3, 3);
        mouse_pause = random_u64_in(50, 149);
    }
    let mut key_lead: u64 = 100;
    let mut key_hold: u64 = 30;
    if do_keyboard {
        key_lead = random_u64_in(100, 299);
        key_hold = random_u64_in(30, 79);
    }
    let r = plan_action(do_mouse, do_keyboard, dx, dy, mouse_pause, key_lead, key_hold);
    assert(action_values_in_range(dx, dy, mouse_pause, key_lead, key_hold));
    r
}

/// The sum of the mouse offsets of a sequence of steps.
pub open spec fn net_mouse_offset(steps: Seq<SimStep>) -> (int, int)
    decreases steps.len(),
{
    if steps.len() == 0 {
        (0, 0)
    } else {
        let rest = net_mouse_offset(steps.drop_last());
        match steps.last() {
            SimStep::MoveMouse { dx, dy } => (rest.0 + dx, rest.1 + dy),
            _ => rest,
        }
    }
}

proof fn lemma_net_offset_concat(a: Seq<SimStep>, b: Seq<SimStep>)
    ensures
        net_mouse_offset(a + b) == (net_mouse_offset(a).0 + net_mouse_offset(b).0, net_mouse_offset(a).1
            + net_mouse_offset(b).1),
    decreases b.len(),
{
    if b.len() == 0 {
        assert(a + b =~= a);
    } else {
        lemma_net_offset_concat(a, b.drop_last());
        assert((a + b).drop_last() =~= a + b.drop_last());
    }
}

proof fn lemma_no_moves(steps: Seq<SimStep>)
    requires
        forall|i: int| 0 <= i < steps.len() ==> !(#[trigger] steps[i] is MoveMouse),
    ensures
        net_mouse_offset(steps) == (0int, 0int),
    decreases steps.len(),
{
    if steps.len() > 0 {
        let front = steps.drop_last();
        assert forall|i: int| 0 <= i < front.len() implies !(#[trigger] front[i] is MoveMouse) by {
            assert(front[i] == steps[i]);
        }
        lemma_no_moves(front);
        assert(!(steps[steps.len() - 1] is MoveMouse));
    }
}

/// A simulated action leaves the pointer where it was: the moves cancel out, and each
/// moves it by at most three pixels either way.
pub proof fn lemma_action_returns_pointer(
    do_mouse: bool,
    do_keyboard: bool,
    dx: i32,
    dy: i32,
    mouse_pause: u64,
    key_lead: u64,
    key_hold: u64,
)
    requires
        action_values_in_range(dx, dy, mouse_pause, key_lead, key_hold),
    ensures
        net_mouse_offset(action_plan(do_mouse, do_keyboard, dx, dy, mouse_pause, key_lead, key_hold)) == (0int, 0int),
        forall|i: int|
            0 <= i < action_plan(do_mouse, do_keyboard, dx, dy, mouse_pause, key_lead, key_hold).len()
                ==> (#[trigger] action_plan(do_mouse, do_keyboard, dx, dy, mouse_pause, key_lead, key_hold)[i]
                matches SimStep::MoveMouse { dx: x, dy: y } ==> -3 <= x <= 3 && -3 <= y <= 3),
{
    let m: Seq<SimStep> = if do_mouse {
        seq![
            SimStep::MoveMouse { dx, dy },
            SimStep::Pause { ms: mouse_pause },
            SimStep::MoveMouse { dx: (-dx) as i32, dy: (-dy) as i32 },
        ]
    } else {
        Seq::empty()
    };
    let k: Seq<SimStep> = if do_keyboard {
        seq![
            SimStep::Pause { ms: key_lead },
            SimStep::PressShift,
            SimStep::Pause { ms: key_hold },
            SimStep::ReleaseShift,
        ]
    } else {
        Seq::empty()
    };
    lemma_net_offset_concat(m, k);
    lemma_no_moves(k);
    if do_mouse {
        let m1 = seq![SimStep::MoveMouse { dx, dy }];
        let m2 = m1.push(SimStep::Pause { ms: mouse_pause });
        assert(m =~= m2.push(SimStep::MoveMouse { dx: (-dx) as i32, dy: (-dy) as i32 }));
        assert(m2.drop_last() =~= m1);
        assert(m1.drop_last() =~= Seq::<SimStep>::empty());
        assert(net_mouse_offset(Seq::<SimStep>::empty()) == (0int, 0int));
        assert(m1.last() == SimStep::MoveMouse { dx, dy });
        assert(net_mouse_offset(m1) == (dx as int, dy as int));
        assert(m2.last() == SimStep::Pause { ms: mouse_pause });
        assert(net_mouse_offset(m2) == (dx as int, dy as int));
        assert(m.drop_last() =~= m2);
        assert(m.last() == SimStep::MoveMouse { dx: (-dx) as i32, dy: (-dy) as i32 });
        assert(net_mouse_offset(m) == (0int, 0int));
    } else {
        lemma_no_moves(m);
    }
    assert(action_plan(do_mouse, do_keyboard, dx, dy, mouse_pause, key_lead, key_hold) == m + k);
}

} // verus!
