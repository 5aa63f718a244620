//! The goodbye sequence: peers' passive caches may hold a stale entry after a
//! withdrawal, and a single departure message can be lost. The plan below
//! advertises the just-withdrawn record briefly and withdraws it again,
//! several times, to force explicit departure messages, then waits for
//! propagation. The step list is fixed here; the caller performs each step in
//! order, on a background task, and failures of one cycle do not abort the
//! remaining ones.
use vstd::prelude::*;

verus! {

/// One step of the goodbye sequence.
#[derive(Debug, Clone, Copy, PartialEq, Eq, Structural)]
pub enum GoodbyeStep {
    /// Start a transient advertisement of the stored record.
    Advertise,
    /// Wait this many milliseconds.
    Wait(u64),
    /// Withdraw the transient advertisement.
    Withdraw,
}

/// The goodbye plan: a first advertise/withdraw cycle with a short settle
/// interval, three further cycles spaced out more widely, and a final
/// propagation delay.
pub open spec fn spec_goodbye_plan() -> Seq<GoodbyeStep> {
    seq![
        GoodbyeStep::Advertise,
        GoodbyeStep::Wait(100),
        GoodbyeStep::Withdraw,
        GoodbyeStep::Wait(200),
        GoodbyeStep::Advertise,
        GoodbyeStep::Wait(50),
        GoodbyeStep::Withdraw,
        GoodbyeStep::Wait(200),
        GoodbyeStep::Advertise,
        GoodbyeStep::Wait(50),
        GoodbyeStep::Withdraw,
        GoodbyeStep::Wait(200),
        GoodbyeStep::Advertise,
        GoodbyeStep::Wait(50),
        GoodbyeStep::Withdraw,
        GoodbyeStep::Wait(300),
    ]
}

/// The milliseconds the plan spends waiting in all.
pub open spec fn total_wait(steps: Seq<GoodbyeStep>) -> int
    decreases steps.len(),
{
    if steps.len() == 0 {
        0
    } else {
        total_wait(steps.drop_last()) + match steps.last() {
            GoodbyeStep::Wait(ms) => ms as int,
            _ => 0,
        }
    }
}

/// The whole sequence waits about a second; callers must not block a
/// foreground thread on it.
pub proof fn lemma_goodbye_plan_duration()
    ensures
        total_wait(spec_goodbye_plan()) == 1150,
{
    reveal_with_fuel(total_wait, 17);
}

/// Emits the goodbye plan for the caller to perform in order.
pub fn goodbye_plan() -> (r: Vec<GoodbyeStep>)
    ensures
        r@ == spec_goodbye_plan(),
{
    let mut steps: Vec<GoodbyeStep> = Vec::new();
    steps.push(GoodbyeStep::Advertise);
    steps.push(GoodbyeStep::Wait(100));
    steps.push(GoodbyeStep::Withdraw);
    let mut cycle: usize = 0;
    while cycle < 3
        invariant
            cycle <= 3,
            steps@.len() == 3 + 4 * cycle,
            steps@ == spec_goodbye_plan().take(3 + 4 * cycle),
        decreases 3 - cycle,
    {
        steps.push(GoodbyeStep::Wait(200));
        steps.push(GoodbyeStep::Advertise);
        steps.push(GoodbyeStep::Wait(50));
        steps.push(GoodbyeStep::Withdraw);
        cycle = cycle + 1;
        proof {
            assert(steps@ =~= spec_goodbye_plan().take(3 + 4 * cycle));
        }
    }
    steps.push(GoodbyeStep::Wait(300));
    proof {
        assert(steps@ =~= spec_goodbye_plan());
    }
    steps
}

} // verus!
