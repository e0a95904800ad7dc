use vstd::prelude::*;

verus! {

/// What tracing one ray into the scene found.
#[derive(Clone, Copy, Debug, PartialEq, Eq, Structural)]
pub enum Bounce {
    /// The ray hit nothing: it sees the sky.
    Escaped,
    /// The ray hit a surface whose material absorbed it.
    Absorbed,
    /// The ray hit a surface whose material scattered it on.
    Scattered,
}

/// How a path's radiance ends.
#[derive(Clone, Copy, Debug, PartialEq, Eq, Structural)]
pub enum PathEnd {
    /// No light: the bounce budget ran out, or the ray was absorbed.
    Black,
    /// The sky gradient seen along the last ray.
    Sky,
}

/// The next thing to do on a path.
#[derive(Clone, Copy, Debug, PartialEq, Eq, Structural)]
pub enum PathStep {
    /// Trace the current ray; `depth` bounces are left, the current one
    /// included.
    Trace { depth: i32 },
    /// Stop: the path's radiance is the product of the attenuations met so
    /// far and this end.
    Finish(PathEnd),
}

/// The step that starts a path, or follows a scatter, with `depth` bounces
/// left: a budget of zero or less ends the path in black.
pub open spec fn spec_start(depth: int) -> PathStep {
    if depth <= 0 {
        PathStep::Finish(PathEnd::Black)
    } else {
        PathStep::Trace { depth: depth as i32 }
    }
}

/// The step after a trace with `depth` bounces left found `bounce`.
pub open spec fn spec_after(depth: int, bounce: Bounce) -> PathStep {
    match bounce {
        Bounce::Escaped => PathStep::Finish(PathEnd::Sky),
        Bounce::Absorbed => PathStep::Finish(PathEnd::Black),
        Bounce::Scattered => spec_start(depth - 1),
    }
}

/// Where a path that is at `step` stands after its traces found `outcomes`,
/// in order; outcomes past the path's end are not looked at.
pub open spec fn run(step: PathStep, outcomes: Seq<Bounce>) -> PathStep
    decreases outcomes.len(),
{
    match step {
        PathStep::Finish(_) => step,
        PathStep::Trace { depth } => {
            if outcomes.len() == 0 {
                step
            } else {
                run(spec_after(depth as int, outcomes[0]), outcomes.drop_first())
            }
        },
    }
}

/// The first step of a path with a budget of `max_depth` bounces.
pub fn start(max_depth: i32) -> (step: PathStep)
    ensures
        step == spec_start(max_depth as int),
        max_depth <= 0 ==> step == PathStep::Finish(PathEnd::Black),
{
    if max_depth <= 0 {
        PathStep::Finish(PathEnd::Black)
    } else {
        PathStep::Trace { depth: max_depth }
    }
}

/// The step after tracing with `depth` bounces left found `bounce`: the sky
/// where the ray escaped, black where it was absorbed, and where it
/// scattered, another trace with one bounce fewer, or black once none is
/// left.
pub fn after(depth: i32, bounce: Bounce) -> (step: PathStep)
    requires
        depth > 0,
    ensures
        step == spec_after(depth as int, bounce),
        step matches PathStep::Trace { depth: d } ==> 0 < d < depth,
{
    match bounce {
        Bounce::Escaped => PathStep::Finish(PathEnd::Sky),
        Bounce::Absorbed => PathStep::Finish(PathEnd::Black),
        Bounce::Scattered => start(depth - 1),
    }
}

/// A path with a budget of `max_depth` bounces has ended once it has traced
/// `max_depth` rays, whatever those traces found.
pub proof fn lemma_path_ends(max_depth: i32, outcomes: Seq<Bounce>)
    requires
        outcomes.len() >= max_depth,
    ensures
        run(spec_start(max_depth as int), outcomes) is Finish,
    decreases outcomes.len(),
{
    if max_depth > 0 {
        let next = spec_after(max_depth as int, outcomes[0]);
        if outcomes[0] == Bounce::Scattered {
            lemma_path_ends((max_depth - 1) as i32, outcomes.drop_first());
        } else {
            assert(run(next, outcomes.drop_first()) == next);
        }
    }
}

/// A path with a budget of zero or fewer bounces is black, whatever the
/// scene would have made of its rays.
pub proof fn lemma_no_budget_is_black(max_depth: i32, outcomes: Seq<Bounce>)
    requires
        max_depth <= 0,
    ensures
        run(spec_start(max_depth as int), outcomes) == PathStep::Finish(PathEnd::Black),
{
}

} // verus!
