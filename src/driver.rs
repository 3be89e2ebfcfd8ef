use vstd::prelude::*;

verus! {

/// Where a run stands.
#[derive(PartialEq, Eq, Structural, Clone, Copy, Debug)]
pub enum Stage {
    Start,
    ConfigResolved,
    PagesSelected,
    FragmentsProduced,
    Assembled,
    /// The output was written and reported.
    Done,
    /// The resolved input does not exist: reported, not a failure.
    InputMissing,
    /// A step failed; the remaining steps are skipped.
    Failed,
}

/// What the last step reported.
#[derive(PartialEq, Eq, Structural, Clone, Copy, Debug)]
pub enum Event {
    /// The current stage's step finished.
    Completed,
    /// The resolved input file was not found.
    InputAbsent,
    /// The current stage's step failed.
    Error,
}

/// A run has ended in this stage.
pub open spec fn is_final(s: Stage) -> bool {
    s is Done || s is InputMissing || s is Failed
}

/// The stage after `s` when its step reports `e`.
pub open spec fn next_stage(s: Stage, e: Event) -> Stage {
    if is_final(s) {
        s
    } else {
        match e {
            Event::Error => Stage::Failed,
            Event::InputAbsent => if s is ConfigResolved {
                Stage::InputMissing
            } else {
                Stage::Failed
            },
            Event::Completed => match s {
                Stage::Start => Stage::ConfigResolved,
                Stage::ConfigResolved => Stage::PagesSelected,
                Stage::PagesSelected => Stage::FragmentsProduced,
                Stage::FragmentsProduced => Stage::Assembled,
                _ => Stage::Done,
            },
        }
    }
}

/// The stage reached from `s` through the events `es`, in order.
pub open spec fn run_from(s: Stage, es: Seq<Event>) -> Stage
    decreases es.len(),
{
    if es.len() == 0 {
        s
    } else {
        run_from(next_stage(s, es[0]), es.drop_first())
    }
}

/// Moves a run on by one reported event. The input is checked once the
/// configuration is resolved; a missing input ends the run without failure,
/// and any error ends it as failed.
pub fn advance(s: Stage, e: Event) -> (r: Stage)
    ensures
        r == next_stage(s, e),
{
    match s {
        Stage::Done | Stage::InputMissing | Stage::Failed => s,
        _ => match e {
            Event::Error => Stage::Failed,
            Event::InputAbsent => match s {
                Stage::ConfigResolved => Stage::InputMissing,
                _ => Stage::Failed,
            },
            Event::Completed => match s {
                Stage::Start => Stage::ConfigResolved,
                Stage::ConfigResolved => Stage::PagesSelected,
                Stage::PagesSelected => Stage::FragmentsProduced,
                Stage::FragmentsProduced => Stage::Assembled,
                _ => Stage::Done,
            },
        },
    }
}

/// The run has ended.
pub fn finished(s: Stage) -> (r: bool)
    ensures
        r == is_final(s),
{
    match s {
        Stage::Done | Stage::InputMissing | Stage::Failed => true,
        _ => false,
    }
}

/// The run ends with a failure status.
pub fn failed(s: Stage) -> (r: bool)
    ensures
        r == (s is Failed),
{
    match s {
        Stage::Failed => true,
        _ => false,
    }
}

/// A run that has ended stays where it is, whatever is reported after.
pub proof fn lemma_final_stays(s: Stage, es: Seq<Event>)
    requires
        is_final(s),
    ensures
        run_from(s, es) == s,
    decreases es.len(),
{
    if es.len() > 0 {
        lemma_final_stays(s, es.drop_first());
    }
}

/// A missing input, once the configuration is resolved, ends the run in a
/// stage that is not a failure, and no later event leads it on to assembling
/// or writing an output.
pub proof fn law_missing_input_ends_quietly(es: Seq<Event>)
    ensures
        run_from(Stage::ConfigResolved, seq![Event::InputAbsent] + es) == Stage::InputMissing,
        !(run_from(Stage::ConfigResolved, seq![Event::InputAbsent] + es) is Failed),
        !(run_from(Stage::ConfigResolved, seq![Event::InputAbsent] + es) is Assembled),
        !(run_from(Stage::ConfigResolved, seq![Event::InputAbsent] + es) is Done),
{
    let all = seq![Event::InputAbsent] + es;
    assert(all[0] == Event::InputAbsent);
    assert(all.drop_first() =~= es);
    lemma_final_stays(Stage::InputMissing, es);
}

} // verus!
