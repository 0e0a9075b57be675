//! How a fatal report ends execution, and the latch that silences the
//! runtime's own fault report.

use vstd::prelude::*;
use crate::output::line::{named_report, named_report_text, report, report_text, unit_view};
use crate::output::severity::Severity;

verus! {

/// The exit code of a fatal report that names none.
pub const DEFAULT_EXIT_CODE: i32 = 1;

/// How execution ends after a fatal report.
#[derive(Clone, Copy, Debug, PartialEq, Eq, Structural)]
pub enum Termination {
    /// The whole process exits at once with `code`.
    ProcessExit { code: i32 },
    /// Only the calling execution unit ends; the rest of the process goes on.
    UnitAbort,
}

impl Termination {
    /// Process exit with [`DEFAULT_EXIT_CODE`].
    pub fn exit() -> (ending: Termination)
        ensures
            ending == (Termination::ProcessExit { code: DEFAULT_EXIT_CODE }),
    {
        Termination::ProcessExit { code: DEFAULT_EXIT_CODE }
    }

    /// Whether this ending silences the runtime's fault report: a unit abort
    /// does, a process exit has none to silence.
    pub open spec fn silences(self) -> bool {
        self is UnitAbort
    }
}

/// Whether the latch is set after a fatal report that ends in `ending`, given
/// whether it was set before: a unit abort sets it, and nothing resets it.
pub open spec fn set_after(set: bool, ending: Termination) -> bool {
    set || ending.silences()
}

/// Whether the latch is set after a run of fatal reports, the first of
/// `endings` first.
pub open spec fn set_after_all(set: bool, endings: Seq<Termination>) -> bool
    decreases endings.len(),
{
    if endings.len() == 0 {
        set
    } else {
        set_after(set_after_all(set, endings.drop_last()), endings.last())
    }
}

/// The process-wide latch that, once set, keeps the runtime from writing its
/// own report of a fault. It goes from unset to set and never back.
#[derive(Debug)]
pub struct Latch {
    set: bool,
}

impl Latch {
    /// Whether the latch is set.
    pub closed spec fn spec_is_set(&self) -> bool {
        self.set
    }

    /// The latch of a process that has made no fatal report: unset.
    pub fn new() -> (latch: Latch)
        ensures
            !latch.is_set(),
    {
        Latch { set: false }
    }

    /// Whether the latch is set.
    #[verifier::when_used_as_spec(spec_is_set)]
    pub fn is_set(&self) -> (set: bool)
        ensures
            set == self.is_set(),
    {
        self.set
    }

    /// Sets the latch. Returns whether this call set it: `false` where it was
    /// set before, in which case nothing changes.
    pub fn install(&mut self) -> (first: bool)
        ensures
            final(self).is_set(),
            first == !old(self).is_set(),
    {
        let first = !self.set;
        self.set = true;
        first
    }

    /// Records a fatal report that ends in `ending`. Returns whether the
    /// caller has to silence the runtime's fault report now: on the first
    /// unit abort of the process, and never again.
    pub fn fatal(&mut self, ending: Termination) -> (silence: bool)
        ensures
            final(self).is_set() == set_after(old(self).is_set(), ending),
            silence == (ending.silences() && !old(self).is_set()),
    {
        match ending {
            Termination::ProcessExit { .. } => false,
            Termination::UnitAbort => self.install(),
        }
    }
}

/// What a fatal report asks of the caller, in this order: write `text`,
/// silence the runtime's fault report where `silence` says so, and end
/// execution as `ending` says.
#[derive(Debug)]
pub struct FatalStep {
    /// The text to write: the message at the severity of an error.
    pub text: String,
    /// Whether the runtime's fault report has to be silenced now.
    pub silence: bool,
    /// How execution ends.
    pub ending: Termination,
}

/// A fatal report of `message` that ends in `ending`: the message is written
/// as an error, the latch records the report, and the runtime's fault report
/// is to be silenced on the first unit abort of the process and never again.
pub fn fatal_step(latch: &mut Latch, message: &str, ending: Termination) -> (step: FatalStep)
    ensures
        step.text@ == report_text(Severity::Error, message@),
        step.silence == (ending.silences() && !old(latch).is_set()),
        step.ending == ending,
        final(latch).is_set() == set_after(old(latch).is_set(), ending),
{
    let text = report(Severity::Error, message);
    let silence = latch.fatal(ending);
    FatalStep { text, silence, ending }
}

/// A fatal report of `message` by the unit `unit` that ends in `ending`: as
/// [`fatal_step`], with the unit named in the text.
pub fn fatal_step_named(
    latch: &mut Latch,
    unit: Option<&str>,
    message: &str,
    ending: Termination,
) -> (step: FatalStep)
    ensures
        step.text@ == named_report_text(Severity::Error, unit_view(unit), message@),
        step.silence == (ending.silences() && !old(latch).is_set()),
        step.ending == ending,
        final(latch).is_set() == set_after(old(latch).is_set(), ending),
{
    let text = named_report(Severity::Error, unit, message);
    let silence = latch.fatal(ending);
    FatalStep { text, silence, ending }
}

/// The latch is never reset: set before a run of fatal reports, it is set
/// after it.
pub proof fn lemma_latch_stays_set(endings: Seq<Termination>)
    ensures
        set_after_all(true, endings),
    decreases endings.len(),
{
    if endings.len() > 0 {
        lemma_latch_stays_set(endings.drop_last());
    }
}

/// Once a unit abort has been among the fatal reports of a process, the
/// latch is set, whatever reports came before and after it.
pub proof fn lemma_set_since_unit_abort(set: bool, endings: Seq<Termination>, at: int)
    requires
        0 <= at < endings.len(),
        endings[at] is UnitAbort,
    ensures
        set_after_all(set, endings),
    decreases endings.len(),
{
    if at + 1 < endings.len() {
        lemma_set_since_unit_abort(set, endings.drop_last(), at);
    }
}

/// Process exits alone leave the latch as it was.
pub proof fn lemma_exits_leave_latch(set: bool, endings: Seq<Termination>)
    requires
        forall|at: int| 0 <= at < endings.len() ==> endings[at] is ProcessExit,
    ensures
        set_after_all(set, endings) == set,
    decreases endings.len(),
{
    if endings.len() > 0 {
        lemma_exits_leave_latch(set, endings.drop_last());
    }
}

} // verus!
