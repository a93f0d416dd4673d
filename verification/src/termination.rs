use vstd::prelude::*;

verus! {

/// One of the two things the host does to a child that was given up: ask
/// the operating system to kill it, then wait for it to exit.
#[derive(Clone, Copy, Debug, PartialEq, Eq, Structural)]
pub enum TerminationStep {
    Kill,
    Wait,
}

impl TerminationStep {
    /// The step that follows, whatever came of this one.
    pub open spec fn spec_next(self) -> Option<TerminationStep> {
        match self {
            TerminationStep::Kill => Some(TerminationStep::Wait),
            TerminationStep::Wait => None,
        }
    }

    /// How the warning for a failure of this step begins.
    pub open spec fn failure_prefix(self) -> Seq<char> {
        match self {
            TerminationStep::Kill => "Failed to kill Python backend process: "@,
            TerminationStep::Wait => "Failed to wait for Python backend process: "@,
        }
    }

    /// The warning that the outcome of this step calls for.
    pub open spec fn spec_warning(self, outcome: Result<(), Seq<char>>) -> Option<Seq<char>> {
        match outcome {
            Ok(_) => None,
            Err(reason) => Some(self.failure_prefix() + reason),
        }
    }

    /// Termination begins with the kill.
    pub fn first() -> (step: TerminationStep)
        ensures
            step == TerminationStep::Kill,
    {
        TerminationStep::Kill
    }

    /// Takes the outcome of this step and says how termination goes on.
    /// A failure never ends it early: the wait follows the kill in any
    /// case, and nothing follows the wait. A failure is answered with a
    /// warning for the host to log, a success with none.
    pub fn proceed(self, outcome: Result<(), String>) -> (next: (
        Option<TerminationStep>,
        Option<String>,
    ))
        ensures
            next.0 == self.spec_next(),
            match outcome {
                Ok(_) => next.1.is_none(),
                Err(reason) => match next.1 {
                    Some(text) => Some(text@) == self.spec_warning(
                        Err::<(), Seq<char>>(reason@),
                    ),
                    None => false,
                },
            },
    {
        let following = match self {
            TerminationStep::Kill => Some(TerminationStep::Wait),
            TerminationStep::Wait => None,
        };
        let warning = match outcome {
            Ok(_) => None,
            Err(reason) => {
                let prefix = match self {
                    TerminationStep::Kill => "Failed to kill Python backend process: ",
                    TerminationStep::Wait => "Failed to wait for Python backend process: ",
                };
                Some(String::from_str(prefix).concat(reason.as_str()))
            },
        };
        (following, warning)
    }
}

} // verus!
