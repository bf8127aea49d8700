//! A request that an engine with suitable rules has to refuse, to see whether it works.

use vstd::prelude::*;

use crate::intervention;
use crate::intervention::{Intervention, InterventionView};
use crate::protocol::{EngineCall, EngineCallView};

verus! {

/// The status with which the engine has to refuse the request.
pub const EXPECTED_STATUS: i32 = 401;

/// Why an engine does not work as it should.
#[derive(Clone, Copy, Debug, PartialEq, Eq, Structural)]
pub enum ProbeError {
    /// There is no transaction.
    Transaction,
    /// It could not take the request line.
    Uri,
    /// It could not run the rules on the request headers.
    RequestHeaders,
    /// It did not intervene.
    NoIntervention,
    /// It intervened with this status.
    UnexpectedStatus(i32),
}

/// What a report after the request shows of the engine.
pub open spec fn judgement(report: Option<InterventionView>) -> Result<(), ProbeError> {
    match report {
        None => Err(ProbeError::NoIntervention),
        Some(i) => if i.status == EXPECTED_STATUS {
            Ok(())
        } else {
            Err(ProbeError::UnexpectedStatus(i.status as i32))
        },
    }
}

/// Judges what the engine reports after the request.
pub fn judge_probe(report: Option<Intervention>) -> (outcome: Result<(), ProbeError>)
    ensures
        outcome == judgement(intervention::report_view(report)),
{
    match report {
        None => Err(ProbeError::NoIntervention),
        Some(intervention) => if intervention.status == EXPECTED_STATUS {
            Ok(())
        } else {
            Err(ProbeError::UnexpectedStatus(intervention.status))
        },
    }
}

/// A probe of an engine: what is being done, or what came of it.
#[derive(Clone, Copy, Debug, PartialEq, Eq, Structural)]
pub enum Probe {
    /// A transaction is being made.
    Building,
    /// The request line is on its way to the engine.
    Addressing,
    /// The rules on the request headers are being run.
    Processing,
    /// The engine is being asked what it wants done.
    Asking,
    /// The engine works.
    Passed,
    /// The engine does not work.
    Failed(ProbeError),
}

/// What has to be done next.
#[derive(Debug)]
pub enum ProbeAction {
    /// Make a transaction and record whether that worked.
    Build,
    /// Make this call and record whether the engine took it.
    Call(EngineCall),
    /// Ask the engine what it wants done and have it judged.
    PollIntervention,
    /// The probe is over, with this outcome.
    Finish(Result<(), ProbeError>),
}

/// The view of a [`ProbeAction`].
pub enum ProbeActionView {
    Build,
    Call(EngineCallView),
    PollIntervention,
    Finish(Result<(), ProbeError>),
}

impl View for ProbeAction {
    type V = ProbeActionView;

    open spec fn view(&self) -> ProbeActionView {
        match self {
            ProbeAction::Build => ProbeActionView::Build,
            ProbeAction::Call(call) => ProbeActionView::Call(call@),
            ProbeAction::PollIntervention => ProbeActionView::PollIntervention,
            ProbeAction::Finish(outcome) => ProbeActionView::Finish(*outcome),
        }
    }
}

/// The call that brings the request line.
pub open spec fn probe_uri_call() -> EngineCallView {
    EngineCallView::ProcessUri {
        uri: "http://example.com/admin"@,
        method: "GET"@,
        version: "1.1"@,
    }
}

/// What a probe asks for.
pub open spec fn action_of(probe: Probe) -> ProbeActionView {
    match probe {
        Probe::Building => ProbeActionView::Build,
        Probe::Addressing => ProbeActionView::Call(probe_uri_call()),
        Probe::Processing => ProbeActionView::Call(EngineCallView::ProcessRequestHeaders),
        Probe::Asking => ProbeActionView::PollIntervention,
        Probe::Passed => ProbeActionView::Finish(Ok(())),
        Probe::Failed(error) => ProbeActionView::Finish(Err(error)),
    }
}

/// What the outcome of making the transaction or of a call leads to. Where neither is
/// outstanding, it leads to nothing.
pub open spec fn recorded(probe: Probe, took: bool) -> Probe {
    match probe {
        Probe::Building => if took {
            Probe::Addressing
        } else {
            Probe::Failed(ProbeError::Transaction)
        },
        Probe::Addressing => if took {
            Probe::Processing
        } else {
            Probe::Failed(ProbeError::Uri)
        },
        Probe::Processing => if took {
            Probe::Asking
        } else {
            Probe::Failed(ProbeError::RequestHeaders)
        },
        _ => probe,
    }
}

/// What the engine's report leads to. Where it was not asked for, it leads to nothing.
pub open spec fn judged(probe: Probe, report: Option<InterventionView>) -> Probe {
    match probe {
        Probe::Asking => match judgement(report) {
            Ok(_) => Probe::Passed,
            Err(error) => Probe::Failed(error),
        },
        _ => probe,
    }
}

impl Probe {
    /// Says what has to be done next.
    pub fn action(self) -> (action: ProbeAction)
        ensures
            action@ == action_of(self),
    {
        match self {
            Probe::Building => ProbeAction::Build,
            Probe::Addressing => ProbeAction::Call(
                EngineCall::ProcessUri {
                    uri: "http://example.com/admin".to_owned(),
                    method: "GET".to_owned(),
                    version: "1.1",
                },
            ),
            Probe::Processing => ProbeAction::Call(EngineCall::ProcessRequestHeaders),
            Probe::Asking => ProbeAction::PollIntervention,
            Probe::Passed => ProbeAction::Finish(Ok(())),
            Probe::Failed(error) => ProbeAction::Finish(Err(error)),
        }
    }

    /// Records whether the transaction was made or the call was taken.
    pub fn record(self, took: bool) -> (probe: Probe)
        ensures
            probe == recorded(self, took),
    {
        match self {
            Probe::Building => if took {
                Probe::Addressing
            } else {
                Probe::Failed(ProbeError::Transaction)
            },
            Probe::Addressing => if took {
                Probe::Processing
            } else {
                Probe::Failed(ProbeError::Uri)
            },
            Probe::Processing => if took {
                Probe::Asking
            } else {
                Probe::Failed(ProbeError::RequestHeaders)
            },
            _ => self,
        }
    }

    /// Judges what the engine reports.
    pub fn judge(self, report: Option<Intervention>) -> (probe: Probe)
        ensures
            probe == judged(self, intervention::report_view(report)),
    {
        match self {
            Probe::Asking => match judge_probe(report) {
                Ok(_) => Probe::Passed,
                Err(error) => Probe::Failed(error),
            },
            _ => self,
        }
    }
}

/// An engine passes exactly when the transaction was made, it took both calls and it refuses
/// the request with the expected status; otherwise the first thing that went wrong is the
/// error.
pub proof fn law_probe_passes_exactly(
    built: bool,
    addressed: bool,
    processed: bool,
    report: Option<InterventionView>,
)
    ensures
        action_of(
            judged(
                recorded(recorded(recorded(Probe::Building, built), addressed), processed),
                report,
            ),
        ) == ProbeActionView::Finish(
            if !built {
                Err(ProbeError::Transaction)
            } else if !addressed {
                Err(ProbeError::Uri)
            } else if !processed {
                Err(ProbeError::RequestHeaders)
            } else if report is None {
                Err(ProbeError::NoIntervention)
            } else if report->0.status == 401 {
                Ok(())
            } else {
                Err(ProbeError::UnexpectedStatus(report->0.status as i32))
            },
        ),
{
}

/// The outcome of a probe that reached the engine rests on the number of its report alone: the
/// engine passes with 401, and any other number, or no report, is the error.
pub proof fn law_only_the_expected_refusal_passes(report: Option<InterventionView>)
    requires
        report matches Some(i) ==> i32::MIN <= i.status <= i32::MAX,
    ensures
        judgement(report) is Ok <==> (report matches Some(i) && i.status == 401),
        report is None ==> judgement(report) == Err::<(), ProbeError>(ProbeError::NoIntervention),
        report matches Some(i) ==> i.status != 401 ==> (judgement(report) matches Err(
            ProbeError::UnexpectedStatus(status),
        ) && status == i.status),
        judged(Probe::Asking, report) == (match report {
            None => Probe::Failed(ProbeError::NoIntervention),
            Some(i) => if i.status == 401 {
                Probe::Passed
            } else {
                Probe::Failed(ProbeError::UnexpectedStatus(i.status as i32))
            },
        }),
{
}

/// A probe makes a transaction, brings the request line of the page to refuse, runs the rules on
/// the request headers and then asks the engine, as long as all goes well. What went wrong ends
/// it, and an ended probe changes no more.
pub proof fn law_probe_runs_in_order(
    error: ProbeError,
    took: bool,
    report: Option<InterventionView>,
)
    ensures
        ({
            let built = recorded(Probe::Building, true);
            let addressed = recorded(built, true);
            let processed = recorded(addressed, true);
            &&& action_of(Probe::Building) == ProbeActionView::Build
            &&& action_of(built) == ProbeActionView::Call(
                EngineCallView::ProcessUri {
                    uri: "http://example.com/admin"@,
                    method: "GET"@,
                    version: "1.1"@,
                },
            )
            &&& action_of(addressed) == ProbeActionView::Call(EngineCallView::ProcessRequestHeaders)
            &&& action_of(processed) == ProbeActionView::PollIntervention
            &&& judged(Probe::Building, report) == Probe::Building
            &&& judged(built, report) == built
            &&& judged(addressed, report) == addressed
            &&& recorded(processed, took) == processed
        }),
        action_of(recorded(Probe::Building, false)) == ProbeActionView::Finish(
            Err(ProbeError::Transaction),
        ),
        action_of(recorded(Probe::Addressing, false)) == ProbeActionView::Finish(
            Err(ProbeError::Uri),
        ),
        action_of(recorded(Probe::Processing, false)) == ProbeActionView::Finish(
            Err(ProbeError::RequestHeaders),
        ),
        action_of(Probe::Passed) == ProbeActionView::Finish(Ok(())),
        action_of(Probe::Failed(error)) == ProbeActionView::Finish(Err(error)),
        recorded(Probe::Passed, took) == Probe::Passed,
        recorded(Probe::Failed(error), took) == Probe::Failed(error),
        judged(Probe::Passed, report) == Probe::Passed,
        judged(Probe::Failed(error), report) == Probe::Failed(error),
{
}

/// The view of what a probe asks for tells the actions apart and shows the call or the outcome.
pub proof fn law_probe_action_is_seen_whole(action: ProbeAction)
    ensures
        action is Build <==> action@ is Build,
        action is PollIntervention <==> action@ is PollIntervention,
        action matches ProbeAction::Call(call) ==> action@ == ProbeActionView::Call(call@),
        action matches ProbeAction::Finish(outcome) ==> action@ == ProbeActionView::Finish(outcome),
{
}

} // verus!
