//! The survey of wireless networks in range: scan, report what was found,
//! rest for a fixed interval, and scan again, without end. A scan that
//! fails is logged and the survey goes on.

use vstd::prelude::*;

verus! {

/// The most networks that one scan reports.
pub const MAX_SCAN_RESULTS: usize = 8;

/// Seconds of rest between two scans.
pub const SCAN_INTERVAL_SECS: u64 = 5;

/// Where a round of the survey stands.
#[derive(Clone, Copy, Debug, PartialEq, Eq, Hash)]
pub enum SurveyState {
    /// A scan is under way.
    Scanning,
    /// The networks of the last scan are being reported.
    Reporting { count: usize },
    /// The failure of the last scan is being logged.
    Logging,
    /// The survey rests until the next scan.
    Resting,
}

/// What the caller reports back.
#[derive(Clone, Copy, Debug, PartialEq, Eq, Hash)]
pub enum SurveyEvent {
    /// The scan ended and found so many networks.
    Found { count: usize },
    /// The scan failed.
    ScanFailed,
    /// The report, the log entry or the rest is over.
    Completed,
}

/// What the caller is to do next.
#[derive(Clone, Copy, Debug, PartialEq, Eq, Hash)]
pub enum SurveyAction {
    /// Scan, and take at most `limit` networks.
    Scan { limit: usize },
    /// Report the first `count` networks of the last scan.
    Report { count: usize },
    /// Log that the scan failed.
    LogFailure,
    /// Sleep for so many seconds.
    Rest { secs: u64 },
}

/// How many networks of a scan that found `found` are reported.
pub open spec fn reported(found: nat) -> nat {
    if found <= MAX_SCAN_RESULTS {
        found
    } else {
        MAX_SCAN_RESULTS as nat
    }
}

/// The state after `event` has been reported in `state`. An event that does
/// not answer the pending action is passed over.
pub open spec fn survey_next(state: SurveyState, event: SurveyEvent) -> SurveyState {
    match (state, event) {
        (SurveyState::Scanning, SurveyEvent::Found { count }) => SurveyState::Reporting {
            count: reported(count as nat) as usize,
        },
        (SurveyState::Scanning, SurveyEvent::ScanFailed) => SurveyState::Logging,
        (SurveyState::Reporting { .. }, SurveyEvent::Completed) => SurveyState::Resting,
        (SurveyState::Logging, SurveyEvent::Completed) => SurveyState::Resting,
        (SurveyState::Resting, SurveyEvent::Completed) => SurveyState::Scanning,
        _ => state,
    }
}

/// The action that `state` waits for.
pub open spec fn survey_action(state: SurveyState) -> SurveyAction {
    match state {
        SurveyState::Scanning => SurveyAction::Scan { limit: MAX_SCAN_RESULTS },
        SurveyState::Reporting { count } => SurveyAction::Report { count },
        SurveyState::Logging => SurveyAction::LogFailure,
        SurveyState::Resting => SurveyAction::Rest { secs: SCAN_INTERVAL_SECS },
    }
}

impl SurveyState {
    /// The state in which a survey starts.
    pub fn start() -> (state: SurveyState)
        ensures
            state == SurveyState::Scanning,
    {
        SurveyState::Scanning
    }

    /// The action that this state waits for.
    pub fn action(self) -> (action: SurveyAction)
        ensures
            action == survey_action(self),
    {
        match self {
            SurveyState::Scanning => SurveyAction::Scan { limit: MAX_SCAN_RESULTS },
            SurveyState::Reporting { count } => SurveyAction::Report { count },
            SurveyState::Logging => SurveyAction::LogFailure,
            SurveyState::Resting => SurveyAction::Rest { secs: SCAN_INTERVAL_SECS },
        }
    }

    /// The state after `event` has been reported in this one.
    pub fn step(self, event: SurveyEvent) -> (next: SurveyState)
        ensures
            next == survey_next(self, event),
    {
        match self {
            SurveyState::Scanning => match event {
                SurveyEvent::Found { count } => SurveyState::Reporting {
                    count: if count <= MAX_SCAN_RESULTS {
                        count
                    } else {
                        MAX_SCAN_RESULTS
                    },
                },
                SurveyEvent::ScanFailed => SurveyState::Logging,
                SurveyEvent::Completed => self,
            },
            SurveyState::Reporting { .. } | SurveyState::Logging => match event {
                SurveyEvent::Completed => SurveyState::Resting,
                _ => self,
            },
            SurveyState::Resting => match event {
                SurveyEvent::Completed => SurveyState::Scanning,
                _ => self,
            },
        }
    }
}

/// The survey has no end, and a failed scan does not stop it. Whether the
/// scan found networks or failed, the round goes on to the rest of the
/// fixed interval and from there to the next scan; what is reported of a
/// scan is never more than the limit.
pub proof fn lemma_round_returns_to_scanning(outcome: SurveyEvent)
    requires
        outcome != SurveyEvent::Completed,
    ensures
        ({
            let told = survey_next(SurveyState::Scanning, outcome);
            let resting = survey_next(told, SurveyEvent::Completed);
            &&& told matches SurveyState::Reporting { count } ==> count <= MAX_SCAN_RESULTS
            &&& outcome is ScanFailed ==> survey_action(told) == SurveyAction::LogFailure
            &&& survey_action(resting) == SurveyAction::Rest { secs: SCAN_INTERVAL_SECS }
            &&& survey_next(resting, SurveyEvent::Completed) == SurveyState::Scanning
        }),
{
}

} // verus!
