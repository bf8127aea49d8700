//! What the engine reports after a phase, and what follows from it.

use vstd::prelude::*;

use crate::message;
use crate::message::status_code;

verus! {

/// What the engine wants done about the exchange.
#[derive(Debug)]
pub struct Intervention {
    pub status: i32,
    pub log: Option<String>,
    pub disruptive: bool,
}

/// The view of an [`Intervention`].
pub struct InterventionView {
    pub status: int,
    pub log: Option<Seq<char>>,
    pub disruptive: bool,
}

impl View for Intervention {
    type V = InterventionView;

    open spec fn view(&self) -> InterventionView {
        InterventionView {
            status: self.status as int,
            log: message::text_view(self.log),
            disruptive: self.disruptive,
        }
    }
}

/// The view of a report that may be missing.
pub open spec fn report_view(report: Option<Intervention>) -> Option<InterventionView> {
    match report {
        Some(i) => Some(i@),
        None => None,
    }
}

/// The message that a report brings for the audit log.
pub open spec fn reported_log(report: Option<InterventionView>) -> Option<Seq<char>> {
    match report {
        Some(i) => i.log,
        None => None,
    }
}

/// The status code with which a report refuses the exchange, if it does. The engine's number
/// counts modulo 2^16; one that is no status code refuses nothing.
pub open spec fn refusal(report: Option<InterventionView>) -> Option<u16> {
    match report {
        Some(i) => {
            let code = i.status % 0x1_0000;
            if i.disruptive && 100 <= code <= 999 {
                Some(code as u16)
            } else {
                None
            }
        },
        None => None,
    }
}

/// What a report asks for: a message for the audit log and a refusal.
#[derive(Debug)]
pub struct Ruling {
    pub log: Option<String>,
    pub status: Option<u16>,
}

/// Judges what the engine reports after a phase.
pub fn check_for_intervention(report: Option<Intervention>) -> (ruling: Ruling)
    ensures
        message::text_view(ruling.log) == reported_log(report_view(report)),
        ruling.status == refusal(report_view(report)),
{
    match report {
        Some(intervention) => {
            let status = if intervention.disruptive {
                let wide: i32 = intervention.status;
                let code: u16 = #[verifier::truncate]
                (wide as u16);
                assert(code as int == (wide as int) % 0x1_0000) by {
                    assert((wide as u16) as i64 == (wide as i64) % 0x1_0000) by (bit_vector);
                }
                status_code(code)
            } else {
                None
            };
            Ruling { log: intervention.log, status }
        },
        None => Ruling { log: None, status: None },
    }
}

/// Picks from what the engine reports after the logging phase the message for the audit log.
/// Nothing is refused any more at that point.
pub fn process_logging(report: Option<Intervention>) -> (log: Option<String>)
    ensures
        message::text_view(log) == reported_log(report_view(report)),
{
    match report {
        Some(intervention) => intervention.log,
        None => None,
    }
}

/// A report refuses the exchange with a status exactly when it is disruptive and its number is
/// that status code, multiples of 2^16 aside. So every disruptive report whose number is a
/// status code refuses with that very code, and a report that is missing or not disruptive
/// refuses nothing.
pub proof fn law_disruptive_reports_refuse(report: Option<InterventionView>, status: u16)
    ensures
        refusal(report) == Some(status) <==> (report matches Some(i) && i.disruptive && 100
            <= status <= 999 && (i.status - status) % 0x1_0000 == 0),
        report matches Some(i) ==> i.disruptive && 100 <= i.status <= 999 ==> refusal(report)
            == Some(i.status as u16),
        report matches Some(i) ==> !i.disruptive ==> refusal(report) is None,
        report is None ==> refusal(report) is None,
{
}

/// What a report says in its log goes to the audit log, whether the report is disruptive or not
/// and whatever its number.
pub proof fn law_reports_speak_through_their_log(report: Option<InterventionView>)
    ensures
        report matches Some(i) ==> reported_log(report) == i.log,
        report is None ==> reported_log(report) is None,
{
}

/// The view of a report shows each part of it.
pub proof fn law_report_is_seen_whole(report: Option<Intervention>)
    ensures
        report is None <==> report_view(report) is None,
        report matches Some(i) ==> (report_view(report) matches Some(v) && v.status == i.status
            && v.disruptive == i.disruptive && match i.log {
            Some(text) => v.log == Some(text@),
            None => v.log is None,
        }),
{
}

} // verus!
