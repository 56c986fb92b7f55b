//! Verdicts on endpoint health probes, and the probe targets themselves.

use vstd::prelude::*;
use vstd::string::*;

verus! {

/// The port the generated server is started on.
pub const WEB_SERVER_PORT: u16 = 6678;

/// Seconds to wait after starting the server before the first probe, so the
/// listener can bind.
pub const SERVER_WARMUP_SECS: u64 = 5;

/// Per-request probe timeout, in seconds.
pub const PROBE_TIMEOUT_SECS: u64 = 5;

/// What one health probe came back with.
#[derive(Clone, Copy, PartialEq, Eq, Structural, Debug)]
pub enum ProbeOutcome {
    /// The endpoint answered with this HTTP status code.
    Status { code: u16 },
    /// The request never completed: a transport error or a timeout.
    TransportFailure,
}

/// What the agent does with one probe's outcome.
#[derive(Clone, Copy, PartialEq, Eq, Structural, Debug)]
pub enum ProbeDirective {
    /// The endpoint answered 200: nothing to report.
    EndpointOk,
    /// The endpoint answered with another status: report a non-fatal
    /// warning and move to the next descriptor.
    ReportWarning,
    /// The request failed in transport: terminate the supervised server,
    /// report an issue, and still move to the next descriptor.
    KillServerAndReport,
}

/// The verdict on one probe outcome: 200 passes, any other status is a
/// warning, and a transport failure kills the supervised server.
pub open spec fn probe_directive(o: ProbeOutcome) -> ProbeDirective {
    match o {
        ProbeOutcome::Status { code } => if code == 200 {
            ProbeDirective::EndpointOk
        } else {
            ProbeDirective::ReportWarning
        },
        ProbeOutcome::TransportFailure => ProbeDirective::KillServerAndReport,
    }
}

/// Decide what to do with one probe's outcome.
pub fn judge_probe(outcome: &ProbeOutcome) -> (d: ProbeDirective)
    ensures
        d == probe_directive(*outcome),
{
    match outcome {
        ProbeOutcome::Status { code } => if *code == 200 {
            ProbeDirective::EndpointOk
        } else {
            ProbeDirective::ReportWarning
        },
        ProbeOutcome::TransportFailure => ProbeDirective::KillServerAndReport,
    }
}

/// Decide every probe of a pass, in list order. A transport failure does not
/// cut the list short: later outcomes are still judged, against the then-dead
/// server.
pub fn judge_probes(outcomes: &Vec<ProbeOutcome>) -> (ds: Vec<ProbeDirective>)
    ensures
        ds@ == outcomes@.map_values(|o: ProbeOutcome| probe_directive(o)),
{
    let mut ds: Vec<ProbeDirective> = Vec::new();
    let mut i: usize = 0;
    while i < outcomes.len()
        invariant
            i <= outcomes.len(),
            ds@ == outcomes@.subrange(0, i as int).map_values(
                |o: ProbeOutcome| probe_directive(o),
            ),
        decreases outcomes.len() - i,
    {
        ds.push(judge_probe(&outcomes[i]));
        proof {
            assert(outcomes@.subrange(0, i + 1 as int).map_values(
                |o: ProbeOutcome| probe_directive(o),
            ) =~= outcomes@.subrange(0, i as int).map_values(|o: ProbeOutcome| probe_directive(o))
                + seq![probe_directive(outcomes@[i as int])]);
        }
        i = i + 1;
    }
    proof {
        assert(outcomes@.subrange(0, outcomes@.len() as int) =~= outcomes@);
    }
    ds
}

/// The address probed for a route on the local server.
pub open spec fn probe_address(route: Seq<char>) -> Seq<char> {
    "http://localhost:6678"@ + route
}

/// Build the URL that a route is probed on.
pub fn endpoint_url(route: &str) -> (u: String)
    ensures
        u@ == probe_address(route@),
{
    let mut u = String::from_str("http://localhost:6678");
    u.append(route);
    u
}

} // verus!
