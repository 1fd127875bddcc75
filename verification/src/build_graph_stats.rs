//! Build-graph statistics distilled from a build's response: the subscriber
//! turns the targets a build reported into a telemetry event carrying one
//! record per built target. Sending the event to a sink is the caller's
//! business; the subscriber here only decides what the event holds.

use vstd::prelude::*;

verus! {

/// One target as the build response reports it.
pub struct ResponseTarget {
    pub target: String,
    pub configuration: String,
    pub configured_graph_size: Option<u64>,
}

/// A build's response: the targets that were built.
pub struct BuildResponse {
    pub build_targets: Vec<ResponseTarget>,
}

/// The outcome of a command, as far as this subscriber reads it.
pub enum CommandResult {
    BuildResponse(BuildResponse),
    /// Any other kind of outcome; the subscriber ignores it.
    Other,
}

/// One target as the telemetry event records it.
pub struct BuildTarget {
    pub target: String,
    pub configuration: String,
    pub configured_graph_size: Option<u64>,
}

/// The telemetry event: the invocation it belongs to and one record per
/// built target.
pub struct BuildGraphStatsEvent {
    pub trace_id: String,
    pub build_targets: Vec<BuildTarget>,
}

/// The subscriber, bound to one invocation.
pub struct BuildGraphStats {
    pub trace_id: String,
}

/// The event records exactly the reported targets, field for field, in
/// order.
pub open spec fn spec_event_targets(ts: Seq<ResponseTarget>) -> Seq<BuildTarget> {
    ts.map(
        |i: int, t: ResponseTarget|
            BuildTarget {
                target: t.target,
                configuration: t.configuration,
                configured_graph_size: t.configured_graph_size,
            },
    )
}

impl BuildGraphStats {
    /// A subscriber for the invocation with this trace id.
    pub fn new(trace_id: String) -> (r: BuildGraphStats)
        ensures
            r.trace_id == trace_id,
    {
        BuildGraphStats { trace_id }
    }

    /// The telemetry event for a build response: one record per reported
    /// target, under this invocation's trace id.
    pub fn build_graph_stats_from_build_response(&self, res: &BuildResponse) -> (ev:
        BuildGraphStatsEvent)
        ensures
            ev.trace_id == self.trace_id,
            ev.build_targets@ == spec_event_targets(res.build_targets@),
    {
        let mut build_targets: Vec<BuildTarget> = Vec::new();
        let mut i: usize = 0;
        proof {
            assert(build_targets@ =~= spec_event_targets(res.build_targets@.subrange(0, 0)));
        }
        while i < res.build_targets.len()
            invariant
                i <= res.build_targets@.len(),
                build_targets@ == spec_event_targets(res.build_targets@.subrange(0, i as int)),
            decreases res.build_targets@.len() - i,
        {
            let t = &res.build_targets[i];
            let ghost pre = build_targets@;
            build_targets.push(
                BuildTarget {
                    target: t.target.clone(),
                    configuration: t.configuration.clone(),
                    configured_graph_size: t.configured_graph_size,
                },
            );
            proof {
                assert(build_targets@ =~= spec_event_targets(
                    res.build_targets@.subrange(0, i as int + 1),
                ));
            }
            i = i + 1;
        }
        proof {
            assert(res.build_targets@.subrange(0, res.build_targets@.len() as int)
                =~= res.build_targets@);
        }
        BuildGraphStatsEvent { trace_id: self.trace_id.clone(), build_targets }
    }

    /// Handle a command's outcome: a build response yields the event to
    /// send; every other outcome yields nothing.
    pub fn handle_command_result(&self, result: &CommandResult) -> (ev: Option<
        BuildGraphStatsEvent,
    >)
        ensures
            match *result {
                CommandResult::BuildResponse(res) => ev matches Some(e) && e.trace_id
                    == self.trace_id && e.build_targets@ == spec_event_targets(res.build_targets@),
                CommandResult::Other => ev is None,
            },
    {
        match result {
            CommandResult::BuildResponse(res) => Some(
                self.build_graph_stats_from_build_response(res),
            ),
            CommandResult::Other => None,
        }
    }
}

} // verus!
