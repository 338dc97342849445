//! The small closed union that the engine's heterogeneous responses are
//! normalized into: one variant per kind of interaction.

use vstd::prelude::*;

verus! {

/// The response to a dispatched interaction.
#[derive(Debug, PartialEq)]
pub enum TemporalInteractionResponse {
    ExecuteWorkflow(TemporalExecuteWorkflowResponse),
    Signal(TemporalSignalResponse),
}

/// What starting a workflow reports back: the run id of the new execution.
#[derive(Debug, PartialEq)]
pub struct TemporalExecuteWorkflowResponse {
    run_id: String,
}

impl TemporalExecuteWorkflowResponse {
    /// The run id, as contracts see it.
    pub closed spec fn spec_run_id(&self) -> Seq<char> {
        self.run_id@
    }
}

/// What signalling a workflow reports back: nothing but the acknowledgement.
#[derive(Debug, PartialEq)]
pub struct TemporalSignalResponse {}

/// What querying a workflow reports back; the result payload travels
/// out-of-band.
#[derive(Debug, PartialEq)]
pub struct TemporalQueryResponse {}

impl TemporalInteractionResponse {
    /// Normalize a start-workflow response, given the run id it reported.
    pub fn new_from_exec_response(run_id: String) -> (r: Self)
        ensures
            r matches TemporalInteractionResponse::ExecuteWorkflow(resp) && resp.spec_run_id()
                == run_id@,
    {
        Self::ExecuteWorkflow(TemporalExecuteWorkflowResponse { run_id })
    }

    /// Normalize a signal response: the engine reports nothing to keep.
    pub fn new_from_signal_response() -> (r: Self)
        ensures
            r == TemporalInteractionResponse::Signal((TemporalSignalResponse {  })),
    {
        Self::Signal(TemporalSignalResponse {})
    }

}

} // verus!
