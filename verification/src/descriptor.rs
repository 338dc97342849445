//! Interaction descriptors: the structured description of one pending action
//! against the durable workflow engine, and the accessors the encoder reads.

use crate::json::json_text_of;
use vstd::prelude::*;

verus! {

/// Mathematical form of an `Execute` descriptor.
#[verifier::ext_equal]
pub ghost struct ExecuteTemporalWorkflowV {
    pub namespace: Seq<char>,
    pub task_queue: Seq<char>,
    pub workflow_id: Seq<char>,
    pub workflow_type: Seq<char>,
    pub args: Option<Seq<serde_json::Value>>,
}

/// Mathematical form of a `Signal` descriptor.
#[verifier::ext_equal]
pub ghost struct SignalTemporalV {
    pub namespace: Seq<char>,
    pub task_queue: Seq<char>,
    pub workflow_id: Option<Seq<char>>,
    pub run_id: Option<Seq<char>>,
    pub signal_name: Seq<char>,
    pub input: Option<Seq<serde_json::Value>>,
    pub identity: Option<Seq<char>>,
    pub request_id: Option<Seq<char>>,
    pub control: Option<Seq<char>>,
}

/// Mathematical form of a `Query` descriptor.
#[verifier::ext_equal]
pub ghost struct QueryTemporalV {
    pub namespace: Seq<char>,
    pub task_queue: Seq<char>,
    pub workflow_id: Option<Seq<char>>,
    pub run_id: Option<Seq<char>>,
    pub query_type: Seq<char>,
    pub query_args: Option<Seq<serde_json::Value>>,
}

/// Mathematical form of a descriptor.
#[verifier::ext_equal]
pub ghost enum TemporalInteractionV {
    Execute(ExecuteTemporalWorkflowV),
    Signal(SignalTemporalV),
    Query(QueryTemporalV),
}

/// View of an optional string field.
pub open spec fn opt_view(o: Option<String>) -> Option<Seq<char>> {
    match o {
        Some(s) => Some(s@),
        None => None,
    }
}

/// View of an optional payload-argument field.
pub open spec fn args_view(o: Option<Vec<serde_json::Value>>) -> Option<Seq<serde_json::Value>> {
    match o {
        Some(a) => Some(a@),
        None => None,
    }
}

/// An optional string read as the original reads it: absent is the empty
/// string.
pub open spec fn opt_or_empty(o: Option<Seq<char>>) -> Seq<char> {
    match o {
        Some(s) => s,
        None => Seq::empty(),
    }
}

/// Start a new workflow execution.
#[derive(Debug, PartialEq)]
pub struct ExecuteTemporalWorkflow {
    pub namespace: String,
    pub task_queue: String,
    pub workflow_id: String,
    /// the workflow's function name
    pub workflow_type: String,
    pub args: Option<Vec<serde_json::Value>>,
}

impl View for ExecuteTemporalWorkflow {
    type V = ExecuteTemporalWorkflowV;

    open spec fn view(&self) -> ExecuteTemporalWorkflowV {
        ExecuteTemporalWorkflowV {
            namespace: self.namespace@,
            task_queue: self.task_queue@,
            workflow_id: self.workflow_id@,
            workflow_type: self.workflow_type@,
            args: args_view(self.args),
        }
    }
}

/// Signal a running workflow execution.
#[derive(Debug, PartialEq)]
pub struct SignalTemporal {
    pub namespace: String,
    pub task_queue: String,
    pub workflow_id: Option<String>,
    pub run_id: Option<String>,
    pub signal_name: String,
    pub input: Option<Vec<serde_json::Value>>,
    pub identity: Option<String>,
    pub request_id: Option<String>,
    pub control: Option<String>,
}

impl View for SignalTemporal {
    type V = SignalTemporalV;

    open spec fn view(&self) -> SignalTemporalV {
        SignalTemporalV {
            namespace: self.namespace@,
            task_queue: self.task_queue@,
            workflow_id: opt_view(self.workflow_id),
            run_id: opt_view(self.run_id),
            signal_name: self.signal_name@,
            input: args_view(self.input),
            identity: opt_view(self.identity),
            request_id: opt_view(self.request_id),
            control: opt_view(self.control),
        }
    }
}

/// A workflow execution, named by workflow id and run id.
#[derive(Debug, PartialEq, Clone)]
pub struct TemporalWorkflowExecutionInfo {
    pub workflow_id: String,
    pub run_id: String,
}

impl View for TemporalWorkflowExecutionInfo {
    type V = (Seq<char>, Seq<char>);

    open spec fn view(&self) -> (Seq<char>, Seq<char>) {
        (self.workflow_id@, self.run_id@)
    }
}

/// Query a running workflow execution.
#[derive(Debug, PartialEq)]
pub struct QueryTemporal {
    pub namespace: String,
    pub task_queue: String,
    pub workflow_id: Option<String>,
    pub run_id: Option<String>,
    pub query_type: String,
    pub query_args: Option<Vec<serde_json::Value>>,
}

impl View for QueryTemporal {
    type V = QueryTemporalV;

    open spec fn view(&self) -> QueryTemporalV {
        QueryTemporalV {
            namespace: self.namespace@,
            task_queue: self.task_queue@,
            workflow_id: opt_view(self.workflow_id),
            run_id: opt_view(self.run_id),
            query_type: self.query_type@,
            query_args: args_view(self.query_args),
        }
    }
}

/// One pending action against the durable workflow engine.
#[derive(Debug, PartialEq)]
pub enum TemporalInteraction {
    Execute(ExecuteTemporalWorkflow),
    Signal(SignalTemporal),
    Query(QueryTemporal),
}

impl View for TemporalInteraction {
    type V = TemporalInteractionV;

    open spec fn view(&self) -> TemporalInteractionV {
        match self {
            TemporalInteraction::Execute(e) => TemporalInteractionV::Execute(e@),
            TemporalInteraction::Signal(s) => TemporalInteractionV::Signal(s@),
            TemporalInteraction::Query(q) => TemporalInteractionV::Query(q@),
        }
    }
}

/// The canonical name of a descriptor's variant, as it appears as the value
/// of the event-type key.
pub open spec fn type_string_of(t: TemporalInteractionV) -> Seq<char> {
    match t {
        TemporalInteractionV::Execute(_) => "Execute"@,
        TemporalInteractionV::Signal(_) => "Signal"@,
        TemporalInteractionV::Query(_) => "Query"@,
    }
}

/// The workflow id a descriptor carries; absent reads as the empty string.
pub open spec fn workflow_id_of(t: TemporalInteractionV) -> Seq<char> {
    match t {
        TemporalInteractionV::Execute(e) => e.workflow_id,
        TemporalInteractionV::Signal(s) => opt_or_empty(s.workflow_id),
        TemporalInteractionV::Query(q) => opt_or_empty(q.workflow_id),
    }
}

/// The task queue a descriptor carries.
pub open spec fn task_queue_of(t: TemporalInteractionV) -> Seq<char> {
    match t {
        TemporalInteractionV::Execute(e) => e.task_queue,
        TemporalInteractionV::Signal(s) => s.task_queue,
        TemporalInteractionV::Query(q) => q.task_queue,
    }
}

/// The namespace a descriptor carries.
pub open spec fn namespace_of(t: TemporalInteractionV) -> Seq<char> {
    match t {
        TemporalInteractionV::Execute(e) => e.namespace,
        TemporalInteractionV::Signal(s) => s.namespace,
        TemporalInteractionV::Query(q) => q.namespace,
    }
}

/// A descriptor with its payload-argument field replaced.
pub open spec fn with_args(
    t: TemporalInteractionV,
    args: Option<Seq<serde_json::Value>>,
) -> TemporalInteractionV {
    match t {
        TemporalInteractionV::Execute(e) => TemporalInteractionV::Execute(
            (ExecuteTemporalWorkflowV { args, ..e }),
        ),
        TemporalInteractionV::Signal(s) => TemporalInteractionV::Signal(
            (SignalTemporalV { input: args, ..s }),
        ),
        TemporalInteractionV::Query(q) => TemporalInteractionV::Query(
            (QueryTemporalV { query_args: args, ..q }),
        ),
    }
}

/// The textual form of a query's first argument; empty when there is none.
pub open spec fn query_args_text(q: QueryTemporalV) -> Seq<char> {
    match q.query_args {
        None => Seq::empty(),
        Some(a) => if a.len() == 0 {
            Seq::<char>::empty()
        } else {
            json_text_of(a[0])
        },
    }
}

impl TemporalInteraction {
    /// The canonical name of the active variant.
    pub fn to_type_string(&self) -> (r: String)
        ensures
            r@ == type_string_of(self@),
    {
        match self {
            TemporalInteraction::Execute(_) => "Execute".to_owned(),
            TemporalInteraction::Signal(_) => "Signal".to_owned(),
            TemporalInteraction::Query(_) => "Query".to_owned(),
        }
    }

    /// The workflow id; for `Signal` and `Query` an absent id reads as the
    /// empty string.
    pub fn workflow_id(&self) -> (r: String)
        ensures
            r@ == workflow_id_of(self@),
    {
        match self {
            TemporalInteraction::Execute(action) => action.workflow_id.clone(),
            TemporalInteraction::Signal(action) => match &action.workflow_id {
                Some(some) => some.clone(),
                None => String::new(),
            },
            TemporalInteraction::Query(action) => match &action.workflow_id {
                Some(some) => some.clone(),
                None => String::new(),
            },
        }
    }

    /// The task queue of the active variant.
    pub fn task_queue(&self) -> (r: String)
        ensures
            r@ == task_queue_of(self@),
    {
        match self {
            TemporalInteraction::Execute(action) => action.task_queue.clone(),
            TemporalInteraction::Signal(action) => action.task_queue.clone(),
            TemporalInteraction::Query(action) => action.task_queue.clone(),
        }
    }

    /// The namespace of the active variant.
    pub fn namespace(&self) -> (r: String)
        ensures
            r@ == namespace_of(self@),
    {
        match self {
            TemporalInteraction::Execute(action) => action.namespace.clone(),
            TemporalInteraction::Signal(action) => action.namespace.clone(),
            TemporalInteraction::Query(action) => action.namespace.clone(),
        }
    }

    /// The same descriptor with the payload-argument field (`args`, `input`
    /// or `query_args`, by variant) replaced by `args`.
    pub fn add_data_args(self, args: Option<Vec<serde_json::Value>>) -> (r: Self)
        ensures
            r@ == with_args(self@, args_view(args)),
    {
        match self {
            Self::Execute(exec) => Self::Execute(ExecuteTemporalWorkflow { args, ..exec }),
            Self::Signal(signal) => Self::Signal(SignalTemporal { input: args, ..signal }),
            Self::Query(query) => Self::Query(QueryTemporal { query_args: args, ..query }),
        }
    }
}

impl Default for ExecuteTemporalWorkflow {
    /// Every field empty, the payload arguments absent.
    fn default() -> (r: Self)
        ensures
            r@ == (ExecuteTemporalWorkflowV {
                namespace: Seq::empty(),
                task_queue: Seq::empty(),
                workflow_id: Seq::empty(),
                workflow_type: Seq::empty(),
                args: None,
            }),
    {
        ExecuteTemporalWorkflow {
            namespace: String::new(),
            task_queue: String::new(),
            workflow_id: String::new(),
            workflow_type: String::new(),
            args: None,
        }
    }
}

impl Default for SignalTemporal {
    /// Every required field empty, every optional field absent.
    fn default() -> (r: Self)
        ensures
            r@ == (SignalTemporalV {
                namespace: Seq::empty(),
                task_queue: Seq::empty(),
                workflow_id: None,
                run_id: None,
                signal_name: Seq::empty(),
                input: None,
                identity: None,
                request_id: None,
                control: None,
            }),
    {
        SignalTemporal {
            namespace: String::new(),
            task_queue: String::new(),
            workflow_id: None,
            run_id: None,
            signal_name: String::new(),
            input: None,
            identity: None,
            request_id: None,
            control: None,
        }
    }
}

impl Default for TemporalWorkflowExecutionInfo {
    /// Both ids empty.
    fn default() -> (r: Self)
        ensures
            r@ == (Seq::<char>::empty(), Seq::<char>::empty()),
    {
        TemporalWorkflowExecutionInfo { workflow_id: String::new(), run_id: String::new() }
    }
}

impl SignalTemporal {
    /// The run id; absent reads as the empty string.
    pub fn run_id(&self) -> (r: String)
        ensures
            r@ == opt_or_empty(opt_view(self.run_id)),
    {
        match &self.run_id {
            Some(some) => some.clone(),
            None => String::new(),
        }
    }
}

impl QueryTemporal {
    /// The run id; absent reads as the empty string.
    pub fn run_id(&self) -> (r: String)
        ensures
            r@ == opt_or_empty(opt_view(self.run_id)),
    {
        match &self.run_id {
            Some(some) => some.clone(),
            None => String::new(),
        }
    }

    /// The textual form of the first query argument; the empty string when
    /// there are no query arguments.
    pub fn query_args(&self) -> (r: String)
        ensures
            r@ == query_args_text(self@),
    {
        match &self.query_args {
            None => String::new(),
            Some(some) => {
                if some.len() == 0 {
                    String::new()
                } else {
                    crate::json::json_value_text(&some[0])
                }
            },
        }
    }
}

} // verus!
