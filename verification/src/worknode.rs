//! The nodes of a workflow graph.
//!
//! There are five kinds of node: the start, the end, the AI node, the local
//! node and the user node. Only the AI node does work. A node is executed in
//! steps: [`Worknode::excute`] says whether the node has finished or a
//! request is to be posted, and [`Worknode::resume`] takes what came of
//! posting it.

pub mod ai_node;

use crate::error::ai_node_error::AINodeErrorView;
use crate::error::{PilotError, PilotErrorType, PilotErrorTypeView, PilotErrorView, PilotResult};
use crate::exchange::{HttpOutcome, HttpOutcomeView, HttpRequest, HttpRequestView};
use crate::worknode::ai_node::{outcome_answer, AINode, NodeModel};
use vstd::prelude::*;

verus! {

/// The `uuid` crate's identifier.
#[verifier::external_type_specification]
#[verifier::external_body]
pub struct ExUuid(uuid::Uuid);

/// `Uuid::new_v4`: a random identifier. Nothing is said of it: two calls
/// need not give the same.
#[verifier::external_body]
fn fresh_uid() -> (uid: uuid::Uuid) {
    uuid::Uuid::new_v4()
}

/// What the first step of an execution leaves to do.
#[derive(Debug)]
pub enum Dispatch {
    /// Nothing: the node has finished, with this output.
    Done(String),
    /// This request is to be posted, and what comes of it handed to the
    /// node.
    Post(HttpRequest),
}

/// What a [`Dispatch`] holds.
pub enum DispatchView {
    Done(Seq<char>),
    Post(HttpRequestView),
}

impl View for Dispatch {
    type V = DispatchView;

    open spec fn view(&self) -> DispatchView {
        match self {
            Dispatch::Done(output) => DispatchView::Done(output@),
            Dispatch::Post(request) => DispatchView::Post(request@),
        }
    }
}

/// The kinds of node, each with what it needs for its work.
#[derive(Debug)]
pub enum Worknodecore {
    /// Where the graph starts.
    Start,
    /// Where the graph ends.
    End,
    /// A node that asks an AI service.
    AINode(AINode),
    /// A node that runs a local script.
    Local,
    /// A node that waits for the user.
    User,
}

/// What a [`Worknodecore`] holds.
pub enum CoreModel {
    Start,
    End,
    AINode(NodeModel),
    Local,
    User,
}

impl View for Worknodecore {
    type V = CoreModel;

    open spec fn view(&self) -> CoreModel {
        match self {
            Worknodecore::Start => CoreModel::Start,
            Worknodecore::End => CoreModel::End,
            Worknodecore::AINode(node) => CoreModel::AINode(node@),
            Worknodecore::Local => CoreModel::Local,
            Worknodecore::User => CoreModel::User,
        }
    }
}

/// The error of an AI node that failed.
pub open spec fn node_failure(cause: AINodeErrorView) -> PilotErrorView {
    PilotErrorView {
        error_type: PilotErrorTypeView::AINodeErr(cause),
        message: "AI node failed to execute"@,
    }
}

impl CoreModel {
    /// The node after the first step of an execution. An AI node takes the
    /// input as its own and makes the first step of a round. Every other
    /// node stays as it is.
    pub open spec fn after_excute(self, input: Seq<char>) -> CoreModel {
        match self {
            CoreModel::AINode(node) => CoreModel::AINode(
                (NodeModel { input, ..node }).after_execute(),
            ),
            _ => self,
        }
    }

    /// What the first step of an execution hands back. An AI node with the
    /// input as its own has its request posted, or fails with its error,
    /// wrapped. Every other node has finished, with an empty output.
    pub open spec fn excute_result(self, input: Seq<char>) -> Result<DispatchView, PilotErrorView> {
        match self {
            CoreModel::AINode(node) => match (NodeModel { input, ..node }).execute_result() {
                Ok(request) => Ok(DispatchView::Post(request)),
                Err(cause) => Err(node_failure(cause)),
            },
            _ => Ok(DispatchView::Done(Seq::empty())),
        }
    }

    /// The node after the second step of an execution. An AI node makes the
    /// second step of its round. Every other node stays as it is.
    pub open spec fn after_resume(self, outcome: HttpOutcomeView) -> CoreModel {
        match self {
            CoreModel::AINode(node) => CoreModel::AINode(node.after_outcome(outcome)),
            _ => self,
        }
    }

    /// What the second step of an execution hands back. An AI node gives
    /// the answer of the outcome, or fails with its error, wrapped. Every
    /// other node gives an empty output.
    pub open spec fn resume_result(self, outcome: HttpOutcomeView) -> Result<
        Seq<char>,
        PilotErrorView,
    > {
        match self {
            CoreModel::AINode(_) => match outcome_answer(outcome) {
                Ok(answer) => Ok(answer),
                Err(cause) => Err(node_failure(cause)),
            },
            _ => Ok(Seq::empty()),
        }
    }
}

/// A dispatch or an error, by what it holds.
pub open spec fn dispatch_view(result: PilotResult<Dispatch>) -> Result<
    DispatchView,
    PilotErrorView,
> {
    match result {
        Ok(dispatch) => Ok(dispatch@),
        Err(error) => Err(error@),
    }
}

/// An output or an error, by what it holds.
pub open spec fn output_view(result: PilotResult<String>) -> Result<Seq<char>, PilotErrorView> {
    match result {
        Ok(output) => Ok(output@),
        Err(error) => Err(error@),
    }
}

impl Worknodecore {
    /// The first step of an execution. An AI node takes the input as its
    /// own, writes its prompt into its history, and has its request posted
    /// or fails. Every other node has finished at once, with an empty
    /// output, and stays as it is.
    pub fn excute(&mut self, input: String) -> (r: PilotResult<Dispatch>)
        ensures
            final(self)@ == old(self)@.after_excute(input@),
            dispatch_view(r) == old(self)@.excute_result(input@),
    {
        match self {
            Worknodecore::AINode(node) => {
                node.set_input(input);
                match node.execute() {
                    Ok(request) => Ok(Dispatch::Post(request)),
                    Err(cause) => Err(
                        PilotError::new(
                            PilotErrorType::AINodeErr(cause),
                            String::from_str("AI node failed to execute"),
                        ),
                    ),
                }
            },
            _ => Ok(Dispatch::Done(String::new())),
        }
    }

    /// The second step of an execution: what came of posting the request.
    /// An AI node writes the answer into its history and gives it, or fails.
    /// Every other node gives an empty output and stays as it is.
    pub fn resume(&mut self, outcome: HttpOutcome) -> (r: PilotResult<String>)
        ensures
            final(self)@ == old(self)@.after_resume(outcome@),
            output_view(r) == old(self)@.resume_result(outcome@),
    {
        match self {
            Worknodecore::AINode(node) => match node.conclude(outcome) {
                Ok(answer) => Ok(answer),
                Err(cause) => Err(
                    PilotError::new(
                        PilotErrorType::AINodeErr(cause),
                        String::from_str("AI node failed to execute"),
                    ),
                ),
            },
            _ => Ok(String::new()),
        }
    }
}

/// What a [`Worknode`] holds.
pub struct WorknodeModel {
    pub uid: uuid::Uuid,
    pub node: CoreModel,
}

/// A node of the graph: an identifier, which it keeps, and a core, which
/// may be replaced.
#[derive(Debug)]
pub struct Worknode {
    uid: uuid::Uuid,
    node: Worknodecore,
}

impl View for Worknode {
    type V = WorknodeModel;

    closed spec fn view(&self) -> WorknodeModel {
        WorknodeModel { uid: self.uid, node: self.node@ }
    }
}

impl Worknode {
    /// A node with the given core and an identifier of its own.
    pub fn new(node: Worknodecore) -> (worknode: Worknode)
        ensures
            worknode@.node == node@,
    {
        Worknode { uid: fresh_uid(), node }
    }

    /// The first step of an execution: that of the core. The identifier
    /// stays.
    pub fn excute(&mut self, input: String) -> (r: PilotResult<Dispatch>)
        ensures
            final(self)@ == (WorknodeModel {
                node: old(self)@.node.after_excute(input@),
                ..old(self)@
            }),
            dispatch_view(r) == old(self)@.node.excute_result(input@),
    {
        self.node.excute(input)
    }

    /// The second step of an execution: that of the core. The identifier
    /// stays.
    pub fn resume(&mut self, outcome: HttpOutcome) -> (r: PilotResult<String>)
        ensures
            final(self)@ == (WorknodeModel {
                node: old(self)@.node.after_resume(outcome@),
                ..old(self)@
            }),
            output_view(r) == old(self)@.node.resume_result(outcome@),
    {
        self.node.resume(outcome)
    }

    /// The identifier of the node.
    pub fn get_uid(&self) -> (uid: uuid::Uuid)
        ensures
            uid == self@.uid,
    {
        self.uid
    }

    /// The core of the node.
    pub fn get_node(&self) -> (node: &Worknodecore)
        ensures
            node@ == self@.node,
    {
        &self.node
    }

    /// Replaces the core. The identifier stays.
    pub fn set_node(&mut self, node: Worknodecore)
        ensures
            final(self)@ == (WorknodeModel { node: node@, ..old(self)@ }),
    {
        self.node = node;
    }
}

} // verus!
