//! The AI node: a node that asks an AI service for an answer and keeps the
//! conversation.
//!
//! A round has two steps, with the transport between them. [`AINode::execute`]
//! writes the prompt into the history and says what is to be posted;
//! [`AINode::conclude`] takes what came of it and writes the answer into the
//! history.

pub mod deepseek;

use crate::error::ai_node_error::deepseek_error::DeepSeekErrorView;
use crate::error::ai_node_error::{
    AINodeError, AINodeErrorType, AINodeErrorTypeView, AINodeErrorView, AINodeResult,
};
use crate::exchange::{HttpOutcome, HttpOutcomeView, HttpRequest, HttpRequestView};
use crate::payload::{display, element, json_display, member, JsonModel};
use crate::worknode::ai_node::deepseek::{
    outcome_result, response_content, ClientModel, DeepSeekClient,
};
use vstd::prelude::*;

verus! {

/// What a [`Chat`] holds.
pub struct ChatView {
    pub role: Seq<char>,
    pub content: Seq<char>,
}

/// One turn of a conversation: who spoke, and what was said.
#[derive(Debug)]
pub struct Chat {
    role: String,
    content: String,
}

impl View for Chat {
    type V = ChatView;

    closed spec fn view(&self) -> ChatView {
        ChatView { role: self.role@, content: self.content@ }
    }
}

impl Chat {
    /// The turn in which `role` says `content`.
    pub fn new(role: String, content: String) -> (chat: Chat)
        ensures
            chat@ == (ChatView { role: role@, content: content@ }),
    {
        Chat { role, content }
    }

    /// Who spoke.
    pub fn role(&self) -> (role: &String)
        ensures
            role@ == self@.role,
    {
        &self.role
    }

    /// What was said.
    pub fn content(&self) -> (content: &String)
        ensures
            content@ == self@.content,
    {
        &self.content
    }
}

/// The turns of a conversation, each by what it holds.
pub open spec fn turns(history: Seq<Chat>) -> Seq<ChatView> {
    Seq::new(history.len(), |i: int| history[i]@)
}

/// The turn that sets the part that the assistant plays.
pub open spec fn system_turn(content: Seq<char>) -> ChatView {
    ChatView { role: "system"@, content }
}

/// A turn of the user.
pub open spec fn user_turn(content: Seq<char>) -> ChatView {
    ChatView { role: "user"@, content }
}

/// A turn of the assistant.
pub open spec fn assistant_turn(content: Seq<char>) -> ChatView {
    ChatView { role: "assistant"@, content }
}

/// The AI services.
#[derive(Debug)]
pub enum AIService {
    DeepSeek { client: DeepSeekClient },
}

/// What an [`AIService`] holds.
pub enum ServiceModel {
    DeepSeek { client: ClientModel },
}

impl View for AIService {
    type V = ServiceModel;

    open spec fn view(&self) -> ServiceModel {
        match self {
            AIService::DeepSeek { client } => ServiceModel::DeepSeek { client: client@ },
        }
    }
}

impl AIService {
    /// The DeepSeek service with the given client.
    pub fn new_deepseek(client: DeepSeekClient) -> (service: AIService)
        ensures
            service@ == (ServiceModel::DeepSeek { client: client@ }),
    {
        AIService::DeepSeek { client }
    }
}

impl ServiceModel {
    /// The client of the service.
    pub open spec fn client(self) -> ClientModel {
        match self {
            ServiceModel::DeepSeek { client } => client,
        }
    }
}

/// What an [`AINode`] holds.
pub struct NodeModel {
    pub service: ServiceModel,
    pub role: Option<Seq<char>>,
    pub history: Seq<ChatView>,
    pub prompt_prefix: Seq<char>,
    pub prompt_suffix: Seq<char>,
    pub input: Seq<char>,
}

/// The error of a node whose service failed.
pub open spec fn service_failure(cause: DeepSeekErrorView) -> AINodeErrorView {
    AINodeErrorView {
        error_type: AINodeErrorTypeView::DeepSeekError(cause),
        message: "Failed to send request to DeepSeek"@,
    }
}

/// The answer that an outcome gives: what the content of the message of a
/// complete response displays, or the error of the service, wrapped.
pub open spec fn outcome_answer(outcome: HttpOutcomeView) -> Result<Seq<char>, AINodeErrorView> {
    match outcome_result(outcome) {
        Ok(tree) => Ok(json_display(response_content(tree))),
        Err(cause) => Err(service_failure(cause)),
    }
}

impl NodeModel {
    /// A node with a part to play has the system turn that says so first in
    /// its history.
    pub open spec fn well_formed(self) -> bool {
        self.role matches Some(part) ==> self.history.len() > 0 && self.history[0] == system_turn(
            part,
        )
    }

    /// The node after its part has been set, through [`AINode::role`] or
    /// [`AINode::set_role`]. Without a part, the history stays. With one,
    /// the system turn that says so comes first: put in front where there
    /// was no part before, in the place of the first turn where there was.
    pub open spec fn with_role(self, role: Option<Seq<char>>) -> NodeModel {
        match role {
            None => NodeModel { role: None, ..self },
            Some(part) => NodeModel {
                role: Some(part),
                history: if self.role is None {
                    self.history.insert(0, system_turn(part))
                } else {
                    self.history.update(0, system_turn(part))
                },
                ..self
            },
        }
    }

    /// The prompt of a round: the prefix, the input and the suffix, each on
    /// a line of its own.
    pub open spec fn prompt(self) -> Seq<char> {
        self.prompt_prefix + "\n"@ + self.input + "\n"@ + self.prompt_suffix
    }

    /// The node after the first step of a round: the prompt stands last in
    /// the history, as a turn of the user.
    pub open spec fn after_execute(self) -> NodeModel {
        NodeModel { history: self.history.push(user_turn(self.prompt())), ..self }
    }

    /// What the first step of a round hands back: the request that carries
    /// the history with the prompt, where the client is valid, and the
    /// client's error, wrapped, where it is not.
    pub open spec fn execute_result(self) -> Result<HttpRequestView, AINodeErrorView> {
        match self.service.client().send_result(self.after_execute().history) {
            Ok(request) => Ok(request),
            Err(cause) => Err(service_failure(cause)),
        }
    }

    /// The node after the second step of a round: the client has taken the
    /// outcome, and an answer stands last in the history, as a turn of the
    /// assistant.
    pub open spec fn after_outcome(self, outcome: HttpOutcomeView) -> NodeModel {
        NodeModel {
            service: ServiceModel::DeepSeek {
                client: self.service.client().after_outcome(outcome),
            },
            history: match outcome_answer(outcome) {
                Ok(answer) => self.history.push(assistant_turn(answer)),
                Err(_) => self.history,
            },
            ..self
        }
    }
}

/// Giving a node without a part a part puts the system turn in front of
/// its history. Giving it another part afterwards replaces that turn, and
/// the history is no longer than before.
pub proof fn lemma_role_set_twice(node: NodeModel, first: Seq<char>, second: Seq<char>)
    requires
        node.role is None,
    ensures
        node.with_role(Some(first)).history == node.history.insert(0, system_turn(first)),
        node.with_role(Some(first)).history.len() == node.history.len() + 1,
        node.with_role(Some(first)).history[0] == system_turn(first),
        node.with_role(Some(first)).with_role(Some(second)).history == node.history.insert(
            0,
            system_turn(second),
        ),
        node.with_role(Some(first)).with_role(Some(second)).history.len()
            == node.with_role(Some(first)).history.len(),
{
    let once = node.with_role(Some(first));
    assert(once.with_role(Some(second)).history =~= node.history.insert(
        0,
        system_turn(second),
    ));
}

/// The steps of a round keep a node well-formed: they write behind what is
/// in the history, and leave the part alone.
pub proof fn lemma_round_keeps_well_formed(node: NodeModel, outcome: HttpOutcomeView)
    requires
        node.well_formed(),
    ensures
        node.after_execute().well_formed(),
        node.after_outcome(outcome).well_formed(),
        node.after_execute().after_outcome(outcome).well_formed(),
{
}

/// A round that succeeds makes the history longer by two turns: the prompt
/// as a turn of the user, then the answer as a turn of the assistant. A
/// round whose second step fails leaves the turn of the user behind.
pub proof fn lemma_round_adds_two_turns(node: NodeModel, outcome: HttpOutcomeView)
    ensures
        outcome_answer(outcome) matches Ok(answer) ==> node.after_execute().after_outcome(
            outcome,
        ).history == node.history.push(user_turn(node.prompt())).push(assistant_turn(answer)),
        outcome_answer(outcome) is Ok ==> node.after_execute().after_outcome(
            outcome,
        ).history.len() == node.history.len() + 2,
        outcome_answer(outcome) is Err ==> node.after_execute().after_outcome(outcome).history
            == node.history.push(user_turn(node.prompt())),
{
}

/// The node that asks an AI service.
#[derive(Debug)]
pub struct AINode {
    /// The service that is asked.
    service: AIService,
    /// The part that the assistant is to play, if any.
    role: Option<String>,
    /// The conversation so far.
    history: Vec<Chat>,
    /// What stands before the input in a prompt.
    prompt_prefix: String,
    /// What stands after the input in a prompt.
    prompt_suffix: String,
    /// What the user says.
    input: String,
}

impl View for AINode {
    type V = NodeModel;

    closed spec fn view(&self) -> NodeModel {
        NodeModel {
            service: self.service@,
            role: match self.role {
                Some(part) => Some(part@),
                None => None,
            },
            history: turns(self.history@),
            prompt_prefix: self.prompt_prefix@,
            prompt_suffix: self.prompt_suffix@,
            input: self.input@,
        }
    }
}

/// A request or an error of the node, by what it holds.
pub open spec fn request_view(result: AINodeResult<HttpRequest>) -> Result<
    HttpRequestView,
    AINodeErrorView,
> {
    match result {
        Ok(request) => Ok(request@),
        Err(error) => Err(error@),
    }
}

/// An answer or an error of the node, by what it holds.
pub open spec fn answer_view(result: AINodeResult<String>) -> Result<Seq<char>, AINodeErrorView> {
    match result {
        Ok(answer) => Ok(answer@),
        Err(error) => Err(error@),
    }
}

/// A text that may be there, by what it holds.
pub open spec fn text_view(text: Option<String>) -> Option<Seq<char>> {
    match text {
        Some(content) => Some(content@),
        None => None,
    }
}

impl AINode {
    /// The node for the given service: no part, no history, no prompt.
    pub fn new(service: AIService) -> (node: AINode)
        ensures
            node@ == (NodeModel {
                service: service@,
                role: None,
                history: Seq::empty(),
                prompt_prefix: Seq::empty(),
                prompt_suffix: Seq::empty(),
                input: Seq::empty(),
            }),
            node@.well_formed(),
    {
        let node = AINode {
            service,
            role: None,
            history: Vec::new(),
            prompt_prefix: String::new(),
            prompt_suffix: String::new(),
            input: String::new(),
        };
        assert(turns(node.history@) =~= Seq::empty());
        node
    }

    /// The first step of a round. The prompt is written into the history as
    /// a turn of the user, whatever follows. Then the client is asked for
    /// the request that carries the history: it is handed back to be
    /// posted, or the client's error is, wrapped, and nothing is to be
    /// posted.
    pub fn execute(&mut self) -> (r: AINodeResult<HttpRequest>)
        ensures
            final(self)@ == old(self)@.after_execute(),
            request_view(r) == old(self)@.execute_result(),
    {
        let mut prompt = self.prompt_prefix.clone();
        prompt.append("\n");
        prompt.append(self.input.as_str());
        prompt.append("\n");
        prompt.append(self.prompt_suffix.as_str());
        self.history.push(Chat::new(String::from_str("user"), prompt));
        assert(turns(self.history@) =~= turns(old(self).history@).push(
            user_turn(old(self)@.prompt()),
        ));
        match &self.service {
            AIService::DeepSeek { client } => match client.send_request(&self.history) {
                Ok(request) => Ok(request),
                Err(cause) => Err(
                    AINodeError::new(
                        AINodeErrorType::DeepSeekError(cause),
                        String::from_str("Failed to send request to DeepSeek"),
                    ),
                ),
            },
        }
    }

    /// The second step of a round. The client takes what came of posting
    /// the request. Where that is a complete response, what the content of
    /// its message displays is written into the history as a turn of the
    /// assistant and handed back: for a content that is text, the text
    /// itself. Else the history stays, and the client's error is handed
    /// back, wrapped.
    pub fn conclude(&mut self, outcome: HttpOutcome) -> (r: AINodeResult<String>)
        ensures
            final(self)@ == old(self)@.after_outcome(outcome@),
            answer_view(r) == outcome_answer(outcome@),
            outcome_result(outcome@) matches Ok(tree) ==> (response_content(tree) matches JsonModel::Text(
                content,
            ) ==> answer_view(r) == Ok::<Seq<char>, AINodeErrorView>(content)),
    {
        let received = match &mut self.service {
            AIService::DeepSeek { client } => client.receive_response(outcome),
        };
        match received {
            Ok(response) => {
                let answer = display(
                    member(member(element(member(&response, "choices"), 0), "message"), "content"),
                );
                self.history.push(Chat::new(String::from_str("assistant"), answer.clone()));
                assert(turns(self.history@) =~= turns(old(self).history@).push(
                    assistant_turn(answer@),
                ));
                Ok(answer)
            },
            Err(cause) => Err(
                AINodeError::new(
                    AINodeErrorType::DeepSeekError(cause),
                    String::from_str("Failed to send request to DeepSeek"),
                ),
            ),
        }
    }

    /// The node with its part set. Without a part, the history stays. With
    /// one, the system turn that says so comes first in the history: put in
    /// front where the node had no part, in the place of the first turn
    /// where it had one.
    pub fn role(self, role: Option<String>) -> (node: Self)
        requires
            role is Some && self@.role is Some ==> self@.history.len() > 0,
        ensures
            node@ == self@.with_role(text_view(role)),
            node@.well_formed(),
    {
        let mut node = self;
        node.set_role(role);
        node
    }

    /// Sets the part, as [`AINode::role`] does. Without a part, the history
    /// stays. With one, the system turn that says so comes first in the
    /// history: put in front where the node had no part, in the place of
    /// the first turn where it had one.
    pub fn set_role(&mut self, role: Option<String>)
        requires
            role is Some && old(self)@.role is Some ==> old(self)@.history.len() > 0,
        ensures
            final(self)@ == old(self)@.with_role(text_view(role)),
            final(self)@.well_formed(),
    {
        let had_none = self.role.is_none();
        match role {
            None => {
                self.role = None;
            },
            Some(part) => {
                let turn = Chat::new(String::from_str("system"), part.clone());
                if had_none {
                    self.history.insert(0, turn);
                    assert(turns(self.history@) =~= turns(old(self).history@).insert(
                        0,
                        system_turn(part@),
                    ));
                } else {
                    self.history[0] = turn;
                    assert(turns(self.history@) =~= turns(old(self).history@).update(
                        0,
                        system_turn(part@),
                    ));
                }
                self.role = Some(part);
            },
        }
    }

    /// The part that the assistant is to play.
    pub fn get_role(&self) -> (role: &Option<String>)
        ensures
            text_view(*role) == self@.role,
    {
        &self.role
    }

    /// The node with the given history.
    pub fn history(self, history: Vec<Chat>) -> (node: Self)
        ensures
            node@ == (NodeModel { history: turns(history@), ..self@ }),
    {
        let mut node = self;
        node.history = history;
        node
    }

    /// Sets the history.
    pub fn set_history(&mut self, history: Vec<Chat>)
        ensures
            final(self)@ == (NodeModel { history: turns(history@), ..old(self)@ }),
    {
        self.history = history;
    }

    /// The conversation so far.
    pub fn get_history(&self) -> (history: &Vec<Chat>)
        ensures
            turns(history@) == self@.history,
    {
        &self.history
    }

    /// Writes a turn into the history, after the others.
    pub fn push_history(&mut self, chat: Chat)
        ensures
            final(self)@ == (NodeModel { history: old(self)@.history.push(chat@), ..old(self)@ }),
    {
        self.history.push(chat);
        assert(turns(self.history@) =~= turns(old(self).history@).push(chat@));
    }

    /// The node with the given prefix of its prompts.
    pub fn prompt_prefix(self, prompt_prefix: String) -> (node: Self)
        ensures
            node@ == (NodeModel { prompt_prefix: prompt_prefix@, ..self@ }),
    {
        let mut node = self;
        node.prompt_prefix = prompt_prefix;
        node
    }

    /// Sets the prefix of the prompts.
    pub fn set_prompt_prefix(&mut self, prompt_prefix: String)
        ensures
            final(self)@ == (NodeModel { prompt_prefix: prompt_prefix@, ..old(self)@ }),
    {
        self.prompt_prefix = prompt_prefix;
    }

    /// The prefix of the prompts.
    pub fn get_prompt_prefix(&self) -> (prompt_prefix: &String)
        ensures
            prompt_prefix@ == self@.prompt_prefix,
    {
        &self.prompt_prefix
    }

    /// The node with the given suffix of its prompts.
    pub fn prompt_suffix(self, prompt_suffix: String) -> (node: Self)
        ensures
            node@ == (NodeModel { prompt_suffix: prompt_suffix@, ..self@ }),
    {
        let mut node = self;
        node.prompt_suffix = prompt_suffix;
        node
    }

    /// Sets the suffix of the prompts.
    pub fn set_prompt_suffix(&mut self, prompt_suffix: String)
        ensures
            final(self)@ == (NodeModel { prompt_suffix: prompt_suffix@, ..old(self)@ }),
    {
        self.prompt_suffix = prompt_suffix;
    }

    /// The suffix of the prompts.
    pub fn get_prompt_suffix(&self) -> (prompt_suffix: &String)
        ensures
            prompt_suffix@ == self@.prompt_suffix,
    {
        &self.prompt_suffix
    }

    /// The node with the given input.
    pub fn input(self, input: String) -> (node: Self)
        ensures
            node@ == (NodeModel { input: input@, ..self@ }),
    {
        let mut node = self;
        node.input = input;
        node
    }

    /// Sets the input.
    pub fn set_input(&mut self, input: String)
        ensures
            final(self)@ == (NodeModel { input: input@, ..old(self)@ }),
    {
        self.input = input;
    }

    /// What the user says.
    pub fn get_input(&self) -> (input: &String)
        ensures
            input@ == self@.input,
    {
        &self.input
    }

    /// The service that is asked.
    pub fn get_service(&self) -> (service: &AIService)
        ensures
            service@ == self@.service,
    {
        &self.service
    }

    /// Sets the service.
    pub fn set_service(&mut self, service: AIService)
        ensures
            final(self)@ == (NodeModel { service: service@, ..old(self)@ }),
    {
        self.service = service;
    }
}

} // verus!
