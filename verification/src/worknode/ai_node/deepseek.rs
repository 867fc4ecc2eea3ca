//! The client of the DeepSeek chat-completion service.
//!
//! A client holds the address, the key and the options of generation. It
//! checks them, writes the request that is to be posted, and reads what the
//! service answered, keeping count of the tokens used.

use crate::decimal::Decimal;
use crate::error::ai_node_error::deepseek_error::{
    DeepSeekError, DeepSeekErrorType, DeepSeekErrorView, DeepSeekResult,
};
use crate::exchange::{HttpOutcome, HttpOutcomeView, HttpRequest, HttpRequestView};
use crate::payload::{
    array, boolean, display, dump, element, has_key, insert, is_empty, is_null, json_display,
    json_dump, json_tree, json_trees, member, new_object, null, number, number_parts, read_json,
    read_result, text, JsonModel,
};
use crate::worknode::ai_node::{turns, Chat, ChatView};
use vstd::prelude::*;

verus! {

/// The address of the service.
pub const DEEPSEEK_API_URL: &'static str = "https://api.deepseek.com/chat/completions";

/// The name of the environment variable that holds the key.
pub const API_KEY_VARIABLE: &'static str = "API_KEY";

/// The format in which the service is to answer.
#[derive(Debug, Clone, Copy, PartialEq, Eq, Structural)]
pub enum ResponseFormat {
    /// Plain text.
    Text,
    /// JSON.
    Json,
}

/// The options of a streamed answer.
#[derive(Debug, Clone, Copy, PartialEq, Eq, Structural)]
pub struct StreamOption {
    /// Whether a last block with the usage statistics is asked for.
    pub include_usage: bool,
}

/// The models of the service.
#[derive(Debug, Clone, Copy, PartialEq, Eq, Structural)]
pub enum DeepSeekModel {
    DeepseekChat,
    DeepseekReasoner,
}

/// The counts of tokens of one call, or of all calls together.
#[derive(Debug, Clone, Copy, PartialEq, Eq, Structural)]
pub struct DeepSeekUsage {
    /// The tokens of the answer.
    pub completion_tokens: i64,
    /// The tokens of the request.
    pub prompt_tokens: i64,
    /// The tokens of the request that were found in the cache.
    pub prompt_cache_hit_tokens: i64,
    /// The tokens of the request that were not found in the cache.
    pub prompt_cache_miss_tokens: i64,
    /// All tokens.
    pub total_tokens: i64,
}

impl DeepSeekUsage {
    /// The usage of no call: every count is zero.
    pub open spec fn zero() -> DeepSeekUsage {
        DeepSeekUsage {
            completion_tokens: 0,
            prompt_tokens: 0,
            prompt_cache_hit_tokens: 0,
            prompt_cache_miss_tokens: 0,
            total_tokens: 0,
        }
    }

    /// The sum of two usages, count by count.
    pub open spec fn plus(self, other: DeepSeekUsage) -> DeepSeekUsage {
        DeepSeekUsage {
            completion_tokens: counter_sum(self.completion_tokens, other.completion_tokens),
            prompt_tokens: counter_sum(self.prompt_tokens, other.prompt_tokens),
            prompt_cache_hit_tokens: counter_sum(
                self.prompt_cache_hit_tokens,
                other.prompt_cache_hit_tokens,
            ),
            prompt_cache_miss_tokens: counter_sum(
                self.prompt_cache_miss_tokens,
                other.prompt_cache_miss_tokens,
            ),
            total_tokens: counter_sum(self.total_tokens, other.total_tokens),
        }
    }

    /// The usage of no call.
    pub fn new() -> (usage: DeepSeekUsage)
        ensures
            usage == DeepSeekUsage::zero(),
    {
        DeepSeekUsage {
            completion_tokens: 0,
            prompt_tokens: 0,
            prompt_cache_hit_tokens: 0,
            prompt_cache_miss_tokens: 0,
            total_tokens: 0,
        }
    }
}

/// The sum of two counts. Counts are 64-bit integers in two's complement:
/// a sum that leaves their range comes back in at the other end, so that
/// every two counts have a sum.
pub open spec fn counter_sum(a: i64, b: i64) -> i64 {
    if a + b > i64::MAX {
        (a + b - 0x1_0000_0000_0000_0000) as i64
    } else if a + b < i64::MIN {
        (a + b + 0x1_0000_0000_0000_0000) as i64
    } else {
        (a + b) as i64
    }
}

impl core::ops::Add for DeepSeekUsage {
    type Output = DeepSeekUsage;

    /// The sum of two usages, count by count.
    fn add(self, other: DeepSeekUsage) -> (sum: DeepSeekUsage) {
        DeepSeekUsage {
            completion_tokens: self.completion_tokens.wrapping_add(other.completion_tokens),
            prompt_tokens: self.prompt_tokens.wrapping_add(other.prompt_tokens),
            prompt_cache_hit_tokens: self.prompt_cache_hit_tokens.wrapping_add(
                other.prompt_cache_hit_tokens,
            ),
            prompt_cache_miss_tokens: self.prompt_cache_miss_tokens.wrapping_add(
                other.prompt_cache_miss_tokens,
            ),
            total_tokens: self.total_tokens.wrapping_add(other.total_tokens),
        }
    }
}

impl vstd::std_specs::ops::AddSpecImpl for DeepSeekUsage {
    open spec fn obeys_add_spec() -> bool {
        true
    }

    open spec fn add_req(self, other: DeepSeekUsage) -> bool {
        true
    }

    open spec fn add_spec(self, other: DeepSeekUsage) -> DeepSeekUsage {
        self.plus(other)
    }
}

/// What a [`DeepSeekClient`] holds.
pub struct ClientModel {
    pub url: Seq<char>,
    pub api_key: Option<Seq<char>>,
    pub model: DeepSeekModel,
    pub frequency_penalty: Option<Decimal>,
    pub max_tokens: Option<i32>,
    pub presence_penalty: Option<Decimal>,
    pub response_format: Option<ResponseFormat>,
    pub stream: Option<bool>,
    pub stream_option: Option<StreamOption>,
    pub temperature: Option<Decimal>,
    pub top_p: Option<Decimal>,
    pub logprobs: bool,
    pub top_logprobs: Option<i32>,
    pub total_usage: DeepSeekUsage,
    pub last_usage: DeepSeekUsage,
}

/// Whether a penalty, if set, lies between -2 and 2.
pub open spec fn penalty_in_range(value: Option<Decimal>) -> bool {
    value matches Some(number) ==> number.between(-2, 2)
}

/// Whether a limit of tokens, if set, lies between 1 and 8192.
pub open spec fn max_tokens_in_range(value: Option<i32>) -> bool {
    value matches Some(limit) ==> 1 <= limit <= 8192
}

/// Whether a temperature, if set, lies between 0 and 2.
pub open spec fn temperature_in_range(value: Option<Decimal>) -> bool {
    value matches Some(number) ==> number.between(0, 2)
}

/// Whether a nucleus mass, if set, lies between 0 and 1.
pub open spec fn top_p_in_range(value: Option<Decimal>) -> bool {
    value matches Some(number) ==> number.between(0, 1)
}

impl ClientModel {
    /// Whether answers are streamed: what was set, `false` if nothing was.
    pub open spec fn effective_stream(self) -> bool {
        match self.stream {
            Some(stream) => stream,
            None => false,
        }
    }

    /// Options of streaming may be set only where answers are streamed.
    pub open spec fn stream_option_allowed(self) -> bool {
        self.stream_option is None || self.effective_stream()
    }

    /// A number of top tokens may be set only where log probabilities are
    /// asked for.
    pub open spec fn top_logprobs_allowed(self) -> bool {
        self.logprobs || self.top_logprobs is None
    }

    /// Whether a request may be sent: every option that is set is in its
    /// range, the dependent options have what they depend on, and there is
    /// a key.
    pub open spec fn valid(self) -> bool {
        &&& penalty_in_range(self.frequency_penalty)
        &&& max_tokens_in_range(self.max_tokens)
        &&& penalty_in_range(self.presence_penalty)
        &&& self.stream_option_allowed()
        &&& temperature_in_range(self.temperature)
        &&& top_p_in_range(self.top_p)
        &&& self.top_logprobs_allowed()
        &&& self.api_key is Some
    }
}

impl DeepSeekModel {
    /// The name of the model in a request.
    pub open spec fn wire_name(self) -> Seq<char> {
        match self {
            DeepSeekModel::DeepseekChat => "deepseek-chat"@,
            DeepSeekModel::DeepseekReasoner => "deepseek-reasoner"@,
        }
    }

    /// The name of the model in a request.
    pub fn to_string(&self) -> (name: String)
        ensures
            name@ == self.wire_name(),
    {
        match self {
            DeepSeekModel::DeepseekChat => String::from_str("deepseek-chat"),
            DeepSeekModel::DeepseekReasoner => String::from_str("deepseek-reasoner"),
        }
    }
}

impl ResponseFormat {
    /// The name of the format in a request.
    pub open spec fn wire_name(self) -> Seq<char> {
        match self {
            ResponseFormat::Text => "text"@,
            ResponseFormat::Json => "json"@,
        }
    }

    /// The name of the format in a request.
    pub fn to_string(&self) -> (name: String)
        ensures
            name@ == self.wire_name(),
    {
        match self {
            ResponseFormat::Text => String::from_str("text"),
            ResponseFormat::Json => String::from_str("json"),
        }
    }
}

impl StreamOption {
    /// The options with the given wish for usage statistics.
    pub fn new(include_usage: bool) -> (option: StreamOption)
        ensures
            option.include_usage == include_usage,
    {
        StreamOption { include_usage }
    }
}

/// The JSON of a number: the number with its parts reduced.
pub open spec fn number_tree(number: Decimal) -> JsonModel {
    JsonModel::Number(number.reduced())
}

/// The JSON of one turn: an object with the content and the role.
pub open spec fn chat_tree(chat: ChatView) -> JsonModel {
    JsonModel::Object(
        Seq::empty().push(("content"@, JsonModel::Text(chat.content))).push(
            ("role"@, JsonModel::Text(chat.role)),
        ),
    )
}

/// The JSON of a conversation: the array of its turns, in their order.
pub open spec fn messages_tree(history: Seq<ChatView>) -> JsonModel {
    JsonModel::Array(Seq::new(history.len(), |i: int| chat_tree(history[i])))
}

/// The error of a client whose parameters are not valid.
pub open spec fn invalid_parameters() -> DeepSeekErrorView {
    DeepSeekErrorView {
        error_type: DeepSeekErrorType::RequestParamError,
        message: "The parameters are not valid."@,
    }
}

impl ClientModel {
    /// The frequency penalty that is sent: what was set, else 0.
    pub open spec fn effective_frequency_penalty(self) -> Decimal {
        match self.frequency_penalty {
            Some(number) => number,
            None => Decimal { positive: true, mantissa: 0, exponent: 0 },
        }
    }

    /// The limit of tokens that is sent: what was set, else 4096.
    pub open spec fn effective_max_tokens(self) -> i32 {
        match self.max_tokens {
            Some(limit) => limit,
            None => 4096,
        }
    }

    /// The presence penalty that is sent: what was set, else 0.
    pub open spec fn effective_presence_penalty(self) -> Decimal {
        match self.presence_penalty {
            Some(number) => number,
            None => Decimal { positive: true, mantissa: 0, exponent: 0 },
        }
    }

    /// The format that is sent: what was set, else text.
    pub open spec fn effective_response_format(self) -> ResponseFormat {
        match self.response_format {
            Some(format) => format,
            None => ResponseFormat::Text,
        }
    }

    /// The temperature that is sent: what was set, else 1.
    pub open spec fn effective_temperature(self) -> Decimal {
        match self.temperature {
            Some(number) => number,
            None => Decimal { positive: true, mantissa: 1, exponent: 0 },
        }
    }

    /// The nucleus mass that is sent: what was set, else 1.
    pub open spec fn effective_top_p(self) -> Decimal {
        match self.top_p {
            Some(number) => number,
            None => Decimal { positive: true, mantissa: 1, exponent: 0 },
        }
    }

    /// The body of a request with the given messages: an object with these
    /// fifteen entries, in this order.
    pub open spec fn request_body(self, messages: JsonModel) -> JsonModel {
        JsonModel::Object(
            Seq::empty().push(("messages"@, messages)).push(
                ("model"@, JsonModel::Text(self.model.wire_name())),
            ).push(("frequency_penalty"@, number_tree(self.effective_frequency_penalty()))).push(
                ("max_tokens"@, number_tree(Decimal::of_integer(self.effective_max_tokens() as int))),
            ).push(("presence_penalty"@, number_tree(self.effective_presence_penalty()))).push(
                (
                    "response_format"@,
                    JsonModel::Object(
                        Seq::empty().push(
                            ("type"@, JsonModel::Text(self.effective_response_format().wire_name())),
                        ),
                    ),
                ),
            ).push(("stop"@, JsonModel::Null)).push(
                ("stream"@, JsonModel::Boolean(self.effective_stream())),
            ).push(
                (
                    "stream_options"@,
                    match self.stream_option {
                        Some(option) => JsonModel::Object(
                            Seq::empty().push(
                                ("include_usage"@, JsonModel::Boolean(option.include_usage)),
                            ),
                        ),
                        None => JsonModel::Null,
                    },
                ),
            ).push(("temperature"@, number_tree(self.effective_temperature()))).push(
                ("top_p"@, number_tree(self.effective_top_p())),
            ).push(("tools"@, JsonModel::Null)).push(
                ("tool_choice"@, JsonModel::Text("none"@)),
            ).push(("logprobs"@, JsonModel::Boolean(self.logprobs))).push(
                (
                    "top_logprobs"@,
                    match self.top_logprobs {
                        Some(count) => number_tree(Decimal::of_integer(count as int)),
                        None => JsonModel::Null,
                    },
                ),
            ),
        )
    }

    /// What is handed back for a conversation that is to be sent: the
    /// request that carries it where the client is valid, the error that
    /// says that it is not where it is not.
    pub open spec fn send_result(self, history: Seq<ChatView>) -> Result<
        HttpRequestView,
        DeepSeekErrorView,
    > {
        if self.valid() {
            Ok(self.request(history))
        } else {
            Err(invalid_parameters())
        }
    }

    /// The request that carries the conversation: it goes to the address of
    /// the client, says that its body is JSON, bears the key, and has the
    /// request body with the messages of the conversation as its body.
    pub open spec fn request(self, history: Seq<ChatView>) -> HttpRequestView
        recommends
            self.api_key is Some,
    {
        HttpRequestView {
            url: self.url,
            content_type: "application/json"@,
            authorization: "Bearer "@ + self.api_key->Some_0,
            body: json_dump(self.request_body(messages_tree(history))),
        }
    }
}

/// The content of the message of the first choice of a response.
pub open spec fn response_content(tree: JsonModel) -> JsonModel {
    tree.member("choices"@).element(0).member("message"@).member("content"@)
}

/// The count that a JSON value gives: that of a number that writes out an
/// integer of 64 bits digit by digit, with exponent zero.
pub open spec fn counter(tree: JsonModel) -> Option<i64> {
    match tree.number_parts() {
        Some(parts) => parts.plain_integer(),
        None => None,
    }
}

/// What a response says of usage: the five counts, or what is wrong with
/// the response. The content of the message is looked at first, then the
/// usage statistics, then each count in turn.
pub open spec fn usage_verdict(tree: JsonModel) -> Result<DeepSeekUsage, Seq<char>> {
    let content = response_content(tree);
    let usage = tree.member("usage"@);
    if content is Null {
        Err("The response format is not valid."@)
    } else if content.is_empty() {
        Err("The response is empty."@)
    } else if usage is Null {
        Err("The response does not contain usage statistics."@)
    } else if usage.is_empty() {
        Err("The usage statistics is empty."@)
    } else if counter(usage.member("completion_tokens"@)) is None {
        Err("The response does not contain completion tokens."@)
    } else if counter(usage.member("prompt_tokens"@)) is None {
        Err("The response does not contain prompt tokens."@)
    } else if counter(usage.member("prompt_cache_hit_tokens"@)) is None {
        Err("The response does not contain prompt cache hit tokens."@)
    } else if counter(usage.member("prompt_cache_miss_tokens"@)) is None {
        Err("The response does not contain prompt cache miss tokens."@)
    } else if counter(usage.member("total_tokens"@)) is None {
        Err("The response does not contain total tokens."@)
    } else {
        Ok(
            DeepSeekUsage {
                completion_tokens: counter(usage.member("completion_tokens"@))->Some_0,
                prompt_tokens: counter(usage.member("prompt_tokens"@))->Some_0,
                prompt_cache_hit_tokens: counter(usage.member("prompt_cache_hit_tokens"@))->Some_0,
                prompt_cache_miss_tokens: counter(
                    usage.member("prompt_cache_miss_tokens"@),
                )->Some_0,
                total_tokens: counter(usage.member("total_tokens"@))->Some_0,
            },
        )
    }
}

/// The error of a key that its source did not give.
pub open spec fn key_error(message: Seq<char>) -> DeepSeekErrorView {
    DeepSeekErrorView { error_type: DeepSeekErrorType::ApiKeyError, message }
}

/// A client or an error, by what it holds.
pub open spec fn client_view(result: DeepSeekResult<DeepSeekClient>) -> Result<
    ClientModel,
    DeepSeekErrorView,
> {
    match result {
        Ok(client) => Ok(client@),
        Err(error) => Err(error@),
    }
}

impl ClientModel {
    /// What is handed back for a key from a source: the client with the
    /// key as the source gave it, or, where the source gave none, the error
    /// with the message of that source.
    pub open spec fn with_key_from(self, key: Option<Seq<char>>, missing: Seq<char>) -> Result<
        ClientModel,
        DeepSeekErrorView,
    > {
        match key {
            Some(text) => Ok(ClientModel { api_key: Some(text), ..self }),
            None => Err(key_error(missing)),
        }
    }
}

/// The error of a response that lacks something.
pub open spec fn response_error(message: Seq<char>) -> DeepSeekErrorView {
    DeepSeekErrorView { error_type: DeepSeekErrorType::ResponseError, message }
}

/// The error of a request that failed.
pub open spec fn request_error(message: Seq<char>) -> DeepSeekErrorView {
    DeepSeekErrorView { error_type: DeepSeekErrorType::RequestError, message }
}

/// What is handed back for a response: the response itself where it is
/// complete, else the error that says what it lacks.
pub open spec fn response_result(tree: JsonModel) -> Result<JsonModel, DeepSeekErrorView> {
    match usage_verdict(tree) {
        Ok(_) => Ok(tree),
        Err(message) => Err(response_error(message)),
    }
}

/// What the service says went wrong, as far as the body of its response
/// tells: the message of the error in a body that is JSON.
pub open spec fn failure_detail(body: Result<Seq<char>, Seq<char>>) -> Seq<char> {
    match body {
        Ok(content) => match read_result(content) {
            Ok(tree) => json_display(tree.member("error"@).member("message"@)),
            Err(_) => "Failed to parse error message"@,
        },
        Err(_) => "Failed to read error message"@,
    }
}

/// The payload that an outcome delivers: the JSON of the body of a response
/// with a status of success, or the error of the request.
pub open spec fn delivered(outcome: HttpOutcomeView) -> Result<JsonModel, DeepSeekErrorView> {
    match outcome {
        HttpOutcomeView::NotSent => Err(request_error("Failed to send request."@)),
        HttpOutcomeView::Response(response) => if !response.is_success() {
            Err(
                request_error(
                    "Request failed with status: "@ + response.status_text + ", "@
                        + failure_detail(response.body),
                ),
            )
        } else {
            match response.body {
                Err(reason) => Err(request_error("Failed to read response text. "@ + reason)),
                Ok(content) => match read_result(content) {
                    Err(reason) => Err(
                        request_error("Failed to parse response text. "@ + reason),
                    ),
                    Ok(tree) => Ok(tree),
                },
            }
        },
    }
}

/// What is handed back for an outcome.
pub open spec fn outcome_result(outcome: HttpOutcomeView) -> Result<JsonModel, DeepSeekErrorView> {
    match delivered(outcome) {
        Ok(tree) => response_result(tree),
        Err(error) => Err(error),
    }
}

/// A request or an error of the client, by what it holds.
pub open spec fn request_view(result: DeepSeekResult<HttpRequest>) -> Result<
    HttpRequestView,
    DeepSeekErrorView,
> {
    match result {
        Ok(request) => Ok(request@),
        Err(error) => Err(error@),
    }
}

/// A payload or an error of the client, by what it holds.
pub open spec fn payload_view(result: DeepSeekResult<json::JsonValue>) -> Result<
    JsonModel,
    DeepSeekErrorView,
> {
    match result {
        Ok(value) => Ok(json_tree(value)),
        Err(error) => Err(error@),
    }
}

impl ClientModel {
    /// The client after a response: where the response is complete, its
    /// counts are the last usage and are added to the total. Else nothing
    /// changes.
    pub open spec fn after_response(self, tree: JsonModel) -> ClientModel {
        match usage_verdict(tree) {
            Ok(usage) => ClientModel {
                last_usage: usage,
                total_usage: self.total_usage.plus(usage),
                ..self
            },
            Err(_) => self,
        }
    }

    /// The client after an outcome: a payload that is delivered counts as a
    /// response, and nothing changes without one.
    pub open spec fn after_outcome(self, outcome: HttpOutcomeView) -> ClientModel {
        match delivered(outcome) {
            Ok(tree) => self.after_response(tree),
            Err(_) => self,
        }
    }
}

/// The count under a key of the usage statistics.
fn read_counter(usage: &json::JsonValue, key: &str) -> (count: Option<i64>)
    ensures
        count == counter(json_tree(*usage).member(key@)),
{
    match number_parts(member(usage, key)) {
        Some(parts) => parts.as_plain_integer(),
        None => None,
    }
}

/// The error of a response that lacks something.
fn incomplete(message: &str) -> (error: DeepSeekError)
    ensures
        error@ == response_error(message@),
{
    DeepSeekError::new(DeepSeekErrorType::ResponseError, String::from_str(message))
}

/// The error of a request that failed, with a message in two parts.
fn failed(head: &str, tail: &str) -> (error: DeepSeekError)
    ensures
        error@ == request_error(head@ + tail@),
{
    let mut message = String::from_str(head);
    message.append(tail);
    DeepSeekError::new(DeepSeekErrorType::RequestError, message)
}

/// A client with a numeric option outside its range is not valid: it has
/// no request for any conversation, only the error that says so.
pub proof fn lemma_out_of_range_is_refused(client: ClientModel, history: Seq<ChatView>)
    requires
        !penalty_in_range(client.frequency_penalty) || !max_tokens_in_range(client.max_tokens)
            || !penalty_in_range(client.presence_penalty) || !temperature_in_range(
            client.temperature,
        ) || !top_p_in_range(client.top_p),
    ensures
        !client.valid(),
        client.send_result(history) == Err::<HttpRequestView, DeepSeekErrorView>(
            invalid_parameters(),
        ),
{
}

/// A client without a key is not valid: it has no request for any
/// conversation, only the error that says so.
pub proof fn lemma_no_key_is_refused(client: ClientModel, history: Seq<ChatView>)
    requires
        client.api_key is None,
    ensures
        !client.valid(),
        client.send_result(history) == Err::<HttpRequestView, DeepSeekErrorView>(
            invalid_parameters(),
        ),
{
}

/// A number of top tokens without log probabilities makes a client invalid;
/// with log probabilities, any number of top tokens is allowed.
pub proof fn lemma_top_logprobs_needs_logprobs(client: ClientModel)
    ensures
        client.top_logprobs is Some && !client.logprobs ==> !client.valid(),
        client.logprobs ==> client.top_logprobs_allowed(),
{
}

/// Options of streaming make a client invalid unless its answers are
/// streamed: a stream that is unset counts as not streamed.
pub proof fn lemma_stream_option_needs_stream(client: ClientModel)
    ensures
        client.stream_option is Some && !client.effective_stream() ==> !client.valid(),
        client.stream_option is Some && client.stream is None ==> !client.valid(),
{
}

/// Adding usages is associative.
pub proof fn lemma_usage_sum_associative(a: DeepSeekUsage, b: DeepSeekUsage, c: DeepSeekUsage)
    ensures
        a.plus(b).plus(c) == a.plus(b.plus(c)),
{
}

/// Adding usages is commutative.
pub proof fn lemma_usage_sum_commutative(a: DeepSeekUsage, b: DeepSeekUsage)
    ensures
        a.plus(b) == b.plus(a),
{
}

/// The usage of no call is neutral in a sum, on either side.
pub proof fn lemma_usage_sum_identity(a: DeepSeekUsage)
    ensures
        a.plus(DeepSeekUsage::zero()) == a,
        DeepSeekUsage::zero().plus(a) == a,
{
}

/// Where no count leaves the range of 64 bits, the sum of two usages is the
/// sum of their counts.
pub proof fn lemma_usage_sum_exact(a: DeepSeekUsage, b: DeepSeekUsage)
    requires
        i64::MIN <= a.completion_tokens + b.completion_tokens <= i64::MAX,
        i64::MIN <= a.prompt_tokens + b.prompt_tokens <= i64::MAX,
        i64::MIN <= a.prompt_cache_hit_tokens + b.prompt_cache_hit_tokens <= i64::MAX,
        i64::MIN <= a.prompt_cache_miss_tokens + b.prompt_cache_miss_tokens <= i64::MAX,
        i64::MIN <= a.total_tokens + b.total_tokens <= i64::MAX,
    ensures
        a.plus(b).completion_tokens == a.completion_tokens + b.completion_tokens,
        a.plus(b).prompt_tokens == a.prompt_tokens + b.prompt_tokens,
        a.plus(b).prompt_cache_hit_tokens == a.prompt_cache_hit_tokens
            + b.prompt_cache_hit_tokens,
        a.plus(b).prompt_cache_miss_tokens == a.prompt_cache_miss_tokens
            + b.prompt_cache_miss_tokens,
        a.plus(b).total_tokens == a.total_tokens + b.total_tokens,
{
}

/// A response without usage statistics is an error of the response, and
/// leaves the client as it is, its usage too.
pub proof fn lemma_missing_usage_changes_nothing(client: ClientModel, tree: JsonModel)
    requires
        tree.member("usage"@) is Null,
    ensures
        response_result(tree) is Err,
        response_result(tree)->Err_0.error_type == DeepSeekErrorType::ResponseError,
        client.after_response(tree) == client,
{
}

/// The keys of a request body differ from each other.
proof fn lemma_request_keys()
    ensures
        "messages"@.len() == 8,
        "model"@.len() == 5,
        "frequency_penalty"@.len() == 17,
        "max_tokens"@.len() == 10,
        "presence_penalty"@.len() == 16,
        "response_format"@.len() == 15,
        "stop"@.len() == 4,
        "stream"@.len() == 6,
        "stream_options"@.len() == 14,
        "temperature"@.len() == 11,
        "top_p"@.len() == 5,
        "tools"@.len() == 5,
        "tool_choice"@.len() == 11,
        "logprobs"@.len() == 8,
        "top_logprobs"@.len() == 12,
        "messages"@[0] == 'm',
        "logprobs"@[0] == 'l',
        "model"@[0] == 'm',
        "top_p"@[0] == 't',
        "tools"@[0] == 't',
        "top_p"@[2] == 'p',
        "tools"@[2] == 'o',
        "temperature"@[1] == 'e',
        "tool_choice"@[1] == 'o',
{
    reveal_strlit("messages");
    reveal_strlit("model");
    reveal_strlit("frequency_penalty");
    reveal_strlit("max_tokens");
    reveal_strlit("presence_penalty");
    reveal_strlit("response_format");
    reveal_strlit("stop");
    reveal_strlit("stream");
    reveal_strlit("stream_options");
    reveal_strlit("temperature");
    reveal_strlit("top_p");
    reveal_strlit("tools");
    reveal_strlit("tool_choice");
    reveal_strlit("logprobs");
    reveal_strlit("top_logprobs");
}

/// Gives a key that the object does not have yet a value: the entry comes
/// last.
fn append_entry(object: &mut json::JsonValue, key: &str, value: json::JsonValue)
    requires
        json_tree(*old(object)) is Object,
        !has_key(json_tree(*old(object))->Object_0, key@),
    ensures
        json_tree(*final(object)) == JsonModel::Object(
            json_tree(*old(object))->Object_0.push((key@, json_tree(value))),
        ),
{
    insert(object, key, value);
}

/// The object with one entry.
fn single_entry(key: &str, value: json::JsonValue) -> (object: json::JsonValue)
    ensures
        json_tree(object) == JsonModel::Object(Seq::empty().push((key@, json_tree(value)))),
{
    let mut object = new_object();
    assert(!has_key(Seq::<(Seq<char>, JsonModel)>::empty(), key@));
    append_entry(&mut object, key, value);
    object
}

/// The JSON value of a number.
fn number_value(parts: Decimal) -> (value: json::JsonValue)
    ensures
        json_tree(value) == number_tree(parts),
{
    number(parts)
}

/// The JSON value of an integer.
fn integer_value(count: i32) -> (value: json::JsonValue)
    ensures
        json_tree(value) == number_tree(Decimal::of_integer(count as int)),
{
    number(Decimal::from_integer(count as i64))
}

/// The client of the service.
#[derive(Debug)]
pub struct DeepSeekClient {
    url: String,
    api_key: Option<String>,
    model: DeepSeekModel,
    frequency_penalty: Option<Decimal>,
    max_tokens: Option<i32>,
    presence_penalty: Option<Decimal>,
    response_format: Option<ResponseFormat>,
    stream: Option<bool>,
    stream_option: Option<StreamOption>,
    temperature: Option<Decimal>,
    top_p: Option<Decimal>,
    logprobs: bool,
    top_logprobs: Option<i32>,
    total_usage: DeepSeekUsage,
    last_usage: DeepSeekUsage,
}

impl View for DeepSeekClient {
    type V = ClientModel;

    closed spec fn view(&self) -> ClientModel {
        ClientModel {
            url: self.url@,
            api_key: match self.api_key {
                Some(key) => Some(key@),
                None => None,
            },
            model: self.model,
            frequency_penalty: self.frequency_penalty,
            max_tokens: self.max_tokens,
            presence_penalty: self.presence_penalty,
            response_format: self.response_format,
            stream: self.stream,
            stream_option: self.stream_option,
            temperature: self.temperature,
            top_p: self.top_p,
            logprobs: self.logprobs,
            top_logprobs: self.top_logprobs,
            total_usage: self.total_usage,
            last_usage: self.last_usage,
        }
    }
}

impl Clone for DeepSeekClient {
    /// A client that holds the same.
    fn clone(&self) -> (client: DeepSeekClient)
        ensures
            client@ == self@,
    {
        DeepSeekClient {
            url: self.url.clone(),
            api_key: match &self.api_key {
                Some(key) => Some(key.clone()),
                None => None,
            },
            model: self.model,
            frequency_penalty: self.frequency_penalty,
            max_tokens: self.max_tokens,
            presence_penalty: self.presence_penalty,
            response_format: self.response_format,
            stream: self.stream,
            stream_option: self.stream_option,
            temperature: self.temperature,
            top_p: self.top_p,
            logprobs: self.logprobs,
            top_logprobs: self.top_logprobs,
            total_usage: self.total_usage,
            last_usage: self.last_usage,
        }
    }
}

impl DeepSeekClient {
    /// The client for the given address and model, with nothing else set
    /// and nothing used.
    pub fn new(url: &str, model: DeepSeekModel) -> (client: DeepSeekClient)
        ensures
            client@ == (ClientModel {
                url: url@,
                api_key: None,
                model,
                frequency_penalty: None,
                max_tokens: None,
                presence_penalty: None,
                response_format: None,
                stream: None,
                stream_option: None,
                temperature: None,
                top_p: None,
                logprobs: false,
                top_logprobs: None,
                total_usage: DeepSeekUsage::zero(),
                last_usage: DeepSeekUsage::zero(),
            }),
    {
        DeepSeekClient {
            url: String::from_str(url),
            api_key: None,
            model,
            frequency_penalty: None,
            max_tokens: None,
            presence_penalty: None,
            response_format: None,
            stream: None,
            stream_option: None,
            temperature: None,
            top_p: None,
            logprobs: false,
            top_logprobs: None,
            total_usage: DeepSeekUsage::new(),
            last_usage: DeepSeekUsage::new(),
        }
    }

    /// The request that is to be posted for the conversation, if the
    /// parameters are valid. If they are not, there is no request, and so
    /// nothing to send.
    pub fn send_request(&self, chats: &Vec<Chat>) -> (r: DeepSeekResult<HttpRequest>)
        ensures
            request_view(r) == self@.send_result(turns(chats@)),
    {
        match &self.api_key {
            Some(key) => {
                if !self.check_params() {
                    return Err(
                        DeepSeekError::new(
                            DeepSeekErrorType::RequestParamError,
                            String::from_str("The parameters are not valid."),
                        ),
                    );
                }
                let body = self.into_request_string(Self::chats_to_json(chats));
                let mut authorization = String::from_str("Bearer ");
                authorization.append(key.as_str());
                Ok(
                    HttpRequest {
                        url: self.url.clone(),
                        content_type: String::from_str("application/json"),
                        authorization,
                        body,
                    },
                )
            },
            None => Err(
                DeepSeekError::new(
                    DeepSeekErrorType::RequestParamError,
                    String::from_str("The parameters are not valid."),
                ),
            ),
        }
    }

    /// Takes what came of posting a request: an outcome that delivers a
    /// complete response updates the usage and hands the response back;
    /// every other outcome is an error and changes nothing.
    pub fn receive_response(&mut self, outcome: HttpOutcome) -> (r: DeepSeekResult<json::JsonValue>)
        ensures
            final(self)@ == old(self)@.after_outcome(outcome@),
            payload_view(r) == outcome_result(outcome@),
    {
        match Self::payload_of(outcome) {
            Ok(response) => self.accept_response(response),
            Err(error) => Err(error),
        }
    }

    /// The payload that an outcome delivers, or the error of the request.
    pub fn payload_of(outcome: HttpOutcome) -> (r: DeepSeekResult<json::JsonValue>)
        ensures
            payload_view(r) == delivered(outcome@),
    {
        match outcome {
            HttpOutcome::NotSent => Err(
                DeepSeekError::new(
                    DeepSeekErrorType::RequestError,
                    String::from_str("Failed to send request."),
                ),
            ),
            HttpOutcome::Response(response) => {
                if !response.is_success() {
                    let detail = match &response.body {
                        Ok(content) => match read_json(content.as_str()) {
                            Ok(value) => display(member(member(&value, "error"), "message")),
                            Err(_) => String::from_str("Failed to parse error message"),
                        },
                        Err(_) => String::from_str("Failed to read error message"),
                    };
                    let mut message = String::from_str("Request failed with status: ");
                    message.append(response.status_text.as_str());
                    message.append(", ");
                    message.append(detail.as_str());
                    Err(DeepSeekError::new(DeepSeekErrorType::RequestError, message))
                } else {
                    match &response.body {
                        Err(reason) => Err(
                            failed("Failed to read response text. ", reason.as_str()),
                        ),
                        Ok(content) => match read_json(content.as_str()) {
                            Err(reason) => Err(
                                failed("Failed to parse response text. ", reason.as_str()),
                            ),
                            Ok(value) => Ok(value),
                        },
                    }
                }
            },
        }
    }

    /// Takes a response of the service. Where it holds a message with
    /// content and the five counts of usage, the counts become the last
    /// usage and are added to the total, and the response is handed back.
    /// Else the client stays as it is, and the error says what is missing.
    pub fn accept_response(&mut self, response: json::JsonValue) -> (r: DeepSeekResult<
        json::JsonValue,
    >)
        ensures
            final(self)@ == old(self)@.after_response(json_tree(response)),
            payload_view(r) == response_result(json_tree(response)),
    {
        match Self::read_usage(&response) {
            Ok(usage) => {
                self.last_usage = usage;
                self.total_usage = self.total_usage + usage;
                Ok(response)
            },
            Err(error) => Err(error),
        }
    }

    /// What a response says of usage: the five counts, or the error that
    /// says what is wrong with the response.
    pub fn read_usage(response: &json::JsonValue) -> (r: DeepSeekResult<DeepSeekUsage>)
        ensures
            match r {
                Ok(usage) => usage_verdict(json_tree(*response)) == Ok::<
                    DeepSeekUsage,
                    Seq<char>,
                >(usage),
                Err(error) => usage_verdict(json_tree(*response)) == Err::<
                    DeepSeekUsage,
                    Seq<char>,
                >(error@.message) && error@.error_type == DeepSeekErrorType::ResponseError,
            },
    {
        let content = member(
            member(element(member(response, "choices"), 0), "message"),
            "content",
        );
        if is_null(content) {
            return Err(incomplete("The response format is not valid."));
        }
        if is_empty(content) {
            return Err(incomplete("The response is empty."));
        }
        let usage = member(response, "usage");
        if is_null(usage) {
            return Err(incomplete("The response does not contain usage statistics."));
        }
        if is_empty(usage) {
            return Err(incomplete("The usage statistics is empty."));
        }
        let completion_tokens = match read_counter(usage, "completion_tokens") {
            Some(count) => count,
            None => {
                return Err(incomplete("The response does not contain completion tokens."));
            },
        };
        let prompt_tokens = match read_counter(usage, "prompt_tokens") {
            Some(count) => count,
            None => {
                return Err(incomplete("The response does not contain prompt tokens."));
            },
        };
        let prompt_cache_hit_tokens = match read_counter(usage, "prompt_cache_hit_tokens") {
            Some(count) => count,
            None => {
                return Err(incomplete("The response does not contain prompt cache hit tokens."));
            },
        };
        let prompt_cache_miss_tokens = match read_counter(usage, "prompt_cache_miss_tokens") {
            Some(count) => count,
            None => {
                return Err(
                    incomplete("The response does not contain prompt cache miss tokens."),
                );
            },
        };
        let total_tokens = match read_counter(usage, "total_tokens") {
            Some(count) => count,
            None => {
                return Err(incomplete("The response does not contain total tokens."));
            },
        };
        Ok(
            DeepSeekUsage {
                completion_tokens,
                prompt_tokens,
                prompt_cache_hit_tokens,
                prompt_cache_miss_tokens,
                total_tokens,
            },
        )
    }

    /// The conversation as JSON: the array of its turns.
    pub fn chats_to_json(chats: &Vec<Chat>) -> (messages: json::JsonValue)
        ensures
            json_tree(messages) == messages_tree(turns(chats@)),
    {
        let mut items: Vec<json::JsonValue> = Vec::new();
        let mut done: usize = 0;
        while done < chats.len()
            invariant
                done <= chats.len(),
                items@.len() == done,
                forall|i: int|
                    0 <= i < done ==> json_tree(#[trigger] items@[i]) == chat_tree(chats@[i]@),
            decreases chats.len() - done,
        {
            let chat = &chats[done];
            let mut entry = single_entry("content", text(chat.content().clone()));
            proof {
                reveal_strlit("content");
                reveal_strlit("role");
                assert("content"@.len() != "role"@.len());
            }
            append_entry(&mut entry, "role", text(chat.role().clone()));
            items.push(entry);
            done = done + 1;
        }
        let messages = array(items);
        assert(json_trees(items@) =~= Seq::new(
            turns(chats@).len(),
            |i: int| chat_tree(turns(chats@)[i]),
        ));
        messages
    }

    /// The body of the request with the given messages, as compact JSON
    /// text. An option that is not set is sent with its default.
    pub fn into_request_string(&self, msg: json::JsonValue) -> (body: String)
        ensures
            body@ == json_dump(self@.request_body(json_tree(msg))),
    {
        proof {
            lemma_request_keys();
        }
        let mut object = single_entry("messages", msg);
        append_entry(&mut object, "model", text(self.model.to_string()));
        append_entry(
            &mut object,
            "frequency_penalty",
            number_value(
                match self.frequency_penalty {
                    Some(number) => number,
                    None => Self::default_frequency_panalty(),
                },
            ),
        );
        append_entry(
            &mut object,
            "max_tokens",
            integer_value(
                match self.max_tokens {
                    Some(limit) => limit,
                    None => Self::default_max_tokens(),
                },
            ),
        );
        append_entry(
            &mut object,
            "presence_penalty",
            number_value(
                match self.presence_penalty {
                    Some(number) => number,
                    None => Self::default_presence_penalty(),
                },
            ),
        );
        let format = match self.response_format {
            Some(format) => format,
            None => Self::default_response_format(),
        };
        append_entry(&mut object, "response_format", single_entry("type", text(format.to_string())));
        append_entry(&mut object, "stop", null());
        append_entry(
            &mut object,
            "stream",
            boolean(
                match self.stream {
                    Some(stream) => stream,
                    None => Self::default_stream(),
                },
            ),
        );
        append_entry(
            &mut object,
            "stream_options",
            match self.stream_option {
                Some(option) => single_entry("include_usage", boolean(option.include_usage)),
                None => null(),
            },
        );
        append_entry(
            &mut object,
            "temperature",
            number_value(
                match self.temperature {
                    Some(number) => number,
                    None => Self::default_temperature(),
                },
            ),
        );
        append_entry(
            &mut object,
            "top_p",
            number_value(
                match self.top_p {
                    Some(number) => number,
                    None => Self::default_top_p(),
                },
            ),
        );
        append_entry(&mut object, "tools", null());
        append_entry(&mut object, "tool_choice", text(String::from_str("none")));
        append_entry(&mut object, "logprobs", boolean(self.logprobs));
        append_entry(
            &mut object,
            "top_logprobs",
            match self.top_logprobs {
                Some(count) => integer_value(count),
                None => null(),
            },
        );
        dump(&object)
    }

    /// The frequency penalty that is sent where none is set: 0.
    pub fn default_frequency_panalty() -> (number: Decimal)
        ensures
            number == (Decimal { positive: true, mantissa: 0, exponent: 0 }),
    {
        Decimal { positive: true, mantissa: 0, exponent: 0 }
    }

    /// The limit of tokens that is sent where none is set: 4096.
    pub fn default_max_tokens() -> (limit: i32)
        ensures
            limit == 4096,
    {
        4096
    }

    /// The presence penalty that is sent where none is set: 0.
    pub fn default_presence_penalty() -> (number: Decimal)
        ensures
            number == (Decimal { positive: true, mantissa: 0, exponent: 0 }),
    {
        Decimal { positive: true, mantissa: 0, exponent: 0 }
    }

    /// The format that is sent where none is set: text.
    pub fn default_response_format() -> (format: ResponseFormat)
        ensures
            format == ResponseFormat::Text,
    {
        ResponseFormat::Text
    }

    /// The temperature that is sent where none is set: 1.
    pub fn default_temperature() -> (number: Decimal)
        ensures
            number == (Decimal { positive: true, mantissa: 1, exponent: 0 }),
    {
        Decimal { positive: true, mantissa: 1, exponent: 0 }
    }

    /// The nucleus mass that is sent where none is set: 1.
    pub fn default_top_p() -> (number: Decimal)
        ensures
            number == (Decimal { positive: true, mantissa: 1, exponent: 0 }),
    {
        Decimal { positive: true, mantissa: 1, exponent: 0 }
    }

    /// The client with the key that the environment variable
    /// [`API_KEY_VARIABLE`] holds. `value` is what the environment gave for
    /// it: the key, kept as it is, or nothing, which is an error.
    pub fn api_key_from_env(self, value: Option<String>) -> (r: DeepSeekResult<Self>)
        ensures
            client_view(r) == self@.with_key_from(
                match value {
                    Some(key) => Some(key@),
                    None => None,
                },
                "Environment variable API_KEY not found."@,
            ),
    {
        match value {
            Some(key) => {
                let mut client = self;
                client.api_key = Some(key);
                Ok(client)
            },
            None => Err(
                DeepSeekError::new(
                    DeepSeekErrorType::ApiKeyError,
                    String::from_str("Environment variable API_KEY not found."),
                ),
            ),
        }
    }

    /// The client with the key that a file holds. `content` is what reading
    /// the file gave: its text, kept as it stands there, or nothing, which
    /// is an error.
    pub fn api_key_from_file(self, content: Option<String>) -> (r: DeepSeekResult<Self>)
        ensures
            client_view(r) == self@.with_key_from(
                match content {
                    Some(key) => Some(key@),
                    None => None,
                },
                "Can't read the api key file."@,
            ),
    {
        match content {
            Some(key) => {
                let mut client = self;
                client.api_key = Some(key);
                Ok(client)
            },
            None => Err(
                DeepSeekError::new(
                    DeepSeekErrorType::ApiKeyError,
                    String::from_str("Can't read the api key file."),
                ),
            ),
        }
    }

    /// The address that requests go to.
    pub fn get_url(&self) -> (url: &str)
        ensures
            url@ == self@.url,
    {
        self.url.as_str()
    }

    /// Sets the address that requests go to.
    pub fn set_url(&mut self, url: String)
        ensures
            final(self)@ == (ClientModel { url: url@, ..old(self)@ }),
    {
        self.url = url;
    }

    /// The key, if there is one.
    pub fn get_api_key(&self) -> (api_key: Option<&str>)
        ensures
            match api_key {
                Some(key) => self@.api_key == Some(key@),
                None => self@.api_key is None,
            },
    {
        match &self.api_key {
            Some(key) => Some(key.as_str()),
            None => None,
        }
    }

    /// Sets the key, or takes it away.
    pub fn set_api_key(&mut self, api_key: Option<String>)
        ensures
            final(self)@ == (ClientModel {
                api_key: match api_key {
                    Some(key) => Some(key@),
                    None => None,
                },
                ..old(self)@
            }),
    {
        self.api_key = api_key;
    }

    /// The model that is asked.
    pub fn get_model(&self) -> (model: &DeepSeekModel)
        ensures
            *model == self@.model,
    {
        &self.model
    }

    /// Sets the model that is asked.
    pub fn set_model(&mut self, model: DeepSeekModel)
        ensures
            final(self)@ == (ClientModel { model, ..old(self)@ }),
    {
        self.model = model;
    }

    /// The counts of all calls together.
    pub fn get_total_usage(&self) -> (usage: DeepSeekUsage)
        ensures
            usage == self@.total_usage,
    {
        self.total_usage
    }

    /// The counts of the last call that was answered completely.
    pub fn get_last_usage(&self) -> (usage: DeepSeekUsage)
        ensures
            usage == self@.last_usage,
    {
        self.last_usage
    }

    /// The client with the frequency penalty set to the given value, or unset.
    pub fn frequency_panalty(self, frequency_panalty: Option<Decimal>) -> (client: Self)
        ensures
            client@ == (ClientModel { frequency_penalty: frequency_panalty, ..self@ }),
    {
        let mut client = self;
        client.frequency_penalty = frequency_panalty;
        client
    }

    /// What is set for the frequency penalty.
    pub fn get_frequency_panalty(&self) -> (frequency_panalty: Option<Decimal>)
        ensures
            frequency_panalty == self@.frequency_penalty,
    {
        self.frequency_penalty
    }

    /// Sets or unsets the frequency penalty.
    pub fn set_frequency_panalty(&mut self, frequency_panalty: Option<Decimal>)
        ensures
            final(self)@ == (ClientModel { frequency_penalty: frequency_panalty, ..old(self)@ }),
    {
        self.frequency_penalty = frequency_panalty;
    }

    /// The client with the limit of tokens set to the given value, or unset.
    pub fn max_tokens(self, max_tokens: Option<i32>) -> (client: Self)
        ensures
            client@ == (ClientModel { max_tokens: max_tokens, ..self@ }),
    {
        let mut client = self;
        client.max_tokens = max_tokens;
        client
    }

    /// What is set for the limit of tokens.
    pub fn get_max_tokens(&self) -> (max_tokens: Option<i32>)
        ensures
            max_tokens == self@.max_tokens,
    {
        self.max_tokens
    }

    /// Sets or unsets the limit of tokens.
    pub fn set_max_tokens(&mut self, max_tokens: Option<i32>)
        ensures
            final(self)@ == (ClientModel { max_tokens: max_tokens, ..old(self)@ }),
    {
        self.max_tokens = max_tokens;
    }

    /// The client with the presence penalty set to the given value, or unset.
    pub fn presence_penalty(self, presence_penalty: Option<Decimal>) -> (client: Self)
        ensures
            client@ == (ClientModel { presence_penalty: presence_penalty, ..self@ }),
    {
        let mut client = self;
        client.presence_penalty = presence_penalty;
        client
    }

    /// What is set for the presence penalty.
    pub fn get_presence_penalty(&self) -> (presence_penalty: Option<Decimal>)
        ensures
            presence_penalty == self@.presence_penalty,
    {
        self.presence_penalty
    }

    /// Sets or unsets the presence penalty.
    pub fn set_presence_penalty(&mut self, presence_penalty: Option<Decimal>)
        ensures
            final(self)@ == (ClientModel { presence_penalty: presence_penalty, ..old(self)@ }),
    {
        self.presence_penalty = presence_penalty;
    }

    /// The client with the format of the answer set to the given value, or unset.
    pub fn response_format(self, response_format: Option<ResponseFormat>) -> (client: Self)
        ensures
            client@ == (ClientModel { response_format: response_format, ..self@ }),
    {
        let mut client = self;
        client.response_format = response_format;
        client
    }

    /// What is set for the format of the answer.
    pub fn get_response_format(&self) -> (response_format: Option<ResponseFormat>)
        ensures
            response_format == self@.response_format,
    {
        self.response_format
    }

    /// Sets or unsets the format of the answer.
    pub fn set_response_format(&mut self, response_format: Option<ResponseFormat>)
        ensures
            final(self)@ == (ClientModel { response_format: response_format, ..old(self)@ }),
    {
        self.response_format = response_format;
    }

    /// The client with whether answers are streamed set to the given value, or unset.
    pub fn stream(self, stream: Option<bool>) -> (client: Self)
        ensures
            client@ == (ClientModel { stream: stream, ..self@ }),
    {
        let mut client = self;
        client.stream = stream;
        client
    }

    /// What is set for whether answers are streamed.
    pub fn get_stream(&self) -> (stream: Option<bool>)
        ensures
            stream == self@.stream,
    {
        self.stream
    }

    /// Sets or unsets whether answers are streamed.
    pub fn set_stream(&mut self, stream: Option<bool>)
        ensures
            final(self)@ == (ClientModel { stream: stream, ..old(self)@ }),
    {
        self.stream = stream;
    }

    /// The client with the options of streaming set to the given value, or unset.
    pub fn stream_option(self, stream_option: Option<StreamOption>) -> (client: Self)
        ensures
            client@ == (ClientModel { stream_option: stream_option, ..self@ }),
    {
        let mut client = self;
        client.stream_option = stream_option;
        client
    }

    /// What is set for the options of streaming.
    pub fn get_stream_option(&self) -> (stream_option: Option<StreamOption>)
        ensures
            stream_option == self@.stream_option,
    {
        self.stream_option
    }

    /// Sets or unsets the options of streaming.
    pub fn set_stream_option(&mut self, stream_option: Option<StreamOption>)
        ensures
            final(self)@ == (ClientModel { stream_option: stream_option, ..old(self)@ }),
    {
        self.stream_option = stream_option;
    }

    /// The client with the temperature set to the given value, or unset.
    pub fn temperature(self, temperature: Option<Decimal>) -> (client: Self)
        ensures
            client@ == (ClientModel { temperature: temperature, ..self@ }),
    {
        let mut client = self;
        client.temperature = temperature;
        client
    }

    /// What is set for the temperature.
    pub fn get_temperature(&self) -> (temperature: Option<Decimal>)
        ensures
            temperature == self@.temperature,
    {
        self.temperature
    }

    /// Sets or unsets the temperature.
    pub fn set_temperature(&mut self, temperature: Option<Decimal>)
        ensures
            final(self)@ == (ClientModel { temperature: temperature, ..old(self)@ }),
    {
        self.temperature = temperature;
    }

    /// The client with the nucleus mass set to the given value, or unset.
    pub fn top_p(self, top_p: Option<Decimal>) -> (client: Self)
        ensures
            client@ == (ClientModel { top_p: top_p, ..self@ }),
    {
        let mut client = self;
        client.top_p = top_p;
        client
    }

    /// What is set for the nucleus mass.
    pub fn get_top_p(&self) -> (top_p: Option<Decimal>)
        ensures
            top_p == self@.top_p,
    {
        self.top_p
    }

    /// Sets or unsets the nucleus mass.
    pub fn set_top_p(&mut self, top_p: Option<Decimal>)
        ensures
            final(self)@ == (ClientModel { top_p: top_p, ..old(self)@ }),
    {
        self.top_p = top_p;
    }

    /// The client with whether log probabilities are asked for set to the given value.
    pub fn logprobs(self, logprobs: bool) -> (client: Self)
        ensures
            client@ == (ClientModel { logprobs: logprobs, ..self@ }),
    {
        let mut client = self;
        client.logprobs = logprobs;
        client
    }

    /// What is set for whether log probabilities are asked for.
    pub fn get_logprobs(&self) -> (logprobs: bool)
        ensures
            logprobs == self@.logprobs,
    {
        self.logprobs
    }

    /// Sets whether log probabilities are asked for.
    pub fn set_logprobs(&mut self, logprobs: bool)
        ensures
            final(self)@ == (ClientModel { logprobs: logprobs, ..old(self)@ }),
    {
        self.logprobs = logprobs;
    }

    /// The client with the number of top tokens set to the given value, or unset.
    pub fn top_logprobs(self, top_logprobs: Option<i32>) -> (client: Self)
        ensures
            client@ == (ClientModel { top_logprobs: top_logprobs, ..self@ }),
    {
        let mut client = self;
        client.top_logprobs = top_logprobs;
        client
    }

    /// What is set for the number of top tokens.
    pub fn get_top_logprobs(&self) -> (top_logprobs: Option<i32>)
        ensures
            top_logprobs == self@.top_logprobs,
    {
        self.top_logprobs
    }

    /// Sets or unsets the number of top tokens.
    pub fn set_top_logprobs(&mut self, top_logprobs: Option<i32>)
        ensures
            final(self)@ == (ClientModel { top_logprobs: top_logprobs, ..old(self)@ }),
    {
        self.top_logprobs = top_logprobs;
    }

    /// Whether the frequency penalty, if set, lies between -2 and 2.
    pub fn check_frequency_panalty(&self) -> (ok: bool)
        ensures
            ok == penalty_in_range(self@.frequency_penalty),
    {
        match self.frequency_penalty {
            Some(number) => number.is_between(-2, 2),
            None => true,
        }
    }

    /// Whether the limit of tokens, if set, lies between 1 and 8192.
    pub fn check_max_tokens(&self) -> (ok: bool)
        ensures
            ok == max_tokens_in_range(self@.max_tokens),
    {
        match self.max_tokens {
            Some(limit) => 1 <= limit && limit <= 8192,
            None => true,
        }
    }

    /// Whether the presence penalty, if set, lies between -2 and 2.
    pub fn check_presence_penalty(&self) -> (ok: bool)
        ensures
            ok == penalty_in_range(self@.presence_penalty),
    {
        match self.presence_penalty {
            Some(number) => number.is_between(-2, 2),
            None => true,
        }
    }

    /// Whether no options of streaming are set, or answers are streamed.
    pub fn check_stream_option(&self) -> (ok: bool)
        ensures
            ok == self@.stream_option_allowed(),
    {
        self.stream_option.is_none() || match self.stream {
            Some(stream) => stream,
            None => Self::default_stream(),
        }
    }

    /// Whether the temperature, if set, lies between 0 and 2.
    pub fn check_temperature(&self) -> (ok: bool)
        ensures
            ok == temperature_in_range(self@.temperature),
    {
        match self.temperature {
            Some(number) => number.is_between(0, 2),
            None => true,
        }
    }

    /// Whether the nucleus mass, if set, lies between 0 and 1.
    pub fn check_top_p(&self) -> (ok: bool)
        ensures
            ok == top_p_in_range(self@.top_p),
    {
        match self.top_p {
            Some(number) => number.is_between(0, 1),
            None => true,
        }
    }

    /// Whether log probabilities are asked for, or no number of top tokens
    /// is set.
    pub fn check_top_logprobs(&self) -> (ok: bool)
        ensures
            ok == self@.top_logprobs_allowed(),
    {
        self.logprobs || self.top_logprobs.is_none()
    }

    /// Whether a request may be sent.
    pub fn check_params(&self) -> (ok: bool)
        ensures
            ok == self@.valid(),
    {
        self.check_frequency_panalty() && self.check_max_tokens() && self.check_presence_penalty()
            && self.check_stream_option() && self.check_temperature() && self.check_top_p()
            && self.check_top_logprobs() && self.api_key.is_some()
    }

    /// Whether answers are streamed where nothing is set: they are not.
    pub fn default_stream() -> (stream: bool)
        ensures
            !stream,
    {
        false
    }
}

} // verus!
