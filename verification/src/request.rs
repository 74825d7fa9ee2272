//! The request that is made for a diff: the JSON body that asks for a commit
//! message, and the POST that carries it.

use crate::config::{check_config, first_fault, ConfigError, ProviderConfig, ProviderConfigView};
use crate::json;
use crate::json::{json_text, json_tree, json_trees, JsonTree};
use vstd::prelude::*;

verus! {

/// The most tokens that a provider is asked to generate.
pub const MAX_TOKENS: u64 = 200;

/// The seconds after which the caller gives a request up.
pub const TIMEOUT_SECS: u64 = 20;

/// What a provider is asked: the instruction, the diff, and the limits.
#[derive(Clone, Debug)]
pub struct GenerationRequest {
    pub model: String,
    pub system_prompt: String,
    pub user_content: String,
    pub max_tokens: u64,
    pub stream: bool,
}

/// A `GenerationRequest` as a mathematical value.
pub struct GenerationRequestView {
    pub model: Seq<char>,
    pub system_prompt: Seq<char>,
    pub user_content: Seq<char>,
    pub max_tokens: nat,
    pub stream: bool,
}

impl View for GenerationRequest {
    type V = GenerationRequestView;

    open spec fn view(&self) -> GenerationRequestView {
        GenerationRequestView {
            model: self.model@,
            system_prompt: self.system_prompt@,
            user_content: self.user_content@,
            max_tokens: self.max_tokens as nat,
            stream: self.stream,
        }
    }
}

/// The JSON object of one chat message.
pub open spec fn message_tree(role: Seq<char>, content: Seq<char>) -> JsonTree {
    JsonTree::Object(map!["role"@ => JsonTree::Text(role), "content"@ => JsonTree::Text(content)])
}

/// The request that asks `model` for a message on `diff` under the
/// instruction `prompt`, with the limits of this crate.
pub open spec fn generation_for(
    model: Seq<char>,
    prompt: Seq<char>,
    diff: Seq<char>,
) -> GenerationRequestView {
    GenerationRequestView {
        model,
        system_prompt: prompt,
        user_content: diff,
        max_tokens: MAX_TOKENS as nat,
        stream: false,
    }
}

impl GenerationRequestView {
    /// The messages of the request: the instruction as `system`, then the
    /// diff as `user`.
    pub open spec fn messages(self) -> Seq<JsonTree> {
        seq![message_tree("system"@, self.system_prompt), message_tree("user"@, self.user_content)]
    }

    /// The JSON document of the request.
    pub open spec fn tree(self) -> JsonTree {
        JsonTree::Object(
            map![
                "model"@ => JsonTree::Text(self.model),
                "stream_options"@ => JsonTree::Null,
                "max_tokens"@ => JsonTree::Integer(self.max_tokens as int),
                "messages"@ => JsonTree::Array(self.messages()),
                "stream"@ => JsonTree::Boolean(self.stream),
            ],
        )
    }
}

/// A chat message holds its role and its content, and nothing else.
pub proof fn lemma_message_members(role: Seq<char>, content: Seq<char>)
    ensures
        message_tree(role, content).member("role"@) == JsonTree::Text(role),
        message_tree(role, content).member("content"@) == JsonTree::Text(content),
        message_tree(role, content) matches JsonTree::Object(members) && members.dom() =~= set![
            "role"@,
            "content"@,
        ],
{
    reveal_strlit("role");
    reveal_strlit("content");
    assert("role"@ != "content"@) by {
        assert("role"@.len() != "content"@.len());
    }
}

/// The document of a request names the model, and its messages are exactly
/// two: the instruction under the role `system`, then the diff under the role
/// `user`. Besides them it holds the limits and nothing else.
pub proof fn lemma_request_members(request: GenerationRequestView)
    ensures
        request.tree().member("model"@) == JsonTree::Text(request.model),
        request.tree().member("messages"@) == JsonTree::Array(request.messages()),
        request.messages().len() == 2,
        request.messages()[0].member("role"@) == JsonTree::Text("system"@),
        request.messages()[0].member("content"@) == JsonTree::Text(request.system_prompt),
        request.messages()[1].member("role"@) == JsonTree::Text("user"@),
        request.messages()[1].member("content"@) == JsonTree::Text(request.user_content),
        request.tree().member("max_tokens"@) == JsonTree::Integer(request.max_tokens as int),
        request.tree().member("stream"@) == JsonTree::Boolean(request.stream),
        request.tree().member("stream_options"@) == JsonTree::Null,
        request.tree() matches JsonTree::Object(members) && members.dom() =~= set![
            "model"@,
            "stream_options"@,
            "max_tokens"@,
            "messages"@,
            "stream"@,
        ],
{
    reveal_strlit("model");
    reveal_strlit("stream_options");
    reveal_strlit("max_tokens");
    reveal_strlit("messages");
    reveal_strlit("stream");
    assert("model"@.len() == 5);
    assert("stream_options"@.len() == 14);
    assert("max_tokens"@.len() == 10);
    assert("messages"@.len() == 8);
    assert("stream"@.len() == 6);
    lemma_message_members("system"@, request.system_prompt);
    lemma_message_members("user"@, request.user_content);
}

/// The JSON object of one chat message, as `serde_json` holds it.
fn message_value(role: &str, content: &str) -> (r: serde_json::Value)
    ensures
        json_tree(r) == message_tree(role@, content@),
{
    let mut members = json::no_members();
    json::put(&mut members, "role", json::text(role));
    json::put(&mut members, "content", json::text(content));
    json::object(members)
}

impl GenerationRequest {
    /// The request that asks `model` for a message on `diff` under the
    /// instruction `prompt`.
    pub fn new(model: &str, prompt: &str, diff: &str) -> (r: GenerationRequest)
        ensures
            r@ == generation_for(model@, prompt@, diff@),
    {
        GenerationRequest {
            model: model.to_owned(),
            system_prompt: prompt.to_owned(),
            user_content: diff.to_owned(),
            max_tokens: MAX_TOKENS,
            stream: false,
        }
    }

    /// The JSON document of the request, as `serde_json` holds it.
    fn value(&self) -> (r: serde_json::Value)
        ensures
            json_tree(r) == self@.tree(),
    {
        let mut messages: Vec<serde_json::Value> = Vec::new();
        messages.push(message_value("system", self.system_prompt.as_str()));
        messages.push(message_value("user", self.user_content.as_str()));
        assert(json_trees(messages@) =~= self@.messages());
        let mut members = json::no_members();
        json::put(&mut members, "model", json::text(self.model.as_str()));
        json::put(&mut members, "stream_options", json::null());
        json::put(&mut members, "max_tokens", json::integer(self.max_tokens));
        json::put(&mut members, "messages", json::array(messages));
        json::put(&mut members, "stream", json::boolean(self.stream));
        json::object(members)
    }

    /// The body that is sent: the JSON text of the request.
    pub fn body(&self) -> (r: String)
        ensures
            r@ == json_text(self@.tree()),
    {
        let value = self.value();
        json::render(&value)
    }
}

/// A POST request, as the caller is to perform it.
#[derive(Clone, Debug)]
pub struct PostRequest {
    /// The address, query included.
    pub url: String,
    /// The value of the header `Content-Type`.
    pub content_type: String,
    /// The value of the header `Authorization`.
    pub authorization: String,
    /// The seconds after which the caller gives the request up.
    pub timeout_secs: u64,
    /// The body.
    pub body: String,
}

/// A `PostRequest` as a mathematical value.
pub struct PostRequestView {
    pub url: Seq<char>,
    pub content_type: Seq<char>,
    pub authorization: Seq<char>,
    pub timeout_secs: nat,
    pub body: Seq<char>,
}

impl View for PostRequest {
    type V = PostRequestView;

    open spec fn view(&self) -> PostRequestView {
        PostRequestView {
            url: self.url@,
            content_type: self.content_type@,
            authorization: self.authorization@,
            timeout_secs: self.timeout_secs as nat,
            body: self.body@,
        }
    }
}

/// The address of a request: the endpoint with the key as the query
/// parameter `key`.
pub open spec fn keyed_url(endpoint: Seq<char>, api_key: Seq<char>) -> Seq<char> {
    endpoint + "?key="@ + api_key
}

/// The value of `Authorization` that presents the key as a bearer credential.
pub open spec fn bearer(api_key: Seq<char>) -> Seq<char> {
    "Bearer "@ + api_key
}

/// The POST that asks the provider of `config` for a message on `diff`.
pub open spec fn post_for(
    config: ProviderConfigView,
    prompt: Seq<char>,
    diff: Seq<char>,
) -> PostRequestView {
    PostRequestView {
        url: keyed_url(config.endpoint, config.api_key),
        content_type: "application/json"@,
        authorization: bearer(config.api_key),
        timeout_secs: TIMEOUT_SECS as nat,
        body: json_text(generation_for(config.model, prompt, diff).tree()),
    }
}

/// Checks the configuration and the prompt, and assembles the POST that asks
/// for a commit message on `diff`. Where a check fails there is no request.
pub fn prepare(
    config: &ProviderConfig,
    prompt: &str,
    diff: &str,
) -> (r: Result<PostRequest, ConfigError>)
    ensures
        r is Ok <==> first_fault(config@, prompt@) is None,
        r matches Ok(request) ==> request@ == post_for(config@, prompt@, diff@),
        r matches Err(e) ==> first_fault(config@, prompt@) == Some(e),
{
    match check_config(config, prompt) {
        Err(e) => Err(e),
        Ok(()) => {
            let mut url = config.endpoint.clone();
            url.append("?key=");
            url.append(config.api_key.as_str());
            let mut authorization = "Bearer ".to_owned();
            authorization.append(config.api_key.as_str());
            let generation = GenerationRequest::new(config.model.as_str(), prompt, diff);
            Ok(
                PostRequest {
                    url,
                    content_type: "application/json".to_owned(),
                    authorization,
                    timeout_secs: TIMEOUT_SECS,
                    body: generation.body(),
                },
            )
        },
    }
}

} // verus!
