//! File-name suggestions from an OpenAI-compatible chat API. Sending the
//! request and reading the reply is done by the caller; what is asked and
//! what is made of the reply is decided here.
use vstd::prelude::*;

use crate::paths::opt_string_view;
use crate::text::{
    ascii_trimmed_from, lemma_ascii_trim_strips_surrounding_space, trim_to_string, unicode_trim,
};
use vstd::utf8::is_ascii_chars;

verus! {

/// Where requests go, and as which model and keyring service.
#[derive(Debug)]
pub struct LlmClient {
    model: String,
    api_key_service: String,
    api_base: String,
}

/// One message of a chat request.
#[derive(Debug)]
pub struct ChatMessage {
    pub role: String,
    pub content: String,
}

/// The body of a chat-completion request.
#[derive(Debug)]
pub struct ChatRequest {
    pub model: String,
    pub messages: Vec<ChatMessage>,
    pub max_tokens: u32,
}

/// What came of asking for a suggestion.
#[derive(Debug)]
pub enum LlmReply {
    /// The API key could not be read from the keyring.
    NoApiKey,
    /// The request could not be sent, or no response came.
    SendFailed,
    /// The API answered with a status other than success.
    Rejected,
    /// The response body was not a chat response.
    Unreadable,
    /// The response: the content of its first choice, if it had one.
    Answered(Option<String>),
}

/// Why no suggestion could be made.
#[derive(Debug, PartialEq, Eq, Structural)]
pub enum LlmError {
    /// "Failed to send request to LLM"
    RequestFailed,
    /// "Failed to parse LLM response"
    UnreadableResponse,
}

/// The base URL used when none is configured.
pub open spec fn default_api_base() -> Seq<char> {
    "https://api.openai.com/v1"@
}

/// The prompt that asks for a file name.
pub open spec fn prompt_for(original_name: Seq<char>, context: Seq<char>) -> Seq<char> {
    "You are a file organization assistant. Suggest a clean, descriptive filename for a downloaded file.\n\nOriginal name: "@
        + original_name + "\nContext: "@ + context
        + "\n\nRespond with ONLY the suggested filename (no explanation, no quotes)."@
}

/// The suggestion made of a reply: the original name when no key or no
/// success came, an error when sending or reading failed, otherwise the
/// first choice (or the original name) without surrounding white space.
pub open spec fn suggestion_from(original_name: Seq<char>, reply: LlmReply) -> Result<
    Seq<char>,
    LlmError,
> {
    match reply {
        LlmReply::NoApiKey => Ok(original_name),
        LlmReply::SendFailed => Err(LlmError::RequestFailed),
        LlmReply::Rejected => Ok(original_name),
        LlmReply::Unreadable => Err(LlmError::UnreadableResponse),
        LlmReply::Answered(first) => Ok(
            unicode_trim(
                match opt_string_view(first) {
                    Some(c) => c,
                    None => original_name,
                },
            ),
        ),
    }
}

impl LlmClient {
    /// The model asked.
    pub closed spec fn model_view(&self) -> Seq<char> {
        self.model@
    }

    /// The keyring service (user name) that holds the API key.
    pub closed spec fn key_service_view(&self) -> Seq<char> {
        self.api_key_service@
    }

    /// The base URL of the API.
    pub closed spec fn api_base_view(&self) -> Seq<char> {
        self.api_base@
    }

    /// A client for `model`, with its key under `api_key_service`, talking to
    /// `api_base` or, if none is given, to the OpenAI API.
    pub fn new(model: String, api_key_service: String, api_base: Option<String>) -> (c: Self)
        ensures
            c.model_view() == model@,
            c.key_service_view() == api_key_service@,
            c.api_base_view() == match api_base {
                Some(b) => b@,
                None => default_api_base(),
            },
    {
        let api_base = match api_base {
            Some(b) => b,
            None => "https://api.openai.com/v1".to_owned(),
        };
        LlmClient { model, api_key_service, api_base }
    }

    /// The model asked.
    pub fn model(&self) -> (r: &str)
        ensures
            r@ == self.model_view(),
    {
        self.model.as_str()
    }

    /// The keyring service (user name) that holds the API key.
    pub fn api_key_service(&self) -> (r: &str)
        ensures
            r@ == self.key_service_view(),
    {
        self.api_key_service.as_str()
    }

    /// The URL of the chat-completions endpoint.
    pub fn chat_url(&self) -> (r: String)
        ensures
            r@ == self.api_base_view() + "/chat/completions"@,
    {
        let mut url = self.api_base.clone();
        url.append("/chat/completions");
        url
    }

    /// The prompt that asks for a better name for `original_name`.
    pub fn build_prompt(original_name: &str, context: &str) -> (r: String)
        ensures
            r@ == prompt_for(original_name@, context@),
    {
        let mut p = String::from_str(
            "You are a file organization assistant. Suggest a clean, descriptive filename for a downloaded file.\n\nOriginal name: ",
        );
        p.append(original_name);
        p.append("\nContext: ");
        p.append(context);
        p.append("\n\nRespond with ONLY the suggested filename (no explanation, no quotes).");
        p
    }

    /// The request that asks for a file name: one user message holding the
    /// prompt, at most 50 tokens, for this client's model.
    pub fn chat_request(&self, original_name: &str, context: &str) -> (r: ChatRequest)
        ensures
            r.model@ == self.model_view(),
            r.messages@.len() == 1,
            r.messages@[0].role@ == "user"@,
            r.messages@[0].content@ == prompt_for(original_name@, context@),
            r.max_tokens == 50,
    {
        let message = ChatMessage {
            role: "user".to_owned(),
            content: Self::build_prompt(original_name, context),
        };
        let mut messages: Vec<ChatMessage> = Vec::new();
        messages.push(message);
        ChatRequest { model: self.model.clone(), messages, max_tokens: 50 }
    }

    /// Generate a better filename from what came of the request.
    pub fn suggestion(original_name: &str, reply: LlmReply) -> (r: Result<String, LlmError>)
        ensures
            match (r, suggestion_from(original_name@, reply)) {
                (Ok(s), Ok(t)) => s@ == t,
                (Err(e), Err(f)) => e == f,
                _ => false,
            },
            reply matches LlmReply::Answered(Some(c)) ==> (is_ascii_chars(c@) ==> (r matches Ok(
                s,
            ) && ascii_trimmed_from(c@, s@))),
            reply matches LlmReply::Answered(None) ==> (is_ascii_chars(original_name@) ==> (
            r matches Ok(s) && ascii_trimmed_from(original_name@, s@))),
    {
        match reply {
            LlmReply::NoApiKey => Ok(original_name.to_owned()),
            LlmReply::SendFailed => Err(LlmError::RequestFailed),
            LlmReply::Rejected => Ok(original_name.to_owned()),
            LlmReply::Unreadable => Err(LlmError::UnreadableResponse),
            LlmReply::Answered(first) => match first {
                Some(c) => {
                    proof {
                        lemma_ascii_trim_strips_surrounding_space(c@);
                    }
                    Ok(trim_to_string(c.as_str()))
                },
                None => {
                    proof {
                        lemma_ascii_trim_strips_surrounding_space(original_name@);
                    }
                    Ok(trim_to_string(original_name))
                },
            },
        }
    }
}

} // verus!
