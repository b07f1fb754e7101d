//! The analysis backends: what each needs configured, where its requests
//! go and what they carry, and how the answer is cut out of a response.
//! Sending the request is left to the caller.

use crate::text::{chars_of, string_of, string_of_range};
use crate::types::{AnthropicConfig, AzureConfig, Config, OpenAIConfig, ProviderType};
use vstd::prelude::*;
use vstd::string::StringExecFns;

verus! {

/// What a backend lacks to be asked.
#[derive(Debug, Clone, Copy, PartialEq, Eq, Structural)]
pub enum ProviderError {
    AzureUrlMissing,
    AzureApiKeyMissing,
    AzureDeploymentMissing,
    OpenAIApiKeyMissing,
    AnthropicApiKeyMissing,
}

impl ProviderError {
    pub open spec fn spec_message(&self) -> Seq<char> {
        match self {
            ProviderError::AzureUrlMissing => "Azure URL is not configured"@,
            ProviderError::AzureApiKeyMissing => "Azure API key is not configured"@,
            ProviderError::AzureDeploymentMissing => "Azure deployment is not configured"@,
            ProviderError::OpenAIApiKeyMissing => "OpenAI API key is not configured"@,
            ProviderError::AnthropicApiKeyMissing => "Anthropic API key is not configured"@,
        }
    }

    /// The error in words.
    pub fn message(&self) -> (text: &'static str)
        ensures
            text@ == self.spec_message(),
    {
        match self {
            ProviderError::AzureUrlMissing => "Azure URL is not configured",
            ProviderError::AzureApiKeyMissing => "Azure API key is not configured",
            ProviderError::AzureDeploymentMissing => "Azure deployment is not configured",
            ProviderError::OpenAIApiKeyMissing => "OpenAI API key is not configured",
            ProviderError::AnthropicApiKeyMissing => "Anthropic API key is not configured",
        }
    }
}

/// How the body of a request is laid out.
#[derive(Debug, Clone, Copy, PartialEq, Eq, Structural)]
pub enum BodyShape {
    /// A chat completion: the instructions are the first message and the
    /// prompt the second.
    Chat,
    /// A message request: the instructions stand apart from the one
    /// message, which holds the prompt.
    Messages,
}

/// A request to a backend, ready to be sent as JSON by HTTP POST.
#[derive(Debug)]
pub struct Request {
    pub url: String,
    /// The headers, as pairs of name and value, in sending order.
    pub headers: Vec<(String, String)>,
    pub shape: BodyShape,
    /// The model to name in the body, where the backend takes one.
    pub model: Option<String>,
    /// The instructions to the backend.
    pub system: String,
    /// The message that holds the prompt.
    pub user: String,
    /// The most tokens that the answer may have.
    pub max_tokens: u32,
}

pub struct RequestView {
    pub url: Seq<char>,
    pub headers: Seq<(Seq<char>, Seq<char>)>,
    pub shape: BodyShape,
    pub model: Option<Seq<char>>,
    pub system: Seq<char>,
    pub user: Seq<char>,
    pub max_tokens: u32,
}

impl View for Request {
    type V = RequestView;

    open spec fn view(&self) -> RequestView {
        RequestView {
            url: self.url@,
            headers: Seq::new(
                self.headers@.len(),
                |i: int| (self.headers@[i].0@, self.headers@[i].1@),
            ),
            shape: self.shape,
            model: match self.model {
                Some(m) => Some(m@),
                None => None,
            },
            system: self.system@,
            user: self.user@,
            max_tokens: self.max_tokens,
        }
    }
}

/// The address of the OpenAI chat completions.
pub open spec fn openai_url() -> Seq<char> {
    "https://api.openai.com/v1/chat/completions"@
}

/// The address of the Anthropic messages.
pub open spec fn anthropic_url() -> Seq<char> {
    "https://api.anthropic.com/v1/messages"@
}

/// The version of the Anthropic interface that requests name.
pub open spec fn anthropic_version() -> Seq<char> {
    "2023-06-01"@
}

/// The header that says that the body is JSON.
pub open spec fn json_header() -> (Seq<char>, Seq<char>) {
    ("Content-Type"@, "application/json"@)
}

/// The most tokens that an answer may have.
pub open spec fn max_tokens() -> u32 {
    1000
}

/// The message that holds `prompt`.
pub open spec fn user_message(prompt: Seq<char>) -> Seq<char> {
    "Analyze this prompt:\n\n"@ + prompt
}

/// The instructions to the backend.
pub open spec fn system_prompt() -> Seq<char> {
    SYSTEM_PROMPT@
}

/// `text` without the slashes at its end.
pub open spec fn without_trailing_slashes(text: Seq<char>) -> Seq<char>
    decreases text.len(),
{
    if text.len() > 0 && text.last() == '/' {
        without_trailing_slashes(text.drop_last())
    } else {
        text
    }
}

/// `text` without the slashes at its end.
pub fn trim_trailing_slashes(text: &str) -> (trimmed: String)
    ensures
        trimmed@ == without_trailing_slashes(text@),
{
    let chars = chars_of(text);
    let mut end: usize = chars.len();
    assert(chars@.subrange(0, end as int) =~= chars@);
    while end > 0 && chars[end - 1] == '/'
        invariant
            end <= chars.len(),
            without_trailing_slashes(chars@) == without_trailing_slashes(
                chars@.subrange(0, end as int),
            ),
        decreases end,
    {
        assert(chars@.subrange(0, end as int).drop_last() =~= chars@.subrange(0, end - 1));
        end -= 1;
    }
    string_of_range(&chars, 0, end)
}

/// A text without its trailing slashes does not end in a slash, is a
/// beginning of the text, and what it leaves out is slashes only.
pub proof fn lemma_without_trailing_slashes(text: Seq<char>)
    ensures
        ({
            let trimmed = without_trailing_slashes(text);
            &&& trimmed.len() <= text.len()
            &&& trimmed == text.subrange(0, trimmed.len() as int)
            &&& trimmed.len() > 0 ==> trimmed.last() != '/'
            &&& forall|i: int| trimmed.len() <= i < text.len() ==> text[i] == '/'
        }),
    decreases text.len(),
{
    if text.len() > 0 && text.last() == '/' {
        lemma_without_trailing_slashes(text.drop_last());
        let trimmed = without_trailing_slashes(text);
        assert(trimmed =~= text.subrange(0, trimmed.len() as int));
        assert forall|i: int| trimmed.len() <= i < text.len() implies text[i] == '/' by {
            if i < text.len() - 1 {
                assert(text.drop_last()[i] == '/');
            }
        }
    } else {
        assert(text =~= text.subrange(0, text.len() as int));
    }
}

/// The instructions to the backend: what to judge and how to answer.
pub const SYSTEM_PROMPT: &'static str = "You are a strict prompt quality analyzer. Your job is to critically evaluate prompts with high standards. Analyze the given prompt and provide:\n1. A quality score from 0-100 (be strict - most prompts should score below 70)\n2. A list of specific, actionable improvements\n3. A list of unclear or ambiguous parts\n\nRespond in JSON format only:\n{\n  \"score\": <number 0-100>,\n  \"improvements\": [\"improvement 1\", \"improvement 2\", ...],\n  \"unclear_parts\": [\"unclear part 1\", \"unclear part 2\", ...]\n}\n\nSTRICT Scoring Criteria (apply rigorously):\n\n90-100 (Exceptional - RARE):\n- Crystal clear objective with measurable success criteria\n- Complete context: who, what, why, constraints, format\n- Specific examples or templates provided\n- Explicitly handles edge cases\n- Professional-grade prompt engineering\n\n70-89 (Good):\n- Clear main objective\n- Sufficient context for the task\n- Specifies output format\n- Minor ambiguities only\n\n50-69 (Acceptable):\n- Understandable intent but lacks specificity\n- Missing important context or constraints\n- Vague about expected output format\n- Requires assumptions to complete\n\n30-49 (Poor):\n- Ambiguous or multiple possible interpretations\n- Missing critical information\n- No clear success criteria\n- Would likely produce inconsistent results\n\n0-29 (Inadequate):\n- Extremely vague or single-word prompts\n- Incomprehensible or contradictory\n- No actionable information\n- Impossible to produce useful output\n\nIMPORTANT: Be critical. A simple one-liner like \"Write code for X\" should score 30-50 at most. Prompts need context, constraints, and clarity to score above 70. Reserve 90+ for truly exceptional prompts only.\n\nAlways provide at least 2-3 specific improvements, even for good prompts.";

/// The message that holds `prompt`.
pub fn user_message_for(prompt: &str) -> (message: String)
    ensures
        message@ == user_message(prompt@),
{
    let mut message = "Analyze this prompt:\n\n".to_owned();
    message.append(prompt);
    message
}

/// A header.
fn header(name: &str, value: &str) -> (pair: (String, String))
    ensures
        pair.0@ == name@,
        pair.1@ == value@,
{
    (name.to_owned(), value.to_owned())
}

/// The Azure OpenAI backend.
#[derive(Debug)]
pub struct AzureProvider {
    config: AzureConfig,
}

impl AzureProvider {
    pub closed spec fn spec_config(&self) -> crate::types::AzureConfigView {
        self.config@
    }

    pub fn new(config: AzureConfig) -> (provider: AzureProvider)
        ensures
            provider.spec_config() == config@,
    {
        AzureProvider { config }
    }

    /// The address of the deployment's chat completions: the configured
    /// address without trailing slashes, then the deployment and the
    /// interface version.
    pub open spec fn spec_build_url(&self) -> Seq<char> {
        without_trailing_slashes(self.spec_config().url) + "/openai/deployments/"@
            + self.spec_config().deployment + "/chat/completions?api-version="@
            + self.spec_config().api_version
    }

    pub fn build_url(&self) -> (url: String)
        ensures
            url@ == self.spec_build_url(),
    {
        let mut url = trim_trailing_slashes(self.config.url.as_str());
        url.append("/openai/deployments/");
        url.append(self.config.deployment.as_str());
        url.append("/chat/completions?api-version=");
        url.append(self.config.api_version.as_str());
        url
    }

    /// What is missing, in the order address, key, deployment.
    pub open spec fn missing(&self) -> Option<ProviderError> {
        if self.spec_config().url.len() == 0 {
            Some(ProviderError::AzureUrlMissing)
        } else if self.spec_config().api_key.len() == 0 {
            Some(ProviderError::AzureApiKeyMissing)
        } else if self.spec_config().deployment.len() == 0 {
            Some(ProviderError::AzureDeploymentMissing)
        } else {
            None
        }
    }

    /// The request that asks for an analysis of `prompt`.
    pub open spec fn spec_request(&self, prompt: Seq<char>) -> RequestView {
        RequestView {
            url: self.spec_build_url(),
            headers: seq![("api-key"@, self.spec_config().api_key), json_header()],
            shape: BodyShape::Chat,
            model: None,
            system: system_prompt(),
            user: user_message(prompt),
            max_tokens: max_tokens(),
        }
    }

    /// The request that asks for an analysis of `prompt`, or what is
    /// missing to make it.
    pub fn prepare(&self, prompt: &str) -> (r: Result<Request, ProviderError>)
        ensures
            match r {
                Ok(request) => self.missing() is None && request@ == self.spec_request(prompt@),
                Err(e) => self.missing() == Some(e),
            },
    {
        if self.config.url.as_str().is_empty() {
            return Err(ProviderError::AzureUrlMissing);
        }
        if self.config.api_key.as_str().is_empty() {
            return Err(ProviderError::AzureApiKeyMissing);
        }
        if self.config.deployment.as_str().is_empty() {
            return Err(ProviderError::AzureDeploymentMissing);
        }
        let mut headers: Vec<(String, String)> = Vec::new();
        headers.push(header("api-key", self.config.api_key.as_str()));
        headers.push(header("Content-Type", "application/json"));
        let request = Request {
            url: self.build_url(),
            headers,
            shape: BodyShape::Chat,
            model: None,
            system: SYSTEM_PROMPT.to_owned(),
            user: user_message_for(prompt),
            max_tokens: 1000,
        };
        assert(request@.headers =~= self.spec_request(prompt@).headers);
        Ok(request)
    }
}

/// The OpenAI backend.
#[derive(Debug)]
pub struct OpenAIProvider {
    config: OpenAIConfig,
}

impl OpenAIProvider {
    pub closed spec fn spec_config(&self) -> crate::types::OpenAIConfigView {
        self.config@
    }

    pub fn new(config: OpenAIConfig) -> (provider: OpenAIProvider)
        ensures
            provider.spec_config() == config@,
    {
        OpenAIProvider { config }
    }

    pub open spec fn missing(&self) -> Option<ProviderError> {
        if self.spec_config().api_key.len() == 0 {
            Some(ProviderError::OpenAIApiKeyMissing)
        } else {
            None
        }
    }

    /// The request that asks for an analysis of `prompt`.
    pub open spec fn spec_request(&self, prompt: Seq<char>) -> RequestView {
        RequestView {
            url: openai_url(),
            headers: seq![
                ("Authorization"@, "Bearer "@ + self.spec_config().api_key),
                json_header(),
            ],
            shape: BodyShape::Chat,
            model: Some(self.spec_config().model),
            system: system_prompt(),
            user: user_message(prompt),
            max_tokens: max_tokens(),
        }
    }

    /// The request that asks for an analysis of `prompt`, or what is
    /// missing to make it.
    pub fn prepare(&self, prompt: &str) -> (r: Result<Request, ProviderError>)
        ensures
            match r {
                Ok(request) => self.missing() is None && request@ == self.spec_request(prompt@),
                Err(e) => self.missing() == Some(e),
            },
    {
        if self.config.api_key.as_str().is_empty() {
            return Err(ProviderError::OpenAIApiKeyMissing);
        }
        let mut bearer = "Bearer ".to_owned();
        bearer.append(self.config.api_key.as_str());
        let mut headers: Vec<(String, String)> = Vec::new();
        headers.push(header("Authorization", bearer.as_str()));
        headers.push(header("Content-Type", "application/json"));
        let request = Request {
            url: "https://api.openai.com/v1/chat/completions".to_owned(),
            headers,
            shape: BodyShape::Chat,
            model: Some(self.config.model.clone()),
            system: SYSTEM_PROMPT.to_owned(),
            user: user_message_for(prompt),
            max_tokens: 1000,
        };
        assert(request@.headers =~= self.spec_request(prompt@).headers);
        Ok(request)
    }
}

/// The Anthropic backend.
#[derive(Debug)]
pub struct AnthropicProvider {
    config: AnthropicConfig,
}

impl AnthropicProvider {
    pub closed spec fn spec_config(&self) -> crate::types::AnthropicConfigView {
        self.config@
    }

    pub fn new(config: AnthropicConfig) -> (provider: AnthropicProvider)
        ensures
            provider.spec_config() == config@,
    {
        AnthropicProvider { config }
    }

    pub open spec fn missing(&self) -> Option<ProviderError> {
        if self.spec_config().api_key.len() == 0 {
            Some(ProviderError::AnthropicApiKeyMissing)
        } else {
            None
        }
    }

    /// The request that asks for an analysis of `prompt`.
    pub open spec fn spec_request(&self, prompt: Seq<char>) -> RequestView {
        RequestView {
            url: anthropic_url(),
            headers: seq![
                ("x-api-key"@, self.spec_config().api_key),
                ("anthropic-version"@, anthropic_version()),
                json_header(),
            ],
            shape: BodyShape::Messages,
            model: Some(self.spec_config().model),
            system: system_prompt(),
            user: user_message(prompt),
            max_tokens: max_tokens(),
        }
    }

    /// The request that asks for an analysis of `prompt`, or what is
    /// missing to make it.
    pub fn prepare(&self, prompt: &str) -> (r: Result<Request, ProviderError>)
        ensures
            match r {
                Ok(request) => self.missing() is None && request@ == self.spec_request(prompt@),
                Err(e) => self.missing() == Some(e),
            },
    {
        if self.config.api_key.as_str().is_empty() {
            return Err(ProviderError::AnthropicApiKeyMissing);
        }
        let mut headers: Vec<(String, String)> = Vec::new();
        headers.push(header("x-api-key", self.config.api_key.as_str()));
        headers.push(header("anthropic-version", "2023-06-01"));
        headers.push(header("Content-Type", "application/json"));
        let request = Request {
            url: "https://api.anthropic.com/v1/messages".to_owned(),
            headers,
            shape: BodyShape::Messages,
            model: Some(self.config.model.clone()),
            system: SYSTEM_PROMPT.to_owned(),
            user: user_message_for(prompt),
            max_tokens: 1000,
        };
        assert(request@.headers =~= self.spec_request(prompt@).headers);
        Ok(request)
    }
}

/// A backend: one of the three, with its settings.
#[derive(Debug)]
pub enum Provider {
    Azure(AzureProvider),
    OpenAI(OpenAIProvider),
    Anthropic(AnthropicProvider),
}

impl Provider {
    pub open spec fn spec_provider_type(&self) -> ProviderType {
        match self {
            Provider::Azure(_) => ProviderType::Azure,
            Provider::OpenAI(_) => ProviderType::OpenAI,
            Provider::Anthropic(_) => ProviderType::Anthropic,
        }
    }

    /// Which backend this is.
    #[verifier::when_used_as_spec(spec_provider_type)]
    pub fn provider_type(&self) -> (r: ProviderType)
        ensures
            r == self.spec_provider_type(),
    {
        match self {
            Provider::Azure(_) => ProviderType::Azure,
            Provider::OpenAI(_) => ProviderType::OpenAI,
            Provider::Anthropic(_) => ProviderType::Anthropic,
        }
    }

    /// What the backend lacks to be asked, if anything.
    pub open spec fn missing(&self) -> Option<ProviderError> {
        match self {
            Provider::Azure(p) => p.missing(),
            Provider::OpenAI(p) => p.missing(),
            Provider::Anthropic(p) => p.missing(),
        }
    }

    /// The request that asks the backend for an analysis of `prompt`.
    pub open spec fn spec_request(&self, prompt: Seq<char>) -> RequestView {
        match self {
            Provider::Azure(p) => p.spec_request(prompt),
            Provider::OpenAI(p) => p.spec_request(prompt),
            Provider::Anthropic(p) => p.spec_request(prompt),
        }
    }

    /// The request that asks the backend for an analysis of `prompt`, or
    /// what the backend lacks to be asked. A backend is never asked without
    /// its credential.
    pub fn prepare(&self, prompt: &str) -> (r: Result<Request, ProviderError>)
        ensures
            match r {
                Ok(request) => self.missing() is None && request@ == self.spec_request(prompt@),
                Err(e) => self.missing() == Some(e),
            },
    {
        match self {
            Provider::Azure(p) => p.prepare(prompt),
            Provider::OpenAI(p) => p.prepare(prompt),
            Provider::Anthropic(p) => p.prepare(prompt),
        }
    }
}

/// The backend that `config` selects, with its settings from `config`.
pub fn create_provider(config: &Config) -> (r: Result<Provider, ProviderError>)
    ensures
        r is Ok,
        r->Ok_0.provider_type() == config@.active,
        match r->Ok_0 {
            Provider::Azure(p) => p.spec_config() == config@.azure,
            Provider::OpenAI(p) => p.spec_config() == config@.openai,
            Provider::Anthropic(p) => p.spec_config() == config@.anthropic,
        },
{
    match config.provider.active {
        ProviderType::Azure => Ok(Provider::Azure(AzureProvider::new(config.azure.clone()))),
        ProviderType::OpenAI => Ok(Provider::OpenAI(OpenAIProvider::new(config.openai.clone()))),
        ProviderType::Anthropic => Ok(
            Provider::Anthropic(AnthropicProvider::new(config.anthropic.clone())),
        ),
    }
}

/// The first offset at which `c` stands in `text`.
pub open spec fn first_index_of(text: Seq<char>, c: char) -> Option<int> {
    if exists|i: int| 0 <= i < text.len() && text[i] == c {
        Some(choose|i: int| 0 <= i < text.len() && text[i] == c && forall|j: int| 0 <= j < i ==> text[j] != c)
    } else {
        None
    }
}

/// The last offset at which `c` stands in `text`.
pub open spec fn last_index_of(text: Seq<char>, c: char) -> Option<int> {
    if exists|i: int| 0 <= i < text.len() && text[i] == c {
        Some(choose|i: int| 0 <= i < text.len() && text[i] == c && forall|j: int| i < j < text.len() ==> text[j] != c)
    } else {
        None
    }
}

/// The part of a response that is taken for its JSON: from the first
/// opening brace through the last closing brace, where the response has
/// both in this order, else the whole response.
pub open spec fn json_part(response: Seq<char>) -> Seq<char> {
    match (first_index_of(response, '{'), last_index_of(response, '}')) {
        (Some(start), Some(end)) => if start < end {
            response.subrange(start, end + 1)
        } else {
            response
        },
        _ => response,
    }
}

/// The first offset at which `c` stands in `text`.
pub fn find_first(text: &Vec<char>, c: char) -> (found: Option<usize>)
    ensures
        match found {
            Some(i) => first_index_of(text@, c) == Some(i as int) && i < text.len() && text[i as int]
                == c,
            None => first_index_of(text@, c) is None,
        },
{
    let mut i: usize = 0;
    while i < text.len()
        invariant
            i <= text.len(),
            forall|j: int| 0 <= j < i ==> text@[j] != c,
        decreases text.len() - i,
    {
        if text[i] == c {
            proof {
                let k = choose|k: int|
                    0 <= k < text@.len() && text@[k] == c && forall|j: int|
                        0 <= j < k ==> text@[j] != c;
                assert(k == i);
            }
            return Some(i);
        }
        i += 1;
    }
    None
}

/// The last offset at which `c` stands in `text`.
pub fn find_last(text: &Vec<char>, c: char) -> (found: Option<usize>)
    ensures
        match found {
            Some(i) => last_index_of(text@, c) == Some(i as int) && i < text.len() && text[i as int]
                == c,
            None => last_index_of(text@, c) is None,
        },
{
    let mut i: usize = text.len();
    while i > 0
        invariant
            i <= text.len(),
            forall|j: int| i <= j < text.len() ==> text@[j] != c,
        decreases i,
    {
        i -= 1;
        if text[i] == c {
            proof {
                let k = choose|k: int|
                    0 <= k < text@.len() && text@[k] == c && forall|j: int|
                        k < j < text@.len() ==> text@[j] != c;
                assert(k == i);
            }
            return Some(i);
        }
    }
    None
}

/// The part of a response that is taken for its JSON.
pub fn extract_json(response: &str) -> (json: String)
    ensures
        json@ == json_part(response@),
{
    let chars = chars_of(response);
    match (find_first(&chars, '{'), find_last(&chars, '}')) {
        (Some(start), Some(end)) => {
            if start < end {
                string_of_range(&chars, start, end + 1)
            } else {
                string_of(&chars)
            }
        },
        _ => string_of(&chars),
    }
}

} // verus!
