//! The request side of an exchange: configuration, the prompt, and the
//! wire body and URL built from them.

use vstd::prelude::*;
use vstd::string::StringExecFns;
use crate::Credential;
use crate::json::{
    Json, JsonValue, entries_lookup, json_get, lemma_arr1_model, lemma_obj1_model,
    lemma_obj2_model,
};

verus! {

/// One generation request: a prompt plus an optional output-token limit.
#[derive(Debug)]
pub struct Request {
    pub prompt: String,
    pub max_tokens: Option<u64>,
}

/// Per-exchange configuration. `endpoint` and `model` are never empty;
/// `max_tokens`, when present, is positive. The struct is deliberately
/// not printable: it holds the credential.
pub struct Options {
    pub endpoint: String,
    pub model: String,
    pub max_tokens: Option<u64>,
    pub api_key: Credential,
}

impl Options {
    /// The configuration invariant: non-empty endpoint and model, and a
    /// positive token limit when one is set.
    pub open spec fn wf(&self) -> bool {
        &&& self.endpoint@.len() > 0
        &&& self.model@.len() > 0
        &&& (self.max_tokens matches Some(n) ==> n >= 1)
    }

    /// Options for the provider's public endpoint and the default
    /// flash-tier model, with no token limit.
    pub fn new(api_key: Credential) -> (r: Options)
        ensures
            r.wf(),
            r.endpoint@ == "https://generativelanguage.googleapis.com"@,
            r.model@ == "gemini-2.5-flash"@,
            r.max_tokens is None,
            r.api_key@ == api_key@,
    {
        Options {
            endpoint: String::from_str(default_endpoint()),
            model: String::from_str(default_model()),
            max_tokens: None,
            api_key,
        }
    }

    /// Replace the endpoint base URL.
    pub fn with_endpoint(self, endpoint: String) -> (r: Options)
        requires
            endpoint@.len() > 0,
        ensures
            r == (Options { endpoint, ..self }),
            self.wf() ==> r.wf(),
    {
        Options { endpoint, ..self }
    }

    /// Replace the model identifier.
    pub fn with_model(self, model: String) -> (r: Options)
        requires
            model@.len() > 0,
        ensures
            r == (Options { model, ..self }),
            self.wf() ==> r.wf(),
    {
        Options { model, ..self }
    }

    /// Set the maximum number of output tokens.
    pub fn with_max_tokens(self, max_tokens: u64) -> (r: Options)
        requires
            max_tokens >= 1,
        ensures
            r == (Options { max_tokens: Some(max_tokens), ..self }),
            self.wf() ==> r.wf(),
    {
        Options { max_tokens: Some(max_tokens), ..self }
    }
}

/// The provider's public generation endpoint.
pub fn default_endpoint() -> (r: &'static str)
    ensures
        r@ == "https://generativelanguage.googleapis.com"@,
        r@.len() > 0,
{
    proof {
        reveal_strlit("https://generativelanguage.googleapis.com");
    }
    "https://generativelanguage.googleapis.com"
}

/// The default flash-tier model identifier.
pub fn default_model() -> (r: &'static str)
    ensures
        r@ == "gemini-2.5-flash"@,
        r@.len() > 0,
{
    proof {
        reveal_strlit("gemini-2.5-flash");
    }
    "gemini-2.5-flash"
}

/// The provider-specific header that carries the API key.
pub fn api_key_header() -> (r: &'static str)
    ensures
        r@ == "x-goog-api-key"@,
{
    "x-goog-api-key"
}

/// The content-type header name.
pub fn content_type_header() -> (r: &'static str)
    ensures
        r@ == "content-type"@,
{
    "content-type"
}

/// The content type of the request body.
pub fn json_content_type() -> (r: &'static str)
    ensures
        r@ == "application/json"@,
{
    "application/json"
}

/// The wire body built for a prompt and an optional token limit:
/// `{"contents": {"parts": [{"text": prompt}]}}`, with a
/// `"generationConfig": {"maxOutputTokens": n}` entry exactly when a
/// limit is set.
pub open spec fn spec_request_body(prompt: Seq<char>, max_tokens: Option<u64>) -> Json {
    let contents = Json::Obj(
        seq![
            ("parts"@, Json::Arr(seq![Json::Obj(seq![("text"@, Json::Str(prompt))])])),
        ],
    );
    match max_tokens {
        None => Json::Obj(seq![("contents"@, contents)]),
        Some(n) => Json::Obj(
            seq![
                ("contents"@, contents),
                ("generationConfig"@, Json::Obj(seq![("maxOutputTokens"@, Json::Num(n))])),
            ],
        ),
    }
}

/// Build the wire JSON body for one generation request. The
/// `generationConfig` object is present exactly when the request carries
/// a token limit; when it is absent the key does not appear at all.
pub fn build_body(request: &Request) -> (r: JsonValue)
    ensures
        r@ == spec_request_body(request.prompt@, request.max_tokens),
{
    let text_node = JsonValue::Str(request.prompt.clone());
    proof {
        assert(text_node@ == Json::Str(request.prompt@));
    }
    let ghost part_model = Json::Obj(seq![("text"@, Json::Str(request.prompt@))]);
    let part = JsonValue::Obj(vec![(String::from_str("text"), text_node)]);
    proof {
        lemma_obj1_model(part, "text"@, Json::Str(request.prompt@));
    }
    let ghost parts_model = Json::Arr(seq![part_model]);
    let parts = JsonValue::Arr(vec![part]);
    proof {
        lemma_arr1_model(parts, part_model);
    }
    let ghost contents_model = Json::Obj(seq![("parts"@, parts_model)]);
    let contents = JsonValue::Obj(vec![(String::from_str("parts"), parts)]);
    proof {
        lemma_obj1_model(contents, "parts"@, parts_model);
    }
    match request.max_tokens {
        None => {
            let r = JsonValue::Obj(vec![(String::from_str("contents"), contents)]);
            proof {
                lemma_obj1_model(r, "contents"@, contents_model);
            }
            r
        },
        Some(n) => {
            let limit_node = JsonValue::Num(n);
            proof {
                assert(limit_node@ == Json::Num(n));
            }
            let ghost config_model = Json::Obj(seq![("maxOutputTokens"@, Json::Num(n))]);
            let config = JsonValue::Obj(vec![(String::from_str("maxOutputTokens"), limit_node)]);
            proof {
                lemma_obj1_model(config, "maxOutputTokens"@, Json::Num(n));
            }
            let r = JsonValue::Obj(
                vec![
                    (String::from_str("contents"), contents),
                    (String::from_str("generationConfig"), config),
                ],
            );
            proof {
                lemma_obj2_model(r, "contents"@, contents_model, "generationConfig"@, config_model);
            }
            r
        },
    }
}

/// The target URL of one exchange:
/// `{endpoint}/v1beta/models/{model}:generateContent`.
pub fn build_url(options: &Options) -> (r: String)
    ensures
        r@ == options.endpoint@ + "/v1beta/models/"@ + options.model@ + ":generateContent"@,
{
    let mut url = options.endpoint.clone();
    url.append("/v1beta/models/");
    url.append(options.model.as_str());
    url.append(":generateContent");
    url
}

/// The prompt a request body carries: the text of the first part under
/// `contents.parts`.
pub open spec fn prompt_of_body(body: Json) -> Option<Seq<char>> {
    match json_get(body, "contents"@) {
        Some(contents) => match json_get(contents, "parts"@) {
            Some(Json::Arr(parts)) => if parts.len() > 0 {
                match json_get(parts[0], "text"@) {
                    Some(Json::Str(text)) => Some(text),
                    _ => None,
                }
            } else {
                None
            },
            _ => None,
        },
        None => None,
    }
}

/// A built body carries exactly the prompt it was built from.
pub proof fn lemma_built_body_carries_prompt(prompt: Seq<char>, max_tokens: Option<u64>)
    ensures
        prompt_of_body(spec_request_body(prompt, max_tokens)) == Some(prompt),
{
    let body = spec_request_body(prompt, max_tokens);
    let contents = body->Obj_0[0].1;
    assert(entries_lookup(body->Obj_0, "contents"@) == Some(contents));
    let parts = contents->Obj_0[0].1;
    assert(entries_lookup(contents->Obj_0, "parts"@) == Some(parts));
    let part = parts->Arr_0[0];
    assert(entries_lookup(part->Obj_0, "text"@) == Some(Json::Str(prompt)));
}

/// A request without a token limit builds a body in which the
/// `generationConfig` key does not occur.
pub proof fn lemma_no_limit_no_generation_config(prompt: Seq<char>)
    ensures
        json_get(spec_request_body(prompt, None), "generationConfig"@) is None,
{
    reveal_strlit("contents");
    reveal_strlit("generationConfig");
    assert("contents"@.len() == 8);
    assert("generationConfig"@.len() == 16);
    let body = spec_request_body(prompt, None);
    let entries = body->Obj_0;
    assert(entries.len() == 1);
    assert(entries[0].0 == "contents"@);
    assert(entries.drop_first() =~= Seq::<(Seq<char>, Json)>::empty());
    assert(entries_lookup(entries.drop_first(), "generationConfig"@) is None);
}

/// A request with token limit `n` builds a body whose
/// `generationConfig.maxOutputTokens` is exactly `n`.
pub proof fn lemma_limit_sets_max_output_tokens(prompt: Seq<char>, n: u64)
    ensures
        ({
            let body = spec_request_body(prompt, Some(n));
            &&& json_get(body, "contents"@) is Some
            &&& json_get(body, "generationConfig"@) matches Some(config)
                && json_get(config, "maxOutputTokens"@) == Some(Json::Num(n))
        }),
{
    reveal_strlit("contents");
    reveal_strlit("generationConfig");
    reveal_strlit("maxOutputTokens");
    assert("contents"@.len() == 8);
    assert("generationConfig"@.len() == 16);
    let body = spec_request_body(prompt, Some(n));
    let entries = body->Obj_0;
    assert(entries.len() == 2);
    assert(entries[0].0 == "contents"@);
    assert(entries[1].0 == "generationConfig"@);
    let tail = entries.drop_first();
    assert(tail =~= seq![entries[1]]);
    assert(entries_lookup(tail, "generationConfig"@) == Some(entries[1].1));
    let config = entries[1].1;
    let config_entries = config->Obj_0;
    assert(config_entries.len() == 1);
    assert(config_entries[0] == ("maxOutputTokens"@, Json::Num(n)));
}

} // verus!
