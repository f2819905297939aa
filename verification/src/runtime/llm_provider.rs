//! The networked language-model providers: their configuration, the
//! selection of a provider, and the HTTP/1.1 requests they send and the
//! responses they accept. Sending and receiving is done by the caller.
use vstd::prelude::*;
use vstd::string::StringSliceAdditionalSpecFns;

use crate::json::{json_field, json_items, json_parse, json_text, json_u64, parse_json, value_field, value_items,
    value_text, value_u64};
use crate::runtime::llm::LlmModelInfo;
use crate::text::{first_occurrence, find_from, lemma_first_occurrence_found, lemma_first_occurrence_none,
    strings_view, str_chars, string_from_chars, chars_occur_at, to_owned_string, str_eq, push_decimal,
    spec_decimal, contains_seq, str_contains, opt_view, spec_trim, trim_string};

verus! {

/// The default Ollama endpoint.
pub const DEFAULT_OLLAMA_URL: &'static str = "http://127.0.0.1:11434";

/// The default Ollama model.
pub const DEFAULT_OLLAMA_MODEL: &'static str = "llama3.2";

/// The default OpenAI-compatible endpoint.
pub const DEFAULT_OPENAI_URL: &'static str = "http://127.0.0.1:1234";

/// The default OpenAI-compatible model.
pub const DEFAULT_OPENAI_MODEL: &'static str = "gpt-3.5-turbo";

// -------------------------------------------------------------- authority

/// `s` with every leading copy of `p` removed.
pub open spec fn strip_prefix_all(s: Seq<char>, p: Seq<char>) -> Seq<char>
    decreases s.len(),
{
    if p.len() > 0 && p.len() <= s.len() && s.subrange(0, p.len() as int) == p {
        strip_prefix_all(s.subrange(p.len() as int, s.len() as int), p)
    } else {
        s
    }
}

/// The part of `s` before the first `c` (all of `s` when there is none).
pub open spec fn before_char(s: Seq<char>, c: char) -> Seq<char>
    decreases s.len(),
{
    if s.len() == 0 {
        s
    } else if s[0] == c {
        Seq::empty()
    } else {
        seq![s[0]] + before_char(s.drop_first(), c)
    }
}

/// The `host:port` of a URL: the leading `http://` and then `https://`
/// are stripped (every copy of each), and the path is cut off at the
/// first `/`.
pub open spec fn spec_authority(url: Seq<char>) -> Seq<char> {
    before_char(strip_prefix_all(strip_prefix_all(url, "http://"@), "https://"@), '/')
}

/// The first position at or after `start` from which no copy of `p`
/// begins, skipping copies of `p` one after another.
fn skip_prefixes(s: &Vec<char>, p: &Vec<char>, start: usize) -> (r: usize)
    requires
        start <= s@.len(),
    ensures
        r <= s@.len(),
        strip_prefix_all(s@.subrange(start as int, s@.len() as int), p@) == s@.subrange(r as int, s@.len() as int),
{
    let mut i: usize = start;
    while p.len() > 0 && chars_occur_at(s.as_slice(), p.as_slice(), i)
        invariant
            start <= i <= s@.len(),
            strip_prefix_all(s@.subrange(start as int, s@.len() as int), p@)
                == strip_prefix_all(s@.subrange(i as int, s@.len() as int), p@),
        decreases s@.len() - i,
    {
        proof {
            let rest = s@.subrange(i as int, s@.len() as int);
            assert(rest.subrange(0, p@.len() as int) =~= s@.subrange(i as int, i + p@.len()));
            assert(rest.subrange(p@.len() as int, rest.len() as int) =~= s@.subrange(i + p@.len(), s@.len() as int));
        }
        let n = s.len();
        assert(i + p@.len() <= n);
        i = i + p.len();
    }
    proof {
        let rest = s@.subrange(i as int, s@.len() as int);
        if p@.len() > 0 && p@.len() <= rest.len() {
            assert(rest.subrange(0, p@.len() as int) =~= s@.subrange(i as int, i + p@.len()));
        }
    }
    i
}

/// The `host:port` of a URL: the scheme (`http://`, `https://`) is
/// stripped and the path cut off.
pub fn authority_of(url: &str) -> (r: String)
    ensures
        r@ == spec_authority(url@),
{
    let s = str_chars(url);
    let http = str_chars("http://");
    let https = str_chars("https://");
    let a = skip_prefixes(&s, &http, 0);
    let b = skip_prefixes(&s, &https, a);
    proof {
        assert(s@.subrange(0, s@.len() as int) =~= s@);
    }
    let mut out: Vec<char> = Vec::new();
    let mut i: usize = b;
    while i < s.len() && s[i] != '/'
        invariant
            b <= i <= s@.len(),
            before_char(s@.subrange(b as int, s@.len() as int), '/')
                == out@ + before_char(s@.subrange(i as int, s@.len() as int), '/'),
        decreases s@.len() - i,
    {
        proof {
            let rest = s@.subrange(i as int, s@.len() as int);
            assert(rest.drop_first() =~= s@.subrange(i + 1, s@.len() as int));
            assert(out@.push(s@[i as int]) + before_char(rest.drop_first(), '/') =~= out@ + (seq![s@[i as int]]
                + before_char(rest.drop_first(), '/')));
        }
        out.push(s[i]);
        i += 1;
    }
    proof {
        let rest = s@.subrange(i as int, s@.len() as int);
        assert(before_char(rest, '/') =~= Seq::<char>::empty());
        assert(out@ + Seq::<char>::empty() =~= out@);
    }
    string_from_chars(out.as_slice())
}

// ------------------------------------------------------------ HTTP text

/// The text of a JSON POST request: request line, host, content type and
/// length (in bytes), `Connection: close`, an optional bearer token, a
/// blank line, then the body.
pub open spec fn spec_post_request(
    path: Seq<char>,
    authority: Seq<char>,
    body: Seq<char>,
    body_len: nat,
    auth: Option<Seq<char>>,
) -> Seq<char> {
    "POST "@ + path + " HTTP/1.1\r\nHost: "@ + authority + "\r\nContent-Type: application/json\r\nContent-Length: "@
        + spec_decimal(body_len) + "\r\nConnection: close\r\n"@ + match auth {
        Some(t) => "Authorization: Bearer "@ + t + "\r\n"@,
        None => Seq::empty(),
    } + "\r\n"@ + body
}

/// The bearer-token header line, if a token is given.
fn auth_header(auth: Option<&str>) -> (r: String)
    ensures
        r@ == match auth {
            Some(t) => "Authorization: Bearer "@ + t@ + "\r\n"@,
            None => Seq::empty(),
        },
{
    match auth {
        Some(t) => {
            let mut r = String::from_str("Authorization: Bearer ");
            r.append(t);
            r.append("\r\n");
            r
        },
        None => String::new(),
    }
}

/// The text of a JSON POST of `body` to `path` on `authority`.
pub fn post_request(path: &str, authority: &str, body: &str, auth: Option<&str>) -> (r: String)
    ensures
        r@ == spec_post_request(
            path@,
            authority@,
            body@,
            body.spec_bytes().len(),
            match auth {
                Some(t) => Some(t@),
                None => None,
            },
        ),
{
    let mut r = String::from_str("POST ");
    r.append(path);
    r.append(" HTTP/1.1\r\nHost: ");
    r.append(authority);
    r.append("\r\nContent-Type: application/json\r\nContent-Length: ");
    push_decimal(&mut r, body.as_bytes().len() as u64);
    r.append("\r\nConnection: close\r\n");
    r.append(auth_header(auth).as_str());
    r.append("\r\n");
    r.append(body);
    r
}

/// The first line of `s`: up to the first newline, without a trailing
/// carriage return.
pub open spec fn first_line(s: Seq<char>) -> Seq<char> {
    let l = before_char(s, '\n');
    if l.len() > 0 && l.last() == '\r' {
        l.drop_last()
    } else {
        l
    }
}

/// The first `n` characters of `s` (all of them when `s` is shorter).
pub open spec fn take_chars(s: Seq<char>, n: nat) -> Seq<char> {
    if n < s.len() {
        s.subrange(0, n as int)
    } else {
        s
    }
}

/// The body of an HTTP response, or the reason it is refused: the header
/// block must end with a blank line, and the status line must hold
/// ` 200 ` or ` 201 `; a refusal quotes the status line and the first
/// 200 characters of the body.
pub open spec fn spec_response_body(text: Seq<char>) -> Result<Seq<char>, Seq<char>> {
    match first_occurrence(text, "\r\n\r\n"@, 0) {
        None => Err("malformed HTTP response: no header terminator"@),
        Some(p) => {
            let head = text.subrange(0, p + 4);
            let body = text.subrange(p + 4, text.len() as int);
            let status = first_line(head);
            if !contains_seq(status, " 200 "@) && !contains_seq(status, " 201 "@) {
                Err("http "@ + status + ": "@ + take_chars(body, 200))
            } else {
                Ok(body)
            }
        },
    }
}

/// The characters `s[from..to]` as a vector.
fn chars_between(s: &Vec<char>, from: usize, to: usize) -> (r: Vec<char>)
    requires
        from <= to <= s@.len(),
    ensures
        r@ == s@.subrange(from as int, to as int),
{
    let mut r: Vec<char> = Vec::new();
    let mut i: usize = from;
    while i < to
        invariant
            from <= i <= to <= s@.len(),
            r@ == s@.subrange(from as int, i as int),
        decreases to - i,
    {
        r.push(s[i]);
        i += 1;
    }
    r
}

/// The first line of a text, without its line ending.
fn first_line_of(s: &Vec<char>) -> (r: Vec<char>)
    ensures
        r@ == first_line(s@),
{
    let mut i: usize = 0;
    while i < s.len() && s[i] != '\n'
        invariant
            i <= s@.len(),
            forall|j: int| 0 <= j < i ==> s@[j] != '\n',
        decreases s@.len() - i,
    {
        i += 1;
    }
    proof {
        lemma_before_char_prefix(s@, '\n', i as int);
    }
    if i > 0 && s[i - 1] == '\r' {
        chars_between(s, 0, i - 1)
    } else {
        chars_between(s, 0, i)
    }
}

/// When no `c` comes before `i` and `i` is the end of `s` or holds `c`,
/// the part before the first `c` is `s[..i]`.
pub proof fn lemma_before_char_prefix(s: Seq<char>, c: char, i: int)
    requires
        0 <= i <= s.len(),
        forall|j: int| 0 <= j < i ==> s[j] != c,
        i == s.len() || s[i] == c,
    ensures
        before_char(s, c) == s.subrange(0, i),
    decreases s.len(),
{
    if s.len() == 0 {
    } else if i == 0 {
    } else {
        assert forall|j: int| 0 <= j < i - 1 implies s.drop_first()[j] != c by {
            assert(s.drop_first()[j] == s[j + 1]);
        }
        lemma_before_char_prefix(s.drop_first(), c, i - 1);
        assert(seq![s[0]] + s.drop_first().subrange(0, i - 1) =~= s.subrange(0, i));
    }
}

/// The body of an HTTP response when its status is 200 or 201; else the
/// reason it is refused.
pub fn response_body(text: &str) -> (r: Result<String, String>)
    ensures
        match r {
            Ok(b) => spec_response_body(text@) == Ok::<Seq<char>, Seq<char>>(b@),
            Err(e) => spec_response_body(text@) == Err::<Seq<char>, Seq<char>>(e@),
        },
{
    let t = str_chars(text);
    let terminator = str_chars("\r\n\r\n");
    proof {
        reveal_strlit("\r\n\r\n");
    }
    match find_from(t.as_slice(), terminator.as_slice(), 0) {
        None => {
            proof {
                lemma_first_occurrence_none(t@, terminator@, 0);
            }
            Err(String::from_str("malformed HTTP response: no header terminator"))
        },
        Some(p) => {
            proof {
                lemma_first_occurrence_found(t@, terminator@, 0, p as int);
            }
            let n = t.len();
            assert(p + 4 <= n);
            let head = chars_between(&t, 0, p + 4);
            let body = chars_between(&t, p + 4, n);
            let status = first_line_of(&head);
            let ok200 = str_contains(string_from_chars(status.as_slice()).as_str(), " 200 ");
            let ok201 = str_contains(string_from_chars(status.as_slice()).as_str(), " 201 ");
            if !ok200 && !ok201 {
                let shown = if body.len() > 200 { chars_between(&body, 0, 200) } else { chars_between(&body, 0, body.len()) };
                proof {
                    assert(body@.subrange(0, body@.len() as int) =~= body@);
                }
                let mut e = String::from_str("http ");
                e.append(string_from_chars(status.as_slice()).as_str());
                e.append(": ");
                e.append(string_from_chars(shown.as_slice()).as_str());
                Err(e)
            } else {
                Ok(string_from_chars(body.as_slice()))
            }
        },
    }
}

/// The text of the OpenAI-compatible health probe: a GET of `/v1/models`
/// with an optional bearer token.
pub open spec fn spec_models_request(authority: Seq<char>, auth: Option<Seq<char>>) -> Seq<char> {
    "GET /v1/models HTTP/1.1\r\nHost: "@ + authority + "\r\nConnection: close\r\n"@ + match auth {
        Some(t) => "Authorization: Bearer "@ + t + "\r\n"@,
        None => Seq::empty(),
    } + "\r\n"@
}

/// The text of the OpenAI-compatible health probe.
pub fn models_request(authority: &str, auth: Option<&str>) -> (r: String)
    ensures
        r@ == spec_models_request(
            authority@,
            match auth {
                Some(t) => Some(t@),
                None => None,
            },
        ),
{
    let mut r = String::from_str("GET /v1/models HTTP/1.1\r\nHost: ");
    r.append(authority);
    r.append("\r\nConnection: close\r\n");
    r.append(auth_header(auth).as_str());
    r.append("\r\n");
    r
}

/// The verdict on a health probe's response: healthy when it holds
/// ` 200 `; else an error quoting its first line (`?` when it is empty).
pub open spec fn spec_health_verdict(text: Seq<char>) -> Result<(), Seq<char>> {
    if contains_seq(text, " 200 "@) {
        Ok(())
    } else if text.len() == 0 {
        Err("openai health: ?"@)
    } else {
        Err("openai health: "@ + first_line(text))
    }
}

/// Judges the response to a health probe.
pub fn health_verdict(text: &str) -> (r: Result<(), String>)
    ensures
        match r {
            Ok(()) => spec_health_verdict(text@) == Ok::<(), Seq<char>>(()),
            Err(e) => spec_health_verdict(text@) == Err::<(), Seq<char>>(e@),
        },
{
    if str_contains(text, " 200 ") {
        return Ok(());
    }
    let t = str_chars(text);
    if t.len() == 0 {
        return Err(String::from_str("openai health: ?"));
    }
    let line = first_line_of(&t);
    let mut e = String::from_str("openai health: ");
    e.append(string_from_chars(line.as_slice()).as_str());
    Err(e)
}

// -------------------------------------------------------------- providers

/// The Ollama provider's configuration.
#[derive(Debug)]
pub struct OllamaLlmProvider {
    /// The endpoint, such as `http://127.0.0.1:11434`.
    pub url: String,
    /// The model name.
    pub model: String,
}

impl OllamaLlmProvider {
    /// A provider for `model` at `url`.
    pub fn new(url: &str, model: &str) -> (r: OllamaLlmProvider)
        ensures
            r.url@ == url@,
            r.model@ == model@,
    {
        OllamaLlmProvider { url: to_owned_string(url), model: to_owned_string(model) }
    }

    /// The provider for the default model at the default endpoint.
    pub fn with_defaults() -> (r: OllamaLlmProvider)
        ensures
            r.url@ == DEFAULT_OLLAMA_URL@,
            r.model@ == DEFAULT_OLLAMA_MODEL@,
    {
        OllamaLlmProvider::new(DEFAULT_OLLAMA_URL, DEFAULT_OLLAMA_MODEL)
    }

    /// The provider's name, `ollama`.
    pub fn name(&self) -> (r: &'static str)
        ensures
            r@ == "ollama"@,
    {
        "ollama"
    }

    /// The model information: the model's name, version `unknown`, and
    /// the capabilities `chat` and `structured`.
    pub fn model_info(&self) -> (r: LlmModelInfo)
        ensures
            r.name@ == self.model@,
            r.version@ == "unknown"@,
            strings_view(r.capabilities@) == seq!["chat"@, "structured"@],
    {
        let mut caps: Vec<String> = Vec::new();
        caps.push(String::from_str("chat"));
        caps.push(String::from_str("structured"));
        assert(strings_view(caps@) =~= seq!["chat"@, "structured"@]);
        LlmModelInfo { name: self.model.clone(), version: String::from_str("unknown"), capabilities: caps }
    }
}

/// The OpenAI-compatible provider's configuration.
#[derive(Debug)]
pub struct OpenAILlmProvider {
    /// The endpoint, such as `http://127.0.0.1:1234`.
    pub url: String,
    /// The model name.
    pub model: String,
    /// The bearer token, if any.
    pub api_key: Option<String>,
}

impl OpenAILlmProvider {
    /// A provider for `model` at `url`, with an optional bearer token.
    pub fn new(url: &str, model: &str, api_key: Option<String>) -> (r: OpenAILlmProvider)
        ensures
            r.url@ == url@,
            r.model@ == model@,
            r.api_key == api_key,
    {
        OpenAILlmProvider { url: to_owned_string(url), model: to_owned_string(model), api_key }
    }

    /// The provider for the default model at the default endpoint, with
    /// no token.
    pub fn with_defaults() -> (r: OpenAILlmProvider)
        ensures
            r.url@ == DEFAULT_OPENAI_URL@,
            r.model@ == DEFAULT_OPENAI_MODEL@,
            r.api_key is None,
    {
        OpenAILlmProvider::new(DEFAULT_OPENAI_URL, DEFAULT_OPENAI_MODEL, None)
    }

    /// The provider's name, `openai`.
    pub fn name(&self) -> (r: &'static str)
        ensures
            r@ == "openai"@,
    {
        "openai"
    }

    /// The model information: the model's name, version `unknown`, the
    /// capabilities `chat` and `structured`, and `authenticated` when a
    /// token is set.
    pub fn model_info(&self) -> (r: LlmModelInfo)
        ensures
            r.name@ == self.model@,
            r.version@ == "unknown"@,
            strings_view(r.capabilities@) == if self.api_key is Some {
                seq!["chat"@, "structured"@, "authenticated"@]
            } else {
                seq!["chat"@, "structured"@]
            },
    {
        let mut caps: Vec<String> = Vec::new();
        caps.push(String::from_str("chat"));
        caps.push(String::from_str("structured"));
        if self.api_key.is_some() {
            caps.push(String::from_str("authenticated"));
            assert(strings_view(caps@) =~= seq!["chat"@, "structured"@, "authenticated"@]);
        } else {
            assert(strings_view(caps@) =~= seq!["chat"@, "structured"@]);
        }
        LlmModelInfo { name: self.model.clone(), version: String::from_str("unknown"), capabilities: caps }
    }
}

/// The provider a configuration selects.
#[derive(Debug)]
pub enum ProviderChoice {
    /// Ollama at `url` with `model`.
    Ollama(OllamaLlmProvider),
    /// An OpenAI-compatible endpoint.
    OpenAI(OpenAILlmProvider),
    /// The mock provider with a single empty response.
    Mock,
    /// The echo provider.
    Echo,
}

/// The view of an optional `&str`.
pub open spec fn opt_str_view(s: Option<&str>) -> Option<Seq<char>> {
    match s {
        Some(x) => Some(x@),
        None => None,
    }
}

/// `s`, or `default` when absent.
pub open spec fn or_default(s: Option<Seq<char>>, default: Seq<char>) -> Seq<char> {
    match s {
        Some(x) => x,
        None => default,
    }
}

/// Selects a provider by name (`ollama`, `openai`, `mock`; anything else
/// is the echo provider); missing URL and model take the provider's
/// defaults.
pub fn choose_provider(provider: &str, url: Option<&str>, model: Option<&str>, api_key: Option<&str>) -> (r:
    ProviderChoice)
    ensures
        provider@ == "ollama"@ ==> (r matches ProviderChoice::Ollama(p) && p.url@ == or_default(
            opt_str_view(url),
            DEFAULT_OLLAMA_URL@,
        ) && p.model@ == or_default(opt_str_view(model), DEFAULT_OLLAMA_MODEL@)),
        provider@ == "openai"@ ==> (r matches ProviderChoice::OpenAI(p) && p.url@ == or_default(
            opt_str_view(url),
            DEFAULT_OPENAI_URL@,
        ) && p.model@ == or_default(opt_str_view(model), DEFAULT_OPENAI_MODEL@) && opt_view(p.api_key)
            == opt_str_view(api_key)),
        provider@ == "mock"@ ==> r is Mock,
        provider@ != "ollama"@ && provider@ != "openai"@ && provider@ != "mock"@ ==> r is Echo,
{
    proof {
        reveal_strlit("ollama");
        reveal_strlit("openai");
        reveal_strlit("mock");
        assert("ollama"@[1] != "openai"@[1]);
        assert("ollama"@[0] != "mock"@[0]);
        assert("openai"@[0] != "mock"@[0]);
    }
    if str_eq(provider, "ollama") {
        let u = match url {
            Some(x) => x,
            None => DEFAULT_OLLAMA_URL,
        };
        let m = match model {
            Some(x) => x,
            None => DEFAULT_OLLAMA_MODEL,
        };
        ProviderChoice::Ollama(OllamaLlmProvider::new(u, m))
    } else if str_eq(provider, "openai") {
        let u = match url {
            Some(x) => x,
            None => DEFAULT_OPENAI_URL,
        };
        let m = match model {
            Some(x) => x,
            None => DEFAULT_OPENAI_MODEL,
        };
        let k = match api_key {
            Some(x) => Some(to_owned_string(x)),
            None => None,
        };
        ProviderChoice::OpenAI(OpenAILlmProvider::new(u, m, k))
    } else if str_eq(provider, "mock") {
        ProviderChoice::Mock
    } else {
        ProviderChoice::Echo
    }
}

// -------------------------------------------------------------- replies

/// A chat answer decoded from a provider's reply.
#[derive(Debug, Clone)]
pub struct ChatReply {
    /// The answer's text.
    pub content: String,
    /// The model that answered.
    pub model: String,
    /// The tokens the exchange used, when the reply says.
    pub tokens_used: Option<u32>,
    /// Why the model stopped.
    pub finish_reason: String,
}

/// A chat answer by its views: content, model, tokens used, finish
/// reason.
pub type ChatReplyView = (Seq<char>, Seq<char>, Option<u32>, Seq<char>);

/// The view of a decoded chat answer.
pub open spec fn chat_view(c: ChatReply) -> ChatReplyView {
    (c.content@, c.model@, c.tokens_used, c.finish_reason@)
}

/// The member `k` of an optional JSON value.
pub open spec fn field_of(o: Option<serde_json::Value>, k: Seq<char>) -> Option<serde_json::Value> {
    match o {
        Some(v) => json_field(v, k),
        None => None,
    }
}

/// The text of an optional JSON value, when it is a string.
pub open spec fn text_of(o: Option<serde_json::Value>) -> Option<Seq<char>> {
    match o {
        Some(v) => json_text(v),
        None => None,
    }
}

/// `t`, or `default` when absent.
pub open spec fn text_or(t: Option<Seq<char>>, default: Seq<char>) -> Seq<char> {
    match t {
        Some(x) => x,
        None => default,
    }
}

/// The first item of the reply's `choices` array, if any.
pub open spec fn first_choice(v: serde_json::Value) -> Option<serde_json::Value> {
    match json_field(v, "choices"@) {
        Some(c) => match json_items(c) {
            Some(items) => if items.len() > 0 {
                Some(items[0])
            } else {
                None
            },
            None => None,
        },
        None => None,
    }
}

/// The tokens an OpenAI-compatible reply reports: `usage.total_tokens`,
/// cut to 32 bits.
pub open spec fn reply_tokens(v: serde_json::Value) -> Option<u32> {
    match field_of(json_field(v, "usage"@), "total_tokens"@) {
        Some(t) => match json_u64(t) {
            Some(n) => Some(n as u32),
            None => None,
        },
        None => None,
    }
}

/// What an OpenAI-compatible chat reply body decodes to: the trimmed body
/// must be JSON with a text at `choices[0].message.content`; the model is
/// the reply's `model` or `default_model`, the tokens `usage.total_tokens`
/// cut to 32 bits, the finish reason `choices[0].finish_reason` or `stop`.
pub open spec fn spec_chat_completion(raw: Seq<char>, default_model: Seq<char>) -> Result<ChatReplyView, Seq<char>> {
    match json_parse(spec_trim(raw)) {
        Err(e) => Err("bad openai json: "@ + e),
        Ok(v) => match text_of(field_of(field_of(first_choice(v), "message"@), "content"@)) {
            None => Err("missing choices[0].message.content"@),
            Some(c) => Ok(
                (
                    c,
                    text_or(text_of(json_field(v, "model"@)), default_model),
                    reply_tokens(v),
                    text_or(text_of(field_of(first_choice(v), "finish_reason"@)), "stop"@),
                ),
            ),
        },
    }
}

/// The member `k` of an optional JSON value.
fn member_of(o: &Option<serde_json::Value>, k: &str) -> (r: Option<serde_json::Value>)
    ensures
        r == field_of(*o, k@),
{
    match o {
        Some(v) => value_field(v, k),
        None => None,
    }
}

/// The text of an optional JSON value.
fn text_in(o: &Option<serde_json::Value>) -> (r: Option<String>)
    ensures
        opt_view(r) == text_of(*o),
{
    match o {
        Some(v) => value_text(v),
        None => None,
    }
}

/// Decodes an OpenAI-compatible chat completion reply body.
pub fn decode_chat_completion(raw: &str, default_model: &str) -> (r: Result<ChatReply, String>)
    ensures
        match r {
            Ok(c) => spec_chat_completion(raw@, default_model@) == Ok::<ChatReplyView, Seq<char>>(chat_view(c)),
            Err(m) => spec_chat_completion(raw@, default_model@) == Err::<ChatReplyView, Seq<char>>(m@),
        },
{
    let t = trim_string(raw);
    let v = match parse_json(t.as_str()) {
        Ok(v) => v,
        Err(e) => {
            let mut m = String::from_str("bad openai json: ");
            m.append(e.as_str());
            return Err(m);
        },
    };
    let choice: Option<serde_json::Value> = match value_field(&v, "choices") {
        Some(c) => match value_items(&c) {
            Some(items) => if items.len() > 0 {
                Some(items[0].clone())
            } else {
                None
            },
            None => None,
        },
        None => None,
    };
    let content = match text_in(&member_of(&member_of(&choice, "message"), "content")) {
        Some(c) => c,
        None => {
            return Err(String::from_str("missing choices[0].message.content"));
        },
    };
    let model = match value_field(&v, "model") {
        Some(m) => match value_text(&m) {
            Some(t) => t,
            None => to_owned_string(default_model),
        },
        None => to_owned_string(default_model),
    };
    let tokens_used: Option<u32> = match member_of(&value_field(&v, "usage"), "total_tokens") {
        Some(tv) => match value_u64(&tv) {
            Some(n) => Some(n as u32),
            None => None,
        },
        None => None,
    };
    let finish_reason = match text_in(&member_of(&choice, "finish_reason")) {
        Some(f) => f,
        None => String::from_str("stop"),
    };
    Ok(ChatReply { content, model, tokens_used, finish_reason })
}

/// The position of the first `c` in `s`, if any.
pub open spec fn index_of_char(s: Seq<char>, c: char) -> Option<int>
    decreases s.len(),
{
    if s.len() == 0 {
        None
    } else if s[0] == c {
        Some(0)
    } else {
        match index_of_char(s.drop_first(), c) {
            Some(i) => Some(i + 1),
            None => None,
        }
    }
}

/// What an Ollama chat reply body decodes to: from its first `{` on, the
/// trimmed text must be JSON with a text at `message.content`; the model
/// is the reply's `model` or `default_model`; no token count; the finish
/// reason is `stop`.
pub open spec fn spec_ollama_reply(raw: Seq<char>, default_model: Seq<char>) -> Result<ChatReplyView, Seq<char>> {
    match index_of_char(raw, '{') {
        None => Err("no JSON in response"@),
        Some(i) => match json_parse(spec_trim(raw.subrange(i, raw.len() as int))) {
            Err(e) => Err("bad ollama json: "@ + e),
            Ok(v) => match text_of(field_of(json_field(v, "message"@), "content"@)) {
                None => Err("missing message.content in ollama response"@),
                Some(c) => Ok((c, text_or(text_of(json_field(v, "model"@)), default_model), None, "stop"@)),
            },
        },
    }
}

proof fn lemma_index_of_char_skip(s: Seq<char>, c: char, i: int)
    requires
        0 <= i <= s.len(),
        forall|j: int| 0 <= j < i ==> s[j] != c,
    ensures
        index_of_char(s, c) == match index_of_char(s.subrange(i, s.len() as int), c) {
            Some(k) => Some(k + i),
            None => None::<int>,
        },
    decreases i,
{
    if i == 0 {
        assert(s.subrange(0, s.len() as int) =~= s);
    } else {
        lemma_index_of_char_skip(s.drop_first(), c, i - 1);
        assert(s.drop_first().subrange(i - 1, s.drop_first().len() as int) =~= s.subrange(i, s.len() as int));
    }
}

/// Decodes an Ollama chat reply body.
pub fn decode_ollama_reply(raw: &str, default_model: &str) -> (r: Result<ChatReply, String>)
    ensures
        match r {
            Ok(c) => spec_ollama_reply(raw@, default_model@) == Ok::<ChatReplyView, Seq<char>>(chat_view(c)),
            Err(m) => spec_ollama_reply(raw@, default_model@) == Err::<ChatReplyView, Seq<char>>(m@),
        },
{
    let cs = str_chars(raw);
    let mut i: usize = 0;
    while i < cs.len() && cs[i] != '{'
        invariant
            i <= cs@.len(),
            cs@ == raw@,
            forall|j: int| 0 <= j < i ==> cs@[j] != '{',
        decreases cs@.len() - i,
    {
        i += 1;
    }
    proof {
        lemma_index_of_char_skip(raw@, '{', i as int);
        if i < cs@.len() {
            assert(raw@.subrange(i as int, raw@.len() as int)[0] == '{');
        } else {
            assert(raw@.subrange(i as int, raw@.len() as int).len() == 0);
        }
    }
    if i == cs.len() {
        return Err(String::from_str("no JSON in response"));
    }
    let mut tail: Vec<char> = Vec::new();
    let mut k: usize = i;
    while k < cs.len()
        invariant
            i <= k <= cs@.len(),
            tail@ == cs@.subrange(i as int, k as int),
        decreases cs@.len() - k,
    {
        tail.push(cs[k]);
        k += 1;
        assert(tail@ =~= cs@.subrange(i as int, k as int));
    }
    let rest = string_from_chars(tail.as_slice());
    assert(rest@ =~= raw@.subrange(i as int, raw@.len() as int));
    let t = trim_string(rest.as_str());
    let v = match parse_json(t.as_str()) {
        Ok(v) => v,
        Err(e) => {
            let mut m = String::from_str("bad ollama json: ");
            m.append(e.as_str());
            return Err(m);
        },
    };
    let content = match text_in(&member_of(&value_field(&v, "message"), "content")) {
        Some(c) => c,
        None => {
            return Err(String::from_str("missing message.content in ollama response"));
        },
    };
    let model = match value_field(&v, "model") {
        Some(m) => match value_text(&m) {
            Some(t) => t,
            None => to_owned_string(default_model),
        },
        None => to_owned_string(default_model),
    };
    Ok(ChatReply { content, model, tokens_used: None, finish_reason: String::from_str("stop") })
}

/// What a model's structured answer parses to: its JSON value, or the
/// reason it is not JSON.
pub open spec fn spec_structured(content: Seq<char>) -> Result<serde_json::Value, Seq<char>> {
    match json_parse(content) {
        Ok(v) => Ok(v),
        Err(e) => Err("Failed to parse structured output: "@ + e),
    }
}

/// Parses a model's answer as the JSON a structured request asked for.
pub fn parse_structured(content: &str) -> (r: Result<serde_json::Value, String>)
    ensures
        match r {
            Ok(v) => spec_structured(content@) == Ok::<serde_json::Value, Seq<char>>(v),
            Err(m) => spec_structured(content@) == Err::<serde_json::Value, Seq<char>>(m@),
        },
{
    match parse_json(content) {
        Ok(v) => Ok(v),
        Err(e) => {
            let mut m = String::from_str("Failed to parse structured output: ");
            m.append(e.as_str());
            Err(m)
        },
    }
}

} // verus!
