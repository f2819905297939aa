//! Structured model output: the envelope the model must answer with,
//! and its strict validation into a typed intent.
//!
//! The model is never trusted with risk or authority: it may only propose
//! an intent type, a confidence and a small entity map; risk is assigned
//! later by trusted code.
use vstd::prelude::*;

use crate::json::{json_is_object, value_is_object};
use crate::runtime::intent::{Confidence, Intent, IntentType, RiskLevel, spec_intent_slug, spec_all_slugs};
use crate::text::{
    is_whitespace, spec_trim, trim_end, trim_start, trim_string, str_chars, string_from_chars, chars_occur_at, join_with, push_decimal,
    spec_decimal, };

verus! {

/// The JSON Schema of the intent envelope, given to providers as the
/// expected output format.
pub const INTENT_SCHEMA: &'static str = r#"{
  "type": "object",
  "additionalProperties": false,
  "required": ["capability", "confidence", "entities", "reason"],
  "properties": {
    "capability": {
      "type": "string",
      "description": "One of the Aether IntentType values, e.g. 'application.launch'. Empty string means 'no structured intent'."
    },
    "confidence": {
      "type": "integer",
      "minimum": 0,
      "maximum": 100,
      "description": "LLM self-rated confidence in the proposed intent, 0-100."
    },
    "entities": {
      "type": "object",
      "description": "Structured arguments for the capability (e.g. { 'app': 'calculator' })."
    },
    "reason": {
      "type": "string",
      "description": "Short human-readable explanation of why this intent was chosen."
    }
  }
}"#;

/// The envelope the model is asked to answer with.
#[derive(Debug, Clone)]
pub struct IntentEnvelope {
    /// An intent slug such as `application.launch`, or empty for chat.
    pub capability: String,
    /// The model's confidence, 0 to 100.
    pub confidence: u8,
    /// The entities of the intent.
    pub entities: serde_json::Value,
    /// A short reason.
    pub reason: String,
}

/// The ways a structured answer is refused.
#[derive(Debug, Clone, PartialEq, Eq)]
pub enum StructuredIntentError {
    /// The answer was not valid JSON.
    BadJson(String),
    /// The JSON did not have the envelope's shape.
    BadShape(String),
    /// The capability is no known intent slug.
    UnknownCapability(String),
    /// The confidence is above 100.
    BadConfidence(u8),
    /// The entities are not a JSON object.
    BadEntities(String),
    /// The reason is empty.
    EmptyReason,
}

/// `StructuredIntentError` with its strings as character sequences.
pub enum StructuredIntentErrorView {
    BadJson(Seq<char>),
    BadShape(Seq<char>),
    UnknownCapability(Seq<char>),
    BadConfidence(u8),
    BadEntities(Seq<char>),
    EmptyReason,
}

impl View for StructuredIntentError {
    type V = StructuredIntentErrorView;

    open spec fn view(&self) -> StructuredIntentErrorView {
        match self {
            StructuredIntentError::BadJson(s) => StructuredIntentErrorView::BadJson(s@),
            StructuredIntentError::BadShape(s) => StructuredIntentErrorView::BadShape(s@),
            StructuredIntentError::UnknownCapability(s) => StructuredIntentErrorView::UnknownCapability(s@),
            StructuredIntentError::BadConfidence(c) => StructuredIntentErrorView::BadConfidence(*c),
            StructuredIntentError::BadEntities(s) => StructuredIntentErrorView::BadEntities(s@),
            StructuredIntentError::EmptyReason => StructuredIntentErrorView::EmptyReason,
        }
    }
}

/// The human-readable message of each refusal.
pub open spec fn spec_structured_error_message(e: StructuredIntentErrorView) -> Seq<char> {
    match e {
        StructuredIntentErrorView::BadJson(s) => "invalid JSON: "@ + s,
        StructuredIntentErrorView::BadShape(s) => "envelope shape mismatch: "@ + s,
        StructuredIntentErrorView::UnknownCapability(s) => "unknown capability: '"@ + s + "'"@,
        StructuredIntentErrorView::BadConfidence(c) => "confidence "@ + spec_decimal(c as nat)
            + " out of range 0..=100"@,
        StructuredIntentErrorView::BadEntities(s) => "entities not a JSON object: "@ + s,
        StructuredIntentErrorView::EmptyReason => "reason must be a non-empty string"@,
    }
}

impl StructuredIntentError {
    /// The human-readable message.
    pub fn to_string(&self) -> (r: String)
        ensures
            r@ == spec_structured_error_message(self@),
    {
        match self {
            StructuredIntentError::BadJson(s) => {
                let mut r = String::from_str("invalid JSON: ");
                r.append(s.as_str());
                r
            },
            StructuredIntentError::BadShape(s) => {
                let mut r = String::from_str("envelope shape mismatch: ");
                r.append(s.as_str());
                r
            },
            StructuredIntentError::UnknownCapability(s) => {
                let mut r = String::from_str("unknown capability: '");
                r.append(s.as_str());
                r.append("'");
                r
            },
            StructuredIntentError::BadConfidence(c) => {
                let mut r = String::from_str("confidence ");
                push_decimal(&mut r, *c as u64);
                r.append(" out of range 0..=100");
                r
            },
            StructuredIntentError::BadEntities(s) => {
                let mut r = String::from_str("entities not a JSON object: ");
                r.append(s.as_str());
                r
            },
            StructuredIntentError::EmptyReason => String::from_str("reason must be a non-empty string"),
        }
    }
}

// ------------------------------------------------------------ code fence

/// The first position of `c` in `s`, if any.
pub open spec fn first_index_of(s: Seq<char>, c: char) -> Option<int> {
    if exists|i: int| 0 <= i < s.len() && s[i] == c && forall|j: int| 0 <= j < i ==> s[j] != c {
        Some(choose|i: int| 0 <= i < s.len() && s[i] == c && forall|j: int| 0 <= j < i ==> s[j] != c)
    } else {
        None
    }
}

/// The answer without an optional ```` ``` ```` fence: the trimmed text; when
/// it opens with a fence and the fence line ends, the text after the
/// fence line, without a closing fence, trimmed.
pub open spec fn spec_strip_code_fence(raw: Seq<char>) -> Seq<char> {
    let t = spec_trim(raw);
    if t.len() >= 3 && t.subrange(0, 3) == "```"@ {
        let rest = t.subrange(3, t.len() as int);
        match first_index_of(rest, '\n') {
            Some(k) => {
                let after = rest.subrange(k + 1, rest.len() as int);
                if after.len() >= 3 && after.subrange(after.len() - 3, after.len() as int) == "```"@ {
                    spec_trim(after.subrange(0, after.len() - 3))
                } else {
                    spec_trim(after)
                }
            },
            None => t,
        }
    } else {
        t
    }
}

/// `s[from..to]` as a string.
fn slice_string(s: &Vec<char>, from: usize, to: usize) -> (r: String)
    requires
        from <= to <= s@.len(),
    ensures
        r@ == s@.subrange(from as int, to as int),
{
    let mut out: Vec<char> = Vec::new();
    let mut i: usize = from;
    while i < to
        invariant
            from <= i <= to <= s@.len(),
            out@ == s@.subrange(from as int, i as int),
        decreases to - i,
    {
        out.push(s[i]);
        i += 1;
    }
    string_from_chars(out.as_slice())
}

/// Removes an optional ```` ```json ```` fence around the model's answer.
pub fn strip_code_fence(raw: &str) -> (r: String)
    ensures
        r@ == spec_strip_code_fence(raw@),
{
    let t = str_chars(trim_string(raw).as_str());
    let fence = str_chars("```");
    proof {
        reveal_strlit("```");
    }
    if t.len() >= 3 && chars_occur_at(t.as_slice(), fence.as_slice(), 0) {
        let mut k: usize = 3;
        while k < t.len() && t[k] != '\n'
            invariant
                3 <= k <= t@.len(),
                forall|j: int| 3 <= j < k ==> t@[j] != '\n',
            decreases t@.len() - k,
        {
            k += 1;
        }
        let ghost rest = t@.subrange(3, t@.len() as int);
        if k < t.len() {
            proof {
                assert(rest[k - 3] == '\n');
                assert forall|j: int| 0 <= j < k - 3 implies rest[j] != '\n' by {
                    assert(rest[j] == t@[j + 3]);
                }
                let w = choose|i: int| 0 <= i < rest.len() && rest[i] == '\n' && forall|j: int| 0 <= j < i ==> rest[j]
                    != '\n';
                if w < k - 3 {
                    assert(rest[w] != '\n');
                } else if w > k - 3 {
                    assert(rest[k - 3] != '\n');
                }
                assert(rest.subrange(k - 2, rest.len() as int) =~= t@.subrange(k + 1, t@.len() as int));
            }
            let n = t.len();
            let ends_with_fence = n - (k + 1) >= 3 && chars_occur_at(t.as_slice(), fence.as_slice(), n - 3);
            if ends_with_fence {
                proof {
                    let after = t@.subrange(k + 1, t@.len() as int);
                    assert(after.subrange(after.len() - 3, after.len() as int) =~= t@.subrange(n - 3, n as int));
                    assert(after.subrange(0, after.len() - 3) =~= t@.subrange(k + 1, n - 3));
                }
                trim_string(slice_string(&t, k + 1, n - 3).as_str())
            } else {
                proof {
                    let after = t@.subrange(k + 1, t@.len() as int);
                    if after.len() >= 3 {
                        assert(after.subrange(after.len() - 3, after.len() as int) =~= t@.subrange(n - 3, n as int));
                    }
                }
                trim_string(slice_string(&t, k + 1, n).as_str())
            }
        } else {
            proof {
                if exists|i: int| 0 <= i < rest.len() && rest[i] == '\n' && forall|j: int| 0 <= j < i ==> rest[j] != '\n' {
                    let w = choose|i: int| 0 <= i < rest.len() && rest[i] == '\n' && forall|j: int| 0 <= j < i ==> rest[j]
                        != '\n';
                    assert(rest[w] == t@[w + 3]);
                }
                assert(t@.subrange(0, 3) =~= "```"@);
            }
            slice_string(&t, 0, t.len())
        }
    } else {
        proof {
            if t@.len() >= 3 {
                assert(fence@.len() == 3);
            }
        }
        slice_string(&t, 0, t.len())
    }
}

// ---------------------------------------------------------------- intent

/// The refusal an envelope earns, if any, once its capability is known
/// to be set: an unknown capability, a confidence above 100, entities that
/// are not an object, or an empty reason, checked in that order.
pub open spec fn spec_envelope_refusal(
    capability: Seq<char>,
    confidence: u8,
    entities: serde_json::Value,
    reason: Seq<char>,
) -> Option<StructuredIntentErrorView> {
    if forall|t: IntentType| spec_intent_slug(t) != capability {
        Some(StructuredIntentErrorView::UnknownCapability(capability))
    } else if confidence > 100 {
        Some(StructuredIntentErrorView::BadConfidence(confidence))
    } else if !json_is_object(entities) {
        Some(StructuredIntentErrorView::BadEntities("expected JSON object"@))
    } else if spec_trim(reason).len() == 0 {
        Some(StructuredIntentErrorView::EmptyReason)
    } else {
        None
    }
}

/// Validates an envelope strictly and makes a typed intent of it: `None`
/// when the capability is blank (plain chat); an error for an unknown
/// capability, a confidence above 100, entities that are not an object,
/// or an empty reason; else an intent of low risk.
pub fn parse_intent(env: &IntentEnvelope, request_id: &str) -> (r: Result<Option<Intent>, StructuredIntentError>)
    ensures
        spec_trim(env.capability@).len() == 0 ==> r matches Ok(None),
        spec_trim(env.capability@).len() > 0 ==> match spec_envelope_refusal(
            env.capability@,
            env.confidence,
            env.entities,
            env.reason@,
        ) {
            Some(e) => r matches Err(x) && x@ == e,
            None => r matches Ok(Some(i)) && {
                &&& spec_intent_slug(i.intent_type) == env.capability@
                &&& i.request_id@ == request_id@
                &&& i.confidence == Confidence(env.confidence)
                &&& i.entities == env.entities
                &&& i.reason@ == env.reason@
                &&& i.risk_level == RiskLevel::Low
                &&& i.constraints@.len() == 0
            },
        },
{
    if trim_string(env.capability.as_str()).as_str().is_empty() {
        return Ok(None);
    }
    let intent_type = match IntentType::from_str(env.capability.as_str()) {
        Some(t) => t,
        None => {
            return Err(StructuredIntentError::UnknownCapability(env.capability.clone()));
        },
    };
    if env.confidence > 100 {
        return Err(StructuredIntentError::BadConfidence(env.confidence));
    }
    if !value_is_object(&env.entities) {
        return Err(StructuredIntentError::BadEntities(String::from_str("expected JSON object")));
    }
    if trim_string(env.reason.as_str()).as_str().is_empty() {
        return Err(StructuredIntentError::EmptyReason);
    }
    let intent = Intent::new(request_id, intent_type, Confidence(env.confidence), env.entities.clone()).with_reason(
        env.reason.clone(),
    );
    Ok(Some(intent))
}

// ---------------------------------------------------------------- prompt

/// The prompt asking the model for an envelope: the schema, the valid
/// capability slugs, the context (`(none)` when empty) and the request.
pub open spec fn spec_intent_prompt(user_text: Seq<char>, context_hint: Seq<char>) -> Seq<char> {
    "You are the Aether intent classifier. Map the user request to exactly one of the Aether capability strings listed below, or empty string if the user is just chatting. Respond with a single JSON object matching this schema:\n\n"@
        + INTENT_SCHEMA@ + "\n\nValid capability strings:\n  "@ + join_with(spec_all_slugs(), ", "@)
        + "\n\nCurrent OS context:\n  "@ + (if context_hint.len() == 0 {
        "(none)"@
    } else {
        context_hint
    }) + "\n\nUser request:\n  "@ + user_text + "\n\nJSON:"@
}

/// The slugs joined by `, `.
fn joined_slugs() -> (r: String)
    ensures
        r@ == join_with(spec_all_slugs(), ", "@),
{
    let slugs = IntentType::all_slugs();
    let ghost parts = slugs@.map_values(|s: &str| s@);
    let mut out = String::new();
    let mut i: usize = 0;
    while i < slugs.len()
        invariant
            parts == slugs@.map_values(|s: &str| s@),
            parts == spec_all_slugs(),
            i <= slugs@.len(),
            out@ == join_with(parts.subrange(0, i as int), ", "@),
        decreases slugs@.len() - i,
    {
        proof {
            assert(parts.subrange(0, i + 1).drop_last() =~= parts.subrange(0, i as int));
            if i == 0 {
                assert(parts.subrange(0, 1)[0] == parts[0]);
            }
        }
        if i > 0 {
            out.append(", ");
        }
        out.append(slugs[i]);
        i += 1;
    }
    proof {
        assert(parts.subrange(0, slugs@.len() as int) =~= parts);
    }
    out
}

/// Builds the prompt that asks the model for an intent envelope.
pub fn build_intent_prompt(user_text: &str, context_hint: &str) -> (r: String)
    ensures
        r@ == spec_intent_prompt(user_text@, context_hint@),
{
    let mut r = String::from_str(
        "You are the Aether intent classifier. Map the user request to exactly one of the Aether capability strings listed below, or empty string if the user is just chatting. Respond with a single JSON object matching this schema:\n\n",
    );
    r.append(INTENT_SCHEMA);
    r.append("\n\nValid capability strings:\n  ");
    r.append(joined_slugs().as_str());
    r.append("\n\nCurrent OS context:\n  ");
    if context_hint.is_empty() {
        r.append("(none)");
    } else {
        r.append(context_hint);
    }
    r.append("\n\nUser request:\n  ");
    r.append(user_text);
    r.append("\n\nJSON:");
    r
}

/// Text whose ends are not whitespace is its own trim.
proof fn lemma_trim_keeps_solid_ends(s: Seq<char>)
    requires
        s.len() > 0,
        !is_whitespace(s[0]),
        !is_whitespace(s.last()),
    ensures
        spec_trim(s) == s,
{
    assert(trim_start(s) == s);
    assert(trim_end(s) == s);
}

/// Trimming the leading whitespace of `s` with a whitespace character
/// appended: nothing when `s` is all whitespace, else `s`'s trim with it.
proof fn lemma_trim_start_push_space(s: Seq<char>, c: char)
    requires
        is_whitespace(c),
    ensures
        trim_start(s.push(c)) == if trim_start(s).len() == 0 {
            Seq::<char>::empty()
        } else {
            trim_start(s).push(c)
        },
    decreases s.len(),
{
    if s.len() == 0 {
        assert(s.push(c).drop_first() =~= Seq::<char>::empty());
        assert(trim_start(Seq::<char>::empty()) == Seq::<char>::empty());
    } else if is_whitespace(s[0]) {
        assert(s.push(c).drop_first() =~= s.drop_first().push(c));
        lemma_trim_start_push_space(s.drop_first(), c);
    } else {
        assert(s.push(c)[0] == s[0]);
    }
}

/// Appending a whitespace character does not change the trim.
proof fn lemma_trim_push_space(s: Seq<char>, c: char)
    requires
        is_whitespace(c),
    ensures
        spec_trim(s.push(c)) == spec_trim(s),
{
    lemma_trim_start_push_space(s, c);
    let t = trim_start(s);
    if t.len() == 0 {
        assert(trim_end(Seq::<char>::empty()) == Seq::<char>::empty());
        assert(trim_end(t) == Seq::<char>::empty()) by {
            assert(t =~= Seq::<char>::empty());
        }
    } else {
        assert(t.push(c).drop_last() =~= t);
        assert(t.push(c).last() == c);
    }
}

/// A fenced block gives back its content: for any language tag on the
/// opening fence line and any content, the text between the opening fence
/// line and the closing fence comes out trimmed, with neither fence, also
/// when the closing fence stands on a line of its own.
pub proof fn law_fenced_block_content(lang: Seq<char>, content: Seq<char>)
    requires
        forall|i: int| 0 <= i < lang.len() ==> lang[i] != '\n',
    ensures
        spec_strip_code_fence("```"@ + lang + "\n"@ + content + "```"@) == spec_trim(content),
        spec_strip_code_fence("```"@ + lang + "\n"@ + content + "\n```"@) == spec_trim(content),
{
    lemma_fence_content(lang, content);
    reveal_strlit("\n```");
    reveal_strlit("\n");
    reveal_strlit("```");
    let c2 = content.push('\n');
    lemma_fence_content(lang, c2);
    assert("```"@ + lang + "\n"@ + c2 + "```"@ =~= "```"@ + lang + "\n"@ + content + "\n```"@);
    lemma_trim_push_space(content, '\n');
}

proof fn lemma_fence_content(lang: Seq<char>, content: Seq<char>)
    requires
        forall|i: int| 0 <= i < lang.len() ==> lang[i] != '\n',
    ensures
        spec_strip_code_fence("```"@ + lang + "\n"@ + content + "```"@) == spec_trim(content),
{
    reveal_strlit("```");
    reveal_strlit("\n");
    let f = "```"@;
    let raw = f + lang + "\n"@ + content + f;
    let l = lang.len() as int;
    assert(raw[0] == '`');
    assert(raw.last() == '`');
    lemma_trim_keeps_solid_ends(raw);
    let t = spec_trim(raw);
    assert(t.subrange(0, 3) =~= f);
    let rest = t.subrange(3, t.len() as int);
    assert(rest =~= lang + "\n"@ + content + f);
    assert(rest[l] == '\n');
    assert(forall|k: int| 0 <= k < l ==> rest[k] == lang[k]);
    assert(exists|i: int| 0 <= i < rest.len() && rest[i] == '\n' && forall|j: int| 0 <= j < i ==> rest[j] != '\n');
    let i = choose|i: int| 0 <= i < rest.len() && rest[i] == '\n' && forall|j: int| 0 <= j < i ==> rest[j] != '\n';
    if i < l {
        assert(rest[i] == lang[i]);
    }
    if i > l {
        assert(rest[l] != '\n');
    }
    assert(first_index_of(rest, '\n') == Some(l));
    let after = rest.subrange(l + 1, rest.len() as int);
    assert(after =~= content + f);
    assert(after.subrange(after.len() - 3, after.len() as int) =~= f);
    assert(after.subrange(0, after.len() - 3) =~= content);
}

} // verus!
