//! Language-model providers: model information and the providers that
//! need no network (a scripted mock and an echo).
use vstd::prelude::*;
use std::sync::atomic::{AtomicUsize, Ordering};

use crate::text::{strings_view, to_owned_string};

verus! {

/// Information about a language model.
#[derive(Debug, Clone)]
pub struct LlmModelInfo {
    /// The model's name.
    pub name: String,
    /// The model's version.
    pub version: String,
    /// What the model can do.
    pub capabilities: Vec<String>,
}

/// The information a provider reports when it knows nothing more than
/// its name: version `unknown`, no capabilities.
pub fn default_model_info(name: &str) -> (r: LlmModelInfo)
    ensures
        r.name@ == name@,
        r.version@ == "unknown"@,
        r.capabilities@.len() == 0,
{
    LlmModelInfo { name: to_owned_string(name), version: String::from_str("unknown"), capabilities: Vec::new() }
}

/// A provider for deterministic tests: it answers with its scripted
/// responses in turn, starting over after the last.
pub struct MockLlmProvider {
    responses: Vec<String>,
    index: AtomicUsize,
}

impl MockLlmProvider {
    /// The scripted responses.
    pub closed spec fn spec_responses(&self) -> Seq<Seq<char>> {
        strings_view(self.responses@)
    }

    /// A provider answering with `responses` in turn.
    pub fn new(responses: Vec<String>) -> (r: MockLlmProvider)
        ensures
            r.spec_responses() == strings_view(responses@),
    {
        MockLlmProvider { responses, index: AtomicUsize::new(0) }
    }

    /// A provider that always answers `response`.
    pub fn single(response: &str) -> (r: MockLlmProvider)
        ensures
            r.spec_responses() == seq![response@],
    {
        let mut v: Vec<String> = Vec::new();
        v.push(to_owned_string(response));
        let r = MockLlmProvider::new(v);
        assert(strings_view(v@) =~= seq![response@]);
        r
    }

    /// How many scripted responses the provider has.
    pub fn response_count(&self) -> (n: usize)
        ensures
            n == self.spec_responses().len(),
    {
        self.responses.len()
    }

    /// The provider's name, `mock`.
    pub fn name(&self) -> (r: &'static str)
        ensures
            r@ == "mock"@,
    {
        "mock"
    }

    /// The health check always passes.
    pub fn health(&self) -> (r: Result<(), String>)
        ensures
            r is Ok,
    {
        Ok(())
    }

    /// The model information: name `mock`, version `unknown`, no
    /// capabilities.
    pub fn model_info(&self) -> (r: LlmModelInfo)
        ensures
            r.name@ == "mock"@,
            r.version@ == "unknown"@,
            r.capabilities@.len() == 0,
    {
        default_model_info(self.name())
    }

    /// The next scripted response. The turn counter is shared by every
    /// caller of the provider, so which response comes depends on how
    /// many were asked for before; it is always one of the scripted ones.
    pub fn next_response(&self) -> (r: String)
        requires
            self.spec_responses().len() > 0,
        ensures
            exists|i: int| 0 <= i < self.spec_responses().len() && r@ == self.spec_responses()[i],
    {
        let idx = self.index.fetch_add(1, Ordering::SeqCst);
        self.response_for_turn(idx)
    }

    /// The response for turn `turn`: the scripted responses in turn,
    /// starting over after the last.
    pub fn response_for_turn(&self, turn: usize) -> (r: String)
        requires
            self.spec_responses().len() > 0,
        ensures
            r@ == self.spec_responses()[(turn as nat % self.spec_responses().len()) as int],
    {
        let k = turn % self.responses.len();
        let r = self.responses[k].clone();
        assert(r@ == strings_view(self.responses@)[k as int]);
        r
    }
}

/// A provider for development that answers with the prompt it was given.
pub struct EchoLlmProvider;

impl EchoLlmProvider {
    /// The provider's name, `echo`.
    pub fn name(&self) -> (r: &'static str)
        ensures
            r@ == "echo"@,
    {
        "echo"
    }

    /// The health check always passes.
    pub fn health(&self) -> (r: Result<(), String>)
        ensures
            r is Ok,
    {
        Ok(())
    }

    /// The model information: name `echo`, version `unknown`, no
    /// capabilities.
    pub fn model_info(&self) -> (r: LlmModelInfo)
        ensures
            r.name@ == "echo"@,
            r.version@ == "unknown"@,
            r.capabilities@.len() == 0,
    {
        default_model_info(self.name())
    }

    /// The answer to a prompt: the prompt itself.
    pub fn echo(&self, prompt: &str) -> (r: String)
        ensures
            r@ == prompt@,
    {
        to_owned_string(prompt)
    }
}

} // verus!
