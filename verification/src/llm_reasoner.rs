//! The LLM reasoner agent: carries the identity and script path of an
//! external explanation generator. The generator itself is a subprocess the
//! library never runs; callers take the script path from here, hand the
//! generator a finished compliance result, and consume its prose.

use vstd::prelude::*;
use vstd::string::StringExecFns;

verus! {

/// Identity and configuration of the external explanation generator.
pub struct LlmReasonerAgent {
    agent_id: String,
    python_script_path: String,
}

impl LlmReasonerAgent {
    /// The agent's identifier text.
    pub closed spec fn agent_id_view(&self) -> Seq<char> {
        self.agent_id@
    }

    /// The configured script path.
    pub closed spec fn script_path_view(&self) -> Seq<char> {
        self.python_script_path@
    }

    /// Builds the reasoner with its default script path.
    pub fn new() -> (r: LlmReasonerAgent)
        ensures
            r.agent_id_view() == "llm-reasoner-001"@,
            r.script_path_view() == "langchain_reasoner_mock.py"@,
    {
        LlmReasonerAgent {
            agent_id: String::from_str("llm-reasoner-001"),
            python_script_path: String::from_str("langchain_reasoner_mock.py"),
        }
    }

    /// Builds the reasoner with a caller-chosen script path.
    pub fn with_script_path(script_path: String) -> (r: LlmReasonerAgent)
        ensures
            r.agent_id_view() == "llm-reasoner-001"@,
            r.script_path_view() == script_path@,
    {
        LlmReasonerAgent { agent_id: String::from_str("llm-reasoner-001"), python_script_path: script_path }
    }

    /// The configured script path.
    pub fn script_path(&self) -> (r: &str)
        ensures
            r@ == self.script_path_view(),
    {
        self.python_script_path.as_str()
    }

    /// The agent's identifier.
    pub fn agent_id(&self) -> (r: &str)
        ensures
            r@ == self.agent_id_view(),
    {
        self.agent_id.as_str()
    }
}

impl Default for LlmReasonerAgent {
    /// Same as [`LlmReasonerAgent::new`].
    fn default() -> (r: LlmReasonerAgent)
        ensures
            r.agent_id_view() == "llm-reasoner-001"@,
            r.script_path_view() == "langchain_reasoner_mock.py"@,
    {
        LlmReasonerAgent::new()
    }
}

} // verus!
