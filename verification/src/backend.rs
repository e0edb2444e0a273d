//! Which provider a builder is for, and the settings that some of them have.

use vstd::prelude::*;

verus! {

/// A provider of language models.
#[derive(Debug, Clone, Copy, PartialEq, Eq, Structural)]
pub enum LLMBackend {
    Google,
    MistralRs,
}

/// How much a model should reason before it answers.
#[derive(Debug, Clone, Copy, PartialEq, Eq, Structural)]
pub enum ReasoningEffort {
    Low,
    Medium,
    High,
}

/// The service tier of the Google backend: a trade of cost, latency and reliability.
#[derive(Debug, Clone, Copy, PartialEq, Eq, Structural)]
pub enum GoogleServiceTier {
    Standard,
    Flex,
    Priority,
}

/// How far the weights of an embedded model are quantized.
#[derive(Debug, Clone, Copy, PartialEq, Eq, Structural)]
pub enum MistralRsQuantization {
    /// Four bits.
    Q4,
    /// Eight bits.
    Q8,
    /// No quantization.
    Unquantized,
}

impl Default for MistralRsQuantization {
    /// Four bits, for lower memory usage.
    fn default() -> (quantization: MistralRsQuantization)
        ensures
            quantization == MistralRsQuantization::Q4,
    {
        MistralRsQuantization::Q4
    }
}

/// The name of a reasoning effort.
pub open spec fn effort_name(effort: ReasoningEffort) -> Seq<char> {
    match effort {
        ReasoningEffort::Low => "low"@,
        ReasoningEffort::Medium => "medium"@,
        ReasoningEffort::High => "high"@,
    }
}

impl ReasoningEffort {
    /// The name of the effort.
    pub fn to_string(&self) -> (name: String)
        ensures
            name@ == effort_name(*self),
    {
        match self {
            ReasoningEffort::Low => "low".to_owned(),
            ReasoningEffort::Medium => "medium".to_owned(),
            ReasoningEffort::High => "high".to_owned(),
        }
    }
}

} // verus!
