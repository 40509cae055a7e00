//! The mute tool: lets the dialogue engine silence the assistant for a
//! while. Saying the magic word brings it back.

use crate::mute::MuteGate;
use crate::tools::ToolError;
use vstd::prelude::*;

verus! {

/// A tool that keeps the assistant from responding for a given time. The
/// assistant responds again before that time to a transcript that holds
/// `TimeoutTool::MAGIC_WORD`.
pub struct TimeoutTool {
    pub timeout: MuteGate,
}

/// The parameters of the mute tool.
pub struct Params {
    /// The duration to wait, in seconds, before responding is allowed again.
    pub timeout: u32,
}

impl TimeoutTool {
    /// The word that ends a suppression early, in lowercase.
    pub const MAGIC_WORD: &'static str = "cat";

    /// The name under which the dialogue engine knows the tool.
    pub fn name() -> (name: &'static str)
        ensures
            name@ == "timeout"@,
    {
        "timeout"
    }

    /// What the tool does, in words for the dialogue engine.
    pub fn description() -> (description: &'static str)
        ensures
            description@
                == "Using this tool will make the chatbot not be able to respond for a certain amount of time."@,
    {
        "Using this tool will make the chatbot not be able to respond for a certain amount of time."
    }

    /// Suppresses replies for `parameters.timeout` seconds from `now`,
    /// replacing any suppression set before. Fails, and changes nothing,
    /// only where the end of the suppression cannot be represented.
    pub fn call(&mut self, parameters: Params, now: u64) -> (out: Result<String, ToolError>)
        ensures
            MuteGate::deadline(now, parameters.timeout) <= u64::MAX ==> {
                &&& out matches Ok(text)
                &&& text@ == "Timeout set to {} seconds"@
                &&& final(self).timeout == old(self).timeout.suppressed_for(
                    now,
                    parameters.timeout,
                )
                &&& final(self).timeout.suppressed_until == MuteGate::deadline(
                    now,
                    parameters.timeout,
                )
            },
            MuteGate::deadline(now, parameters.timeout) > u64::MAX ==> {
                &&& out == Err::<String, ToolError>(ToolError::DeadlineOutOfRange)
                &&& final(self).timeout == old(self).timeout
            },
    {
        let span: u64 = (parameters.timeout as u64) * 1000;
        if span > u64::MAX - now {
            return Err(ToolError::DeadlineOutOfRange);
        }
        self.timeout.suppress_for(now, parameters.timeout);
        Ok(String::from_str("Timeout set to {} seconds"))
    }
}

} // verus!
