use vstd::prelude::*;

verus! {

/// How one interactive line read ended.
#[derive(Debug)]
pub enum ReadOutcome {
    /// The user completed a line.
    Line(String),
    /// The user pressed the interrupt key (or escape, bound to it).
    Interrupted,
    /// Input ended.
    Eof,
    /// The line editor failed with this message.
    Failed(String),
}

/// What a line prompt hands back to its caller.
#[derive(Debug)]
pub struct PromptReply {
    /// The line read, no value, or the editor's failure message.
    pub value: Result<Option<String>, String>,
    /// Whether the process must now raise its own interrupt signal.
    pub raise_interrupt: bool,
}

/// Translates the end of a line read into the prompt's answer: a completed
/// line is the value; an interrupt gives no value and asks for the interrupt
/// signal to be raised; end of input gives no value quietly; any other
/// failure is an error carrying the editor's message.
pub fn prompt_reply(outcome: ReadOutcome) -> (r: PromptReply)
    ensures
        match outcome {
            ReadOutcome::Line(line) => r.value == Ok::<Option<String>, String>(Some(line))
                && !r.raise_interrupt,
            ReadOutcome::Interrupted => r.value == Ok::<Option<String>, String>(None)
                && r.raise_interrupt,
            ReadOutcome::Eof => r.value == Ok::<Option<String>, String>(None) && !r.raise_interrupt,
            ReadOutcome::Failed(msg) => r.value == Err::<Option<String>, String>(msg)
                && !r.raise_interrupt,
        },
{
    match outcome {
        ReadOutcome::Line(line) => PromptReply { value: Ok(Some(line)), raise_interrupt: false },
        ReadOutcome::Interrupted => PromptReply { value: Ok(None), raise_interrupt: true },
        ReadOutcome::Eof => PromptReply { value: Ok(None), raise_interrupt: false },
        ReadOutcome::Failed(msg) => PromptReply { value: Err(msg), raise_interrupt: false },
    }
}

} // verus!
