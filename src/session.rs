//! Session decisions: which mode a run takes, and what a line typed in the
//! interactive loop asks for.
use vstd::prelude::*;
use vstd::string::*;
use crate::agent::AgentError;
use crate::text::same_text;

verus! {

/// What a run does.
#[derive(Debug)]
pub enum Mode {
    /// Read queries line by line.
    Interactive,
    /// List search results for the query, without the language model.
    Quick(String),
    /// Research the query and synthesize an answer.
    Full(String),
}

/// Picks the run's mode: interactive mode wins; otherwise the query is run
/// in quick or full mode; without either there is nothing to do.
pub fn select_mode(query: Option<String>, interactive: bool, quick: bool) -> (r: Result<
    Mode,
    AgentError,
>)
    ensures
        interactive ==> (r matches Ok(Mode::Interactive)),
        !interactive && query is None ==> (r matches Err(AgentError::EmptyQuery)),
        !interactive && query is Some && quick ==> (r matches Ok(Mode::Quick(q)) && q
            == query->Some_0),
        !interactive && query is Some && !quick ==> (r matches Ok(Mode::Full(q)) && q
            == query->Some_0),
{
    if interactive {
        Ok(Mode::Interactive)
    } else {
        match query {
            Some(q) => if quick {
                Ok(Mode::Quick(q))
            } else {
                Ok(Mode::Full(q))
            },
            None => Err(AgentError::EmptyQuery),
        }
    }
}

/// What a line of the interactive loop asks for.
#[derive(Debug)]
pub enum Command {
    /// Leave the loop.
    Quit,
    /// Forget the conversation.
    Clear,
    /// Nothing: read the next line.
    Skip,
    /// Ask this question.
    Ask(String),
}

/// The text of `s` without leading and trailing whitespace.
pub uninterp spec fn trimmed_of(s: Seq<char>) -> Seq<char>;

/// The lowercase form of `s`.
pub uninterp spec fn lower_of(s: Seq<char>) -> Seq<char>;

/// Relies on `str::trim`: whitespace is removed at both ends; the result
/// depends on the characters alone.
#[verifier::external_body]
fn trim_text(s: &str) -> (r: String)
    ensures
        r@ == trimmed_of(s@),
{
    s.trim().to_string()
}

/// Relies on `str::to_lowercase`: the result depends on the characters alone,
/// and an empty text stays empty.
#[verifier::external_body]
fn lowercase_text(s: &str) -> (r: String)
    ensures
        r@ == lower_of(s@),
        s@.len() == 0 ==> r@.len() == 0,
{
    s.to_lowercase()
}

/// The command that a trimmed line asks for, given its lowercase form:
/// `quit` or `exit` leave, `clear` forgets, an empty line is skipped, and
/// anything else is asked as it was typed.
pub open spec fn command_for(c: Command, trimmed: Seq<char>, lowered: Seq<char>) -> bool {
    if lowered == "quit"@ || lowered == "exit"@ {
        c is Quit
    } else if lowered == "clear"@ {
        c is Clear
    } else if lowered.len() == 0 {
        c is Skip
    } else {
        c matches Command::Ask(q) && q@ == trimmed
    }
}

/// Decides what a trimmed line asks for, from the line and its lowercase form.
pub fn command_of(trimmed: &str, lowered: &str) -> (r: Command)
    ensures
        command_for(r, trimmed@, lowered@),
{
    if same_text(lowered, "quit") || same_text(lowered, "exit") {
        Command::Quit
    } else if same_text(lowered, "clear") {
        Command::Clear
    } else if lowered.unicode_len() == 0 {
        Command::Skip
    } else {
        Command::Ask(String::from_str(trimmed))
    }
}

/// Decides what a line typed in the interactive loop asks for; commands are
/// recognised whatever their case.
pub fn interpret_line(line: &str) -> (r: Command)
    ensures
        command_for(r, trimmed_of(line@), lower_of(trimmed_of(line@))),
{
    let trimmed = trim_text(line);
    let lowered = lowercase_text(trimmed.as_str());
    command_of(trimmed.as_str(), lowered.as_str())
}

} // verus!
