//! The research agent: conversation history, completion requests, and what
//! becomes of the backends' answers.
//!
//! The completion backend and the search adapter are reached by the caller.
//! The agent builds what is sent to the backend and decides, from what came
//! back, the answer, the failure and the change to the history.
use vstd::prelude::*;
use vstd::string::*;
use crate::config::Config;
use crate::text::{contains, lemma_contains_concat, lemma_contains_self};
use crate::prompt::{
    chat_preamble, decimal, decimal_text, render_chat_preamble, turns_view,
    RESEARCH_SYSTEM_PROMPT,
};

verus! {

/// Round trips that one completion call may take, tool calls included.
pub const TURN_BUDGET: usize = 5;

/// Name under which the search capability is declared to the backend.
pub const SEARCH_TOOL_NAME: &'static str = "web_search";

/// Opening of the user message in chat mode.
pub const CHAT_REQUEST_LEAD: &'static str = "Research and answer the following question. Use the web_search tool to find current information, then provide a comprehensive summary with sources:\n\n";

/// Opening of the user message in one-shot research mode.
pub const RESEARCH_REQUEST_LEAD: &'static str = "Research the following topic thoroughly. Use the web_search tool to find current information, then provide a comprehensive summary with sources:\n\n";

/// Context put before a completion backend's failure.
pub const COMPLETION_FAILED: &'static str = "Agent execution failed: ";

/// Context put before a search adapter's failure.
pub const SEARCH_FAILED: &'static str = "Search failed: ";

/// Quick-search answer when nothing was found; the query follows.
pub const NO_RESULTS: &'static str = "No results found for: ";

/// Heading of the quick-search listing.
pub const RESULTS_HEADING: &'static str = "## Search Results\n\n";

/// One search hit, as the search adapter returns it.
#[derive(Debug)]
pub struct SearchResult {
    pub title: String,
    pub snippet: String,
    pub url: String,
}

/// The search capability as declared to the completion backend.
#[derive(Debug)]
pub struct ToolManifest {
    pub name: String,
    pub max_results: usize,
}

/// Everything the completion backend is handed for one call.
#[derive(Debug)]
pub struct CompletionRequest {
    pub model: String,
    pub host: String,
    pub preamble: String,
    pub tool: ToolManifest,
    pub message: String,
    pub turn_budget: usize,
}

/// Why an agent operation failed.
#[derive(Debug)]
pub enum AgentError {
    /// The query holds nothing to act on.
    EmptyQuery,
    /// The completion backend failed; the message says how.
    Completion(String),
    /// The search adapter failed; the message says how.
    Search(String),
}

impl AgentError {
    /// The failure's message, as shown to the user.
    pub open spec fn spec_message(&self) -> Seq<char> {
        match self {
            AgentError::EmptyQuery => "No query provided"@,
            AgentError::Completion(m) => m@,
            AgentError::Search(m) => m@,
        }
    }

    /// The failure's message.
    pub fn message(&self) -> (r: String)
        ensures
            r@ == self.spec_message(),
    {
        match self {
            AgentError::EmptyQuery => String::from_str("No query provided"),
            AgentError::Completion(m) => m.clone(),
            AgentError::Search(m) => m.clone(),
        }
    }
}

/// `prefix` followed by `s`.
fn prefixed(prefix: &str, s: &str) -> (r: String)
    ensures
        r@ == prefix@ + s@,
{
    let mut r = String::from_str(prefix);
    r.append(s);
    r
}

/// One numbered entry of the quick-search listing.
pub open spec fn entry_text(n: nat, r: SearchResult) -> Seq<char> {
    decimal(n) + ". **"@ + r.title@ + "**\n   "@ + r.snippet@ + "\n   URL: "@ + r.url@ + "\n"@
}

/// The entries of `rs`, numbered from 1 in adapter order, separated by a
/// newline.
pub open spec fn entries_text(rs: Seq<SearchResult>) -> Seq<char>
    decreases rs.len(),
{
    if rs.len() == 0 {
        Seq::empty()
    } else if rs.len() == 1 {
        entry_text(1, rs[0])
    } else {
        entries_text(rs.drop_last()) + "\n"@ + entry_text(rs.len(), rs.last())
    }
}

/// The quick-search answer for `query` when the adapter returned `rs`.
pub open spec fn quick_listing(query: Seq<char>, rs: Seq<SearchResult>) -> Seq<char> {
    if rs.len() == 0 {
        NO_RESULTS@ + query
    } else {
        RESULTS_HEADING@ + entries_text(rs)
    }
}

/// Each result's entry, numbered by its position, occurs in the joined
/// entries.
proof fn lemma_entries_hold_each(rs: Seq<SearchResult>, i: int)
    requires
        0 <= i < rs.len(),
    ensures
        contains(entries_text(rs), entry_text((i + 1) as nat, rs[i])),
    decreases rs.len(),
{
    let e = entry_text((i + 1) as nat, rs[i]);
    lemma_contains_self(e);
    if rs.len() > 1 {
        let front = entries_text(rs.drop_last()) + "\n"@;
        if i == rs.len() - 1 {
            lemma_contains_concat(front, e, e);
        } else {
            lemma_entries_hold_each(rs.drop_last(), i);
            lemma_contains_concat(entries_text(rs.drop_last()), "\n"@, e);
            lemma_contains_concat(front, entry_text(rs.len(), rs.last()), e);
        }
    }
}

/// An entry shows the result's title, snippet and URL.
proof fn lemma_entry_shows_result(n: nat, r: SearchResult)
    ensures
        contains(entry_text(n, r), r.title@),
        contains(entry_text(n, r), r.snippet@),
        contains(entry_text(n, r), r.url@),
{
    let (t, sn, u) = (r.title@, r.snippet@, r.url@);
    lemma_contains_self(t);
    lemma_contains_self(sn);
    lemma_contains_self(u);
    let x1 = decimal(n) + ". **"@ + t;
    lemma_contains_concat(decimal(n) + ". **"@, t, t);
    let x2 = x1 + "**\n   "@;
    lemma_contains_concat(x1, "**\n   "@, t);
    let x3 = x2 + sn;
    lemma_contains_concat(x2, sn, t);
    lemma_contains_concat(x2, sn, sn);
    let x4 = x3 + "\n   URL: "@;
    lemma_contains_concat(x3, "\n   URL: "@, t);
    lemma_contains_concat(x3, "\n   URL: "@, sn);
    let x5 = x4 + u;
    lemma_contains_concat(x4, u, t);
    lemma_contains_concat(x4, u, sn);
    lemma_contains_concat(x4, u, u);
    lemma_contains_concat(x5, "\n"@, t);
    lemma_contains_concat(x5, "\n"@, sn);
    lemma_contains_concat(x5, "\n"@, u);
    assert(entry_text(n, r) == x5 + "\n"@);
}

/// With no results the listing is the no-results message naming the query;
/// with K results it holds K entries, the i-th numbered i and showing the
/// i-th result's title, snippet and URL.
pub proof fn lemma_listing_shows_results(query: Seq<char>, rs: Seq<SearchResult>)
    ensures
        rs.len() == 0 ==> quick_listing(query, rs) == NO_RESULTS@ + query,
        rs.len() == 0 ==> contains(quick_listing(query, rs), query),
        forall|i: int|
            0 <= i < rs.len() ==> {
                &&& contains(quick_listing(query, rs), #[trigger] entry_text((i + 1) as nat, rs[i]))
                &&& contains(entry_text((i + 1) as nat, rs[i]), rs[i].title@)
                &&& contains(entry_text((i + 1) as nat, rs[i]), rs[i].snippet@)
                &&& contains(entry_text((i + 1) as nat, rs[i]), rs[i].url@)
            },
{
    if rs.len() == 0 {
        lemma_contains_self(query);
        lemma_contains_concat(NO_RESULTS@, query, query);
    }
    assert forall|i: int| 0 <= i < rs.len() implies {
        &&& contains(quick_listing(query, rs), #[trigger] entry_text((i + 1) as nat, rs[i]))
        &&& contains(entry_text((i + 1) as nat, rs[i]), rs[i].title@)
        &&& contains(entry_text((i + 1) as nat, rs[i]), rs[i].snippet@)
        &&& contains(entry_text((i + 1) as nat, rs[i]), rs[i].url@)
    } by {
        lemma_entries_hold_each(rs, i);
        lemma_contains_concat(RESULTS_HEADING@, entries_text(rs), entry_text((i + 1) as nat, rs[i]));
        lemma_entry_shows_result((i + 1) as nat, rs[i]);
    }
}

fn render_entry(n: usize, r: &SearchResult) -> (s: String)
    ensures
        s@ == entry_text(n as nat, *r),
{
    let mut s = decimal_text(n);
    s.append(". **");
    s.append(r.title.as_str());
    s.append("**\n   ");
    s.append(r.snippet.as_str());
    s.append("\n   URL: ");
    s.append(r.url.as_str());
    s.append("\n");
    s
}

/// Renders the quick-search answer for `query` from the adapter's results,
/// in the adapter's order.
pub fn format_results(query: &str, results: &Vec<SearchResult>) -> (r: String)
    ensures
        r@ == quick_listing(query@, results@),
{
    if results.len() == 0 {
        return prefixed(NO_RESULTS, query);
    }
    let ghost rs = results@;
    let mut body = String::new();
    let mut i: usize = 0;
    while i < results.len()
        invariant
            rs == results@,
            i <= rs.len(),
            body@ == entries_text(rs.take(i as int)),
        decreases rs.len() - i,
    {
        assert(rs.take(i + 1).drop_last() =~= rs.take(i as int));
        if i > 0 {
            body.append("\n");
        }
        let entry = render_entry(i + 1, &results[i]);
        body.append(entry.as_str());
        i = i + 1;
    }
    assert(rs.take(i as int) =~= rs);
    prefixed(RESULTS_HEADING, body.as_str())
}

/// The history after a successful chat turn: the turn is appended.
pub open spec fn record_turn(
    h: Seq<(Seq<char>, Seq<char>)>,
    q: Seq<char>,
    a: Seq<char>,
) -> Seq<(Seq<char>, Seq<char>)> {
    h.push((q, a))
}

/// The history after the successful chat turns `calls`, in call order,
/// starting from `h`.
pub open spec fn after_turns(
    h: Seq<(Seq<char>, Seq<char>)>,
    calls: Seq<(Seq<char>, Seq<char>)>,
) -> Seq<(Seq<char>, Seq<char>)>
    decreases calls.len(),
{
    if calls.len() == 0 {
        h
    } else {
        record_turn(after_turns(h, calls.drop_last()), calls.last().0, calls.last().1)
    }
}

/// After N successful chat turns on an empty history, the history holds N
/// entries, and entry i is the query and response of the i-th call.
pub proof fn lemma_history_records_calls(calls: Seq<(Seq<char>, Seq<char>)>)
    ensures
        after_turns(Seq::empty(), calls).len() == calls.len(),
        forall|i: int| 0 <= i < calls.len() ==> #[trigger] after_turns(Seq::empty(), calls)[i] == calls[i],
    decreases calls.len(),
{
    if calls.len() > 0 {
        lemma_history_records_calls(calls.drop_last());
        assert(after_turns(Seq::empty(), calls) =~= calls);
    }
}

/// A research assistant: its configuration and the turns it has answered.
#[derive(Debug)]
pub struct ResearchAgent {
    config: Config,
    history: Vec<(String, String)>,
}

impl ResearchAgent {
    /// The turns answered so far, oldest first.
    pub closed spec fn spec_history(&self) -> Seq<(Seq<char>, Seq<char>)> {
        turns_view(self.history@)
    }

    /// The configuration the agent was made with.
    pub closed spec fn spec_config(&self) -> Config {
        self.config
    }

    /// A new agent with an empty history.
    pub fn new(config: Config) -> (r: ResearchAgent)
        ensures
            r.spec_config() == config,
            r.spec_history() == Seq::<(Seq<char>, Seq<char>)>::empty(),
    {
        let r = ResearchAgent { config, history: Vec::new() };
        assert(r.spec_history() =~= Seq::<(Seq<char>, Seq<char>)>::empty());
        r
    }

    /// The agent's configuration.
    pub fn config(&self) -> (r: &Config)
        ensures
            *r == self.spec_config(),
    {
        &self.config
    }

    /// The turns answered so far, oldest first.
    pub fn history(&self) -> (r: &[(String, String)])
        ensures
            turns_view(r@) == self.spec_history(),
    {
        self.history.as_slice()
    }

    /// Forgets every turn.
    pub fn clear_history(&mut self)
        ensures
            final(self).spec_history() == Seq::<(Seq<char>, Seq<char>)>::empty(),
            final(self).spec_config() == old(self).spec_config(),
    {
        self.history.clear();
        assert(self.spec_history() =~= Seq::<(Seq<char>, Seq<char>)>::empty());
    }

    /// The request that carries `preamble` and `message` to the backend.
    pub open spec fn request_for(
        &self,
        r: CompletionRequest,
        preamble: Seq<char>,
        message: Seq<char>,
    ) -> bool {
        &&& r.model@ == self.spec_config().model@
        &&& r.host@ == self.spec_config().ollama_host@
        &&& r.preamble@ == preamble
        &&& r.tool.name@ == SEARCH_TOOL_NAME@
        &&& r.tool.max_results == self.spec_config().max_search_results
        &&& r.message@ == message
        &&& r.turn_budget == TURN_BUDGET
    }

    fn make_request(&self, preamble: String, lead: &str, query: &str) -> (r: CompletionRequest)
        ensures
            self.request_for(r, preamble@, lead@ + query@),
    {
        CompletionRequest {
            model: self.config.model.clone(),
            host: self.config.ollama_host.clone(),
            preamble,
            tool: ToolManifest {
                name: String::from_str(SEARCH_TOOL_NAME),
                max_results: self.config.max_search_results,
            },
            message: prefixed(lead, query),
            turn_budget: TURN_BUDGET,
        }
    }

    /// The completion request for a chat turn: the chat preamble with the
    /// rendered history, the search tool, and the query behind an instruction
    /// to search and then answer, within the turn budget.
    pub fn chat_request(&self, query: &str) -> (r: Result<CompletionRequest, AgentError>)
        ensures
            query@.len() == 0 <==> (r matches Err(AgentError::EmptyQuery)),
            query@.len() > 0 ==> (r matches Ok(req) && self.request_for(
                req,
                chat_preamble(self.spec_history()),
                CHAT_REQUEST_LEAD@ + query@,
            )),
    {
        if query.unicode_len() == 0 {
            return Err(AgentError::EmptyQuery);
        }
        let preamble = render_chat_preamble(&self.history);
        Ok(self.make_request(preamble, CHAT_REQUEST_LEAD, query))
    }

    /// Completes a chat turn with the backend's reply to `chat_request(query)`.
    /// A reply is recorded as the newest turn and returned; a failure is
    /// returned with its context and leaves the history as it was.
    pub fn chat(&mut self, query: &str, reply: Result<String, String>) -> (r: Result<
        String,
        AgentError,
    >)
        ensures
            final(self).spec_config() == old(self).spec_config(),
            query@.len() == 0 ==> (r matches Err(AgentError::EmptyQuery)),
            query@.len() > 0 && reply is Ok ==> (r matches Ok(a) && a@ == reply->Ok_0@),
            query@.len() > 0 && reply is Ok ==> final(self).spec_history() == record_turn(
                old(self).spec_history(),
                query@,
                reply->Ok_0@,
            ),
            query@.len() > 0 && reply is Err ==> (r matches Err(AgentError::Completion(m)) && m@
                == COMPLETION_FAILED@ + reply->Err_0@),
            query@.len() == 0 || reply is Err ==> final(self).spec_history() == old(
                self,
            ).spec_history(),
    {
        if query.unicode_len() == 0 {
            return Err(AgentError::EmptyQuery);
        }
        match reply {
            Ok(response) => {
                let answer = response.clone();
                self.history.push((String::from_str(query), response));
                assert(self.spec_history() =~= old(self).spec_history().push((query@, answer@)));
                Ok(answer)
            },
            Err(e) => Err(AgentError::Completion(prefixed(COMPLETION_FAILED, e.as_str()))),
        }
    }

    /// The completion request for a one-shot research query: the fixed
    /// research preamble, no history.
    pub fn research_request(&self, query: &str) -> (r: Result<CompletionRequest, AgentError>)
        ensures
            query@.len() == 0 <==> (r matches Err(AgentError::EmptyQuery)),
            query@.len() > 0 ==> (r matches Ok(req) && self.request_for(
                req,
                RESEARCH_SYSTEM_PROMPT@,
                RESEARCH_REQUEST_LEAD@ + query@,
            )),
    {
        if query.unicode_len() == 0 {
            return Err(AgentError::EmptyQuery);
        }
        Ok(self.make_request(String::from_str(RESEARCH_SYSTEM_PROMPT), RESEARCH_REQUEST_LEAD, query))
    }

    /// Completes a one-shot research query with the backend's reply to
    /// `research_request(query)`. The history is not touched.
    pub fn research(&self, query: &str, reply: Result<String, String>) -> (r: Result<
        String,
        AgentError,
    >)
        ensures
            query@.len() == 0 ==> (r matches Err(AgentError::EmptyQuery)),
            query@.len() > 0 && reply is Ok ==> (r matches Ok(a) && a@ == reply->Ok_0@),
            query@.len() > 0 && reply is Err ==> (r matches Err(AgentError::Completion(m)) && m@
                == COMPLETION_FAILED@ + reply->Err_0@),
    {
        if query.unicode_len() == 0 {
            return Err(AgentError::EmptyQuery);
        }
        match reply {
            Ok(response) => Ok(response),
            Err(e) => Err(AgentError::Completion(prefixed(COMPLETION_FAILED, e.as_str()))),
        }
    }

    /// Answers a quick search from the adapter's outcome for `query`, without
    /// the language model: the numbered listing, or the no-results message.
    /// The history is not touched.
    pub fn quick_search(&self, query: &str, outcome: Result<Vec<SearchResult>, String>) -> (r:
        Result<String, AgentError>)
        ensures
            outcome is Ok ==> (r matches Ok(s) && s@ == quick_listing(query@, outcome->Ok_0@)),
            outcome is Err ==> (r matches Err(AgentError::Search(m)) && m@ == SEARCH_FAILED@
                + outcome->Err_0@),
    {
        match outcome {
            Ok(results) => Ok(format_results(query, &results)),
            Err(e) => Err(AgentError::Search(prefixed(SEARCH_FAILED, e.as_str()))),
        }
    }
}

} // verus!
