//! Prompt templating: decimal numbers, rendered history and placeholder
//! substitution.
use vstd::prelude::*;
use vstd::string::*;
use vstd::seq_lib::lemma_concat_associative;
use crate::text::{contains, occurs_at, occurs_at_pos};

verus! {

/// Preamble of the one-shot research mode.
pub const RESEARCH_SYSTEM_PROMPT: &'static str = "\nYou are a helpful AI research assistant. Your task is to research topics and provide summaries.\n\nIMPORTANT INSTRUCTIONS:\n1. Use the web_search tool ONCE to find relevant information\n2. After getting search results, IMMEDIATELY synthesize them into a summary\n3. DO NOT make multiple search requests - one search is sufficient\n4. If the first search returns no results, try ONE simpler query, then summarize\n\nWhen responding after a search:\n- **Overview**: Brief introduction to the topic\n- **Key Sources Found**: List the URLs from the search\n- **Summary**: Synthesize what these sources likely cover based on their titles/domains\n- **Next Steps**: Suggest what the user might explore\n\nAlways provide a response after seeing search results. Never keep searching indefinitely.\n";

/// Part of the chat template before the history placeholder.
pub const CHAT_PROMPT_HEAD: &'static str = "\nYou are an AI research assistant. You help users by searching the web and summarizing findings.\n\nSEARCH RULES (CRITICAL - FOLLOW EXACTLY):\n1. You have access to a web_search tool\n2. Search ONCE only - do not repeat searches\n3. After the search completes, you MUST provide your final answer directly\n4. Stop after one search - do NOT call web_search again\n5. Your response should include sources (URLs)\n\nCONVERSATION HISTORY:\n";

/// Part of the chat template after the history placeholder.
pub const CHAT_PROMPT_TAIL: &'static str = "\n\nWhen the user asks a question:\n- Search once using web_search\n- After receiving results, give a complete answer with sources\n- Do not ask follow-up questions or call tools again\n";

/// The placeholder that the chat template holds for the history.
pub const HISTORY_PLACEHOLDER: &'static str = "{history}";

/// What stands for the history while there is none.
pub const NO_HISTORY: &'static str = "No previous conversation.";

/// The character of a decimal digit.
pub open spec fn digit_char(d: nat) -> char {
    seq!['0', '1', '2', '3', '4', '5', '6', '7', '8', '9'][d as int]
}

/// The decimal notation of `n`, without leading zeros.
pub open spec fn decimal(n: nat) -> Seq<char>
    decreases n,
{
    if n < 10 {
        seq![digit_char(n)]
    } else {
        decimal(n / 10).push(digit_char(n % 10))
    }
}

fn digit_text(d: usize) -> (r: &'static str)
    requires
        d < 10,
    ensures
        r@ == seq![digit_char(d as nat)],
{
    proof {
        reveal_strlit("0");
        reveal_strlit("1");
        reveal_strlit("2");
        reveal_strlit("3");
        reveal_strlit("4");
        reveal_strlit("5");
        reveal_strlit("6");
        reveal_strlit("7");
        reveal_strlit("8");
        reveal_strlit("9");
    }
    let r = match d {
        0 => "0",
        1 => "1",
        2 => "2",
        3 => "3",
        4 => "4",
        5 => "5",
        6 => "6",
        7 => "7",
        8 => "8",
        _ => "9",
    };
    assert(r@ =~= seq![digit_char(d as nat)]);
    r
}

/// The decimal notation of `n`.
pub fn decimal_text(n: usize) -> (r: String)
    ensures
        r@ == decimal(n as nat),
    decreases n,
{
    if n < 10 {
        String::from_str(digit_text(n))
    } else {
        let mut r = decimal_text(n / 10);
        r.append(digit_text(n % 10));
        r
    }
}

/// `s` with every occurrence of `p` replaced by `v`, scanning left to right.
pub open spec fn replace_all(s: Seq<char>, p: Seq<char>, v: Seq<char>) -> Seq<char>
    decreases s.len(),
{
    if p.len() == 0 || s.len() < p.len() {
        s
    } else if s.subrange(0, p.len() as int) == p {
        v + replace_all(s.subrange(p.len() as int, s.len() as int), p, v)
    } else {
        seq![s[0]] + replace_all(s.subrange(1, s.len() as int), p, v)
    }
}

/// Where a non-empty pattern occurs, its replacement occurs in the result.
pub proof fn lemma_replace_all_inserts(s: Seq<char>, p: Seq<char>, v: Seq<char>)
    requires
        p.len() > 0,
        contains(s, p),
    ensures
        contains(replace_all(s, p, v), v),
    decreases s.len(),
{
    let k = choose|k: int| occurs_at(s, p, k);
    let r = replace_all(s, p, v);
    if s.subrange(0, p.len() as int) == p {
        assert(occurs_at(r, v, 0)) by {
            assert(r.subrange(0, v.len() as int) =~= v);
        }
    } else {
        assert(k != 0);
        let rest = s.subrange(1, s.len() as int);
        assert(occurs_at(rest, p, k - 1)) by {
            assert(rest.subrange(k - 1, k - 1 + p.len()) =~= s.subrange(k, k + p.len()));
        }
        lemma_replace_all_inserts(rest, p, v);
        let tail = replace_all(rest, p, v);
        let j = choose|j: int| occurs_at(tail, v, j);
        assert(occurs_at(r, v, j + 1)) by {
            assert(r.subrange(j + 1, j + 1 + v.len()) =~= tail.subrange(j, j + v.len()));
        }
    }
}

/// Fills `template` by replacing every occurrence of `placeholder` with `value`.
pub fn fill_template(template: &str, placeholder: &str, value: &str) -> (r: String)
    ensures
        r@ == replace_all(template@, placeholder@, value@),
{
    let n = template.unicode_len();
    let p_len = placeholder.unicode_len();
    let ghost t = template@;
    let ghost p = placeholder@;
    let ghost v = value@;
    let mut r = String::new();
    if p_len == 0 {
        r.append(template);
        return r;
    }
    let mut i: usize = 0;
    assert(t.subrange(0, n as int) =~= t);
    assert(r@ + replace_all(t, p, v) =~= replace_all(t, p, v));
    while i < n
        invariant
            n == t.len(),
            p_len == p.len(),
            p_len > 0,
            t == template@,
            p == placeholder@,
            v == value@,
            i <= n,
            r@ + replace_all(t.subrange(i as int, n as int), p, v) == replace_all(t, p, v),
        decreases n - i,
    {
        let ghost rest = t.subrange(i as int, n as int);
        if occurs_at_pos(template, n, placeholder, p_len, i) {
            assert(rest.subrange(0, p_len as int) =~= t.subrange(i as int, i + p_len));
            assert(rest.subrange(p_len as int, rest.len() as int) =~= t.subrange(i + p_len, n as int));
            r.append(value);
            i = i + p_len;
        } else {
            proof {
                if rest.len() >= p.len() {
                    assert(rest.subrange(0, p_len as int) =~= t.subrange(i as int, i + p_len));
                }
                assert(rest.subrange(1, rest.len() as int) =~= t.subrange(i + 1, n as int));
            }
            let c = template.substring_char(i, i + 1);
            assert(c@ =~= seq![rest[0]]);
            r.append(c);
            i = i + 1;
        }
    }
    assert(t.subrange(n as int, n as int) =~= Seq::<char>::empty());
    assert(r@ + Seq::<char>::empty() =~= r@);
    r
}

/// A conversation as character sequences: (user query, assistant response),
/// oldest first.
pub open spec fn turns_view(h: Seq<(String, String)>) -> Seq<(Seq<char>, Seq<char>)> {
    h.map_values(|t: (String, String)| (t.0@, t.1@))
}

/// One rendered turn, numbered `n`.
pub open spec fn turn_text(n: nat, q: Seq<char>, a: Seq<char>) -> Seq<char> {
    "[Turn "@ + decimal(n) + "]\nUser: "@ + q + "\nAI: "@ + a
}

/// The turns of `h`, numbered from 1 in order and joined by a blank line.
pub open spec fn turns_text(h: Seq<(Seq<char>, Seq<char>)>) -> Seq<char>
    decreases h.len(),
{
    if h.len() == 0 {
        Seq::empty()
    } else if h.len() == 1 {
        turn_text(1, h[0].0, h[0].1)
    } else {
        turns_text(h.drop_last()) + "\n\n"@ + turn_text(h.len(), h.last().0, h.last().1)
    }
}

/// What the chat template's placeholder becomes for the history `h`.
pub open spec fn history_block(h: Seq<(Seq<char>, Seq<char>)>) -> Seq<char> {
    if h.len() == 0 {
        NO_HISTORY@
    } else {
        turns_text(h)
    }
}

/// The chat template, with its history placeholder.
pub open spec fn chat_template() -> Seq<char> {
    CHAT_PROMPT_HEAD@ + HISTORY_PLACEHOLDER@ + CHAT_PROMPT_TAIL@
}

/// The chat preamble for the history `h`.
pub open spec fn chat_preamble(h: Seq<(Seq<char>, Seq<char>)>) -> Seq<char> {
    replace_all(chat_template(), HISTORY_PLACEHOLDER@, history_block(h))
}

/// Renders one turn.
fn render_turn(n: usize, q: &str, a: &str) -> (r: String)
    ensures
        r@ == turn_text(n as nat, q@, a@),
{
    let mut r = String::from_str("[Turn ");
    let d = decimal_text(n);
    r.append(d.as_str());
    r.append("]\nUser: ");
    r.append(q);
    r.append("\nAI: ");
    r.append(a);
    r
}

/// Renders the history block: each turn as `[Turn n]`, the query and the
/// response, joined by blank lines; the fixed sentinel when there is none.
pub fn render_history(history: &Vec<(String, String)>) -> (r: String)
    ensures
        r@ == history_block(turns_view(history@)),
{
    let ghost h = turns_view(history@);
    if history.len() == 0 {
        return String::from_str(NO_HISTORY);
    }
    let mut r = String::new();
    let mut i: usize = 0;
    while i < history.len()
        invariant
            h == turns_view(history@),
            h.len() == history@.len(),
            i <= history.len(),
            r@ == turns_text(h.take(i as int)),
        decreases history.len() - i,
    {
        assert(h.take(i + 1).drop_last() =~= h.take(i as int));
        if i > 0 {
            r.append("\n\n");
        }
        let turn = render_turn(i + 1, history[i].0.as_str(), history[i].1.as_str());
        r.append(turn.as_str());
        i = i + 1;
    }
    assert(h.take(i as int) =~= h);
    r
}

/// Renders the chat preamble for a history.
pub fn render_chat_preamble(history: &Vec<(String, String)>) -> (r: String)
    ensures
        r@ == chat_preamble(turns_view(history@)),
{
    let block = render_history(history);
    let template = chat_system_prompt();
    fill_template(template.as_str(), HISTORY_PLACEHOLDER, block.as_str())
}

/// The chat template: instructions around the history placeholder.
pub fn chat_system_prompt() -> (r: String)
    ensures
        r@ == chat_template(),
{
    let mut r = String::from_str(CHAT_PROMPT_HEAD);
    r.append(HISTORY_PLACEHOLDER);
    r.append(CHAT_PROMPT_TAIL);
    r
}

/// The chat preamble always holds the rendered history block, and that block
/// is never empty: with no history it is the fixed sentinel.
pub proof fn lemma_preamble_holds_history(h: Seq<(Seq<char>, Seq<char>)>)
    ensures
        contains(chat_preamble(h), history_block(h)),
        history_block(h).len() > 0,
        h.len() == 0 ==> history_block(h) == NO_HISTORY@,
{
    reveal_strlit("{history}");
    reveal_strlit("No previous conversation.");
    reveal_strlit("[Turn ");
    let t = chat_template();
    let k = CHAT_PROMPT_HEAD@.len() as int;
    assert(occurs_at(t, HISTORY_PLACEHOLDER@, k)) by {
        assert(t.subrange(k, k + HISTORY_PLACEHOLDER@.len()) =~= HISTORY_PLACEHOLDER@);
    }
    lemma_replace_all_inserts(t, HISTORY_PLACEHOLDER@, history_block(h));
    if h.len() > 0 {
        lemma_turns_text_nonempty(h);
    }
}

proof fn lemma_turns_text_nonempty(h: Seq<(Seq<char>, Seq<char>)>)
    requires
        h.len() > 0,
    ensures
        turns_text(h).len() > 0,
    decreases h.len(),
{
    reveal_strlit("[Turn ");
    if h.len() > 1 {
        lemma_turns_text_nonempty(h.drop_last());
    }
}

/// Two turns render as turn 1 and then turn 2, each with its own query and
/// response, separated by a blank line.
pub proof fn lemma_two_turns(q1: Seq<char>, a1: Seq<char>, q2: Seq<char>, a2: Seq<char>)
    ensures
        history_block(seq![(q1, a1), (q2, a2)]) == "[Turn 1]\nUser: "@ + q1 + "\nAI: "@ + a1
            + "\n\n[Turn 2]\nUser: "@ + q2 + "\nAI: "@ + a2,
{
    let h = seq![(q1, a1), (q2, a2)];
    assert(h.drop_last() =~= seq![(q1, a1)]);
    reveal_strlit("[Turn ");
    reveal_strlit("]\nUser: ");
    reveal_strlit("\nAI: ");
    reveal_strlit("\n\n");
    reveal_strlit("[Turn 1]\nUser: ");
    reveal_strlit("\n\n[Turn 2]\nUser: ");
    assert(decimal(1) =~= seq!['1']);
    assert(decimal(2) =~= seq!['2']);
    let lead1 = "[Turn 1]\nUser: "@;
    let lead2 = "\n\n[Turn 2]\nUser: "@;
    let ai = "\nAI: "@;
    assert("[Turn "@ + decimal(1) + "]\nUser: "@ =~= lead1);
    let t2_lead = "[Turn "@ + decimal(2) + "]\nUser: "@;
    assert("\n\n"@ + t2_lead =~= lead2);
    let x = lead1 + q1 + ai + a1;
    assert(turns_text(h.drop_last()) == x);
    let t2 = t2_lead + q2 + ai + a2;
    assert(history_block(h) == x + "\n\n"@ + t2);
    lemma_concat_associative(x, "\n\n"@, t2_lead);
    lemma_concat_associative(x + "\n\n"@, t2_lead, q2);
    lemma_concat_associative(x + "\n\n"@, t2_lead + q2, ai);
    lemma_concat_associative(x + "\n\n"@, t2_lead + q2 + ai, a2);
    assert(x + "\n\n"@ + t2 == x + lead2 + q2 + ai + a2);
}

} // verus!
