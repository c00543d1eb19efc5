//! The search side of the pipeline: deciding whether to search, shaping
//! the search request, and folding fetched articles into the system
//! prompt of the final answer.

use vstd::prelude::*;
use vstd::string::*;

use crate::api::DeepSeekAPI;
use crate::decimal::dec_spec;
use crate::decimal::dec_string;

verus! {

/// What the local search service answers: the candidate article texts.
pub struct SearchResults {
    pub articles: Vec<String>,
}

/// The search stages of the pipeline, bound to the provider account their
/// model calls go through.
pub struct SearchDriver {
    pub api: DeepSeekAPI,
}

impl SearchDriver {
    /// Binds the search stages to a provider account.
    pub fn from(api: DeepSeekAPI) -> (r: Self)
        ensures
            r.api == api,
    {
        SearchDriver { api }
    }
}

/// What `str::trim` leaves of a character sequence once leading and
/// trailing whitespace is gone; a function of the characters alone.
pub uninterp spec fn trimmed_of(s: Seq<char>) -> Seq<char>;

/// Relies on `str::trim`: the text with leading and trailing whitespace
/// removed, depending on nothing but the characters.
#[verifier::external_body]
fn trim_text(s: &String) -> (r: String)
    ensures
        r@ == trimmed_of(s@),
        r@.len() <= s@.len(),
{
    String::from_str(s.as_str().trim())
}

/// Reads the model's verdict on whether to search: only the exact reply
/// `no`, once trimmed, declines the search; any other reply, malformed
/// ones included, asks for it.
pub fn decision_from_reply(reply: &String) -> (r: bool)
    ensures
        r == (trimmed_of(reply@) != "no"@),
{
    let trimmed = trim_text(reply);
    let no = String::from_str("no");
    !(trimmed == no)
}

/// The search term with every double-quote character removed.
pub open spec fn strip_quotes_spec(s: Seq<char>) -> Seq<char>
    decreases s.len(),
{
    if s.len() == 0 {
        Seq::<char>::empty()
    } else if s[0] == '"' {
        strip_quotes_spec(s.drop_first())
    } else {
        seq![s[0]] + strip_quotes_spec(s.drop_first())
    }
}

/// Quote stripping distributes over concatenation.
pub proof fn lemma_strip_quotes_concat(a: Seq<char>, b: Seq<char>)
    ensures
        strip_quotes_spec(a + b) == strip_quotes_spec(a) + strip_quotes_spec(b),
    decreases a.len(),
{
    if a.len() == 0 {
        assert(a + b =~= b);
        assert(strip_quotes_spec(a) + strip_quotes_spec(b) =~= strip_quotes_spec(b));
    } else {
        assert((a + b)[0] == a[0]);
        assert((a + b).drop_first() =~= a.drop_first() + b);
        lemma_strip_quotes_concat(a.drop_first(), b);
        if a[0] != '"' {
            assert(seq![a[0]] + (strip_quotes_spec(a.drop_first()) + strip_quotes_spec(b)) =~= (
            seq![a[0]] + strip_quotes_spec(a.drop_first())) + strip_quotes_spec(b));
        }
    }
}

/// Removes every double-quote character from a search term, so that the
/// term cannot carry a quoted section into the search query string.
pub fn strip_quotes(term: &String) -> (r: String)
    ensures
        r@ == strip_quotes_spec(term@),
{
    let ts = term.as_str();
    let n: usize = ts.unicode_len();
    let mut out = String::new();
    let mut i: usize = 0;
    proof {
        assert(strip_quotes_spec(ts@.take(0)) =~= Seq::<char>::empty());
    }
    while i < n
        invariant
            i <= n,
            n == ts@.len(),
            out@ == strip_quotes_spec(ts@.take(i as int)),
        decreases n - i,
    {
        let c = ts.get_char(i);
        let ghost prev = out@;
        if !(c == '"') {
            let piece = ts.substring_char(i, i + 1);
            out.append(piece);
            proof {
                assert(piece@ =~= seq![ts@[i as int]]);
            }
        }
        proof {
            lemma_strip_quotes_concat(ts@.take(i as int), seq![ts@[i as int]]);
            assert(ts@.take(i as int) + seq![ts@[i as int]] =~= ts@.take(i as int + 1));
            assert(seq![ts@[i as int]].drop_first() =~= Seq::<char>::empty());
            assert(strip_quotes_spec(Seq::<char>::empty()) =~= Seq::<char>::empty());
            if ts@[i as int] == '"' {
                assert(strip_quotes_spec(seq![ts@[i as int]]) =~= Seq::<char>::empty());
                assert(out@ =~= prev + strip_quotes_spec(seq![ts@[i as int]]));
            } else {
                assert(strip_quotes_spec(seq![ts@[i as int]]) =~= seq![ts@[i as int]]);
            }
        }
        i = i + 1;
    }
    proof {
        assert(ts@.take(n as int) =~= ts@);
    }
    out
}

/// The URL that asks the local search service for a term's articles, the
/// term stripped of double quotes.
pub open spec fn search_url_spec(term: Seq<char>) -> Seq<char> {
    "http://127.0.0.1:5000/search?query="@ + strip_quotes_spec(term)
}

/// Builds the search-service URL for a term.
pub fn search_url(term: &String) -> (r: String)
    ensures
        r@ == search_url_spec(term@),
{
    let mut out = String::from_str("http://127.0.0.1:5000/search?query=");
    let stripped = strip_quotes(term);
    out.append(stripped.as_str());
    out
}

/// The fixed meta-prompt that asks the model whether answering the query
/// would benefit from a web search, demanding a bare yes or no.
pub open spec fn determine_prompt() -> Seq<char> {
    "Please first think deeply about if you are 100% sure about the definition of every word in the query (instead of guessing or \"seems to be\"), and then answer whether it would be beneficial to search the web in order to get a better understanding about the query or check your answer's correctness or not if you were to answer this query very accurately without any possible problem. Note that your knowledge database could be outdated. IT IS VERY IMPORTANT TO NOT ANSWERING THE USER'S ORIGINAL QUERY IN YOUR CURRENT ANSWER! If searching the web would help you answer user's query(even for only a little bit), answer yes without any additional characters. Otherwise (only when you are very certain about your knowledge), answer no."@
}

/// Builds the search-decision meta-prompt.
pub fn determine_prompt_string() -> (r: String)
    ensures
        r@ == determine_prompt(),
{
    String::from_str(
        "Please first think deeply about if you are 100% sure about the definition of every word in the query (instead of guessing or \"seems to be\"), and then answer whether it would be beneficial to search the web in order to get a better understanding about the query or check your answer's correctness or not if you were to answer this query very accurately without any possible problem. Note that your knowledge database could be outdated. IT IS VERY IMPORTANT TO NOT ANSWERING THE USER'S ORIGINAL QUERY IN YOUR CURRENT ANSWER! If searching the web would help you answer user's query(even for only a little bit), answer yes without any additional characters. Otherwise (only when you are very certain about your knowledge), answer no.",
    )
}

/// The fixed meta-prompt that asks the model for a short search term.
pub open spec fn term_prompt() -> Seq<char> {
    "Provide a google search term based on search query provided below in less than 20 words"@
}

/// Builds the search-term meta-prompt.
pub fn term_prompt_string() -> (r: String)
    ensures
        r@ == term_prompt(),
{
    String::from_str(
        "Provide a google search term based on search query provided below in less than 20 words",
    )
}

/// The per-article summarization meta-prompt, parameterized by the term.
pub open spec fn summary_prompt_spec(term: Seq<char>) -> Seq<char> {
    "You are an AI assistant tasked with summarizing content relevant to '"@ + term
        + "'. Please provide a concise summary."@
}

/// Builds the summarization meta-prompt for a term.
pub fn summary_prompt(term: &String) -> (r: String)
    ensures
        r@ == summary_prompt_spec(term@),
{
    let mut out = String::from_str(
        "You are an AI assistant tasked with summarizing content relevant to '",
    );
    out.append(term.as_str());
    out.append("'. Please provide a concise summary.");
    out
}

/// One summary block of the assembled context: the article's ordinal
/// position, its summary, and a delimiting rule.
pub open spec fn summary_block_spec(index: nat, summary: Seq<char>) -> Seq<char> {
    "Search order: "@ + dec_spec(index) + "\nSummary: "@ + summary
        + "\n--------------------------------------------------------------------------------\n"@
}

/// Renders one summary block.
pub fn summary_block(index: u64, summary: &String) -> (r: String)
    ensures
        r@ == summary_block_spec(index as nat, summary@),
{
    let mut out = String::from_str("Search order: ");
    let ordinal = dec_string(index);
    out.append(ordinal.as_str());
    out.append("\nSummary: ");
    out.append(summary.as_str());
    out.append(
        "\n--------------------------------------------------------------------------------\n",
    );
    out
}

/// The assembled context: empty when no summary was produced, otherwise
/// the fixed final-answer meta-prompt with the term and the concatenated
/// summary blocks interpolated.  It asks the model to report inconsistent
/// results and to answer in the query's own language.
pub open spec fn assemble_context_spec(term: Seq<char>, content: Seq<char>) -> Seq<char> {
    if content.len() == 0 {
        Seq::<char>::empty()
    } else {
        "The user provides a bunch of search results for search query "@ + term + ". \n"@
            + content
            + "\nBased on on the search results provided by the user, provide a response to user's query. In addition, report it if there are significant inconsistency in search results. But if the answer from search results conflicts with your knowledge database, then your knowledge is outdated. PLEASE ANSWER THE QUERY IN THE SAME LANGUAGE THAT IT'S ASKED!"@
    }
}

/// Folds the term and the concatenated summary blocks into the system
/// prompt of the final answer; no summaries yield no augmentation at all.
pub fn assemble_context(term: &String, content: &String) -> (r: String)
    ensures
        r@ == assemble_context_spec(term@, content@),
{
    if content.as_str().unicode_len() == 0 {
        String::new()
    } else {
        let mut out = String::from_str(
            "The user provides a bunch of search results for search query ",
        );
        out.append(term.as_str());
        out.append(". \n");
        out.append(content.as_str());
        out.append(
            "\nBased on on the search results provided by the user, provide a response to user's query. In addition, report it if there are significant inconsistency in search results. But if the answer from search results conflicts with your knowledge database, then your knowledge is outdated. PLEASE ANSWER THE QUERY IN THE SAME LANGUAGE THAT IT'S ASKED!",
        );
        out
    }
}

} // verus!
