use deepseek_bot::search::assemble_context;
use deepseek_bot::search::decision_from_reply;
use deepseek_bot::search::search_url;
use deepseek_bot::search::strip_quotes;
use deepseek_bot::search::summary_block;
use deepseek_bot::search::summary_prompt;

#[test]
fn decision_exact_no_declines_search() {
    assert!(!decision_from_reply(&String::from("no")));
}

#[test]
fn decision_trims_whitespace_before_comparing() {
    assert!(!decision_from_reply(&String::from("  no\t\n")));
}

#[test]
fn decision_is_case_sensitive() {
    assert!(decision_from_reply(&String::from("No")));
}

#[test]
fn decision_empty_reply_asks_for_search() {
    assert!(decision_from_reply(&String::from("")));
}

#[test]
fn decision_any_other_reply_asks_for_search() {
    assert!(decision_from_reply(&String::from("yes")));
    assert!(decision_from_reply(&String::from("nope")));
    assert!(decision_from_reply(&String::from("I would rather not say")));
}

#[test]
fn strip_quotes_removes_every_double_quote() {
    assert_eq!(strip_quotes(&String::from("a\"b\"\"c")), "abc");
    assert_eq!(strip_quotes(&String::from("plain")), "plain");
}

#[test]
fn search_url_embeds_the_stripped_term() {
    assert_eq!(
        search_url(&String::from("rust \"verus\" verifier")),
        "http://127.0.0.1:5000/search?query=rust verus verifier"
    );
}

#[test]
fn summary_prompt_carries_the_term() {
    assert_eq!(
        summary_prompt(&String::from("black holes")),
        "You are an AI assistant tasked with summarizing content relevant to 'black holes'. Please provide a concise summary."
    );
}

#[test]
fn summary_block_carries_ordinal_and_rule() {
    let rule = "-".repeat(80);
    assert_eq!(
        summary_block(3, &String::from("S")),
        format!("Search order: 3\nSummary: S\n{}\n", rule)
    );
}

#[test]
fn assemble_context_empty_content_is_empty() {
    assert_eq!(assemble_context(&String::from("term"), &String::new()), "");
}

#[test]
fn assemble_context_interpolates_term_and_content() {
    let out = assemble_context(&String::from("T"), &String::from("C"));
    assert_eq!(
        out,
        "The user provides a bunch of search results for search query T. \nC\nBased on on the search results provided by the user, provide a response to user's query. In addition, report it if there are significant inconsistency in search results. But if the answer from search results conflicts with your knowledge database, then your knowledge is outdated. PLEASE ANSWER THE QUERY IN THE SAME LANGUAGE THAT IT'S ASKED!"
    );
}
