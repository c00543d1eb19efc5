use deepseek_bot::errors::report;
use deepseek_bot::errors::BotError;
use deepseek_bot::errors::ErrorKind;

#[test]
fn report_of_a_single_error_is_its_message() {
    let err = BotError::new(ErrorKind::Transport, String::from("connection reset"));
    assert_eq!(report(&err), "connection reset");
}

#[test]
fn report_walks_the_whole_cause_chain() {
    let low = BotError::new(ErrorKind::Transport, String::from("timed out"));
    let mid = BotError::with_cause(ErrorKind::Decode, String::from("no response body"), low);
    let top = BotError::with_cause(ErrorKind::UpstreamEmpty, String::from("request failed"), mid);
    assert_eq!(
        report(&top),
        "request failed\n\nCaused by: no response body\n\nCaused by: timed out"
    );
}
