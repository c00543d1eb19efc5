use deepseek_bot::pipeline::start;
use deepseek_bot::pipeline::step;
use deepseek_bot::pipeline::PipelineAction;
use deepseek_bot::pipeline::PipelineEvent;
use deepseek_bot::pipeline::PipelineState;
use deepseek_bot::types::DeepSeekModel;

const FAILURE: &str = "You are seeing this message because there was an error when we communicate with DeepSeek. Check the log for details.";

fn reply(text: &str) -> PipelineEvent {
    PipelineEvent::Reply { text: String::from(text) }
}

fn expect_ask(action: PipelineAction) -> deepseek_bot::pipeline::DialogRequest {
    match action {
        PipelineAction::AskModel { request } => request,
        _ => panic!("expected a model call"),
    }
}

#[test]
fn pipeline_without_search_answers_with_empty_system_text() {
    let (state, action) = start(String::from("What is the capital of France?"));
    let request = expect_ask(action);
    assert_eq!(request.max_tokens, 20);
    assert_eq!(request.user, "What is the capital of France?");
    assert!(request.system.contains("answer no"));

    let (state, action) = step(state, reply("no"));
    let request = expect_ask(action);
    assert_eq!(request.max_tokens, 512);
    assert_eq!(request.user, "What is the capital of France?");
    assert_eq!(request.system, "");
    assert!(matches!(request.model, DeepSeekModel::DeepSeekChat));

    let (state, action) = step(state, reply("Paris."));
    assert!(matches!(action, PipelineAction::Finished));
    match state {
        PipelineState::Done { answer, augmented } => {
            assert_eq!(answer, "Paris.");
            assert!(!augmented);
        }
        _ => panic!("expected the pipeline to be done"),
    }
}

#[test]
fn pipeline_with_zero_articles_still_answers_unaugmented() {
    let (state, _) = start(String::from("latest rustc release"));
    let (state, action) = step(state, reply("yes"));
    let request = expect_ask(action);
    assert_eq!(request.max_tokens, 20);
    assert!(request.system.contains("search term"));

    let (state, action) = step(state, reply("rustc release"));
    match &action {
        PipelineAction::FetchArticles { term } => assert_eq!(term, "rustc release"),
        _ => panic!("expected an article fetch"),
    }

    let (state, action) = step(state, PipelineEvent::Articles { articles: vec![] });
    let request = expect_ask(action);
    assert_eq!(request.system, "");
    assert_eq!(request.max_tokens, 512);

    let (state, _) = step(state, reply("It came out recently."));
    match state {
        PipelineState::Done { answer, augmented } => {
            assert_eq!(answer, "It came out recently.");
            assert!(!augmented);
        }
        _ => panic!("expected the pipeline to be done"),
    }
}

#[test]
fn pipeline_skips_failed_summary_and_keeps_order() {
    let articles = vec![
        String::from("article zero"),
        String::from("article one"),
        String::from("article two"),
    ];
    let (state, _) = start(String::from("q"));
    let (state, _) = step(state, reply("yes"));
    let (state, _) = step(state, reply("term"));
    let (state, action) = step(state, PipelineEvent::Articles { articles });
    let request = expect_ask(action);
    assert_eq!(request.user, "article zero");
    assert_eq!(request.max_tokens, 100);
    assert!(request.system.contains("'term'"));

    let (state, action) = step(state, reply("S0"));
    assert_eq!(expect_ask(action).user, "article one");
    let (state, action) = step(state, PipelineEvent::ReplyFailed);
    assert_eq!(expect_ask(action).user, "article two");
    let (state, action) = step(state, reply("S2"));

    let request = expect_ask(action);
    let context = request.system;
    assert_eq!(context.matches("Summary: ").count(), 2);
    let rule = "-".repeat(80);
    let block0 = format!("Search order: 0\nSummary: S0\n{}\n", rule);
    let block2 = format!("Search order: 2\nSummary: S2\n{}\n", rule);
    assert!(context.contains(&format!("{}{}", block0, block2)));
    assert!(!context.contains("Search order: 1"));

    let (state, _) = step(state, reply("answer"));
    match state {
        PipelineState::Done { answer, augmented } => {
            assert_eq!(answer, "answer");
            assert!(augmented);
        }
        _ => panic!("expected the pipeline to be done"),
    }
}

#[test]
fn pipeline_degrades_when_the_decision_call_fails() {
    let (state, _) = start(String::from("q"));
    let (_, action) = step(state, PipelineEvent::ReplyFailed);
    let request = expect_ask(action);
    assert_eq!(request.system, "");
    assert_eq!(request.max_tokens, 512);
}

#[test]
fn pipeline_degrades_when_the_term_call_fails() {
    let (state, _) = start(String::from("q"));
    let (state, _) = step(state, reply("yes"));
    let (_, action) = step(state, PipelineEvent::ReplyFailed);
    assert_eq!(expect_ask(action).system, "");
}

#[test]
fn pipeline_degrades_when_the_fetch_fails() {
    let (state, _) = start(String::from("q"));
    let (state, _) = step(state, reply("yes"));
    let (state, _) = step(state, reply("term"));
    let (state, action) = step(state, PipelineEvent::ArticlesFailed);
    assert_eq!(expect_ask(action).system, "");
    let (state, _) = step(state, reply("still an answer"));
    match state {
        PipelineState::Done { answer, augmented } => {
            assert_eq!(answer, "still an answer");
            assert!(!augmented);
        }
        _ => panic!("expected the pipeline to be done"),
    }
}

#[test]
fn pipeline_failed_answer_yields_the_fixed_sentence() {
    let (state, _) = start(String::from("q"));
    let (state, _) = step(state, reply("no"));
    let (state, action) = step(state, PipelineEvent::ReplyFailed);
    assert!(matches!(action, PipelineAction::Finished));
    match state {
        PipelineState::Done { answer, augmented } => {
            assert_eq!(answer, FAILURE);
            assert!(!augmented);
        }
        _ => panic!("expected the pipeline to be done"),
    }
}

#[test]
fn pipeline_single_successful_summary_is_augmented() {
    let (state, _) = start(String::from("q"));
    let (state, _) = step(state, reply("yes"));
    let (state, _) = step(state, reply("term"));
    let (state, _) = step(
        state,
        PipelineEvent::Articles { articles: vec![String::from("only article")] },
    );
    let (state, action) = step(state, reply("S"));
    let request = expect_ask(action);
    assert!(request.system.contains("Search order: 0\nSummary: S\n"));
    assert!(request.system.starts_with("The user provides a bunch of search results"));
    let (state, _) = step(state, reply("done"));
    match state {
        PipelineState::Done { augmented, .. } => assert!(augmented),
        _ => panic!("expected the pipeline to be done"),
    }
}

#[test]
fn pipeline_all_summaries_failing_is_unaugmented() {
    let (state, _) = start(String::from("q"));
    let (state, _) = step(state, reply("yes"));
    let (state, _) = step(state, reply("term"));
    let (state, _) = step(
        state,
        PipelineEvent::Articles { articles: vec![String::from("a"), String::from("b")] },
    );
    let (state, _) = step(state, PipelineEvent::ReplyFailed);
    let (state, action) = step(state, PipelineEvent::ReplyFailed);
    assert_eq!(expect_ask(action).system, "");
    let (state, _) = step(state, reply("answer"));
    match state {
        PipelineState::Done { augmented, .. } => assert!(!augmented),
        _ => panic!("expected the pipeline to be done"),
    }
}
