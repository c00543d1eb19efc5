use deepseek_bot::api::chat_request_body;
use deepseek_bot::api::extract_answer;
use deepseek_bot::api::render_balance;
use deepseek_bot::types::DeepSeekChatResponse;
use deepseek_bot::types::DeepSeekCompletionChoice;
use deepseek_bot::types::DeepSeekCompletionMessage;
use deepseek_bot::types::DeepSeekModel;
use deepseek_bot::types::DeepSeekUserBalance;
use deepseek_bot::types::DeepSeekUserBalanceInfo;

const FALLBACK: &str = "DeepSeek didn't provide any valid response to your query.";

fn choice_with(content: Option<&str>) -> DeepSeekCompletionChoice {
    DeepSeekCompletionChoice {
        finish_reason: String::from("stop"),
        index: 0,
        message: DeepSeekCompletionMessage {
            content: content.map(String::from),
            tool_calls: None,
            role: String::from("assistant"),
        },
        logprobs: None,
    }
}

fn response_with(choices: Vec<DeepSeekCompletionChoice>) -> DeepSeekChatResponse {
    DeepSeekChatResponse {
        id: String::from("id-1"),
        choices,
        created: 1,
        model: String::from("deepseek-chat"),
        system_fingerprint: String::from("fp"),
        object: String::from("chat.completion"),
    }
}

#[test]
fn chat_body_without_system_text_has_one_message() {
    let body = chat_request_body(
        DeepSeekModel::DeepSeekChat,
        512,
        &String::from("hi"),
        &String::new(),
    );
    assert_eq!(
        body,
        "{\"model\":\"deepseek-chat\",\"max_tokens\":512,\"messages\":[{\"role\":\"user\",\"content\":\"hi\"}],\"stream\":false}"
    );
}

#[test]
fn chat_body_with_system_text_has_system_then_user() {
    let body = chat_request_body(
        DeepSeekModel::DeepSeekChat,
        20,
        &String::from("question"),
        &String::from("context"),
    );
    assert_eq!(
        body,
        "{\"model\":\"deepseek-chat\",\"max_tokens\":20,\"messages\":[{\"role\":\"system\",\"content\":\"context\"},{\"role\":\"user\",\"content\":\"question\"}],\"stream\":false}"
    );
}

#[test]
fn chat_body_escapes_untrusted_text() {
    let body = chat_request_body(
        DeepSeekModel::DeepSeekChat,
        20,
        &String::from("say \"hi\"\nplease\\"),
        &String::new(),
    );
    assert!(body.contains("\"say \\\"hi\\\"\\nplease\\\\\""));
    let parsed: serde_json::Value = serde_json::from_str(&body).expect("body is valid JSON");
    assert_eq!(parsed["messages"][0]["content"], "say \"hi\"\nplease\\");
}

#[test]
fn chat_body_escapes_control_characters() {
    let body = chat_request_body(
        DeepSeekModel::DeepSeekChat,
        20,
        &String::from("a\u{1}b\tc"),
        &String::new(),
    );
    assert!(body.contains("\"a\\u0001b\\tc\""));
}

#[test]
fn chat_body_names_the_reasoner_model() {
    let body = chat_request_body(
        DeepSeekModel::DeepSeekReasoner,
        512,
        &String::from("hi"),
        &String::new(),
    );
    assert!(body.starts_with("{\"model\":\"deepseek-reasoner\","));
}

#[test]
fn extract_answer_takes_the_first_choice() {
    let resp = response_with(vec![choice_with(Some("first")), choice_with(Some("second"))]);
    assert_eq!(extract_answer(&resp), "first");
}

#[test]
fn extract_answer_empty_choices_yields_fallback() {
    let resp = response_with(vec![]);
    assert_eq!(extract_answer(&resp), FALLBACK);
}

#[test]
fn extract_answer_absent_content_yields_fallback() {
    let resp = response_with(vec![choice_with(None)]);
    assert_eq!(extract_answer(&resp), FALLBACK);
}

#[test]
fn render_balance_lists_each_currency() {
    let balance = DeepSeekUserBalance {
        is_available: true,
        balance_infos: vec![
            DeepSeekUserBalanceInfo {
                currency: String::from("USD"),
                total_balance: String::from("1.23"),
                granted_balance: String::from("0.00"),
                topped_up_balance: String::from("1.23"),
            },
            DeepSeekUserBalanceInfo {
                currency: String::from("CNY"),
                total_balance: String::from("8.00"),
                granted_balance: String::from("8.00"),
                topped_up_balance: String::from("0.00"),
            },
        ],
    };
    assert_eq!(
        render_balance(&balance),
        "Available: true\n  Currency: USD\n  Total Balance: 1.23\n\n  Currency: CNY\n  Total Balance: 8.00\n\n"
    );
}

#[test]
fn render_balance_without_entries() {
    let balance = DeepSeekUserBalance { is_available: false, balance_infos: vec![] };
    assert_eq!(render_balance(&balance), "Available: false\n");
}
