//! Data carried between the chat-completion service and the pipeline.
//!
//! These are plain values: the surrounding program decodes the provider's
//! JSON into them and hands them to the verified logic, which never sees
//! the wire format of a response.

use vstd::prelude::*;
use vstd::string::*;

verus! {

/// The closed set of upstream models a request may select.
#[derive(Clone, Copy, PartialEq, Eq, Structural)]
pub enum DeepSeekModel {
    DeepSeekChat,
    DeepSeekReasoner,
}

/// The fixed upstream identifier of each model selector.
pub open spec fn model_name_spec(m: DeepSeekModel) -> Seq<char> {
    match m {
        DeepSeekModel::DeepSeekChat => "deepseek-chat"@,
        DeepSeekModel::DeepSeekReasoner => "deepseek-reasoner"@,
    }
}

/// Renders the model selector as its upstream identifier.
pub fn model_name(m: DeepSeekModel) -> (r: String)
    ensures
        r@ == model_name_spec(m),
{
    match m {
        DeepSeekModel::DeepSeekChat => String::from_str("deepseek-chat"),
        DeepSeekModel::DeepSeekReasoner => String::from_str("deepseek-reasoner"),
    }
}

/// One alternative token with its log-probability, inside a completion's
/// probability report.
pub struct DeepSeekCompletionProbabilityTop {
    pub token: String,
    pub logprob: i64,
    pub bytes: Option<Vec<u8>>,
}

/// Probability data for one produced token.
pub struct DeepSeekCompletionProbabilityInfo {
    pub token: String,
    pub logprob: i64,
    pub bytes: Option<Vec<u8>>,
    pub top_logprobs: Vec<DeepSeekCompletionProbabilityTop>,
}

/// Probability data for a whole completion, when the provider reports it.
pub struct DeepSeekCompletionProbability {
    pub content: Option<Vec<DeepSeekCompletionProbabilityInfo>>,
}

/// The function a completion asked to have called, when it used a tool.
pub struct DeepSeekCompletionMessageToolCallFunction {
    pub name: String,
    pub arguments: String,
}

/// One tool call requested by a completion.
pub struct DeepSeekCompletionMessageToolCall {
    pub id: String,
    pub function: DeepSeekCompletionMessageToolCallFunction,
}

/// The message of one completion choice; its text may be absent.
pub struct DeepSeekCompletionMessage {
    pub content: Option<String>,
    pub tool_calls: Option<Vec<DeepSeekCompletionMessageToolCall>>,
    pub role: String,
}

/// One completion choice of a chat response.
pub struct DeepSeekCompletionChoice {
    pub finish_reason: String,
    pub index: u64,
    pub message: DeepSeekCompletionMessage,
    pub logprobs: Option<DeepSeekCompletionProbability>,
}

/// A decoded chat-completion response.
pub struct DeepSeekChatResponse {
    pub id: String,
    pub choices: Vec<DeepSeekCompletionChoice>,
    pub created: u64,
    pub model: String,
    pub system_fingerprint: String,
    pub object: String,
}

/// One currency entry of the account-balance report.
pub struct DeepSeekUserBalanceInfo {
    pub currency: String,
    pub total_balance: String,
    pub granted_balance: String,
    pub topped_up_balance: String,
}

/// A decoded account-balance response.
pub struct DeepSeekUserBalance {
    pub is_available: bool,
    pub balance_infos: Vec<DeepSeekUserBalanceInfo>,
}

} // verus!
