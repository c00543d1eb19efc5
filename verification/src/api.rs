//! Building chat-completion requests and reading their responses.
//!
//! The verified logic composes the JSON body a call must send and decides
//! what a decoded response means; the surrounding program moves the bytes.
//! Untrusted text is embedded into a body only through the provider
//! library's JSON string escaping, so a query full of quotes or control
//! characters cannot break the request out of its field.

use vstd::prelude::*;
use vstd::string::*;

use crate::decimal::dec_spec;
use crate::decimal::dec_string;
use crate::types::DeepSeekChatResponse;
use crate::types::DeepSeekModel;
use crate::types::DeepSeekUserBalance;
use crate::types::DeepSeekUserBalanceInfo;
use crate::types::model_name;
use crate::types::model_name_spec;

verus! {

/// Relies on `reqwest::Client` being a plain handle around a shared
/// connection pool: the library only stores and hands it back; every call
/// through it is made by the surrounding program.
#[verifier::external_type_specification]
#[verifier::external_body]
pub struct ExClient(reqwest::Client);

/// The provider account a deployment talks to: its bearer token, the
/// timeout given to each call in milliseconds, and the pooled HTTP client
/// every call reuses.
pub struct DeepSeekAPI {
    pub token: String,
    pub timeout: u64,
    pub client: reqwest::Client,
}

/// The lower-case hexadecimal digit for a value below sixteen.
pub open spec fn hex_digit(d: nat) -> char {
    if d < 10 {
        crate::decimal::digit_char(d)
    } else if d == 10 {
        'a'
    } else if d == 11 {
        'b'
    } else if d == 12 {
        'c'
    } else if d == 13 {
        'd'
    } else if d == 14 {
        'e'
    } else {
        'f'
    }
}

/// How one character reads inside a JSON string literal: quote and
/// backslash gain a backslash, the named control characters use their
/// short escapes, any other control character below U+0020 uses a
/// four-digit `\u` escape, and everything else stands as itself.
pub open spec fn json_escaped_char(c: char) -> Seq<char> {
    if c == '"' {
        seq!['\\', '"']
    } else if c == '\\' {
        seq!['\\', '\\']
    } else if c == '\u{8}' {
        seq!['\\', 'b']
    } else if c == '\u{9}' {
        seq!['\\', 't']
    } else if c == '\u{A}' {
        seq!['\\', 'n']
    } else if c == '\u{C}' {
        seq!['\\', 'f']
    } else if c == '\u{D}' {
        seq!['\\', 'r']
    } else if (c as u32) < 0x20 {
        seq!['\\', 'u', '0', '0', hex_digit(((c as u32) / 16) as nat), hex_digit(
            ((c as u32) % 16) as nat,
        )]
    } else {
        seq![c]
    }
}

/// The body of a JSON string literal holding `s`.
pub open spec fn json_escape(s: Seq<char>) -> Seq<char>
    decreases s.len(),
{
    if s.len() == 0 {
        Seq::<char>::empty()
    } else {
        json_escaped_char(s[0]) + json_escape(s.drop_first())
    }
}

/// The JSON string literal holding `s`, quotes included.
pub open spec fn json_string_lit(s: Seq<char>) -> Seq<char> {
    seq!['"'] + json_escape(s) + seq!['"']
}

/// Relies on `serde_json`'s string serialization (`Value::String`
/// rendered by its compact formatter): the JSON string literal holding
/// `s`, where `"` and `\` and every control character below U+0020 are
/// escaped as `json_string_lit` spells out, and no other character is
/// touched.
#[verifier::external_body]
fn json_string(s: &String) -> (r: String)
    ensures
        r@ == json_string_lit(s@),
{
    serde_json::Value::String(s.clone()).to_string()
}

/// The JSON body of a chat-completion request: model identifier, output
/// token bound, then one user message, preceded by a system message only
/// when there is system text, and `stream` pinned to `false`.
pub open spec fn chat_body_spec(
    model: DeepSeekModel,
    max_tokens: u64,
    user: Seq<char>,
    system: Seq<char>,
) -> Seq<char> {
    if system.len() == 0 {
        "{\"model\":\""@ + model_name_spec(model) + "\",\"max_tokens\":"@ + dec_spec(
            max_tokens as nat,
        ) + ",\"messages\":[{\"role\":\"user\",\"content\":"@ + json_string_lit(user)
            + "}],\"stream\":false}"@
    } else {
        "{\"model\":\""@ + model_name_spec(model) + "\",\"max_tokens\":"@ + dec_spec(
            max_tokens as nat,
        ) + ",\"messages\":[{\"role\":\"system\",\"content\":"@ + json_string_lit(system)
            + "},{\"role\":\"user\",\"content\":"@ + json_string_lit(user)
            + "}],\"stream\":false}"@
    }
}

/// Builds the JSON body of a chat-completion request, embedding the two
/// untrusted texts only as escaped JSON string literals.
pub fn chat_request_body(
    model: DeepSeekModel,
    max_tokens: u64,
    user: &String,
    system: &String,
) -> (r: String)
    ensures
        r@ == chat_body_spec(model, max_tokens, user@, system@),
{
    let mut body = String::from_str("{\"model\":\"");
    let name = model_name(model);
    body.append(name.as_str());
    body.append("\",\"max_tokens\":");
    let tokens = dec_string(max_tokens);
    body.append(tokens.as_str());
    if system.as_str().unicode_len() == 0 {
        body.append(",\"messages\":[{\"role\":\"user\",\"content\":");
        let user_lit = json_string(user);
        body.append(user_lit.as_str());
        body.append("}],\"stream\":false}");
    } else {
        body.append(",\"messages\":[{\"role\":\"system\",\"content\":");
        let system_lit = json_string(system);
        body.append(system_lit.as_str());
        body.append("},{\"role\":\"user\",\"content\":");
        let user_lit = json_string(user);
        body.append(user_lit.as_str());
        body.append("}],\"stream\":false}");
    }
    body
}

/// The fixed sentence handed out when a well-formed response carries no
/// usable completion.
pub open spec fn fallback_answer() -> Seq<char> {
    "DeepSeek didn't provide any valid response to your query."@
}

/// What a decoded chat response answers: the text of the first choice, or
/// the fixed fallback sentence when there is no choice or its text is
/// absent.
pub open spec fn answer_of(resp: DeepSeekChatResponse) -> Seq<char> {
    if resp.choices@.len() > 0 && resp.choices@[0].message.content is Some {
        resp.choices@[0].message.content->0@
    } else {
        fallback_answer()
    }
}

/// Reads the answer out of a decoded chat response; an empty choice list
/// or an absent text yields the fixed fallback sentence, never an error.
pub fn extract_answer(resp: &DeepSeekChatResponse) -> (r: String)
    ensures
        r@ == answer_of(*resp),
{
    if resp.choices.len() > 0 {
        match &resp.choices[0].message.content {
            Option::Some(text) => text.clone(),
            Option::None => String::from_str(
                "DeepSeek didn't provide any valid response to your query.",
            ),
        }
    } else {
        String::from_str("DeepSeek didn't provide any valid response to your query.")
    }
}

/// The spelling of a truth value in the balance report.
pub open spec fn bool_text(b: bool) -> Seq<char> {
    if b {
        "true"@
    } else {
        "false"@
    }
}

/// One currency entry of the rendered balance report.
pub open spec fn balance_line(info: DeepSeekUserBalanceInfo) -> Seq<char> {
    "  Currency: "@ + info.currency@ + "\n  Total Balance: "@ + info.total_balance@ + "\n\n"@
}

/// All currency entries of the rendered balance report, in order.
pub open spec fn balance_lines(infos: Seq<DeepSeekUserBalanceInfo>) -> Seq<char>
    decreases infos.len(),
{
    if infos.len() == 0 {
        Seq::<char>::empty()
    } else {
        balance_line(infos[0]) + balance_lines(infos.drop_first())
    }
}

/// The whole rendered balance report: availability first, then currency
/// and total balance per entry, entries separated by a blank line.
pub open spec fn balance_report_spec(b: DeepSeekUserBalance) -> Seq<char> {
    "Available: "@ + bool_text(b.is_available) + "\n"@ + balance_lines(b.balance_infos@)
}

/// Rendered currency entries add over concatenation.
proof fn lemma_balance_lines_concat(a: Seq<DeepSeekUserBalanceInfo>, b: Seq<DeepSeekUserBalanceInfo>)
    ensures
        balance_lines(a + b) == balance_lines(a) + balance_lines(b),
    decreases a.len(),
{
    if a.len() == 0 {
        assert(a + b =~= b);
        assert(balance_lines(a) + balance_lines(b) =~= balance_lines(b));
    } else {
        assert((a + b)[0] == a[0]);
        assert((a + b).drop_first() =~= a.drop_first() + b);
        lemma_balance_lines_concat(a.drop_first(), b);
        assert(balance_line(a[0]) + (balance_lines(a.drop_first()) + balance_lines(b)) =~= (
        balance_line(a[0]) + balance_lines(a.drop_first())) + balance_lines(b));
    }
}

/// Renders a decoded balance response for a human reader.
pub fn render_balance(b: &DeepSeekUserBalance) -> (r: String)
    ensures
        r@ == balance_report_spec(*b),
{
    let mut out = String::from_str("Available: ");
    if b.is_available {
        out.append("true");
    } else {
        out.append("false");
    }
    out.append("\n");
    let ghost head = out@;
    proof {
        assert(balance_lines(b.balance_infos@.take(0)) =~= Seq::<char>::empty());
        assert(head + Seq::<char>::empty() =~= head);
    }
    let n: usize = b.balance_infos.len();
    let mut i: usize = 0;
    while i < n
        invariant
            i <= n,
            n == b.balance_infos@.len(),
            head == "Available: "@ + bool_text(b.is_available) + "\n"@,
            out@ == head + balance_lines(b.balance_infos@.take(i as int)),
        decreases n - i,
    {
        let ghost prev = out@;
        out.append("  Currency: ");
        out.append(b.balance_infos[i].currency.as_str());
        out.append("\n  Total Balance: ");
        out.append(b.balance_infos[i].total_balance.as_str());
        out.append("\n\n");
        proof {
            let infos = b.balance_infos@;
            assert(out@ =~= prev + balance_line(infos[i as int]));
            lemma_balance_lines_concat(infos.take(i as int), seq![infos[i as int]]);
            assert(infos.take(i as int) + seq![infos[i as int]] =~= infos.take(i as int + 1));
            assert(seq![infos[i as int]].drop_first() =~= Seq::<DeepSeekUserBalanceInfo>::empty());
            assert(balance_lines(Seq::<DeepSeekUserBalanceInfo>::empty())
                =~= Seq::<char>::empty());
            assert(balance_lines(seq![infos[i as int]]) =~= balance_line(infos[i as int]));
            assert(prev + balance_line(infos[i as int]) =~= head + balance_lines(
                infos.take(i as int + 1),
            ));
        }
        i = i + 1;
    }
    proof {
        assert(b.balance_infos@.take(n as int) =~= b.balance_infos@);
    }
    out
}

} // verus!
