//! The query-answering pipeline as a state machine.
//!
//! One query runs through the stages decide, search, summarize, assemble
//! and answer.  Every stage that needs the outside world — a model call
//! or an article fetch — is an action handed to the surrounding program,
//! which performs it (with its own retries) and brings the outcome back
//! as an event.  The machine itself never fails: a failed stage degrades
//! to answering without augmentation, a failed answer degrades to a
//! fixed, non-technical sentence, and the machine always reaches `Done`.

use vstd::prelude::*;
use vstd::string::*;

use crate::search::assemble_context;
use crate::search::assemble_context_spec;
use crate::search::decision_from_reply;
use crate::search::determine_prompt;
use crate::search::determine_prompt_string;
use crate::search::summary_block;
use crate::search::summary_block_spec;
use crate::search::summary_prompt;
use crate::search::summary_prompt_spec;
use crate::search::term_prompt;
use crate::search::term_prompt_string;
use crate::search::trimmed_of;
use crate::types::DeepSeekModel;

verus! {

/// One prompt for the chat-completion endpoint: the model to use, the
/// output bound, the user text, and the system text steering it (empty
/// system text means no augmentation).
pub struct DialogRequest {
    pub model: DeepSeekModel,
    pub max_tokens: u64,
    pub user: String,
    pub system: String,
}

/// The mathematical reading of a request.
pub struct DialogRequestView {
    pub model: DeepSeekModel,
    pub max_tokens: u64,
    pub user: Seq<char>,
    pub system: Seq<char>,
}

impl View for DialogRequest {
    type V = DialogRequestView;

    open spec fn view(&self) -> DialogRequestView {
        DialogRequestView {
            model: self.model,
            max_tokens: self.max_tokens,
            user: self.user@,
            system: self.system@,
        }
    }
}

/// Where one query stands in the pipeline.
pub enum PipelineState {
    /// Waiting for the model's verdict on whether to search.
    Deciding { query: String },
    /// Waiting for the model to compress the query into a search term.
    GeneratingTerm { query: String },
    /// Waiting for the search service's articles on the term.
    Fetching { query: String, term: String },
    /// Summarizing the fetched articles one by one; `content` holds the
    /// blocks produced so far and `next` the article now being summarized.
    Summarizing {
        query: String,
        term: String,
        articles: Vec<String>,
        next: usize,
        content: String,
    },
    /// Waiting for the final answer, steered by the assembled context.
    Answering { query: String, context: String },
    /// Finished: the answer, and whether search context fed into it.
    Done { answer: String, augmented: bool },
}

/// The mathematical reading of a pipeline state.
pub enum PipelineStateView {
    Deciding { query: Seq<char> },
    GeneratingTerm { query: Seq<char> },
    Fetching { query: Seq<char>, term: Seq<char> },
    Summarizing {
        query: Seq<char>,
        term: Seq<char>,
        articles: Seq<Seq<char>>,
        next: int,
        content: Seq<char>,
    },
    Answering { query: Seq<char>, context: Seq<char> },
    Done { answer: Seq<char>, augmented: bool },
}

impl View for PipelineState {
    type V = PipelineStateView;

    open spec fn view(&self) -> PipelineStateView {
        match self {
            PipelineState::Deciding { query } => PipelineStateView::Deciding { query: query@ },
            PipelineState::GeneratingTerm { query } => PipelineStateView::GeneratingTerm {
                query: query@,
            },
            PipelineState::Fetching { query, term } => PipelineStateView::Fetching {
                query: query@,
                term: term@,
            },
            PipelineState::Summarizing { query, term, articles, next, content } => {
                PipelineStateView::Summarizing {
                    query: query@,
                    term: term@,
                    articles: articles.deep_view(),
                    next: *next as int,
                    content: content@,
                }
            },
            PipelineState::Answering { query, context } => PipelineStateView::Answering {
                query: query@,
                context: context@,
            },
            PipelineState::Done { answer, augmented } => PipelineStateView::Done {
                answer: answer@,
                augmented: *augmented,
            },
        }
    }
}

/// What the surrounding program is asked to do next.
pub enum PipelineAction {
    /// Send this prompt to the chat-completion endpoint.
    AskModel { request: DialogRequest },
    /// Ask the search service for this term's articles.
    FetchArticles { term: String },
    /// Nothing: the pipeline is done.
    Finished,
}

/// The mathematical reading of an action.
pub enum PipelineActionView {
    AskModel { request: DialogRequestView },
    FetchArticles { term: Seq<char> },
    Finished,
}

impl View for PipelineAction {
    type V = PipelineActionView;

    open spec fn view(&self) -> PipelineActionView {
        match self {
            PipelineAction::AskModel { request } => PipelineActionView::AskModel {
                request: request@,
            },
            PipelineAction::FetchArticles { term } => PipelineActionView::FetchArticles {
                term: term@,
            },
            PipelineAction::Finished => PipelineActionView::Finished,
        }
    }
}

/// What came back from the last action.
pub enum PipelineEvent {
    /// The model replied with this text.
    Reply { text: String },
    /// The model call failed for good, its retries exhausted.
    ReplyFailed,
    /// The search service returned these articles.
    Articles { articles: Vec<String> },
    /// The article fetch failed for good, its retries exhausted.
    ArticlesFailed,
}

/// The mathematical reading of an event.
pub enum PipelineEventView {
    Reply { text: Seq<char> },
    ReplyFailed,
    Articles { articles: Seq<Seq<char>> },
    ArticlesFailed,
}

impl View for PipelineEvent {
    type V = PipelineEventView;

    open spec fn view(&self) -> PipelineEventView {
        match self {
            PipelineEvent::Reply { text } => PipelineEventView::Reply { text: text@ },
            PipelineEvent::ReplyFailed => PipelineEventView::ReplyFailed,
            PipelineEvent::Articles { articles } => PipelineEventView::Articles {
                articles: articles.deep_view(),
            },
            PipelineEvent::ArticlesFailed => PipelineEventView::ArticlesFailed,
        }
    }
}

/// The request that asks the model whether to search for a query.
pub open spec fn decide_request(query: Seq<char>) -> DialogRequestView {
    DialogRequestView {
        model: DeepSeekModel::DeepSeekChat,
        max_tokens: 20,
        user: query,
        system: determine_prompt(),
    }
}

/// The request that asks the model for a search term.
pub open spec fn term_request(query: Seq<char>) -> DialogRequestView {
    DialogRequestView {
        model: DeepSeekModel::DeepSeekChat,
        max_tokens: 20,
        user: query,
        system: term_prompt(),
    }
}

/// The request that asks the model to summarize one article for a term.
pub open spec fn summary_request(term: Seq<char>, article: Seq<char>) -> DialogRequestView {
    DialogRequestView {
        model: DeepSeekModel::DeepSeekChat,
        max_tokens: 100,
        user: article,
        system: summary_prompt_spec(term),
    }
}

/// The request that asks the model for the final answer, steered by the
/// assembled context (empty context means no augmentation).
pub open spec fn answer_request(query: Seq<char>, context: Seq<char>) -> DialogRequestView {
    DialogRequestView {
        model: DeepSeekModel::DeepSeekChat,
        max_tokens: 512,
        user: query,
        system: context,
    }
}

/// The fixed sentence delivered when even the final answer call failed;
/// it names no error detail.
pub open spec fn failure_answer() -> Seq<char> {
    "You are seeing this message because there was an error when we communicate with DeepSeek. Check the log for details."@
}

/// Which events can answer which state: states awaiting the model take a
/// reply or its failure, the fetching state takes articles or their
/// failure, and a finished pipeline takes nothing.
pub open spec fn event_fits(s: PipelineStateView, e: PipelineEventView) -> bool {
    match s {
        PipelineStateView::Fetching { .. } => e is Articles || e is ArticlesFailed,
        PipelineStateView::Done { .. } => false,
        _ => e is Reply || e is ReplyFailed,
    }
}

/// What every reachable state satisfies: while summarizing, the article
/// under work lies inside the list.
pub open spec fn state_inv(s: PipelineStateView) -> bool {
    match s {
        PipelineStateView::Summarizing { articles, next, .. } => 0 <= next < articles.len(),
        _ => true,
    }
}

/// The whole transition relation of the pipeline, one step per event.
///
/// Degradation is uniform: whenever a search-side stage fails — the
/// decision, the term, the fetch — the pipeline moves on to answering
/// with an empty context rather than aborting; a failed summary only
/// skips its article; and only the final answer call decides between the
/// answer text and the fixed failure sentence.
pub open spec fn step_spec(s: PipelineStateView, e: PipelineEventView) -> (PipelineStateView,
    PipelineActionView)
    recommends
        event_fits(s, e),
        state_inv(s),
{
    match s {
        PipelineStateView::Deciding { query } => {
            match e {
                PipelineEventView::Reply { text } => {
                    if trimmed_of(text) == "no"@ {
                        (
                            PipelineStateView::Answering { query, context: Seq::<char>::empty() },
                            PipelineActionView::AskModel {
                                request: answer_request(query, Seq::<char>::empty()),
                            },
                        )
                    } else {
                        (
                            PipelineStateView::GeneratingTerm { query },
                            PipelineActionView::AskModel { request: term_request(query) },
                        )
                    }
                },
                _ => (
                    PipelineStateView::Answering { query, context: Seq::<char>::empty() },
                    PipelineActionView::AskModel {
                        request: answer_request(query, Seq::<char>::empty()),
                    },
                ),
            }
        },
        PipelineStateView::GeneratingTerm { query } => {
            match e {
                PipelineEventView::Reply { text } => (
                    PipelineStateView::Fetching { query, term: text },
                    PipelineActionView::FetchArticles { term: text },
                ),
                _ => (
                    PipelineStateView::Answering { query, context: Seq::<char>::empty() },
                    PipelineActionView::AskModel {
                        request: answer_request(query, Seq::<char>::empty()),
                    },
                ),
            }
        },
        PipelineStateView::Fetching { query, term } => {
            match e {
                PipelineEventView::Articles { articles } => {
                    if articles.len() == 0 {
                        (
                            PipelineStateView::Answering { query, context: Seq::<char>::empty() },
                            PipelineActionView::AskModel {
                                request: answer_request(query, Seq::<char>::empty()),
                            },
                        )
                    } else {
                        (
                            PipelineStateView::Summarizing {
                                query,
                                term,
                                articles,
                                next: 0,
                                content: Seq::<char>::empty(),
                            },
                            PipelineActionView::AskModel {
                                request: summary_request(term, articles[0]),
                            },
                        )
                    }
                },
                _ => (
                    PipelineStateView::Answering { query, context: Seq::<char>::empty() },
                    PipelineActionView::AskModel {
                        request: answer_request(query, Seq::<char>::empty()),
                    },
                ),
            }
        },
        PipelineStateView::Summarizing { query, term, articles, next, content } => {
            let content2 = match e {
                PipelineEventView::Reply { text } => content + summary_block_spec(
                    next as nat,
                    text,
                ),
                _ => content,
            };
            if next + 1 < articles.len() {
                (
                    PipelineStateView::Summarizing {
                        query,
                        term,
                        articles,
                        next: next + 1,
                        content: content2,
                    },
                    PipelineActionView::AskModel {
                        request: summary_request(term, articles[next + 1]),
                    },
                )
            } else {
                let context = assemble_context_spec(term, content2);
                (
                    PipelineStateView::Answering { query, context },
                    PipelineActionView::AskModel { request: answer_request(query, context) },
                )
            }
        },
        PipelineStateView::Answering { query, context } => {
            match e {
                PipelineEventView::Reply { text } => (
                    PipelineStateView::Done { answer: text, augmented: context.len() > 0 },
                    PipelineActionView::Finished,
                ),
                _ => (
                    PipelineStateView::Done { answer: failure_answer(), augmented: false },
                    PipelineActionView::Finished,
                ),
            }
        },
        PipelineStateView::Done { .. } => (s, PipelineActionView::Finished),
    }
}

/// Begins the pipeline on a query: the first action asks the model
/// whether a search is warranted.
pub fn start(query: String) -> (r: (PipelineState, PipelineAction))
    ensures
        r.0@ == (PipelineStateView::Deciding { query: query@ }),
        r.1@ == (PipelineActionView::AskModel { request: decide_request(query@) }),
        state_inv(r.0@),
{
    let request = DialogRequest {
        model: DeepSeekModel::DeepSeekChat,
        max_tokens: 20,
        user: query.clone(),
        system: determine_prompt_string(),
    };
    (PipelineState::Deciding { query }, PipelineAction::AskModel { request })
}

/// The step into the answering stage shared by every degraded path and by
/// the regular one: ask for the final answer under the given context.
fn answering_step(query: String, context: String) -> (r: (PipelineState, PipelineAction))
    ensures
        r.0@ == (PipelineStateView::Answering { query: query@, context: context@ }),
        r.1@ == (PipelineActionView::AskModel { request: answer_request(query@, context@) }),
{
    let request = DialogRequest {
        model: DeepSeekModel::DeepSeekChat,
        max_tokens: 512,
        user: query.clone(),
        system: context.clone(),
    };
    (PipelineState::Answering { query, context }, PipelineAction::AskModel { request })
}

/// Feeds one event into the pipeline and returns the next state with the
/// action it calls for, exactly as `step_spec` lays down.
pub fn step(state: PipelineState, event: PipelineEvent) -> (r: (PipelineState, PipelineAction))
    requires
        event_fits(state@, event@),
        state_inv(state@),
    ensures
        r.0@ == step_spec(state@, event@).0,
        r.1@ == step_spec(state@, event@).1,
        state_inv(r.0@),
{
    let ghost sv = state@;
    match state {
        PipelineState::Deciding { query } => {
            match event {
                PipelineEvent::Reply { text } => {
                    if decision_from_reply(&text) {
                        let request = DialogRequest {
                            model: DeepSeekModel::DeepSeekChat,
                            max_tokens: 20,
                            user: query.clone(),
                            system: term_prompt_string(),
                        };
                        (
                            PipelineState::GeneratingTerm { query },
                            PipelineAction::AskModel { request },
                        )
                    } else {
                        answering_step(query, String::new())
                    }
                },
                _ => answering_step(query, String::new()),
            }
        },
        PipelineState::GeneratingTerm { query } => {
            match event {
                PipelineEvent::Reply { text } => {
                    let term = text.clone();
                    (
                        PipelineState::Fetching { query, term: text },
                        PipelineAction::FetchArticles { term },
                    )
                },
                _ => answering_step(query, String::new()),
            }
        },
        PipelineState::Fetching { query, term } => {
            match event {
                PipelineEvent::Articles { articles } => {
                    if articles.len() == 0 {
                        answering_step(query, String::new())
                    } else {
                        let request = DialogRequest {
                            model: DeepSeekModel::DeepSeekChat,
                            max_tokens: 100,
                            user: articles[0].clone(),
                            system: summary_prompt(&term),
                        };
                        (
                            PipelineState::Summarizing {
                                query,
                                term,
                                articles,
                                next: 0,
                                content: String::new(),
                            },
                            PipelineAction::AskModel { request },
                        )
                    }
                },
                _ => answering_step(query, String::new()),
            }
        },
        PipelineState::Summarizing { query, term, articles, next, content } => {
            proof {
                assert(sv == (PipelineStateView::Summarizing {
                    query: query@,
                    term: term@,
                    articles: articles.deep_view(),
                    next: next as int,
                    content: content@,
                }));
                assert(next < articles.deep_view().len());
                assert(articles.deep_view().len() == articles@.len());
            }
            let len = articles.len();
            let mut content2 = content;
            match &event {
                PipelineEvent::Reply { text } => {
                    let block = summary_block(next as u64, text);
                    content2.append(block.as_str());
                },
                _ => {},
            }
            let next2 = next + 1;
            if next2 < len {
                let request = DialogRequest {
                    model: DeepSeekModel::DeepSeekChat,
                    max_tokens: 100,
                    user: articles[next2].clone(),
                    system: summary_prompt(&term),
                };
                (
                    PipelineState::Summarizing {
                        query,
                        term,
                        articles,
                        next: next2,
                        content: content2,
                    },
                    PipelineAction::AskModel { request },
                )
            } else {
                let context = assemble_context(&term, &content2);
                answering_step(query, context)
            }
        },
        PipelineState::Answering { query, context } => {
            match event {
                PipelineEvent::Reply { text } => {
                    let augmented = context.as_str().unicode_len() > 0;
                    (PipelineState::Done { answer: text, augmented }, PipelineAction::Finished)
                },
                _ => {
                    let answer = String::from_str(
                        "You are seeing this message because there was an error when we communicate with DeepSeek. Check the log for details.",
                    );
                    (
                        PipelineState::Done { answer, augmented: false },
                        PipelineAction::Finished,
                    )
                },
            }
        },
        PipelineState::Done { answer, augmented } => {
            (PipelineState::Done { answer, augmented }, PipelineAction::Finished)
        },
    }
}

/// The state a pipeline reaches when it consumes the given events in
/// order.
pub open spec fn run_spec(s: PipelineStateView, events: Seq<PipelineEventView>) -> PipelineStateView
    decreases events.len(),
{
    if events.len() == 0 {
        s
    } else {
        run_spec(step_spec(s, events[0]).0, events.drop_first())
    }
}

/// The summary blocks a run of model outcomes yields, the first outcome
/// answering for the article at position `from`: each reply contributes
/// its block under the article's own ordinal, each failure contributes
/// nothing at all.
pub open spec fn blocks_from(events: Seq<PipelineEventView>, from: nat) -> Seq<char>
    decreases events.len(),
{
    if events.len() == 0 {
        Seq::<char>::empty()
    } else {
        (match events[0] {
            PipelineEventView::Reply { text } => summary_block_spec(from, text),
            _ => Seq::<char>::empty(),
        }) + blocks_from(events.drop_first(), (from + 1) as nat)
    }
}

/// Law: summarization tolerates partial failure and keeps order.  Driven
/// over one model outcome per remaining article, the summarizing stage
/// ends in the answering stage, and its context assembles exactly the
/// blocks of the successful outcomes, ordered by the articles' original
/// ordinals, with nothing standing in for a failed one.
pub proof fn lemma_summaries_in_order(
    query: Seq<char>,
    term: Seq<char>,
    articles: Seq<Seq<char>>,
    next: int,
    content: Seq<char>,
    events: Seq<PipelineEventView>,
)
    requires
        0 <= next < articles.len(),
        events.len() == articles.len() - next,
        forall|i: int|
            0 <= i < events.len() ==> (#[trigger] events[i] is Reply || events[i] is ReplyFailed),
    ensures
        run_spec(
            PipelineStateView::Summarizing { query, term, articles, next, content },
            events,
        ) == (PipelineStateView::Answering {
            query,
            context: assemble_context_spec(term, content + blocks_from(events, next as nat)),
        }),
    decreases events.len(),
{
    let s = PipelineStateView::Summarizing { query, term, articles, next, content };
    let e = events[0];
    let content2 = match e {
        PipelineEventView::Reply { text } => content + summary_block_spec(next as nat, text),
        _ => content,
    };
    let rest = events.drop_first();
    if next + 1 < articles.len() {
        lemma_summaries_in_order(query, term, articles, next + 1, content2, rest);
        assert(content2 + blocks_from(rest, (next + 1) as nat) =~= content + blocks_from(
            events,
            next as nat,
        )) by {
            match e {
                PipelineEventView::Reply { text } => {
                    assert(blocks_from(events, next as nat) == summary_block_spec(next as nat, text)
                        + blocks_from(rest, (next + 1) as nat));
                },
                _ => {
                    assert(blocks_from(events, next as nat) == Seq::<char>::empty() + blocks_from(
                        rest,
                        (next + 1) as nat,
                    ));
                },
            }
        }
    } else {
        assert(rest.len() == 0);
        assert(run_spec(step_spec(s, e).0, rest) == step_spec(s, e).0);
        assert(content2 =~= content + blocks_from(events, next as nat)) by {
            assert(blocks_from(rest, (next + 1) as nat) == Seq::<char>::empty());
            match e {
                PipelineEventView::Reply { text } => {
                    assert(blocks_from(events, next as nat) =~= summary_block_spec(
                        next as nat,
                        text,
                    ));
                },
                _ => {
                    assert(blocks_from(events, next as nat) =~= Seq::<char>::empty());
                },
            }
        }
    }
}

/// How far from `Done` a state stands, by stage.
pub open spec fn phase(s: PipelineStateView) -> nat {
    match s {
        PipelineStateView::Deciding { .. } => 5,
        PipelineStateView::GeneratingTerm { .. } => 4,
        PipelineStateView::Fetching { .. } => 3,
        PipelineStateView::Summarizing { .. } => 2,
        PipelineStateView::Answering { .. } => 1,
        PipelineStateView::Done { .. } => 0,
    }
}

/// How much work the current stage still holds: the articles not yet
/// summarized, elsewhere nothing.
pub open spec fn stage_work(s: PipelineStateView) -> int {
    match s {
        PipelineStateView::Summarizing { articles, next, .. } => articles.len() - next,
        _ => 0,
    }
}

/// Law: every step makes progress — the stage advances, or the same
/// stage holds strictly less work — so a driven pipeline always reaches
/// `Done`, whatever the events; answering is never blocked on a failure.
pub proof fn lemma_step_progress(s: PipelineStateView, e: PipelineEventView)
    requires
        event_fits(s, e),
        state_inv(s),
    ensures
        ({
            let s2 = step_spec(s, e).0;
            ||| phase(s2) < phase(s)
            ||| (phase(s2) == phase(s) && stage_work(s2) < stage_work(s))
        }),
{
}

} // verus!
