//! The per-invocation pipeline as a state machine.
//!
//! One invocation is a linear pipeline: open the vector-index table, build a
//! retrieval index over it, retrieve the passages most similar to the
//! prompt, and submit the augmented prompt to the completion model.  The
//! outside calls happen elsewhere; this module decides, from the current
//! state and the observed outcome of the last call, the next state and the
//! next requested action.  A failure at any step ends the invocation in an
//! error, and a failed invocation requests nothing further.

use vstd::prelude::*;

use crate::context::{augmented_prompt, contains_seq, lemma_augmented_prompt_complete};

verus! {

/// Name of the vector-index table every invocation opens.
pub open spec fn spec_table_name() -> Seq<char> {
    "montreal_data"@
}

/// Name of the column the retrieval index keys records by.
pub open spec fn spec_key_column() -> Seq<char> {
    "id"@
}

/// Name of the model that embeds text for similarity search.
pub open spec fn spec_embedding_model_name() -> Seq<char> {
    "text-embedding-ada-002"@
}

/// Name of the model that completes the augmented prompt.
pub open spec fn spec_completion_model_name() -> Seq<char> {
    "gpt-4o"@
}

/// How many passages a retrieval returns at most.
pub const TOP_K: usize = 2;

/// Name of the vector-index table every invocation opens.
pub fn table_name() -> (r: String)
    ensures
        r@ == spec_table_name(),
{
    "montreal_data".to_owned()
}

/// Name of the column the retrieval index keys records by.
pub fn key_column() -> (r: String)
    ensures
        r@ == spec_key_column(),
{
    "id".to_owned()
}

/// Name of the model that embeds text for similarity search.
pub fn embedding_model_name() -> (r: String)
    ensures
        r@ == spec_embedding_model_name(),
{
    "text-embedding-ada-002".to_owned()
}

/// Name of the model that completes the augmented prompt.
pub fn completion_model_name() -> (r: String)
    ensures
        r@ == spec_completion_model_name(),
{
    "gpt-4o".to_owned()
}

/// The similarity metric a retrieval is configured with.
#[derive(Clone, Copy, Debug, PartialEq, Eq, Structural)]
pub enum Distance {
    Cosine,
}

/// An incoming request: the user's prompt.
pub struct Event {
    pub prompt: String,
}

/// The outgoing envelope: the completion model's response, verbatim.
#[derive(Clone, Debug, PartialEq, Eq)]
pub struct AgentResponse {
    pub response: String,
}

/// Why an invocation failed, with the message of the failing call.
#[derive(Clone, Debug, PartialEq, Eq)]
pub enum HandlerError {
    TableOpen { message: String },
    IndexBuild { message: String },
    Retrieval { message: String },
    Completion { message: String },
}

/// What an invocation waits on, or how it ended.
#[derive(Clone, Debug, PartialEq, Eq)]
pub enum HandlerState {
    AwaitingTable { prompt: String },
    AwaitingIndex { prompt: String },
    AwaitingPassages { prompt: String },
    AwaitingCompletion { prompt: String },
    Done { output: AgentResponse },
    Failed { error: HandlerError },
}

/// The outside call the pipeline asks for next, or its final word.
#[derive(Clone, Debug, PartialEq, Eq)]
pub enum HandlerAction {
    /// Open the named table of the vector index.
    OpenTable { table: String },
    /// Build a retrieval index over the opened table.
    BuildIndex { key_column: String, distance: Distance, embedding_model: String },
    /// Retrieve the passages most similar to the query.
    Retrieve { top_k: usize, query: String },
    /// Submit the input text to the completion model.
    Complete { model: String, input: String },
    /// Return the envelope to the caller.
    Respond { output: AgentResponse },
    /// Surface the error to the caller.
    Fail { error: HandlerError },
}

/// The outcome of the outside call the pipeline last asked for.
#[derive(Clone, Debug, PartialEq, Eq)]
pub enum HandlerEvent {
    TableOpened,
    TableOpenFailed { message: String },
    IndexBuilt,
    IndexBuildFailed { message: String },
    Retrieved { passages: Vec<String> },
    RetrieveFailed { message: String },
    Completed { text: String },
    CompletionFailed { message: String },
}

/// Mathematical image of `HandlerError`.
pub enum ErrorModel {
    TableOpen { message: Seq<char> },
    IndexBuild { message: Seq<char> },
    Retrieval { message: Seq<char> },
    Completion { message: Seq<char> },
}

/// Mathematical image of `HandlerState`.
pub enum StateModel {
    AwaitingTable { prompt: Seq<char> },
    AwaitingIndex { prompt: Seq<char> },
    AwaitingPassages { prompt: Seq<char> },
    AwaitingCompletion { prompt: Seq<char> },
    Done { response: Seq<char> },
    Failed { error: ErrorModel },
}

/// Mathematical image of `HandlerAction`.
pub enum ActionModel {
    OpenTable { table: Seq<char> },
    BuildIndex { key_column: Seq<char>, distance: Distance, embedding_model: Seq<char> },
    Retrieve { top_k: int, query: Seq<char> },
    Complete { model: Seq<char>, input: Seq<char> },
    Respond { response: Seq<char> },
    Fail { error: ErrorModel },
}

/// Mathematical image of `HandlerEvent`.
pub enum EventModel {
    TableOpened,
    TableOpenFailed { message: Seq<char> },
    IndexBuilt,
    IndexBuildFailed { message: Seq<char> },
    Retrieved { passages: Seq<Seq<char>> },
    RetrieveFailed { message: Seq<char> },
    Completed { text: Seq<char> },
    CompletionFailed { message: Seq<char> },
}

impl View for Event {
    type V = Seq<char>;

    open spec fn view(&self) -> Seq<char> {
        self.prompt@
    }
}

impl View for AgentResponse {
    type V = Seq<char>;

    open spec fn view(&self) -> Seq<char> {
        self.response@
    }
}

impl View for HandlerError {
    type V = ErrorModel;

    open spec fn view(&self) -> ErrorModel {
        match self {
            HandlerError::TableOpen { message } => ErrorModel::TableOpen { message: message@ },
            HandlerError::IndexBuild { message } => ErrorModel::IndexBuild { message: message@ },
            HandlerError::Retrieval { message } => ErrorModel::Retrieval { message: message@ },
            HandlerError::Completion { message } => ErrorModel::Completion { message: message@ },
        }
    }
}

impl View for HandlerState {
    type V = StateModel;

    open spec fn view(&self) -> StateModel {
        match self {
            HandlerState::AwaitingTable { prompt } => StateModel::AwaitingTable { prompt: prompt@ },
            HandlerState::AwaitingIndex { prompt } => StateModel::AwaitingIndex { prompt: prompt@ },
            HandlerState::AwaitingPassages { prompt } => StateModel::AwaitingPassages {
                prompt: prompt@,
            },
            HandlerState::AwaitingCompletion { prompt } => StateModel::AwaitingCompletion {
                prompt: prompt@,
            },
            HandlerState::Done { output } => StateModel::Done { response: output.response@ },
            HandlerState::Failed { error } => StateModel::Failed { error: error@ },
        }
    }
}

impl View for HandlerAction {
    type V = ActionModel;

    open spec fn view(&self) -> ActionModel {
        match self {
            HandlerAction::OpenTable { table } => ActionModel::OpenTable { table: table@ },
            HandlerAction::BuildIndex { key_column, distance, embedding_model } => ActionModel::BuildIndex {
                key_column: key_column@,
                distance: *distance,
                embedding_model: embedding_model@,
            },
            HandlerAction::Retrieve { top_k, query } => ActionModel::Retrieve {
                top_k: *top_k as int,
                query: query@,
            },
            HandlerAction::Complete { model, input } => ActionModel::Complete {
                model: model@,
                input: input@,
            },
            HandlerAction::Respond { output } => ActionModel::Respond { response: output.response@ },
            HandlerAction::Fail { error } => ActionModel::Fail { error: error@ },
        }
    }
}

impl View for HandlerEvent {
    type V = EventModel;

    open spec fn view(&self) -> EventModel {
        match self {
            HandlerEvent::TableOpened => EventModel::TableOpened,
            HandlerEvent::TableOpenFailed { message } => EventModel::TableOpenFailed {
                message: message@,
            },
            HandlerEvent::IndexBuilt => EventModel::IndexBuilt,
            HandlerEvent::IndexBuildFailed { message } => EventModel::IndexBuildFailed {
                message: message@,
            },
            HandlerEvent::Retrieved { passages } => EventModel::Retrieved {
                passages: passages.deep_view(),
            },
            HandlerEvent::RetrieveFailed { message } => EventModel::RetrieveFailed {
                message: message@,
            },
            HandlerEvent::Completed { text } => EventModel::Completed { text: text@ },
            HandlerEvent::CompletionFailed { message } => EventModel::CompletionFailed {
                message: message@,
            },
        }
    }
}

/// The first state and action of an invocation carrying `prompt`.
pub open spec fn spec_start(prompt: Seq<char>) -> (StateModel, ActionModel) {
    (StateModel::AwaitingTable { prompt }, ActionModel::OpenTable { table: spec_table_name() })
}

/// Whether `e` is an outcome the pipeline can observe in state `s`: each
/// waiting state takes exactly its call's success or failure, and a finished
/// invocation takes nothing.
pub open spec fn step_enabled(s: StateModel, e: EventModel) -> bool {
    ||| (s is AwaitingTable && (e is TableOpened || e is TableOpenFailed))
    ||| (s is AwaitingIndex && (e is IndexBuilt || e is IndexBuildFailed))
    ||| (s is AwaitingPassages && (e is Retrieved || e is RetrieveFailed))
    ||| (s is AwaitingCompletion && (e is Completed || e is CompletionFailed))
}

/// The pipeline's transition: from the waiting state `s` and the outcome
/// `e`, the next state and the next requested action.
pub open spec fn spec_step(s: StateModel, e: EventModel) -> (StateModel, ActionModel) {
    match (s, e) {
        (StateModel::AwaitingTable { prompt }, EventModel::TableOpened) => (
            StateModel::AwaitingIndex { prompt },
            ActionModel::BuildIndex {
                key_column: spec_key_column(),
                distance: Distance::Cosine,
                embedding_model: spec_embedding_model_name(),
            },
        ),
        (StateModel::AwaitingTable { .. }, EventModel::TableOpenFailed { message }) => (
            StateModel::Failed { error: ErrorModel::TableOpen { message } },
            ActionModel::Fail { error: ErrorModel::TableOpen { message } },
        ),
        (StateModel::AwaitingIndex { prompt }, EventModel::IndexBuilt) => (
            StateModel::AwaitingPassages { prompt },
            ActionModel::Retrieve { top_k: TOP_K as int, query: prompt },
        ),
        (StateModel::AwaitingIndex { .. }, EventModel::IndexBuildFailed { message }) => (
            StateModel::Failed { error: ErrorModel::IndexBuild { message } },
            ActionModel::Fail { error: ErrorModel::IndexBuild { message } },
        ),
        (StateModel::AwaitingPassages { prompt }, EventModel::Retrieved { passages }) => (
            StateModel::AwaitingCompletion { prompt },
            ActionModel::Complete {
                model: spec_completion_model_name(),
                input: augmented_prompt(passages, prompt),
            },
        ),
        (StateModel::AwaitingPassages { .. }, EventModel::RetrieveFailed { message }) => (
            StateModel::Failed { error: ErrorModel::Retrieval { message } },
            ActionModel::Fail { error: ErrorModel::Retrieval { message } },
        ),
        (StateModel::AwaitingCompletion { .. }, EventModel::Completed { text }) => (
            StateModel::Done { response: text },
            ActionModel::Respond { response: text },
        ),
        (StateModel::AwaitingCompletion { .. }, EventModel::CompletionFailed { message }) => (
            StateModel::Failed { error: ErrorModel::Completion { message } },
            ActionModel::Fail { error: ErrorModel::Completion { message } },
        ),
        _ => arbitrary(),
    }
}

/// Begins an invocation: the pipeline waits for the table and asks that it
/// be opened.
pub fn handler_start(request: Event) -> (r: (HandlerState, HandlerAction))
    ensures
        r.0@ == spec_start(request@).0,
        r.1@ == spec_start(request@).1,
{
    (
        HandlerState::AwaitingTable { prompt: request.prompt },
        HandlerAction::OpenTable { table: table_name() },
    )
}

/// Advances an invocation by one observed outcome.
pub fn handler_step(state: HandlerState, event: HandlerEvent) -> (r: (HandlerState, HandlerAction))
    requires
        step_enabled(state@, event@),
    ensures
        r.0@ == spec_step(state@, event@).0,
        r.1@ == spec_step(state@, event@).1,
{
    match (state, event) {
        (HandlerState::AwaitingTable { prompt }, HandlerEvent::TableOpened) => (
            HandlerState::AwaitingIndex { prompt },
            HandlerAction::BuildIndex {
                key_column: key_column(),
                distance: Distance::Cosine,
                embedding_model: embedding_model_name(),
            },
        ),
        (HandlerState::AwaitingTable { .. }, HandlerEvent::TableOpenFailed { message }) => (
            HandlerState::Failed { error: HandlerError::TableOpen { message: message.clone() } },
            HandlerAction::Fail { error: HandlerError::TableOpen { message } },
        ),
        (HandlerState::AwaitingIndex { prompt }, HandlerEvent::IndexBuilt) => (
            HandlerState::AwaitingPassages { prompt: prompt.clone() },
            HandlerAction::Retrieve { top_k: TOP_K, query: prompt },
        ),
        (HandlerState::AwaitingIndex { .. }, HandlerEvent::IndexBuildFailed { message }) => (
            HandlerState::Failed { error: HandlerError::IndexBuild { message: message.clone() } },
            HandlerAction::Fail { error: HandlerError::IndexBuild { message } },
        ),
        (HandlerState::AwaitingPassages { prompt }, HandlerEvent::Retrieved { passages }) => {
            let input = crate::context::build_augmented_prompt(&passages, prompt.as_str());
            (
                HandlerState::AwaitingCompletion { prompt },
                HandlerAction::Complete { model: completion_model_name(), input },
            )
        },
        (HandlerState::AwaitingPassages { .. }, HandlerEvent::RetrieveFailed { message }) => (
            HandlerState::Failed { error: HandlerError::Retrieval { message: message.clone() } },
            HandlerAction::Fail { error: HandlerError::Retrieval { message } },
        ),
        (HandlerState::AwaitingCompletion { .. }, HandlerEvent::Completed { text }) => (
            HandlerState::Done { output: AgentResponse { response: text.clone() } },
            HandlerAction::Respond { output: AgentResponse { response: text } },
        ),
        (HandlerState::AwaitingCompletion { .. }, HandlerEvent::CompletionFailed { message }) => (
            HandlerState::Failed { error: HandlerError::Completion { message: message.clone() } },
            HandlerAction::Fail { error: HandlerError::Completion { message } },
        ),
        // No remaining pair is enabled, so this arm is unreachable and its
        // value immaterial.
        _ => {
            proof {
                assert(false);
            }
            (
                HandlerState::Failed {
                    error: HandlerError::TableOpen { message: String::new() },
                },
                HandlerAction::Fail {
                    error: HandlerError::TableOpen { message: String::new() },
                },
            )
        },
    }
}

/// The message carried by a failed invocation's error.
pub open spec fn spec_error_message(e: ErrorModel) -> Seq<char> {
    match e {
        ErrorModel::TableOpen { message } => message,
        ErrorModel::IndexBuild { message } => message,
        ErrorModel::Retrieval { message } => message,
        ErrorModel::Completion { message } => message,
    }
}

impl HandlerError {
    /// The message of the failing call, for surfacing to the caller.
    pub fn into_message(self) -> (r: String)
        ensures
            r@ == spec_error_message(self@),
    {
        match self {
            HandlerError::TableOpen { message } => message,
            HandlerError::IndexBuild { message } => message,
            HandlerError::Retrieval { message } => message,
            HandlerError::Completion { message } => message,
        }
    }
}

/// Whether a whole run of outcomes can be observed from `s`: each outcome
/// answers the state the pipeline is then in.
pub open spec fn trace_enabled(s: StateModel, events: Seq<EventModel>) -> bool
    decreases events.len(),
{
    events.len() == 0 || (step_enabled(s, events.first()) && trace_enabled(
        spec_step(s, events.first()).0,
        events.drop_first(),
    ))
}

/// The state after a whole run of outcomes.
pub open spec fn run_state(s: StateModel, events: Seq<EventModel>) -> StateModel
    decreases events.len(),
{
    if events.len() == 0 {
        s
    } else {
        run_state(spec_step(s, events.first()).0, events.drop_first())
    }
}

/// Every action a whole run of outcomes requests, in order.
pub open spec fn run_actions(s: StateModel, events: Seq<EventModel>) -> Seq<ActionModel>
    decreases events.len(),
{
    if events.len() == 0 {
        Seq::empty()
    } else {
        seq![spec_step(s, events.first()).1] + run_actions(
            spec_step(s, events.first()).0,
            events.drop_first(),
        )
    }
}

/// Law: a failed invocation is final; no further outcome can be observed.
pub proof fn lemma_failed_is_terminal(error: ErrorModel, events: Seq<EventModel>)
    requires
        trace_enabled(StateModel::Failed { error }, events),
    ensures
        events.len() == 0,
{
}

/// Law: when opening the vector-index table fails, the invocation ends in
/// that error at once, and in particular never calls the completion model.
pub proof fn lemma_table_open_failure_no_completion(prompt: Seq<char>, events: Seq<EventModel>)
    requires
        events.len() >= 1,
        events[0] is TableOpenFailed,
        trace_enabled(StateModel::AwaitingTable { prompt }, events),
    ensures
        events.len() == 1,
        run_state(StateModel::AwaitingTable { prompt }, events) == (StateModel::Failed {
            error: ErrorModel::TableOpen { message: events[0]->TableOpenFailed_message },
        }),
        run_actions(StateModel::AwaitingTable { prompt }, events) =~= seq![
            ActionModel::Fail {
                error: ErrorModel::TableOpen { message: events[0]->TableOpenFailed_message },
            },
        ],
        forall|i: int| 0 <= i < run_actions(StateModel::AwaitingTable { prompt }, events).len()
            ==> !(#[trigger] run_actions(StateModel::AwaitingTable { prompt }, events)[i] is Complete),
{
    let s0 = StateModel::AwaitingTable { prompt };
    let s1 = spec_step(s0, events.first()).0;
    assert(s1 is Failed);
    lemma_failed_is_terminal(s1->Failed_error, events.drop_first());
    assert(events.drop_first().len() == 0);
    assert(run_state(s0, events) == run_state(s1, events.drop_first()));
    assert(run_state(s1, events.drop_first()) == s1);
    assert(run_actions(s1, events.drop_first()) =~= Seq::<ActionModel>::empty());
    assert(run_actions(s0, events) =~= seq![spec_step(s0, events.first()).1]);
}

/// Law: every failure outcome is fatal — the invocation moves to a failed
/// state, surfaces an error, and state and action carry the same error.
pub proof fn lemma_failure_outcomes_are_fatal(s: StateModel, e: EventModel)
    requires
        step_enabled(s, e),
        e is TableOpenFailed || e is IndexBuildFailed || e is RetrieveFailed
            || e is CompletionFailed,
    ensures
        spec_step(s, e).0 is Failed,
        spec_step(s, e).1 is Fail,
        spec_step(s, e).1->Fail_error == spec_step(s, e).0->Failed_error,
{
}

/// Law: a failed completion call ends the invocation in an error carrying
/// the call's message.
pub proof fn lemma_completion_failure_yields_error(prompt: Seq<char>, message: Seq<char>)
    ensures
        spec_step(
            StateModel::AwaitingCompletion { prompt },
            EventModel::CompletionFailed { message },
        ).0 == (StateModel::Failed { error: ErrorModel::Completion { message } }),
        spec_step(
            StateModel::AwaitingCompletion { prompt },
            EventModel::CompletionFailed { message },
        ).1 == (ActionModel::Fail { error: ErrorModel::Completion { message } }),
{
}

/// Law: the envelope returned for a completed invocation carries the
/// completion model's text verbatim.
pub proof fn lemma_response_is_verbatim(prompt: Seq<char>, text: Seq<char>)
    ensures
        spec_step(StateModel::AwaitingCompletion { prompt }, EventModel::Completed { text }).0
            == (StateModel::Done { response: text }),
        spec_step(StateModel::AwaitingCompletion { prompt }, EventModel::Completed { text }).1
            == (ActionModel::Respond { response: text }),
{
}

/// Law: a completion request arises only from a retrieval outcome, and its
/// input is always the augmented prompt built from the retrieved passages
/// and the prompt the invocation carries.
pub proof fn lemma_complete_only_from_retrieval(s: StateModel, e: EventModel)
    requires
        step_enabled(s, e),
        spec_step(s, e).1 is Complete,
    ensures
        s is AwaitingPassages,
        e is Retrieved,
        spec_step(s, e).1->input == augmented_prompt(e->passages, s->AwaitingPassages_prompt),
{
}

/// Law: a successful invocation is the whole pipeline in order — build the
/// index over the opened table, retrieve for the prompt, complete on the
/// augmented prompt — and ends done with the completion text.
pub proof fn lemma_successful_run(prompt: Seq<char>, passages: Seq<Seq<char>>, text: Seq<char>)
    ensures
        ({
            let events = seq![
                EventModel::IndexBuilt,
                EventModel::Retrieved { passages },
                EventModel::Completed { text },
            ].insert(0, EventModel::TableOpened);
            let s0 = spec_start(prompt).0;
            &&& trace_enabled(s0, events)
            &&& run_state(s0, events) == (StateModel::Done { response: text })
            &&& run_actions(s0, events) =~= seq![
                ActionModel::BuildIndex {
                    key_column: spec_key_column(),
                    distance: Distance::Cosine,
                    embedding_model: spec_embedding_model_name(),
                },
                ActionModel::Retrieve { top_k: TOP_K as int, query: prompt },
                ActionModel::Complete {
                    model: spec_completion_model_name(),
                    input: augmented_prompt(passages, prompt),
                },
                ActionModel::Respond { response: text },
            ]
        }),
{
    let s0 = spec_start(prompt).0;
    let e0 = EventModel::TableOpened;
    let e1 = EventModel::IndexBuilt;
    let e2 = EventModel::Retrieved { passages };
    let e3 = EventModel::Completed { text };
    let t0 = seq![e0, e1, e2, e3];
    let t1 = seq![e1, e2, e3];
    let t2 = seq![e2, e3];
    let t3 = seq![e3];
    let t4 = Seq::<EventModel>::empty();
    assert(seq![e1, e2, e3].insert(0, e0) =~= t0);
    assert(t0.drop_first() =~= t1);
    assert(t1.drop_first() =~= t2);
    assert(t2.drop_first() =~= t3);
    assert(t3.drop_first() =~= t4);
    let s1 = spec_step(s0, e0).0;
    let s2 = spec_step(s1, e1).0;
    let s3 = spec_step(s2, e2).0;
    let s4 = spec_step(s3, e3).0;
    assert(s1 == StateModel::AwaitingIndex { prompt });
    assert(s2 == StateModel::AwaitingPassages { prompt });
    assert(s3 == StateModel::AwaitingCompletion { prompt });
    assert(s4 == StateModel::Done { response: text });
    assert(trace_enabled(s4, t4));
    assert(trace_enabled(s3, t3));
    assert(trace_enabled(s2, t2));
    assert(trace_enabled(s1, t1));
    assert(trace_enabled(s0, t0));
    assert(run_state(s4, t4) == s4);
    assert(run_state(s3, t3) == run_state(s4, t4));
    assert(run_state(s2, t2) == run_state(s3, t3));
    assert(run_state(s1, t1) == run_state(s2, t2));
    assert(run_state(s0, t0) == run_state(s1, t1));
    assert(run_actions(s4, t4) =~= Seq::<ActionModel>::empty());
    assert(run_actions(s3, t3) =~= seq![spec_step(s3, e3).1] + run_actions(s4, t4));
    assert(run_actions(s2, t2) =~= seq![spec_step(s2, e2).1] + run_actions(s3, t3));
    assert(run_actions(s1, t1) =~= seq![spec_step(s1, e1).1] + run_actions(s2, t2));
    assert(run_actions(s0, t0) =~= seq![spec_step(s0, e0).1] + run_actions(s1, t1));
    assert(run_actions(s0, t0) =~= seq![
        spec_step(s0, e0).1,
        spec_step(s1, e1).1,
        spec_step(s2, e2).1,
        spec_step(s3, e3).1,
    ]);
}

/// Law: the completion request built from a retrieval outcome contains
/// every retrieved passage and the user's prompt.
pub proof fn lemma_completion_input_has_context(prompt: Seq<char>, passages: Seq<Seq<char>>)
    ensures
        spec_step(StateModel::AwaitingPassages { prompt }, EventModel::Retrieved { passages }).1
            is Complete,
        contains_seq(
            spec_step(
                StateModel::AwaitingPassages { prompt },
                EventModel::Retrieved { passages },
            ).1->input,
            prompt,
        ),
        forall|i: int| 0 <= i < passages.len() ==> contains_seq(
            spec_step(
                StateModel::AwaitingPassages { prompt },
                EventModel::Retrieved { passages },
            ).1->input,
            #[trigger] passages[i],
        ),
{
    lemma_augmented_prompt_complete(passages, prompt);
}

} // verus!
