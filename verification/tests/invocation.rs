use rig_montreal_lancedb::context::build_augmented_prompt;
use rig_montreal_lancedb::pipeline::{
    completion_model_name, embedding_model_name, handler_start, handler_step, key_column,
    table_name, AgentResponse, Distance, Event, HandlerAction, HandlerError, HandlerEvent,
    HandlerState, TOP_K,
};

#[test]
fn fixed_names_match_the_deployment() {
    assert_eq!(table_name(), "montreal_data");
    assert_eq!(key_column(), "id");
    assert_eq!(embedding_model_name(), "text-embedding-ada-002");
    assert_eq!(completion_model_name(), "gpt-4o");
    assert_eq!(TOP_K, 2);
}

#[test]
fn augmented_prompt_lists_passages_then_prompt() {
    let passages = vec![
        String::from("Montreal is on an island."),
        String::from("The metro opened in 1966."),
    ];
    let built = build_augmented_prompt(&passages, "When did the metro open?");
    assert_eq!(
        built,
        "Montreal is on an island.\nThe metro opened in 1966.\nWhen did the metro open?"
    );
    assert!(built.contains("Montreal is on an island."));
    assert!(built.contains("The metro opened in 1966."));
    assert!(built.contains("When did the metro open?"));
}

#[test]
fn augmented_prompt_without_passages_is_the_prompt() {
    let built = build_augmented_prompt(&Vec::new(), "Plain question");
    assert_eq!(built, "Plain question");
}

#[test]
fn augmented_prompt_with_empty_prompt_keeps_the_context() {
    let passages = vec![String::from("p")];
    assert_eq!(build_augmented_prompt(&passages, ""), "p\n");
}

#[test]
fn an_invocation_runs_the_whole_pipeline() {
    let (state, action) = handler_start(Event {
        prompt: String::from("What is Montreal known for?"),
    });
    assert_eq!(
        action,
        HandlerAction::OpenTable {
            table: String::from("montreal_data")
        }
    );

    let (state, action) = handler_step(state, HandlerEvent::TableOpened);
    assert_eq!(
        action,
        HandlerAction::BuildIndex {
            key_column: String::from("id"),
            distance: Distance::Cosine,
            embedding_model: String::from("text-embedding-ada-002"),
        }
    );

    let (state, action) = handler_step(state, HandlerEvent::IndexBuilt);
    assert_eq!(
        action,
        HandlerAction::Retrieve {
            top_k: 2,
            query: String::from("What is Montreal known for?"),
        }
    );

    let (state, action) = handler_step(
        state,
        HandlerEvent::Retrieved {
            passages: vec![String::from("Bagels."), String::from("Winters.")],
        },
    );
    assert_eq!(
        action,
        HandlerAction::Complete {
            model: String::from("gpt-4o"),
            input: String::from("Bagels.\nWinters.\nWhat is Montreal known for?"),
        }
    );

    let (state, action) = handler_step(
        state,
        HandlerEvent::Completed {
            text: String::from("Bagels, festivals, and winters."),
        },
    );
    assert_eq!(
        action,
        HandlerAction::Respond {
            output: AgentResponse {
                response: String::from("Bagels, festivals, and winters."),
            }
        }
    );
    assert_eq!(
        state,
        HandlerState::Done {
            output: AgentResponse {
                response: String::from("Bagels, festivals, and winters."),
            }
        }
    );
}

#[test]
fn the_response_envelope_is_verbatim() {
    let (state, _) = handler_start(Event {
        prompt: String::from("q"),
    });
    let (state, _) = handler_step(state, HandlerEvent::TableOpened);
    let (state, _) = handler_step(state, HandlerEvent::IndexBuilt);
    let (state, _) = handler_step(state, HandlerEvent::Retrieved { passages: vec![] });
    let odd = String::from("  exact\ttext, untrimmed and unescaped \"quote\" \u{e9} ");
    let (state, _) = handler_step(state, HandlerEvent::Completed { text: odd.clone() });
    match state {
        HandlerState::Done { output } => assert_eq!(output.response, odd),
        other => panic!("expected a completed invocation, got {:?}", other),
    }
}

#[test]
fn table_open_failure_fails_without_completion() {
    let (state, _) = handler_start(Event {
        prompt: String::from("q"),
    });
    let (state, action) = handler_step(
        state,
        HandlerEvent::TableOpenFailed {
            message: String::from("table montreal_data was not found"),
        },
    );
    let expected = HandlerError::TableOpen {
        message: String::from("table montreal_data was not found"),
    };
    assert_eq!(action, HandlerAction::Fail { error: expected.clone() });
    assert_eq!(state, HandlerState::Failed { error: expected.clone() });
    assert!(!matches!(action, HandlerAction::Complete { .. }));
    assert_eq!(
        expected.into_message(),
        "table montreal_data was not found"
    );
}

#[test]
fn index_build_failure_fails_the_invocation() {
    let (state, _) = handler_start(Event {
        prompt: String::from("q"),
    });
    let (state, _) = handler_step(state, HandlerEvent::TableOpened);
    let (state, action) = handler_step(
        state,
        HandlerEvent::IndexBuildFailed {
            message: String::from("bad column"),
        },
    );
    let expected = HandlerError::IndexBuild {
        message: String::from("bad column"),
    };
    assert_eq!(action, HandlerAction::Fail { error: expected.clone() });
    assert_eq!(state, HandlerState::Failed { error: expected });
}

#[test]
fn retrieval_failure_fails_the_invocation() {
    let (state, _) = handler_start(Event {
        prompt: String::from("q"),
    });
    let (state, _) = handler_step(state, HandlerEvent::TableOpened);
    let (state, _) = handler_step(state, HandlerEvent::IndexBuilt);
    let (state, action) = handler_step(
        state,
        HandlerEvent::RetrieveFailed {
            message: String::from("search failed"),
        },
    );
    let expected = HandlerError::Retrieval {
        message: String::from("search failed"),
    };
    assert_eq!(action, HandlerAction::Fail { error: expected.clone() });
    assert_eq!(state, HandlerState::Failed { error: expected });
}

#[test]
fn completion_failure_fails_the_invocation() {
    let (state, _) = handler_start(Event {
        prompt: String::from("q"),
    });
    let (state, _) = handler_step(state, HandlerEvent::TableOpened);
    let (state, _) = handler_step(state, HandlerEvent::IndexBuilt);
    let (state, _) = handler_step(state, HandlerEvent::Retrieved { passages: vec![] });
    let (state, action) = handler_step(
        state,
        HandlerEvent::CompletionFailed {
            message: String::from("quota exceeded"),
        },
    );
    let expected = HandlerError::Completion {
        message: String::from("quota exceeded"),
    };
    assert_eq!(action, HandlerAction::Fail { error: expected.clone() });
    assert_eq!(state, HandlerState::Failed { error: expected.clone() });
    assert_eq!(expected.into_message(), "quota exceeded");
}
