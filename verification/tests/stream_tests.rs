use nexus_engine::events::UiEvent;
use nexus_engine::registry::TaskRegistry;
use nexus_engine::stream::StreamAccumulators;
use nexus_engine::stream::StreamFrame;
use nexus_engine::stream::StreamInput;
use nexus_engine::stream::assemble_final_text;
use nexus_engine::stream::run_stream_task;
use nexus_engine::stream::stream_step;

fn msg(data: &str) -> StreamInput {
    StreamInput::Frame(StreamFrame::Message {
        event_name: String::from("message"),
        data: String::from(data),
    })
}

fn delta_content(text: &str) -> String {
    format!("{{\"choices\":[{{\"delta\":{{\"content\":\"{}\"}}}}]}}", text)
}

fn delta_reasoning(text: &str) -> String {
    format!("{{\"choices\":[{{\"delta\":{{\"reasoning_content\":\"{}\"}}}}]}}", text)
}

#[test]
fn assemble_combines_thinking_and_content() {
    assert_eq!(assemble_final_text("AB", "CD"), "<think>AB</think>CD");
}

#[test]
fn assemble_without_thinking_is_content_alone() {
    assert_eq!(assemble_final_text("", "hello world"), "hello world");
}

#[test]
fn accumulators_combine_across_frames() {
    let mut reg = TaskRegistry::new();
    let items = vec![
        StreamInput::Frame(StreamFrame::Opened),
        msg(&delta_reasoning("A")),
        msg(&delta_reasoning("B")),
        msg(&delta_content("C")),
        msg(&delta_content("D")),
        msg("[DONE]"),
    ];
    let events = run_stream_task(&mut reg, "m1", &items, None);
    assert_eq!(events.len(), 5);
    match events.last().unwrap() {
        UiEvent::StreamEnd { message_id, final_text, sources, suggestions } => {
            assert_eq!(message_id, "m1");
            assert_eq!(final_text, "<think>AB</think>CD");
            assert!(sources.is_none());
            assert!(suggestions.is_empty());
        }
        other => panic!("expected StreamEnd, got {:?}", other),
    }
}

#[test]
fn content_only_stream_yields_plain_text() {
    let mut reg = TaskRegistry::new();
    let items = vec![msg(&delta_content("hello")), msg(&delta_content(" world")), msg("[DONE]")];
    let events = run_stream_task(&mut reg, "m2", &items, None);
    match events.last().unwrap() {
        UiEvent::StreamEnd { final_text, .. } => assert_eq!(final_text, "hello world"),
        other => panic!("expected StreamEnd, got {:?}", other),
    }
}

#[test]
fn every_forwarded_chunk_carries_the_raw_payload() {
    let mut reg = TaskRegistry::new();
    let payload = delta_content("x");
    let items = vec![msg(&payload), msg("[DONE]")];
    let events = run_stream_task(&mut reg, "m3", &items, None);
    assert_eq!(events.len(), 2);
    match &events[0] {
        UiEvent::StreamChunk { message_id, chunk } => {
            assert_eq!(message_id, "m3");
            assert_eq!(chunk, &payload);
        }
        other => panic!("expected StreamChunk, got {:?}", other),
    }
}

#[test]
fn sources_events_replace_the_buffer_and_are_not_forwarded() {
    let mut reg = TaskRegistry::new();
    let items = vec![
        StreamInput::Frame(StreamFrame::Message {
            event_name: String::from("sources"),
            data: String::from("[1]"),
        }),
        StreamInput::Frame(StreamFrame::Message {
            event_name: String::from("sources"),
            data: String::from("[2]"),
        }),
        msg("[DONE]"),
    ];
    let events = run_stream_task(&mut reg, "m4", &items, None);
    assert_eq!(events.len(), 1);
    match events.last().unwrap() {
        UiEvent::StreamEnd { sources, .. } => {
            assert_eq!(sources.as_deref(), Some("[2]"));
        }
        other => panic!("expected StreamEnd, got {:?}", other),
    }
}

#[test]
fn cancellation_stops_forwarding_but_stream_end_still_fires() {
    let mut reg = TaskRegistry::new();
    let items = vec![
        msg(&delta_content("kept")),
        StreamInput::CancelRequest,
        msg(&delta_content("dropped")),
        msg(&delta_content("dropped too")),
    ];
    let events = run_stream_task(&mut reg, "m5", &items, None);
    assert_eq!(events.len(), 2);
    assert!(matches!(&events[0], UiEvent::StreamChunk { .. }));
    match events.last().unwrap() {
        UiEvent::StreamEnd { final_text, .. } => assert_eq!(final_text, "kept"),
        other => panic!("expected StreamEnd, got {:?}", other),
    }
}

#[test]
fn exactly_one_terminal_event_and_it_is_last() {
    let mut reg = TaskRegistry::new();
    let items = vec![
        msg(&delta_content("a")),
        msg(&delta_content("b")),
        StreamInput::Frame(StreamFrame::Failed { message: String::from("boom") }),
    ];
    let events = run_stream_task(&mut reg, "m6", &items, None);
    let terminals = events
        .iter()
        .filter(|e| matches!(e, UiEvent::StreamEnd { .. }))
        .count();
    assert_eq!(terminals, 1);
    assert!(matches!(events.last().unwrap(), UiEvent::StreamEnd { .. }));
    match events.last().unwrap() {
        UiEvent::StreamEnd { final_text, .. } => assert_eq!(final_text, "ab"),
        other => panic!("expected StreamEnd, got {:?}", other),
    }
}

#[test]
fn registry_is_clean_after_the_task_ends() {
    let mut reg = TaskRegistry::new();
    let items = vec![msg(&delta_content("x")), msg("[DONE]")];
    let _events = run_stream_task(&mut reg, "m7", &items, None);
    assert!(!reg.contains("m7"));
    assert!(!reg.cancel("m7"));
}

#[test]
fn suggestions_are_carried_into_the_terminal_event() {
    let mut reg = TaskRegistry::new();
    let items = vec![msg("[DONE]")];
    let suggestions = vec![String::from("One"), String::from("Two")];
    let events = run_stream_task(&mut reg, "m8", &items, Some(suggestions.clone()));
    match events.last().unwrap() {
        UiEvent::StreamEnd { suggestions: sg, .. } => assert_eq!(sg, &suggestions),
        other => panic!("expected StreamEnd, got {:?}", other),
    }
}

#[test]
fn step_parses_delta_fragments_into_the_accumulators() {
    let mut acc = StreamAccumulators::new();
    let frame = StreamFrame::Message {
        event_name: String::from("message"),
        data: String::from(
            "{\"choices\":[{\"delta\":{\"content\":\"body\",\"reasoning_content\":\"why\"}}]}",
        ),
    };
    let (event, stop) = stream_step(&mut acc, "m9", false, &frame);
    assert!(!stop);
    assert!(matches!(event, Some(UiEvent::StreamChunk { .. })));
    assert_eq!(acc.thinking, "why");
    assert_eq!(acc.content, "body");
}

#[test]
fn step_keeps_accumulators_on_unparsable_payload() {
    let mut acc = StreamAccumulators::new();
    let frame = StreamFrame::Message {
        event_name: String::from("message"),
        data: String::from("not json"),
    };
    let (event, stop) = stream_step(&mut acc, "m10", false, &frame);
    assert!(!stop);
    assert!(matches!(event, Some(UiEvent::StreamChunk { .. })));
    assert_eq!(acc.thinking, "");
    assert_eq!(acc.content, "");
}

#[test]
fn step_observes_cancellation_before_emitting() {
    let mut acc = StreamAccumulators::new();
    let frame = StreamFrame::Message {
        event_name: String::from("message"),
        data: String::from("{\"choices\":[{\"delta\":{\"content\":\"x\"}}]}"),
    };
    let (event, stop) = stream_step(&mut acc, "m11", true, &frame);
    assert!(stop);
    assert!(event.is_none());
    assert_eq!(acc.content, "");
}
