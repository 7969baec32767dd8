use nexus_engine::chat::default_conversation_title;
use nexus_engine::chat::extract_text_from_content;
use nexus_engine::chat::inline_image_part;
use nexus_engine::chat::map_role;
use nexus_engine::chat::needs_title_generation;
use nexus_engine::chat::needs_inline_encoding;
use nexus_engine::chat::parse_model_identifier;
use nexus_engine::chat::sse_data_payload;
use nexus_engine::chat::suggestion_prompt;
use nexus_engine::chat::suggestions_from_response_text;
use nexus_engine::chat::title_from_response;
use nexus_engine::chat::title_prompt;
use nexus_engine::error::AppError;
use nexus_engine::models::ChatMessageContentPart;
use nexus_engine::models::ImageUrl;
use nexus_engine::proxy_types::ProxyResponse;
use nexus_engine::proxy_types::ResponseChoice;
use nexus_engine::proxy_types::ResponseMessage;

#[test]
fn message_text_joins_text_parts_and_skips_images() {
    let content = vec![
        ChatMessageContentPart::Text { text: String::from("first") },
        ChatMessageContentPart::ImageUrl {
            image_url: ImageUrl { url: String::from("/tmp/pic.webp") },
        },
        ChatMessageContentPart::Text { text: String::from("second") },
    ];
    assert_eq!(extract_text_from_content(&content), "first\nsecond");
}

#[test]
fn local_role_maps_to_assistant() {
    assert_eq!(map_role("ai"), "assistant");
    assert_eq!(map_role("user"), "user");
    assert_eq!(map_role("system"), "system");
}

#[test]
fn well_formed_model_identifier_splits_in_two() {
    let (provider, model) = parse_model_identifier("openai::gpt-4-turbo").expect("parts");
    assert_eq!(provider, "openai");
    assert_eq!(model, "gpt-4-turbo");
}

#[test]
fn model_identifier_without_separator_is_rejected() {
    let err = parse_model_identifier("gpt-4-turbo").expect_err("error");
    match err {
        AppError::Config(m) => assert_eq!(m, "Invalid model identifier: gpt-4-turbo"),
        other => panic!("expected Config, got {:?}", other),
    }
}

#[test]
fn model_identifier_with_extra_separator_is_rejected() {
    assert!(parse_model_identifier("a::b::c").is_err());
    let err = parse_model_identifier("a::b::c").expect_err("error");
    assert_eq!(err.message(), "Configuration error: Invalid model identifier: a::b::c");
}

#[test]
fn suggestions_are_decoded_from_the_bracketed_slice() {
    let text = "Sure! Here you go: [\"Read more\", \"Summarize\"] Anything else?";
    let got = suggestions_from_response_text(text).expect("list");
    assert_eq!(got, vec![String::from("Read more"), String::from("Summarize")]);
}

#[test]
fn response_without_brackets_yields_no_suggestions() {
    let got = suggestions_from_response_text("no list here").expect("list");
    assert!(got.is_empty());
}

#[test]
fn bracketed_slice_that_is_not_a_string_array_is_an_error() {
    let err = suggestions_from_response_text("prefix [1, 2, 3] suffix").expect_err("error");
    match err {
        AppError::Internal(m) => assert_eq!(m, "Failed to parse suggestions from proxy"),
        other => panic!("expected Internal, got {:?}", other),
    }
}

#[test]
fn reversed_brackets_yield_no_suggestions() {
    let got = suggestions_from_response_text("] backwards [").expect("list");
    assert!(got.is_empty());
}

fn response_with(content: &str) -> ProxyResponse {
    ProxyResponse {
        choices: vec![ResponseChoice {
            message: ResponseMessage { content: String::from(content) },
        }],
    }
}

#[test]
fn title_is_trimmed_of_whitespace_and_quotes() {
    let r = response_with("  \"Planning a Trip\"\n");
    assert_eq!(title_from_response(&r), "Planning a Trip");
}

#[test]
fn empty_response_falls_back_to_untitled() {
    let r = ProxyResponse { choices: Vec::new() };
    assert_eq!(title_from_response(&r), "Untitled Chat");
}

#[test]
fn remote_and_data_urls_are_not_reencoded() {
    assert!(!needs_inline_encoding("https://example.com/a.png"));
    assert!(!needs_inline_encoding("http://example.com/a.png"));
    assert!(!needs_inline_encoding("data:image/webp;base64,AAAA"));
    assert!(needs_inline_encoding("/home/me/pic.webp"));
}

#[test]
fn local_images_become_base64_data_urls() {
    let bytes: Vec<u8> = b"hello".to_vec();
    match inline_image_part(&bytes) {
        ChatMessageContentPart::ImageUrl { image_url } => {
            assert_eq!(image_url.url, "data:image/webp;base64,aGVsbG8=");
        }
        other => panic!("expected ImageUrl, got {:?}", other),
    }
}

#[test]
fn title_prompt_embeds_query_and_truncated_reply() {
    let long = "x".repeat(300);
    let p = title_prompt("what is rust", &long);
    assert!(p.starts_with("Based on the following user query and AI response"));
    assert!(p.contains("USER: \"what is rust\""));
    assert!(p.contains(&"x".repeat(200)));
    assert!(!p.contains(&"x".repeat(201)));
    assert!(p.ends_with("\"\n\nTITLE:"));
}

#[test]
fn suggestion_prompt_embeds_the_context() {
    let p = suggestion_prompt("the reply");
    assert!(p.starts_with("Based on the following text"));
    assert!(p.ends_with("Text: \"the reply\""));
}

#[test]
fn sse_data_lines_are_stripped_and_trimmed() {
    assert_eq!(sse_data_payload("data: {\"status\": \"ok\"}").as_deref(), Some("{\"status\": \"ok\"}"));
    assert_eq!(sse_data_payload("data:x").as_deref(), Some("x"));
    assert!(sse_data_payload("event: progress").is_none());
    assert!(sse_data_payload("").is_none());
}

#[test]
fn empty_content_has_empty_text() {
    assert_eq!(extract_text_from_content(&Vec::new()), "");
}

#[test]
fn placeholder_titles_trigger_generation() {
    assert!(needs_title_generation("New Chat..."));
    assert!(!needs_title_generation("Planning a Trip"));
    assert_eq!(default_conversation_title("chat"), "New Chat...");
    assert_eq!(default_conversation_title("creation"), "New Creation");
}
