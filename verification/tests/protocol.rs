use stratus_core::ollama::OllamaClient;
use stratus_core::ollama::OllamaError;
use stratus_core::ollama::render_generate_request;
use stratus_core::text::has_phrase_boundary;
use stratus_core::text::i64_to_string;
use stratus_core::text::trim_str;
use stratus_core::text::u64_to_padded4;
use stratus_core::text::u64_to_string;

#[test]
fn request_body_renders_fixed_options() {
    let client = OllamaClient::default();
    assert_eq!(client.model, "llama3.2");
    assert_eq!(client.base_url, "http://localhost:11434");
    assert_eq!(
        client.request_body("hello"),
        "{\"model\":\"llama3.2\",\"prompt\":\"hello\",\"stream\":false,\"options\":{\"temperature\":0.7,\"num_predict\":256}}"
    );
}

#[test]
fn request_rendering_escapes_the_prompt() {
    let body = render_generate_request("m", "say \"hi\"\nnow", true, 7, 256);
    assert_eq!(
        body,
        "{\"model\":\"m\",\"prompt\":\"say \\\"hi\\\"\\nnow\",\"stream\":true,\"options\":{\"temperature\":0.7,\"num_predict\":256}}"
    );
    let body = render_generate_request("m", "a\\b\tc\r", false, 0, 5);
    assert_eq!(
        body,
        "{\"model\":\"m\",\"prompt\":\"a\\\\b\\tc\\r\",\"stream\":false,\"options\":{\"temperature\":0.0,\"num_predict\":5}}"
    );
    let body = render_generate_request("m", "\u{1}", false, 0, 5);
    assert_eq!(
        body,
        "{\"model\":\"m\",\"prompt\":\"\\u0001\",\"stream\":false,\"options\":{\"temperature\":0.0,\"num_predict\":5}}"
    );
}

#[test]
fn response_parsing_extracts_the_text() {
    let client = OllamaClient::new("m").with_url("http://10.0.0.1:11434");
    assert_eq!(client.base_url, "http://10.0.0.1:11434");
    let parsed = client.parse_response("{\"response\":\"Roger.\",\"done\":true}");
    assert_eq!(parsed.unwrap(), "Roger.");
}

#[test]
fn undecodable_response_is_an_invalid_response_error() {
    let client = OllamaClient::new("m");
    let parsed = client.parse_response("this is not json");
    assert!(matches!(parsed, Err(OllamaError::InvalidResponse(_))));
    let parsed = client.parse_response("{\"done\":true}");
    assert!(matches!(parsed, Err(OllamaError::InvalidResponse(_))));
}

#[test]
fn decimal_rendering_is_exact() {
    assert_eq!(u64_to_string(0), "0");
    assert_eq!(u64_to_string(7), "7");
    assert_eq!(u64_to_string(1234567890), "1234567890");
    assert_eq!(i64_to_string(-42), "-42");
    assert_eq!(i64_to_string(0), "0");
    assert_eq!(i64_to_string(i64::MIN), "-9223372036854775808");
    assert_eq!(u64_to_padded4(0), "0000");
    assert_eq!(u64_to_padded4(75), "0075");
    assert_eq!(u64_to_padded4(755), "0755");
    assert_eq!(u64_to_padded4(1200), "1200");
}

#[test]
fn trimming_strips_edges_only() {
    assert_eq!(trim_str("  hold short  "), "hold short");
    assert_eq!(trim_str("\n\tcleared\r\n"), "cleared");
    assert_eq!(trim_str("a b"), "a b");
    assert_eq!(trim_str("   "), "");
    assert_eq!(trim_str(""), "");
    assert!(has_phrase_boundary(trim_str("roger, \n").as_str()));
}
