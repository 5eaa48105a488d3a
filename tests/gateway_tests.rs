use cogni_icp_backend::gateway::{
    fallback_reply, frame_request, request_body, AttemptOutcome, CompletionAttempts, GatewayStep, MAX_ATTEMPTS,
};

fn run(prompt: &str, outcomes: Vec<AttemptOutcome>) -> (u32, Result<String, String>) {
    let mut state = CompletionAttempts::new(prompt.to_string());
    let mut sent = 0u32;
    for outcome in outcomes {
        sent += 1;
        assert_eq!(state.attempt, sent);
        match state.record(outcome) {
            GatewayStep::Retry => {}
            GatewayStep::Finish(r) => return (sent, r),
        }
    }
    panic!("ran out of outcomes after {} attempts", sent);
}

#[test]
fn two_failures_then_success_makes_three_attempts() {
    let (attempts, result) = run(
        "hello",
        vec![
            AttemptOutcome::Transport("SysTransient".to_string()),
            AttemptOutcome::Transport("timeout".to_string()),
            AttemptOutcome::Completion("Hi there".to_string()),
        ],
    );
    assert_eq!(attempts, 3);
    assert_eq!(result, Ok("Hi there".to_string()));
}

#[test]
fn all_transport_failures_give_fallback_text() {
    let prompt = "What is a \"monad\"?";
    let (attempts, result) = run(
        prompt,
        vec![
            AttemptOutcome::Transport("a".to_string()),
            AttemptOutcome::Transport("b".to_string()),
            AttemptOutcome::Transport("c".to_string()),
        ],
    );
    assert_eq!(attempts, MAX_ATTEMPTS);
    let text = result.expect("fallback is not an error");
    assert!(text.contains(prompt));
    assert_eq!(text, fallback_reply(prompt));
    assert!(text.starts_with("I apologize, but I'm experiencing technical difficulties"));
}

#[test]
fn status_errors_retry_then_report_code() {
    let (attempts, result) = run(
        "p",
        vec![
            AttemptOutcome::Status(500),
            AttemptOutcome::Status(429),
            AttemptOutcome::Status(503),
        ],
    );
    assert_eq!(attempts, 3);
    assert_eq!(result, Err("Groq API error: 503".to_string()));
}

#[test]
fn first_success_stops_at_once() {
    let (attempts, result) = run("p", vec![AttemptOutcome::Completion("x".to_string())]);
    assert_eq!(attempts, 1);
    assert_eq!(result, Ok("x".to_string()));
}

#[test]
fn unreadable_replies_are_errors_without_retry() {
    let (a, r) = run("p", vec![AttemptOutcome::NoContent]);
    assert_eq!((a, r), (1, Err("Groq API returned no valid content".to_string())));
    let (a, r) = run("p", vec![AttemptOutcome::BodyNotJson("eof".to_string())]);
    assert_eq!((a, r), (1, Err("Failed to parse Groq response: eof".to_string())));
    let (a, r) = run("p", vec![AttemptOutcome::BodyNotText("bad utf-8".to_string())]);
    assert_eq!((a, r), (1, Err("Failed to parse response body: bad utf-8".to_string())));
}

#[test]
fn request_body_quotes_prompt_as_json() {
    let body = request_body("say \"hi\"\n");
    assert_eq!(
        body,
        "{\"model\":\"llama-3.1-8b-instant\",\"messages\":[{\"role\":\"user\",\"content\":\"say \\\"hi\\\"\\n\"}],\"temperature\":0.7,\"max_tokens\":200,\"stream\":false}"
    );
}

#[test]
fn frame_request_wraps_quoted_prompt() {
    assert_eq!(
        frame_request("\"x\""),
        "{\"model\":\"llama-3.1-8b-instant\",\"messages\":[{\"role\":\"user\",\"content\":\"x\"}],\"temperature\":0.7,\"max_tokens\":200,\"stream\":false}"
    );
}
