//! The completion gateway's decisions. Each attempt sends the request body
//! to the provider; what came back is recorded here, which says whether to
//! send again or what the caller gets. Transport failures never reach the
//! caller: after the last attempt they give an apology that quotes the prompt.
use vstd::prelude::*;
use vstd::string::*;

use crate::json::{json_quoted, quote_json};
use crate::text::{has_substring, occurs_at, radix_digits, radix_string};

verus! {

/// How many times one prompt is sent at most.
pub const MAX_ATTEMPTS: u32 = 3;

/// The chat-completion endpoint.
pub const COMPLETION_URL: &'static str = "https://api.groq.com/openai/v1/chat/completions";

/// The largest response the provider may send, in bytes.
pub const MAX_RESPONSE_BYTES: u64 = 2000;

/// The JSON body of a completion request around a prompt already written
/// as a JSON string: the model, the prompt as the one user message,
/// temperature 0.7, at most 200 tokens, and no streaming.
pub open spec fn framed_request(quoted_prompt: Seq<char>) -> Seq<char> {
    "{\"model\":\"llama-3.1-8b-instant\",\"messages\":[{\"role\":\"user\",\"content\":"@
        + quoted_prompt
        + "}],\"temperature\":0.7,\"max_tokens\":200,\"stream\":false}"@
}

/// The JSON body of the completion request for a prompt.
pub open spec fn request_body_text(prompt: Seq<char>) -> Seq<char> {
    framed_request(json_quoted(prompt))
}

/// The JSON body of a completion request around a prompt already written
/// as a JSON string.
pub fn frame_request(quoted_prompt: &str) -> (r: String)
    ensures
        r@ == framed_request(quoted_prompt@),
{
    String::from_str(
        "{\"model\":\"llama-3.1-8b-instant\",\"messages\":[{\"role\":\"user\",\"content\":",
    ).concat(quoted_prompt).concat(
        "}],\"temperature\":0.7,\"max_tokens\":200,\"stream\":false}",
    )
}

/// The JSON body of the completion request for a prompt.
pub fn request_body(prompt: &str) -> (r: String)
    ensures
        r@ == request_body_text(prompt@),
{
    let quoted = quote_json(prompt);
    frame_request(quoted.as_str())
}

/// What one attempt came back with.
pub enum AttemptOutcome {
    /// Status 200, and the reply held a completion text.
    Completion(String),
    /// Status 200, but the body was not UTF-8; the decoder's message.
    BodyNotText(String),
    /// Status 200, but the body was not JSON; the decoder's message.
    BodyNotJson(String),
    /// Status 200, but the reply held no completion text.
    NoContent,
    /// Another status.
    Status(u32),
    /// The request did not complete; the transport's message.
    Transport(String),
}

/// What to do after an attempt.
pub enum GatewayStep {
    /// Send the request again.
    Retry,
    /// Stop, and hand this to the caller.
    Finish(Result<String, String>),
}

/// The reply given when every attempt failed in transport.
pub open spec fn fallback_reply_text(prompt: Seq<char>) -> Seq<char> {
    "I apologize, but I'm experiencing technical difficulties with my AI service right now. However, I can still help you with your question: \""@
        + prompt
        + "\" Please try asking me again in a moment, or feel free to rephrase your question."@
}

/// The decision after attempt number `attempt` came back with `outcome`:
/// `None` to send again, else what the caller gets.
pub open spec fn decide(attempt: nat, prompt: Seq<char>, outcome: AttemptOutcome) -> Option<
    Result<Seq<char>, Seq<char>>,
> {
    match outcome {
        AttemptOutcome::Completion(c) => Some(Ok(c@)),
        AttemptOutcome::BodyNotText(m) => Some(Err("Failed to parse response body: "@ + m@)),
        AttemptOutcome::BodyNotJson(m) => Some(Err("Failed to parse Groq response: "@ + m@)),
        AttemptOutcome::NoContent => Some(Err("Groq API returned no valid content"@)),
        AttemptOutcome::Status(s) => if attempt < MAX_ATTEMPTS {
            None
        } else {
            Some(Err("Groq API error: "@ + radix_digits(s as nat, 10)))
        },
        AttemptOutcome::Transport(_) => if attempt < MAX_ATTEMPTS {
            None
        } else {
            Some(Ok(fallback_reply_text(prompt)))
        },
    }
}

/// The decision that a step stands for.
pub open spec fn step_view(s: GatewayStep) -> Option<Result<Seq<char>, Seq<char>>> {
    match s {
        GatewayStep::Retry => None,
        GatewayStep::Finish(Ok(t)) => Some(Ok(t@)),
        GatewayStep::Finish(Err(e)) => Some(Err(e@)),
    }
}

/// Attempts `attempt` and on for a prompt, when attempt `k` (from 1) comes
/// back with `outcomes[k - 1]`: how many attempts are made, and what the
/// caller gets.
pub open spec fn run_from(prompt: Seq<char>, outcomes: Seq<AttemptOutcome>, attempt: nat) -> (
    nat,
    Result<Seq<char>, Seq<char>>,
)
    decreases MAX_ATTEMPTS - attempt,
{
    if attempt < 1 || attempt > MAX_ATTEMPTS || attempt > outcomes.len() {
        (attempt, Err(Seq::empty()))
    } else {
        match decide(attempt, prompt, outcomes[attempt - 1]) {
            Some(r) => (attempt, r),
            None => run_from(prompt, outcomes, attempt + 1),
        }
    }
}

/// A whole exchange for a prompt, when attempt `k` (from 1) comes back with
/// `outcomes[k - 1]`: how many attempts are made, and what the caller gets.
pub open spec fn gateway_run(prompt: Seq<char>, outcomes: Seq<AttemptOutcome>) -> (
    nat,
    Result<Seq<char>, Seq<char>>,
) {
    run_from(prompt, outcomes, 1)
}

/// The state of one exchange: the prompt, and the number of the attempt
/// under way.
pub struct CompletionAttempts {
    pub prompt: String,
    pub attempt: u32,
}

impl CompletionAttempts {
    /// The attempt number is one of the attempts allowed.
    pub open spec fn wf(&self) -> bool {
        1 <= self.attempt <= MAX_ATTEMPTS
    }

    /// A new exchange, at its first attempt.
    pub fn new(prompt: String) -> (r: Self)
        ensures
            r.wf(),
            r.attempt == 1,
            r.prompt == prompt,
    {
        CompletionAttempts { prompt, attempt: 1 }
    }

    /// Records what the current attempt came back with, and says what to do.
    /// On `Retry` the next attempt is under way.
    pub fn record(&mut self, outcome: AttemptOutcome) -> (r: GatewayStep)
        requires
            old(self).wf(),
        ensures
            final(self).wf(),
            final(self).prompt == old(self).prompt,
            step_view(r) == decide(old(self).attempt as nat, old(self).prompt@, outcome),
            step_view(r) is None ==> final(self).attempt == old(self).attempt + 1,
            step_view(r) is Some ==> final(self).attempt == old(self).attempt,
    {
        let last = self.attempt >= MAX_ATTEMPTS;
        match outcome {
            AttemptOutcome::Completion(c) => GatewayStep::Finish(Ok(c)),
            AttemptOutcome::BodyNotText(m) => GatewayStep::Finish(
                Err(String::from_str("Failed to parse response body: ").concat(m.as_str())),
            ),
            AttemptOutcome::BodyNotJson(m) => GatewayStep::Finish(
                Err(String::from_str("Failed to parse Groq response: ").concat(m.as_str())),
            ),
            AttemptOutcome::NoContent => GatewayStep::Finish(
                Err(String::from_str("Groq API returned no valid content")),
            ),
            AttemptOutcome::Status(s) => {
                if last {
                    let code = radix_string(s as u64, 10);
                    GatewayStep::Finish(
                        Err(String::from_str("Groq API error: ").concat(code.as_str())),
                    )
                } else {
                    self.attempt = self.attempt + 1;
                    GatewayStep::Retry
                }
            },
            AttemptOutcome::Transport(_) => {
                if last {
                    GatewayStep::Finish(Ok(fallback_reply(self.prompt.as_str())))
                } else {
                    self.attempt = self.attempt + 1;
                    GatewayStep::Retry
                }
            },
        }
    }
}

/// The apology given when every attempt failed in transport; it quotes the
/// prompt.
pub fn fallback_reply(prompt: &str) -> (r: String)
    ensures
        r@ == fallback_reply_text(prompt@),
{
    String::from_str(
        "I apologize, but I'm experiencing technical difficulties with my AI service right now. However, I can still help you with your question: \"",
    ).concat(prompt).concat(
        "\" Please try asking me again in a moment, or feel free to rephrase your question.",
    )
}

/// An outcome after which a further attempt is made, unless it came at the
/// last attempt.
pub open spec fn is_failed_attempt(o: AttemptOutcome) -> bool {
    o is Transport || o is Status
}

/// When every attempt fails in transport, the caller still gets text and not
/// an error: the apology, which holds the prompt as it was given, after all
/// the attempts allowed.
pub proof fn lemma_transport_failures_give_fallback(prompt: Seq<char>, outcomes: Seq<AttemptOutcome>)
    requires
        outcomes.len() >= MAX_ATTEMPTS,
        forall|i: int| 0 <= i < MAX_ATTEMPTS ==> (#[trigger] outcomes[i]) is Transport,
    ensures
        gateway_run(prompt, outcomes) == (MAX_ATTEMPTS as nat, Ok::<Seq<char>, Seq<char>>(
            fallback_reply_text(prompt),
        )),
        has_substring(fallback_reply_text(prompt), prompt),
{
    assert(outcomes[0] is Transport);
    assert(outcomes[1] is Transport);
    assert(outcomes[2] is Transport);
    assert(run_from(prompt, outcomes, 3) == (3nat, Ok::<Seq<char>, Seq<char>>(
        fallback_reply_text(prompt),
    )));
    assert(run_from(prompt, outcomes, 2) == run_from(prompt, outcomes, 3));
    assert(run_from(prompt, outcomes, 1) == run_from(prompt, outcomes, 2));
    let head =
        "I apologize, but I'm experiencing technical difficulties with my AI service right now. However, I can still help you with your question: \""@;
    let text = fallback_reply_text(prompt);
    assert(text.subrange(head.len() as int, head.len() + prompt.len() as int) =~= prompt);
    assert(occurs_at(text, prompt, head.len() as int));
}

/// When the first two attempts fail and the third brings a completion, the
/// gateway makes exactly three attempts and hands over that completion.
pub proof fn lemma_two_failures_then_completion(
    prompt: Seq<char>,
    outcomes: Seq<AttemptOutcome>,
    payload: String,
)
    requires
        outcomes.len() >= 3,
        is_failed_attempt(outcomes[0]),
        is_failed_attempt(outcomes[1]),
        outcomes[2] == AttemptOutcome::Completion(payload),
    ensures
        gateway_run(prompt, outcomes) == (3nat, Ok::<Seq<char>, Seq<char>>(payload@)),
{
    assert(run_from(prompt, outcomes, 3) == (3nat, Ok::<Seq<char>, Seq<char>>(payload@)));
    assert(run_from(prompt, outcomes, 2) == run_from(prompt, outcomes, 3));
    assert(run_from(prompt, outcomes, 1) == run_from(prompt, outcomes, 2));
}

} // verus!
