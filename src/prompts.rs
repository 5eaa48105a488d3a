//! The prompts sent to the completion gateway, each filled in from the
//! tutor's profile and the student's request.
use vstd::prelude::*;
use vstd::string::*;

use crate::models::{ChatMessage, ComprehensionAnalysis};
use crate::text::{join_with, joined, radix_digits, radix_string, views};

verus! {

/// The request for a course outline on a topic, at a learning style and difficulty.
pub open spec fn course_outline_prompt_text(topic: Seq<char>, learning_style: Seq<char>, difficulty: Seq<char>) -> Seq<char> {
    "Create a course outline on '"@
        + topic
        + "' for "@
        + learning_style
        + " learning at "@
        + difficulty
        + " level.
        
        Return JSON:
        {\"title\":\"Course Title\",\"description\":\"Brief description\",\"learning_objectives\":[\"obj1\",\"obj2\"],\"estimated_duration\":\"X weeks\",\"difficulty_level\":\""@
        + difficulty
        + "\",\"modules\":[{\"title\":\"Module\",\"description\":\"Brief\",\"order\":1,\"content\":\"Content\",\"status\":\"pending\"}]}
        
        Keep descriptions under 100 chars. Max 3 modules."@
}

/// The request for a course outline on a topic, at a learning style and difficulty.
pub fn course_outline_prompt(topic: &str, learning_style: &str, difficulty: &str) -> (r: String)
    ensures
        r@ == course_outline_prompt_text(topic@, learning_style@, difficulty@),
{
    String::from_str("Create a course outline on '")
        .concat(topic)
        .concat("' for ")
        .concat(learning_style)
        .concat(" learning at ")
        .concat(difficulty)
        .concat(" level.
        
        Return JSON:
        {\"title\":\"Course Title\",\"description\":\"Brief description\",\"learning_objectives\":[\"obj1\",\"obj2\"],\"estimated_duration\":\"X weeks\",\"difficulty_level\":\"")
        .concat(difficulty)
        .concat("\",\"modules\":[{\"title\":\"Module\",\"description\":\"Brief\",\"order\":1,\"content\":\"Content\",\"status\":\"pending\"}]}
        
        Keep descriptions under 100 chars. Max 3 modules.")
}

/// The request for three topic suggestions for a tutor.
pub open spec fn topic_suggestions_prompt_text(expertise: Seq<Seq<char>>, teaching_style: Seq<char>) -> Seq<char> {
    "Generate 3 topic suggestions for a tutor with expertise in: "@
        + joined(expertise, ", "@)
        + "
        Teaching style: "@
        + teaching_style
        + "
        
        Return JSON array:
        [{\"topic\":\"Name\",\"description\":\"Brief description\",\"difficulty\":\"beginner/intermediate/advanced\",\"expertise_area\":\"area\"}]
        
        Keep descriptions under 50 chars."@
}

/// The request for three topic suggestions for a tutor.
pub fn topic_suggestions_prompt(expertise: &Vec<String>, teaching_style: &str) -> (r: String)
    ensures
        r@ == topic_suggestions_prompt_text(views(expertise@), teaching_style@),
{
    let tags = join_with(expertise, ", ");
    String::from_str("Generate 3 topic suggestions for a tutor with expertise in: ")
        .concat(tags.as_str())
        .concat("
        Teaching style: ")
        .concat(teaching_style)
        .concat("
        
        Return JSON array:
        [{\"topic\":\"Name\",\"description\":\"Brief description\",\"difficulty\":\"beginner/intermediate/advanced\",\"expertise_area\":\"area\"}]
        
        Keep descriptions under 50 chars.")
}

/// The request for a verdict on whether a topic suits a tutor.
pub open spec fn topic_validation_prompt_text(topic: Seq<char>, expertise: Seq<Seq<char>>) -> Seq<char> {
    "Evaluate if the topic '"@
        + topic
        + "' is relevant to a tutor with expertise in: "@
        + joined(expertise, ", "@)
        + "
        
        Return a JSON object:
        {
          \"is_relevant\": true/false,
          \"confidence\": 0.0-1.0,
          \"reasoning\": \"Brief explanation\",
          \"suggested_alternatives\": [\"alt1\", \"alt2\", \"alt3\"] (only if not relevant)
        }
        
        Return ONLY the JSON object."@
}

/// The request for a verdict on whether a topic suits a tutor.
pub fn topic_validation_prompt(topic: &str, expertise: &Vec<String>) -> (r: String)
    ensures
        r@ == topic_validation_prompt_text(topic@, views(expertise@)),
{
    let tags = join_with(expertise, ", ");
    String::from_str("Evaluate if the topic '")
        .concat(topic)
        .concat("' is relevant to a tutor with expertise in: ")
        .concat(tags.as_str())
        .concat("
        
        Return a JSON object:
        {
          \"is_relevant\": true/false,
          \"confidence\": 0.0-1.0,
          \"reasoning\": \"Brief explanation\",
          \"suggested_alternatives\": [\"alt1\", \"alt2\", \"alt3\"] (only if not relevant)
        }
        
        Return ONLY the JSON object.")
}

/// The request for a tutor's short reply to a student, with recent context.
pub open spec fn chat_reply_prompt_text(tutor_name: Seq<char>, teaching_style: Seq<char>, learning_style: Seq<char>, context: Seq<char>, user_message: Seq<char>) -> Seq<char> {
    "You are "@
        + tutor_name
        + " an AI tutor. Teaching style: "@
        + teaching_style
        + ". Student: "@
        + learning_style
        + ".
        
        Context: "@
        + context
        + "
        Student: "@
        + user_message
        + "
        
        Respond briefly and helpfully. Use emojis! Keep under 200 chars."@
}

/// The request for a tutor's short reply to a student, with recent context.
pub fn chat_reply_prompt(tutor_name: &str, teaching_style: &str, learning_style: &str, context: &str, user_message: &str) -> (r: String)
    ensures
        r@ == chat_reply_prompt_text(tutor_name@, teaching_style@, learning_style@, context@, user_message@),
{
    String::from_str("You are ")
        .concat(tutor_name)
        .concat(" an AI tutor. Teaching style: ")
        .concat(teaching_style)
        .concat(". Student: ")
        .concat(learning_style)
        .concat(".
        
        Context: ")
        .concat(context)
        .concat("
        Student: ")
        .concat(user_message)
        .concat("
        
        Respond briefly and helpfully. Use emojis! Keep under 200 chars.")
}

/// The request for a tutor's welcome message for a new session on a topic.
pub open spec fn welcome_prompt_text(tutor_name: Seq<char>, expertise: Seq<Seq<char>>, teaching_style: Seq<char>, personality: Seq<char>, topic: Seq<char>) -> Seq<char> {
    "You are "@
        + tutor_name
        + " an AI tutor with expertise in "@
        + joined(expertise, ", "@)
        + ". Your teaching style is "@
        + teaching_style
        + " and your personality is "@
        + personality
        + ".
        
        Write a warm, personalized welcome message to a student who wants to learn about '"@
        + topic
        + "'.
        
        Your message should:
        1. Introduce yourself briefly as the tutor
        2. Show enthusiasm for teaching the topic
        3. Mention that you've created a customized course outline
        4. Invite the student to begin their learning journey
        5. Ask what they would like to start with
        
        Make your message:
        - Friendly and conversational, not formal
        - Reflect your specific personality ("@
        + personality
        + ") and teaching style ("@
        + teaching_style
        + ")
        - Between 3-5 sentences (concise but welcoming)
        - Encouraging and positive
        - Use emojis to make it engaging! 🎉
        
        DO NOT include any markdown, quotes, or extra formatting."@
}

/// The request for a tutor's welcome message for a new session on a topic.
pub fn welcome_prompt(tutor_name: &str, expertise: &Vec<String>, teaching_style: &str, personality: &str, topic: &str) -> (r: String)
    ensures
        r@ == welcome_prompt_text(tutor_name@, views(expertise@), teaching_style@, personality@, topic@),
{
    let tags = join_with(expertise, ", ");
    String::from_str("You are ")
        .concat(tutor_name)
        .concat(" an AI tutor with expertise in ")
        .concat(tags.as_str())
        .concat(". Your teaching style is ")
        .concat(teaching_style)
        .concat(" and your personality is ")
        .concat(personality)
        .concat(".
        
        Write a warm, personalized welcome message to a student who wants to learn about '")
        .concat(topic)
        .concat("'.
        
        Your message should:
        1. Introduce yourself briefly as the tutor
        2. Show enthusiasm for teaching the topic
        3. Mention that you've created a customized course outline
        4. Invite the student to begin their learning journey
        5. Ask what they would like to start with
        
        Make your message:
        - Friendly and conversational, not formal
        - Reflect your specific personality (")
        .concat(personality)
        .concat(") and teaching style (")
        .concat(teaching_style)
        .concat(")
        - Between 3-5 sentences (concise but welcoming)
        - Encouraging and positive
        - Use emojis to make it engaging! 🎉
        
        DO NOT include any markdown, quotes, or extra formatting.")
}

/// The short request for three learning topics suited to a tutor.
pub open spec fn topic_ideas_prompt_text(expertise: Seq<Seq<char>>, teaching_style: Seq<char>, personality: Seq<char>) -> Seq<char> {
    "Expertise: "@
        + joined(expertise, ", "@)
        + ". Style: "@
        + teaching_style
        + ". Personality: "@
        + personality
        + ".

Suggest 3 learning topics as JSON array:
[{\"topic\": \"Topic Name\", \"description\": \"Brief description\", \"difficulty\": \"beginner\", \"expertise_area\": \"Area\"}]"@
}

/// The short request for three learning topics suited to a tutor.
pub fn topic_ideas_prompt(expertise: &Vec<String>, teaching_style: &str, personality: &str) -> (r: String)
    ensures
        r@ == topic_ideas_prompt_text(views(expertise@), teaching_style@, personality@),
{
    let tags = join_with(expertise, ", ");
    String::from_str("Expertise: ")
        .concat(tags.as_str())
        .concat(". Style: ")
        .concat(teaching_style)
        .concat(". Personality: ")
        .concat(personality)
        .concat(".

Suggest 3 learning topics as JSON array:
[{\"topic\": \"Topic Name\", \"description\": \"Brief description\", \"difficulty\": \"beginner\", \"expertise_area\": \"Area\"}]")
}

/// The request for a tutor's educational reply to a student's message.
pub open spec fn tutor_reply_prompt_text(expertise: Seq<Seq<char>>, teaching_style: Seq<char>, personality: Seq<char>, content: Seq<char>) -> Seq<char> {
    "Expert in: "@
        + joined(expertise, ", "@)
        + ". Style: "@
        + teaching_style
        + ". Personality: "@
        + personality
        + ".
        
Student: \""@
        + content
        + "\"

Give a helpful, educational response in 2-3 sentences."@
}

/// The request for a tutor's educational reply to a student's message.
pub fn tutor_reply_prompt(expertise: &Vec<String>, teaching_style: &str, personality: &str, content: &str) -> (r: String)
    ensures
        r@ == tutor_reply_prompt_text(views(expertise@), teaching_style@, personality@, content@),
{
    let tags = join_with(expertise, ", ");
    String::from_str("Expert in: ")
        .concat(tags.as_str())
        .concat(". Style: ")
        .concat(teaching_style)
        .concat(". Personality: ")
        .concat(personality)
        .concat(".
        
Student: \"")
        .concat(content)
        .concat("\"

Give a helpful, educational response in 2-3 sentences.")
}

/// The request for five module titles for teaching a topic.
pub open spec fn module_titles_prompt_text(topic: Seq<char>, expertise: Seq<Seq<char>>, teaching_style: Seq<char>, personality: Seq<char>) -> Seq<char> {
    "Generate 5 learning module titles for teaching '"@
        + topic
        + "'. 
        Tutor expertise: "@
        + joined(expertise, ", "@)
        + ". Teaching style: "@
        + teaching_style
        + ". Personality: "@
        + personality
        + ".
        
        Return ONLY a JSON array of strings with module titles.
        Example: [\"Introduction to Calculus\", \"Derivatives and Limits\", \"Integration Basics\", \"Applications\", \"Advanced Topics\"]
        
        Make sure the modules are:
        1. Relevant to the topic
        2. Progressive in difficulty
        3. Practical and actionable
        4. Aligned with the tutor's expertise and teaching style"@
}

/// The request for five module titles for teaching a topic.
pub fn module_titles_prompt(topic: &str, expertise: &Vec<String>, teaching_style: &str, personality: &str) -> (r: String)
    ensures
        r@ == module_titles_prompt_text(topic@, views(expertise@), teaching_style@, personality@),
{
    let tags = join_with(expertise, ", ");
    String::from_str("Generate 5 learning module titles for teaching '")
        .concat(topic)
        .concat("'. 
        Tutor expertise: ")
        .concat(tags.as_str())
        .concat(". Teaching style: ")
        .concat(teaching_style)
        .concat(". Personality: ")
        .concat(personality)
        .concat(".
        
        Return ONLY a JSON array of strings with module titles.
        Example: [\"Introduction to Calculus\", \"Derivatives and Limits\", \"Integration Basics\", \"Applications\", \"Advanced Topics\"]
        
        Make sure the modules are:
        1. Relevant to the topic
        2. Progressive in difficulty
        3. Practical and actionable
        4. Aligned with the tutor's expertise and teaching style")
}


/// How many of the latest messages a chat prompt quotes.
pub const CONTEXT_MESSAGES: usize = 3;

/// One quoted message: its sender, a colon, its content and a line end.
pub open spec fn context_line(m: ChatMessage) -> Seq<char> {
    m.sender@ + ": "@ + m.content@ + "\n"@
}

/// The `j` latest messages of `h`, newest first, one per line.
pub open spec fn latest_lines(h: Seq<ChatMessage>, j: nat) -> Seq<char>
    decreases j,
{
    if j == 0 || j > h.len() {
        Seq::empty()
    } else {
        latest_lines(h, (j - 1) as nat) + context_line(h[h.len() - j])
    }
}

/// How many messages of a history of `n` a chat prompt quotes.
pub open spec fn context_count(n: nat) -> nat {
    if n < CONTEXT_MESSAGES {
        n
    } else {
        CONTEXT_MESSAGES as nat
    }
}

/// The context of a chat prompt: the latest three messages (fewer if the
/// history is shorter), newest first.
pub open spec fn chat_context_text(h: Seq<ChatMessage>) -> Seq<char> {
    latest_lines(h, context_count(h.len()))
}

/// The context of a chat prompt: the latest three messages, newest first.
pub fn chat_context(history: &Vec<ChatMessage>) -> (r: String)
    ensures
        r@ == chat_context_text(history@),
{
    let n = history.len();
    let count: usize = if n < CONTEXT_MESSAGES {
        n
    } else {
        CONTEXT_MESSAGES
    };
    let mut r = String::new();
    let mut j: usize = 0;
    while j < count
        invariant
            n == history@.len(),
            count == context_count(n as nat),
            count <= n,
            j <= count,
            r@ == latest_lines(history@, j as nat),
        decreases count - j,
    {
        let m = &history[n - 1 - j];
        r.append(m.sender.as_str());
        r.append(": ");
        r.append(m.content.as_str());
        r.append("\n");
        j += 1;
        assert(r@ =~= latest_lines(history@, j as nat));
    }
    r
}

/// The reading of a student's message: 70% where it is longer than fifty
/// bytes, else 50%; at over 60% the pace is kept, else simplified.
pub open spec fn is_assessment(a: ComprehensionAnalysis, message_bytes: int, now: u64) -> bool {
    let pct: u8 = if message_bytes > 50 {
        70
    } else {
        50
    };
    &&& a.comprehension_percent == pct
    &&& a.difficulty_adjustment@ == (if pct > 60 {
        "maintain"@
    } else {
        "simplify"@
    })
    &&& a.timestamp@ == radix_digits(now as nat, 10)
}

/// Reads a student's message at time `now`.
pub fn assess_comprehension(user_message: &str, now: u64) -> (r: ComprehensionAnalysis)
    ensures
        is_assessment(r, user_message.len() as int, now),
{
    let pct: u8 = if user_message.len() > 50 {
        70
    } else {
        50
    };
    let adjustment = if pct > 60 {
        String::from_str("maintain")
    } else {
        String::from_str("simplify")
    };
    ComprehensionAnalysis {
        comprehension_percent: pct,
        difficulty_adjustment: adjustment,
        timestamp: radix_string(now, 10),
    }
}

} // verus!
