use cogni_icp_backend::models::ChatMessage;
use cogni_icp_backend::prompts::{
    assess_comprehension, chat_context, chat_reply_prompt, course_outline_prompt,
    module_titles_prompt, topic_suggestions_prompt, topic_validation_prompt, tutor_reply_prompt,
    welcome_prompt, topic_ideas_prompt,
};
use cogni_icp_backend::tutors::{edit_profile, validate_new_tutor, TutorProfile};

fn msg(sender: &str, content: &str) -> ChatMessage {
    ChatMessage {
        id: String::new(),
        session_id: "s".to_string(),
        sender: sender.to_string(),
        content: content.to_string(),
        timestamp: 0,
        has_audio: Some(false),
    }
}

fn tags() -> Vec<String> {
    vec!["Math".to_string(), "Physics".to_string()]
}

#[test]
fn chat_context_is_newest_three_first() {
    let h = vec![msg("user", "1"), msg("tutor", "2"), msg("user", "3"), msg("tutor", "4")];
    assert_eq!(chat_context(&h), "tutor: 4\nuser: 3\ntutor: 2\n");
    assert_eq!(chat_context(&h[..1].to_vec()), "user: 1\n");
    assert_eq!(chat_context(&vec![]), "");
}

#[test]
fn prompts_fill_in_their_fields() {
    let p = course_outline_prompt("Calculus", "visual", "beginner");
    assert!(p.starts_with("Create a course outline on 'Calculus' for visual learning at beginner level."));
    assert_eq!(p.matches("\"difficulty_level\":\"beginner\"").count(), 1);
    let p = topic_suggestions_prompt(&tags(), "Socratic");
    assert!(p.starts_with("Generate 3 topic suggestions for a tutor with expertise in: Math, Physics\n"));
    assert!(p.contains("Teaching style: Socratic"));
    let p = topic_validation_prompt("Vectors", &tags());
    assert!(p.starts_with("Evaluate if the topic 'Vectors' is relevant to a tutor with expertise in: Math, Physics"));
    let p = chat_reply_prompt("Ada", "patient", "visual", "user: hi\n", "What is x?");
    assert!(p.starts_with("You are Ada an AI tutor. Teaching style: patient. Student: visual."));
    assert!(p.contains("Student: What is x?"));
    let p = welcome_prompt("Ada", &tags(), "patient", "cheerful", "Vectors");
    assert!(p.contains("expertise in Math, Physics. Your teaching style is patient and your personality is cheerful."));
    assert!(p.contains("learn about 'Vectors'"));
    let p = topic_ideas_prompt(&tags(), "patient", "cheerful");
    assert!(p.starts_with("Expertise: Math, Physics. Style: patient. Personality: cheerful.\n\nSuggest 3"));
    let p = tutor_reply_prompt(&tags(), "patient", "cheerful", "Why?");
    assert!(p.contains("Student: \"Why?\""));
    let p = module_titles_prompt("Vectors", &tags(), "patient", "cheerful");
    assert!(p.starts_with("Generate 5 learning module titles for teaching 'Vectors'."));
}

#[test]
fn comprehension_by_message_length() {
    let short = assess_comprehension("ok", 42);
    assert_eq!(short.comprehension_percent, 50);
    assert_eq!(short.difficulty_adjustment, "simplify");
    assert_eq!(short.timestamp, "42");
    let long = assess_comprehension(&"x".repeat(51), 7);
    assert_eq!(long.comprehension_percent, 70);
    assert_eq!(long.difficulty_adjustment, "maintain");
    assert_eq!(assess_comprehension(&"x".repeat(50), 7).comprehension_percent, 50);
}

#[test]
fn new_tutor_fields_are_checked_in_order() {
    let e = |r: Result<TutorProfile, String>| r.err().unwrap();
    assert_eq!(e(validate_new_tutor(" ", "", "", "", vec![])), "Name is required");
    assert_eq!(e(validate_new_tutor("A", "\t", "", "", vec![])), "Description is required");
    assert_eq!(e(validate_new_tutor("A", "d", "", "", vec![])), "Teaching style is required");
    assert_eq!(e(validate_new_tutor("A", "d", "s", " ", vec![])), "Personality is required");
    assert_eq!(
        e(validate_new_tutor("A", "d", "s", "p", vec![])),
        "At least one expertise area is required"
    );
    let p = validate_new_tutor("  Ada ", " d ", "s\n", " p", tags()).unwrap();
    assert_eq!(p.name, "Ada");
    assert_eq!(p.description, "d");
    assert_eq!(p.teaching_style, "s");
    assert_eq!(p.personality, "p");
    assert_eq!(p.expertise, tags());
}

#[test]
fn tutor_edits_replace_given_fields() {
    let base = validate_new_tutor("Ada", "d", "s", "p", tags()).unwrap();
    let r = edit_profile(base.clone(), Some("  ".to_string()), None, None, None, None);
    assert_eq!(r.err().unwrap(), "Name cannot be empty");
    let r = edit_profile(base.clone(), None, None, None, None, Some(vec![]));
    assert_eq!(r.err().unwrap(), "At least one expertise area is required");
    let p = edit_profile(base, Some(" Grace ".to_string()), None, Some("calm".to_string()), None, None)
        .unwrap();
    assert_eq!(p.name, "Grace");
    assert_eq!(p.description, "d");
    assert_eq!(p.teaching_style, "calm");
    assert_eq!(p.expertise, tags());
}
