use cogni_icp_backend::models::{CourseOutline, TopicSuggestion, TopicValidation};
use cogni_icp_backend::parser::{
    bracketed_part, choose_module_titles, clean_reply, fallback_module_titles, fallback_outline,
    fallback_suggestions, fallback_validation, keep_decoded, outline_or_fallback,
    parse_module_titles, quoted_lines, suggestions_or_fallback, validation_from_lowered,
    validation_or_fallback,
};

fn strings(v: &[&str]) -> Vec<String> {
    v.iter().map(|s| s.to_string()).collect()
}

#[test]
fn module_titles_from_direct_json_array() {
    let titles = parse_module_titles(r#"["Basics", "Loops", "Functions"]"#, "Rust");
    assert_eq!(titles, strings(&["Basics", "Loops", "Functions"]));
}

#[test]
fn module_titles_from_cleaned_reply() {
    let reply = "Here are the modules:\n  [\"Intro\", \"Depth\"]  \nEnjoy!";
    assert_eq!(clean_reply(reply), "  [\"Intro\", \"Depth\"]  ");
    assert_eq!(parse_module_titles(reply, "Rust"), strings(&["Intro", "Depth"]));
    let split = "Here:\n[\n\"Intro\",\n\"Depth\"\n]\nEnjoy!";
    assert_eq!(clean_reply(split), "[\n\"Intro\",\n\"Depth\"");
    assert_eq!(parse_module_titles(split, "Rust"), strings(&["Intro", "Depth"]));
}

#[test]
fn module_titles_from_bracketed_part() {
    let reply = "Sure thing: [\"One\", \"Two\"] hope this helps";
    assert_eq!(bracketed_part(reply), Some("[\"One\", \"Two\"]".to_string()));
    assert_eq!(parse_module_titles(reply, "Rust"), strings(&["One", "Two"]));
}

#[test]
fn bracketed_part_needs_closing_after_opening() {
    assert_eq!(bracketed_part("] then ["), None);
    assert_eq!(bracketed_part("no brackets"), None);
    assert_eq!(bracketed_part("a [x] b ]"), Some("[x] b ]".to_string()));
}

#[test]
fn module_titles_from_quoted_lines() {
    let reply = "Modules:\n  \"Alpha\"  \n\"Beta\"\nnot quoted\n\"bad \\q\"";
    assert_eq!(quoted_lines(reply), strings(&["\"Alpha\"", "\"Beta\"", "\"bad \\q\""]));
    assert_eq!(parse_module_titles(reply, "Rust"), strings(&["Alpha", "Beta"]));
}

#[test]
fn module_titles_fall_back_to_templates() {
    let titles = parse_module_titles("I cannot help with that.", "Chemistry");
    assert_eq!(
        titles,
        strings(&[
            "Introduction to Chemistry",
            "Chemistry Fundamentals",
            "Advanced Chemistry Concepts",
            "Chemistry Applications",
            "Chemistry Mastery",
        ])
    );
    assert_eq!(titles.len(), 5);
    assert!(titles.iter().all(|t| t.contains("Chemistry")));
}

#[test]
fn empty_array_counts_as_no_titles() {
    let titles = parse_module_titles("[]", "Go");
    assert_eq!(titles, fallback_module_titles("Go"));
}

#[test]
fn choose_prefers_earlier_readings() {
    let r = choose_module_titles(
        Some(vec![]),
        Some(strings(&["c"])),
        Some(strings(&["b"])),
        strings(&["l"]),
        "t",
    );
    assert_eq!(r, strings(&["c"]));
    let r = choose_module_titles(None, None, None, vec![], "t");
    assert_eq!(r.len(), 5);
    assert_eq!(r[0], "Introduction to t");
}

#[test]
fn keep_decoded_drops_failures() {
    let parsed = vec![Some("a".to_string()), None, Some("b".to_string())];
    assert_eq!(keep_decoded(&parsed), strings(&["a", "b"]));
}

fn outline_sample() -> CourseOutline {
    CourseOutline {
        title: "T".to_string(),
        description: "D".to_string(),
        learning_objectives: vec![],
        estimated_duration: "1 week".to_string(),
        difficulty_level: "advanced".to_string(),
        modules: vec![],
    }
}

#[test]
fn outline_fallback_when_unreadable() {
    let o = outline_or_fallback(None, "Algebra", "beginner");
    assert_eq!(o.title, "Course on Algebra");
    assert_eq!(o.description, "A comprehensive course about Algebra");
    assert_eq!(o.learning_objectives, strings(&["Understand the basics of Algebra"]));
    assert_eq!(o.estimated_duration, "4 weeks");
    assert_eq!(o.difficulty_level, "beginner");
    assert_eq!(o.modules.len(), 1);
    let m = &o.modules[0];
    assert_eq!(m.id, 1);
    assert_eq!(m.title, "Introduction");
    assert_eq!(m.description, "Introduction to Algebra");
    assert_eq!(m.order, 1);
    assert_eq!(m.content, Some("Learn the fundamentals of Algebra".to_string()));
    assert_eq!(m.status, "pending");
    assert_eq!(fallback_outline("Algebra", "beginner").title, o.title);
}

#[test]
fn outline_read_is_kept() {
    let o = outline_or_fallback(Some(outline_sample()), "Algebra", "beginner");
    assert_eq!(o.title, "T");
    assert_eq!(o.difficulty_level, "advanced");
}

#[test]
fn suggestions_fallback_takes_first_three_tags() {
    let tags = strings(&["Math", "Physics", "Art", "Music"]);
    let s = suggestions_or_fallback(None, &tags);
    assert_eq!(s.len(), 3);
    for (i, tag) in ["Math", "Physics", "Art"].iter().enumerate() {
        assert_eq!(s[i].topic, format!("Introduction to {}", tag));
        assert_eq!(s[i].description, format!("Learn the basics of {}", tag));
        assert_eq!(s[i].difficulty, "beginner");
        assert_eq!(s[i].expertise_area, *tag);
    }
}

#[test]
fn suggestions_fallback_with_fewer_tags() {
    assert_eq!(fallback_suggestions(&strings(&["Math", "Art"])).len(), 2);
    assert!(fallback_suggestions(&vec![]).is_empty());
}

#[test]
fn suggestions_read_are_cut_to_three() {
    let one = |t: &str| TopicSuggestion {
        topic: t.to_string(),
        description: String::new(),
        difficulty: "beginner".to_string(),
        expertise_area: String::new(),
    };
    let read = vec![one("a"), one("b"), one("c"), one("d")];
    let s = suggestions_or_fallback(Some(read), &strings(&["x"]));
    let topics: Vec<String> = s.iter().map(|x| x.topic.clone()).collect();
    assert_eq!(topics, strings(&["a", "b", "c"]));
}

#[test]
fn validation_fallback_relevant_ignores_case() {
    let tags = strings(&["Python", "Data Science"]);
    let v = validation_or_fallback(None, "Advanced PYTHON decorators", &tags);
    assert!(v.is_relevant);
    assert_eq!(v.confidence_percent, 70);
    assert_eq!(v.reasoning, "Fallback validation based on keyword matching");
    assert!(v.suggested_alternatives.is_empty());
}

#[test]
fn validation_fallback_irrelevant() {
    let tags = strings(&["Python", "Data Science"]);
    let v = fallback_validation("Medieval poetry", &tags);
    assert!(!v.is_relevant);
    assert_eq!(v.confidence_percent, 30);
    assert_eq!(v.suggested_alternatives, tags);
}

#[test]
fn validation_from_lowered_is_case_sensitive() {
    let v = validation_from_lowered("learn python", &strings(&["Python"]), &strings(&["Python"]));
    assert!(!v.is_relevant);
    let v = validation_from_lowered("learn python", &strings(&["python"]), &strings(&["Python"]));
    assert!(v.is_relevant);
}

#[test]
fn validation_read_is_kept() {
    let read = TopicValidation {
        is_relevant: false,
        confidence_percent: 95,
        reasoning: "r".to_string(),
        suggested_alternatives: vec![],
    };
    let v = validation_or_fallback(Some(read), "Python", &strings(&["Python"]));
    assert!(!v.is_relevant);
    assert_eq!(v.confidence_percent, 95);
}
