//! The records that the tutoring features exchange.
use vstd::prelude::*;

verus! {

/// One message of a tutoring session.
#[derive(Clone, Debug)]
pub struct TutorMessage {
    pub id: u64,
    /// `"user"` or `"tutor"`.
    pub sender: String,
    pub content: String,
    pub timestamp: u64,
    pub has_audio: bool,
}

/// A course that a tutor runs within a session.
#[derive(Clone, Debug)]
pub struct TutorCourse {
    pub id: u64,
    pub tutor_id: u64,
    pub session_id: u64,
    pub topic: String,
    /// The outline, kept as JSON text.
    pub outline: String,
    pub difficulty_level: String,
    pub estimated_duration: String,
    pub created_at: u64,
    pub modules: Vec<CourseModule>,
}

/// One module of a course outline.
#[derive(Clone, Debug)]
pub struct CourseModule {
    pub id: u64,
    pub title: String,
    pub description: String,
    pub order: u32,
    /// The module's content, kept as JSON text.
    pub content: Option<String>,
    /// `"pending"` or `"completed"`.
    pub status: String,
}

/// One message of a chat session.
#[derive(Clone, Debug)]
pub struct ChatMessage {
    pub id: String,
    pub session_id: String,
    /// `"user"` or `"tutor"`.
    pub sender: String,
    pub content: String,
    pub timestamp: u64,
    pub has_audio: Option<bool>,
}

/// The messages of one chat session, oldest first.
#[derive(Clone, Debug)]
pub struct ChatMessageList(pub Vec<ChatMessage>);

/// A learning topic proposed for a tutor.
#[derive(Clone, Debug)]
pub struct TopicSuggestion {
    pub topic: String,
    pub description: String,
    /// `"beginner"`, `"intermediate"` or `"advanced"`.
    pub difficulty: String,
    pub expertise_area: String,
}

/// A verdict on whether a topic suits a tutor.
#[derive(Clone, Debug)]
pub struct TopicValidation {
    pub is_relevant: bool,
    /// Confidence in the verdict, in percent (0 to 100).
    pub confidence_percent: u8,
    pub reasoning: String,
    pub suggested_alternatives: Vec<String>,
}

/// The outline of a course: what it teaches and its modules.
#[derive(Clone, Debug)]
pub struct CourseOutline {
    pub title: String,
    pub description: String,
    pub learning_objectives: Vec<String>,
    pub estimated_duration: String,
    pub difficulty_level: String,
    pub modules: Vec<CourseModule>,
}

/// A rough reading of how well a student follows, and how to pace the next reply.
#[derive(Clone, Debug)]
pub struct ComprehensionAnalysis {
    /// Estimated comprehension, in percent (0 to 100).
    pub comprehension_percent: u8,
    /// `"simplify"`, `"maintain"` or `"deepen"`.
    pub difficulty_adjustment: String,
    /// When the reading was taken, in nanoseconds, as decimal text.
    pub timestamp: String,
}

} // verus!
