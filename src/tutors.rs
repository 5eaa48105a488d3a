//! Checks on the fields of a tutor profile when it is created or edited:
//! every text field must hold more than whitespace and is stored trimmed, and
//! at least one expertise tag is required.
use vstd::prelude::*;
use vstd::string::*;

use crate::text::{trim, trimmed, views};

verus! {

/// The fields of a tutor that its owner writes.
#[derive(Clone, Debug)]
pub struct TutorProfile {
    pub name: String,
    pub description: String,
    pub teaching_style: String,
    pub personality: String,
    pub expertise: Vec<String>,
}

/// Whether `s` is blank: nothing is left once it is trimmed.
pub open spec fn is_blank(s: Seq<char>) -> bool {
    trimmed(s).len() == 0
}

/// The first complaint about the fields of a new tutor, in the order name,
/// description, teaching style, personality, expertise; `None` if they pass.
pub open spec fn new_tutor_error(
    name: Seq<char>,
    description: Seq<char>,
    teaching_style: Seq<char>,
    personality: Seq<char>,
    expertise_count: nat,
) -> Option<Seq<char>> {
    if is_blank(name) {
        Some("Name is required"@)
    } else if is_blank(description) {
        Some("Description is required"@)
    } else if is_blank(teaching_style) {
        Some("Teaching style is required"@)
    } else if is_blank(personality) {
        Some("Personality is required"@)
    } else if expertise_count == 0 {
        Some("At least one expertise area is required"@)
    } else {
        None
    }
}

/// The text fields of `p` are those given, trimmed, and its tags are `tags`.
pub open spec fn holds_trimmed(
    p: TutorProfile,
    name: Seq<char>,
    description: Seq<char>,
    teaching_style: Seq<char>,
    personality: Seq<char>,
    tags: Seq<Seq<char>>,
) -> bool {
    &&& p.name@ == trimmed(name)
    &&& p.description@ == trimmed(description)
    &&& p.teaching_style@ == trimmed(teaching_style)
    &&& p.personality@ == trimmed(personality)
    &&& views(p.expertise@) == tags
}

/// A copy of `s` trimmed, and whether it is blank.
fn trimmed_field(s: &str) -> (r: (String, bool))
    ensures
        r.0@ == trimmed(s@),
        r.1 == is_blank(s@),
{
    let t = trim(s);
    let blank = t.as_str().unicode_len() == 0;
    (t, blank)
}

/// The profile of a new tutor, or the first complaint about its fields.
pub fn validate_new_tutor(
    name: &str,
    description: &str,
    teaching_style: &str,
    personality: &str,
    expertise: Vec<String>,
) -> (r: Result<TutorProfile, String>)
    ensures
        match r {
            Ok(p) => new_tutor_error(
                name@,
                description@,
                teaching_style@,
                personality@,
                expertise@.len(),
            ) is None && holds_trimmed(
                p,
                name@,
                description@,
                teaching_style@,
                personality@,
                views(expertise@),
            ),
            Err(e) => new_tutor_error(
                name@,
                description@,
                teaching_style@,
                personality@,
                expertise@.len(),
            ) == Some(e@),
        },
{
    let (n, n_blank) = trimmed_field(name);
    if n_blank {
        return Err(String::from_str("Name is required"));
    }
    let (d, d_blank) = trimmed_field(description);
    if d_blank {
        return Err(String::from_str("Description is required"));
    }
    let (t, t_blank) = trimmed_field(teaching_style);
    if t_blank {
        return Err(String::from_str("Teaching style is required"));
    }
    let (p, p_blank) = trimmed_field(personality);
    if p_blank {
        return Err(String::from_str("Personality is required"));
    }
    if expertise.len() == 0 {
        return Err(String::from_str("At least one expertise area is required"));
    }
    Ok(TutorProfile { name: n, description: d, teaching_style: t, personality: p, expertise })
}

/// A replacement text field that is blank.
pub open spec fn blank_edit(f: Option<String>) -> bool {
    match f {
        Some(s) => is_blank(s@),
        None => false,
    }
}

/// The first complaint about an edit of a tutor, in the order name,
/// description, teaching style, personality, expertise; `None` if it passes.
pub open spec fn edit_error(
    name: Option<String>,
    description: Option<String>,
    teaching_style: Option<String>,
    personality: Option<String>,
    expertise: Option<Vec<String>>,
) -> Option<Seq<char>> {
    if blank_edit(name) {
        Some("Name cannot be empty"@)
    } else if blank_edit(description) {
        Some("Description cannot be empty"@)
    } else if blank_edit(teaching_style) {
        Some("Teaching style cannot be empty"@)
    } else if blank_edit(personality) {
        Some("Personality cannot be empty"@)
    } else if (match expertise {
        Some(v) => v@.len() == 0,
        None => false,
    }) {
        Some("At least one expertise area is required"@)
    } else {
        None
    }
}

/// A field after an edit: the replacement trimmed, or the old value.
pub open spec fn edited(prev: Seq<char>, f: Option<String>) -> Seq<char> {
    match f {
        Some(s) => trimmed(s@),
        None => prev,
    }
}

/// A text field after an edit: the replacement trimmed, or `prev`.
fn apply_text(prev: String, f: Option<String>) -> (r: String)
    ensures
        r@ == edited(prev@, f),
{
    match f {
        Some(s) => trim(s.as_str()),
        None => prev,
    }
}

/// Whether a replacement text field is blank.
fn is_blank_edit(f: &Option<String>) -> (r: bool)
    ensures
        r == blank_edit(*f),
{
    match f {
        Some(s) => trimmed_field(s.as_str()).1,
        None => false,
    }
}

/// A profile after an edit that gives some of its fields anew, or the first
/// complaint about the edit; on a complaint nothing is changed.
pub fn edit_profile(
    profile: TutorProfile,
    name: Option<String>,
    description: Option<String>,
    teaching_style: Option<String>,
    personality: Option<String>,
    expertise: Option<Vec<String>>,
) -> (r: Result<TutorProfile, String>)
    ensures
        match r {
            Ok(p) => edit_error(name, description, teaching_style, personality, expertise) is None
                && p.name@ == edited(profile.name@, name) && p.description@ == edited(
                profile.description@,
                description,
            ) && p.teaching_style@ == edited(profile.teaching_style@, teaching_style)
                && p.personality@ == edited(profile.personality@, personality) && p.expertise@
                == (match expertise {
                Some(v) => v@,
                None => profile.expertise@,
            }),
            Err(e) => edit_error(name, description, teaching_style, personality, expertise)
                == Some(e@),
        },
{
    if is_blank_edit(&name) {
        return Err(String::from_str("Name cannot be empty"));
    }
    if is_blank_edit(&description) {
        return Err(String::from_str("Description cannot be empty"));
    }
    if is_blank_edit(&teaching_style) {
        return Err(String::from_str("Teaching style cannot be empty"));
    }
    if is_blank_edit(&personality) {
        return Err(String::from_str("Personality cannot be empty"));
    }
    let no_tags = match &expertise {
        Some(v) => v.len() == 0,
        None => false,
    };
    if no_tags {
        return Err(String::from_str("At least one expertise area is required"));
    }
    let TutorProfile {
        name: old_name,
        description: old_description,
        teaching_style: old_style,
        personality: old_personality,
        expertise: old_expertise,
    } = profile;
    let tags = match expertise {
        Some(v) => v,
        None => old_expertise,
    };
    Ok(
        TutorProfile {
            name: apply_text(old_name, name),
            description: apply_text(old_description, description),
            teaching_style: apply_text(old_style, teaching_style),
            personality: apply_text(old_personality, personality),
            expertise: tags,
        },
    )
}

} // verus!
