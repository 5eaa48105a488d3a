//! Turns a model's reply into module titles, topic suggestions, a course
//! outline or a topic verdict. Each shape is read strictly first; a reply
//! that cannot be read gives a fallback that depends on the caller's inputs
//! alone.
use vstd::prelude::*;
use vstd::string::*;

use crate::models::{CourseModule, CourseOutline, TopicSuggestion, TopicValidation};
use crate::json::{decode_string, decode_string_list, json_string, json_string_list, list_view, opt_view};
use crate::text::{
    chars_of, contains_str, copy_strings, has_substring, join_with, joined, lines, lines_of,
    lower_of, lowercase, slice_string, trim, trim_bounds, trimmed, views,
};

verus! {

/// A line that looks like part of a JSON array of strings: trimmed, it
/// starts with `'['` or holds a `'"'`.
pub open spec fn keeps_line(l: Seq<char>) -> bool {
    let t = trimmed(l);
    (t.len() > 0 && t[0] == '[') || t.contains('"')
}

/// The reply with every line that does not look like JSON removed.
pub open spec fn cleaned_reply(s: Seq<char>) -> Seq<char> {
    joined(lines_of(s).filter(|l: Seq<char>| keeps_line(l)), "\n"@)
}

/// Whether `c` occurs among `cs[a..b]`.
fn has_char_between(cs: &Vec<char>, a: usize, b: usize, c: char) -> (r: bool)
    requires
        a <= b <= cs@.len(),
    ensures
        r == cs@.subrange(a as int, b as int).contains(c),
{
    let mut i: usize = a;
    while i < b
        invariant
            a <= i <= b <= cs@.len(),
            forall|k: int| a <= k < i ==> cs@[k] != c,
        decreases b - i,
    {
        if cs[i] == c {
            assert(cs@.subrange(a as int, b as int)[i - a] == c);
            return true;
        }
        i += 1;
    }
    proof {
        assert forall|k: int| 0 <= k < b - a implies cs@.subrange(a as int, b as int)[k] != c by {
            assert(cs@[a + k] != c);
        }
    }
    false
}

/// Whether a line looks like part of a JSON array of strings.
pub fn keeps_line_exec(l: &str) -> (r: bool)
    ensures
        r == keeps_line(l@),
{
    let cs = chars_of(l);
    let (a, b) = trim_bounds(&cs, 0, cs.len());
    assert(cs@.subrange(0, cs@.len() as int) =~= l@);
    (a < b && cs[a] == '[') || has_char_between(&cs, a, b, '"')
}

/// The reply with every line that does not look like JSON removed.
pub fn clean_reply(s: &str) -> (r: String)
    ensures
        r@ == cleaned_reply(s@),
{
    let ls = lines(s);
    let mut kept: Vec<String> = Vec::new();
    let mut i: usize = 0;
    while i < ls.len()
        invariant
            i <= ls@.len(),
            views(ls@) == lines_of(s@),
            views(kept@) == lines_of(s@).subrange(0, i as int).filter(
                |l: Seq<char>| keeps_line(l),
            ),
        decreases ls@.len() - i,
    {
        proof {
            reveal(Seq::filter);
            assert(lines_of(s@).subrange(0, i + 1).drop_last() =~= lines_of(s@).subrange(
                0,
                i as int,
            ));
        }
        let ghost before = kept@;
        if keeps_line_exec(ls[i].as_str()) {
            kept.push(ls[i].clone());
            assert(views(kept@) =~= views(before).push(ls@[i as int]@));
        }
        i += 1;
    }
    assert(lines_of(s@).subrange(0, ls@.len() as int) =~= lines_of(s@));
    join_with(&kept, "\n")
}

/// `a` is the first `'['` of `s` and `b` its last `']'`, the second not
/// before the first.
pub open spec fn bracket_bounds(s: Seq<char>, a: int, b: int) -> bool {
    &&& 0 <= a <= b < s.len()
    &&& s[a] == '['
    &&& s[b] == ']'
    &&& forall|k: int| 0 <= k < a ==> s[k] != '['
    &&& forall|k: int| b < k < s.len() ==> s[k] != ']'
}

/// The part of `s` from its first `'['` to its last `']'`, both included,
/// where the last `']'` does not come before the first `'['`.
pub open spec fn bracketed(s: Seq<char>) -> Option<Seq<char>> {
    if exists|a: int, b: int| bracket_bounds(s, a, b) {
        let (a, b) = choose|a: int, b: int| bracket_bounds(s, a, b);
        Some(s.subrange(a, b + 1))
    } else {
        None
    }
}

/// The part of `s` from its first `'['` to its last `']'`, if there is one.
pub fn bracketed_part(s: &str) -> (r: Option<String>)
    ensures
        opt_view(r) == bracketed(s@),
{
    let cs = chars_of(s);
    let n = cs.len();
    let mut a: usize = 0;
    while a < n && cs[a] != '['
        invariant
            cs@ == s@,
            n == cs@.len(),
            a <= n,
            forall|k: int| 0 <= k < a ==> cs@[k] != '[',
        decreases n - a,
    {
        a += 1;
    }
    let mut b: usize = n;
    while b > 0 && cs[b - 1] != ']'
        invariant
            cs@ == s@,
            n == cs@.len(),
            b <= n,
            forall|k: int| b <= k < n ==> cs@[k] != ']',
        decreases b,
    {
        b -= 1;
    }
    if a < n && b > 0 && a <= b - 1 {
        let r = slice_string(s, a, b);
        proof {
            assert(bracket_bounds(s@, a as int, b - 1));
            let (a2, b2) = choose|a2: int, b2: int| bracket_bounds(s@, a2, b2);
            assert(a2 == a);
            assert(b2 == b - 1);
        }
        Some(r)
    } else {
        proof {
            assert forall|a2: int, b2: int| !bracket_bounds(s@, a2, b2) by {
                if bracket_bounds(s@, a2, b2) {
                    if a2 < a {
                        assert(cs@[a2] != '[');
                    }
                    if b2 >= b {
                        assert(cs@[b2] != ']');
                    }
                    assert(a2 >= a && b2 < b);
                    assert(cs@[a as int] == '[');
                    assert(b > 0);
                    assert(cs@[b - 1] == ']');
                }
            }
        }
        None
    }
}

/// A trimmed line that starts and ends with `'"'`.
pub open spec fn is_quoted(t: Seq<char>) -> bool {
    t.len() > 0 && t[0] == '"' && t.last() == '"'
}

/// The trimmed lines of `s` that start and end with `'"'`.
pub open spec fn quoted_lines_of(s: Seq<char>) -> Seq<Seq<char>> {
    lines_of(s).map_values(|l: Seq<char>| trimmed(l)).filter(|t: Seq<char>| is_quoted(t))
}

/// The trimmed lines of `s` that start and end with `'"'`.
pub fn quoted_lines(s: &str) -> (r: Vec<String>)
    ensures
        views(r@) == quoted_lines_of(s@),
{
    let ls = lines(s);
    let ghost tl = lines_of(s@).map_values(|l: Seq<char>| trimmed(l));
    let mut out: Vec<String> = Vec::new();
    let mut i: usize = 0;
    while i < ls.len()
        invariant
            i <= ls@.len(),
            views(ls@) == lines_of(s@),
            tl == lines_of(s@).map_values(|l: Seq<char>| trimmed(l)),
            views(out@) == tl.subrange(0, i as int).filter(|t: Seq<char>| is_quoted(t)),
        decreases ls@.len() - i,
    {
        proof {
            reveal(Seq::filter);
            assert(tl.subrange(0, i + 1).drop_last() =~= tl.subrange(0, i as int));
        }
        let t = trim(ls[i].as_str());
        let n = t.as_str().unicode_len();
        let ghost before = out@;
        if n > 0 && t.as_str().get_char(0) == '"' && t.as_str().get_char(n - 1) == '"' {
            out.push(t);
            assert(views(out@) =~= views(before).push(tl[i as int]));
        }
        i += 1;
    }
    assert(tl.subrange(0, ls@.len() as int) =~= tl);
    out
}

/// The decoded strings among `parsed`, in order.
pub open spec fn decoded_only(parsed: Seq<Option<Seq<char>>>) -> Seq<Seq<char>> {
    parsed.filter_map(|o: Option<Seq<char>>| o)
}

/// The titles decoded from the quoted lines of `s`, in order.
pub open spec fn line_titles(s: Seq<char>) -> Seq<Seq<char>> {
    decoded_only(quoted_lines_of(s).map_values(|t: Seq<char>| json_string(t)))
}

/// The decoded strings among `parsed`, in order.
pub fn keep_decoded(parsed: &Vec<Option<String>>) -> (r: Vec<String>)
    ensures
        views(r@) == decoded_only(parsed@.map_values(|o: Option<String>| opt_view(o))),
{
    let ghost pv = parsed@.map_values(|o: Option<String>| opt_view(o));
    let mut out: Vec<String> = Vec::new();
    let mut i: usize = 0;
    while i < parsed.len()
        invariant
            i <= parsed@.len(),
            pv == parsed@.map_values(|o: Option<String>| opt_view(o)),
            views(out@) == decoded_only(pv.subrange(0, i as int)),
        decreases parsed@.len() - i,
    {
        assert(pv.subrange(0, i + 1).drop_last() =~= pv.subrange(0, i as int));
        let ghost before = out@;
        match &parsed[i] {
            Some(t) => {
                out.push(t.clone());
                assert(views(out@) =~= views(before) + seq![t@]);
            },
            None => {},
        }
        i += 1;
    }
    assert(pv.subrange(0, parsed@.len() as int) =~= pv);
    out
}

/// The five titles made from the topic when a reply yields none.
pub open spec fn fallback_titles(topic: Seq<char>) -> Seq<Seq<char>> {
    seq![
        "Introduction to "@ + topic,
        topic + " Fundamentals"@,
        "Advanced "@ + topic + " Concepts"@,
        topic + " Applications"@,
        topic + " Mastery"@,
    ]
}

/// The five titles made from the topic when a reply yields none.
pub fn fallback_module_titles(topic: &str) -> (r: Vec<String>)
    ensures
        views(r@) == fallback_titles(topic@),
{
    let mut r: Vec<String> = Vec::new();
    r.push(String::from_str("Introduction to ").concat(topic));
    r.push(String::from_str(topic).concat(" Fundamentals"));
    r.push(String::from_str("Advanced ").concat(topic).concat(" Concepts"));
    r.push(String::from_str(topic).concat(" Applications"));
    r.push(String::from_str(topic).concat(" Mastery"));
    assert(views(r@) =~= fallback_titles(topic@));
    r
}

/// A strict reading that gave at least one title.
pub open spec fn yields_titles(o: Option<Seq<Seq<char>>>) -> bool {
    match o {
        Some(t) => t.len() > 0,
        None => false,
    }
}

/// The titles of the first reading that gives any, in the order: the whole
/// reply, the cleaned reply, the bracketed part, the quoted lines; the
/// fallback titles where none does.
pub open spec fn pick_titles(
    direct: Option<Seq<Seq<char>>>,
    cleaned: Option<Seq<Seq<char>>>,
    bracketed: Option<Seq<Seq<char>>>,
    per_line: Seq<Seq<char>>,
    topic: Seq<char>,
) -> Seq<Seq<char>> {
    if yields_titles(direct) {
        direct.unwrap()
    } else if yields_titles(cleaned) {
        cleaned.unwrap()
    } else if yields_titles(bracketed) {
        bracketed.unwrap()
    } else if per_line.len() > 0 {
        per_line
    } else {
        fallback_titles(topic)
    }
}

/// The module titles that a reply gives for a topic.
pub open spec fn module_titles(s: Seq<char>, topic: Seq<char>) -> Seq<Seq<char>> {
    pick_titles(
        json_string_list(s),
        json_string_list(cleaned_reply(s)),
        match bracketed(s) {
            Some(b) => json_string_list(b),
            None => None,
        },
        line_titles(s),
        topic,
    )
}

/// The titles of the first reading that gives any, or the fallback titles.
pub fn choose_module_titles(
    direct: Option<Vec<String>>,
    cleaned: Option<Vec<String>>,
    bracketed: Option<Vec<String>>,
    per_line: Vec<String>,
    topic: &str,
) -> (r: Vec<String>)
    ensures
        views(r@) == pick_titles(
            list_view(direct),
            list_view(cleaned),
            list_view(bracketed),
            views(per_line@),
            topic@,
        ),
{
    if let Some(t) = direct {
        if t.len() > 0 {
            return t;
        }
    }
    if let Some(t) = cleaned {
        if t.len() > 0 {
            return t;
        }
    }
    if let Some(t) = bracketed {
        if t.len() > 0 {
            return t;
        }
    }
    if per_line.len() > 0 {
        return per_line;
    }
    fallback_module_titles(topic)
}

/// The module titles that a model's reply gives for a topic: the first of
/// the readings in order that yields any title, else the five fallback
/// titles.
pub fn parse_module_titles(reply: &str, topic: &str) -> (r: Vec<String>)
    ensures
        views(r@) == module_titles(reply@, topic@),
{
    let direct = decode_string_list(reply);
    let cleaned_text = clean_reply(reply);
    let cleaned = decode_string_list(cleaned_text.as_str());
    let sliced = match bracketed_part(reply) {
        Some(b) => decode_string_list(b.as_str()),
        None => None,
    };
    let quoted = quoted_lines(reply);
    let ghost q = quoted_lines_of(reply@);
    assert(views(quoted@).len() == quoted@.len());
    let mut parsed: Vec<Option<String>> = Vec::new();
    let mut i: usize = 0;
    while i < quoted.len()
        invariant
            i <= quoted@.len(),
            q == quoted_lines_of(reply@),
            views(quoted@) == q,
            q.len() == quoted@.len(),
            parsed@.len() == i,
            forall|k: int| 0 <= k < i ==> opt_view(#[trigger] parsed@[k]) == json_string(q[k]),
        decreases quoted@.len() - i,
    {
        assert(views(quoted@)[i as int] == quoted@[i as int]@);
        let d = decode_string(quoted[i].as_str());
        parsed.push(d);
        i += 1;
    }
    assert(parsed@.map_values(|o: Option<String>| opt_view(o)) =~= q.map_values(
        |t: Seq<char>| json_string(t),
    ));
    let per_line = keep_decoded(&parsed);
    choose_module_titles(direct, cleaned, sliced, per_line, topic)
}

/// A reply from which no reading yields a title gives exactly the five
/// fallback titles, in template order, and each of them holds the topic.
pub proof fn lemma_unreadable_reply_gives_fallback_titles(reply: Seq<char>, topic: Seq<char>)
    requires
        !yields_titles(json_string_list(reply)),
        !yields_titles(json_string_list(cleaned_reply(reply))),
        !yields_titles(
            match bracketed(reply) {
                Some(b) => json_string_list(b),
                None => None,
            },
        ),
        line_titles(reply).len() == 0,
    ensures
        module_titles(reply, topic) == fallback_titles(topic),
        module_titles(reply, topic).len() == 5,
        forall|i: int| 0 <= i < 5 ==> has_substring(#[trigger] module_titles(reply, topic)[i], topic),
{
    let t = fallback_titles(topic);
    reveal_strlit("Introduction to ");
    reveal_strlit("Advanced ");
    assert(t[0].subrange(16, 16 + topic.len() as int) =~= topic);
    assert(t[1].subrange(0, topic.len() as int) =~= topic);
    assert(t[2].subrange(9, 9 + topic.len() as int) =~= topic);
    assert(t[3].subrange(0, topic.len() as int) =~= topic);
    assert(t[4].subrange(0, topic.len() as int) =~= topic);
    assert(crate::text::occurs_at(t[0], topic, 16));
    assert(crate::text::occurs_at(t[1], topic, 0));
    assert(crate::text::occurs_at(t[2], topic, 9));
    assert(crate::text::occurs_at(t[3], topic, 0));
    assert(crate::text::occurs_at(t[4], topic, 0));
}

/// The outline made from the topic and the requested difficulty when a
/// reply cannot be read as one.
pub open spec fn is_fallback_outline(o: CourseOutline, topic: Seq<char>, difficulty: Seq<char>) -> bool {
    &&& o.title@ == "Course on "@ + topic
    &&& o.description@ == "A comprehensive course about "@ + topic
    &&& views(o.learning_objectives@) == seq!["Understand the basics of "@ + topic]
    &&& o.estimated_duration@ == "4 weeks"@
    &&& o.difficulty_level@ == difficulty
    &&& o.modules@.len() == 1
    &&& o.modules@[0].id == 1
    &&& o.modules@[0].title@ == "Introduction"@
    &&& o.modules@[0].description@ == "Introduction to "@ + topic
    &&& o.modules@[0].order == 1
    &&& opt_view(o.modules@[0].content) == Some("Learn the fundamentals of "@ + topic)
    &&& o.modules@[0].status@ == "pending"@
}

/// The one-module outline for a topic whose outline reply cannot be read.
pub fn fallback_outline(topic: &str, difficulty: &str) -> (r: CourseOutline)
    ensures
        is_fallback_outline(r, topic@, difficulty@),
{
    let module = CourseModule {
        id: 1,
        title: String::from_str("Introduction"),
        description: String::from_str("Introduction to ").concat(topic),
        order: 1,
        content: Some(String::from_str("Learn the fundamentals of ").concat(topic)),
        status: String::from_str("pending"),
    };
    let mut objectives: Vec<String> = Vec::new();
    objectives.push(String::from_str("Understand the basics of ").concat(topic));
    let mut modules: Vec<CourseModule> = Vec::new();
    modules.push(module);
    let r = CourseOutline {
        title: String::from_str("Course on ").concat(topic),
        description: String::from_str("A comprehensive course about ").concat(topic),
        learning_objectives: objectives,
        estimated_duration: String::from_str("4 weeks"),
        difficulty_level: String::from_str(difficulty),
        modules,
    };
    assert(views(r.learning_objectives@) =~= seq!["Understand the basics of "@ + topic@]);
    r
}

/// The outline read from a reply, or the fallback outline where the reply
/// could not be read as one (`parsed` is `None`).
pub fn outline_or_fallback(parsed: Option<CourseOutline>, topic: &str, difficulty: &str) -> (r:
    CourseOutline)
    ensures
        match parsed {
            Some(o) => r == o,
            None => is_fallback_outline(r, topic@, difficulty@),
        },
{
    match parsed {
        Some(o) => o,
        None => fallback_outline(topic, difficulty),
    }
}

/// The suggestion made from one expertise tag when a reply cannot be read.
pub open spec fn is_fallback_suggestion(s: TopicSuggestion, tag: Seq<char>) -> bool {
    &&& s.topic@ == "Introduction to "@ + tag
    &&& s.description@ == "Learn the basics of "@ + tag
    &&& s.difficulty@ == "beginner"@
    &&& s.expertise_area@ == tag
}

/// How many suggestions a list of `n` tags or read suggestions gives.
pub open spec fn suggestion_count(n: nat) -> nat {
    if n < 3 {
        n
    } else {
        3
    }
}

/// One suggestion for each of the first three expertise tags, in order.
pub fn fallback_suggestions(expertise: &Vec<String>) -> (r: Vec<TopicSuggestion>)
    ensures
        r@.len() == suggestion_count(expertise@.len()),
        forall|i: int| 0 <= i < r@.len() ==> is_fallback_suggestion(#[trigger] r@[i], expertise@[i]@),
{
    let n: usize = if expertise.len() < 3 {
        expertise.len()
    } else {
        3
    };
    let mut r: Vec<TopicSuggestion> = Vec::new();
    let mut i: usize = 0;
    while i < n
        invariant
            n == suggestion_count(expertise@.len()),
            n <= expertise@.len(),
            i <= n,
            r@.len() == i,
            forall|k: int| 0 <= k < i ==> is_fallback_suggestion(#[trigger] r@[k], expertise@[k]@),
        decreases n - i,
    {
        let tag = expertise[i].as_str();
        r.push(
            TopicSuggestion {
                topic: String::from_str("Introduction to ").concat(tag),
                description: String::from_str("Learn the basics of ").concat(tag),
                difficulty: String::from_str("beginner"),
                expertise_area: String::from_str(tag),
            },
        );
        i += 1;
    }
    r
}

/// The first three suggestions read from a reply, or the fallback
/// suggestions where the reply could not be read (`parsed` is `None`).
pub fn suggestions_or_fallback(parsed: Option<Vec<TopicSuggestion>>, expertise: &Vec<String>) -> (r:
    Vec<TopicSuggestion>)
    ensures
        match parsed {
            Some(v) => r@ == v@.subrange(0, suggestion_count(v@.len()) as int),
            None => {
                &&& r@.len() == suggestion_count(expertise@.len())
                &&& forall|i: int|
                    0 <= i < r@.len() ==> is_fallback_suggestion(#[trigger] r@[i], expertise@[i]@)
            },
        },
{
    match parsed {
        Some(v) => {
            let mut v = v;
            v.truncate(3);
            v
        },
        None => fallback_suggestions(expertise),
    }
}

/// Some lowered tag occurs in the lowered topic.
pub open spec fn tag_occurs(lower_topic: Seq<char>, lower_tags: Seq<Seq<char>>) -> bool {
    exists|i: int| 0 <= i < lower_tags.len() && has_substring(lower_topic, #[trigger] lower_tags[i])
}

/// The keyword verdict for a topic: relevant when some expertise tag occurs
/// in it (compared in lower case); 70% confident if so, else 30% with the
/// tags as alternatives.
pub open spec fn is_fallback_validation(
    v: TopicValidation,
    relevant: bool,
    expertise: Seq<Seq<char>>,
) -> bool {
    &&& v.is_relevant == relevant
    &&& v.confidence_percent == (if relevant {
        70u8
    } else {
        30u8
    })
    &&& v.reasoning@ == "Fallback validation based on keyword matching"@
    &&& views(v.suggested_alternatives@) == (if relevant {
        Seq::empty()
    } else {
        expertise
    })
}

/// The lowered forms of a list of strings.
pub open spec fn lowered_all(v: Seq<Seq<char>>) -> Seq<Seq<char>> {
    v.map_values(|e: Seq<char>| lower_of(e))
}

/// Whether some lowered tag occurs in the lowered topic.
pub fn any_tag_occurs(lower_topic: &str, lower_tags: &Vec<String>) -> (r: bool)
    ensures
        r == tag_occurs(lower_topic@, views(lower_tags@)),
{
    let mut i: usize = 0;
    while i < lower_tags.len()
        invariant
            i <= lower_tags@.len(),
            forall|k: int| 0 <= k < i ==> !has_substring(lower_topic@, #[trigger] views(lower_tags@)[k]),
        decreases lower_tags@.len() - i,
    {
        if contains_str(lower_topic, lower_tags[i].as_str()) {
            assert(has_substring(lower_topic@, views(lower_tags@)[i as int]));
            return true;
        }
        i += 1;
    }
    false
}

/// The keyword verdict, given the topic and the tags already lowered.
pub fn validation_from_lowered(
    lower_topic: &str,
    lower_tags: &Vec<String>,
    expertise: &Vec<String>,
) -> (r: TopicValidation)
    ensures
        is_fallback_validation(r, tag_occurs(lower_topic@, views(lower_tags@)), views(expertise@)),
{
    let relevant = any_tag_occurs(lower_topic, lower_tags);
    let alternatives = if relevant {
        let e: Vec<String> = Vec::new();
        assert(views(e@) =~= Seq::<Seq<char>>::empty());
        e
    } else {
        copy_strings(expertise)
    };
    TopicValidation {
        is_relevant: relevant,
        confidence_percent: if relevant {
            70
        } else {
            30
        },
        reasoning: String::from_str("Fallback validation based on keyword matching"),
        suggested_alternatives: alternatives,
    }
}

/// The keyword verdict for a topic whose validation reply cannot be read.
pub fn fallback_validation(topic: &str, expertise: &Vec<String>) -> (r: TopicValidation)
    ensures
        is_fallback_validation(
            r,
            tag_occurs(lower_of(topic@), lowered_all(views(expertise@))),
            views(expertise@),
        ),
{
    let lower_topic = lowercase(topic);
    let mut lower_tags: Vec<String> = Vec::new();
    let mut i: usize = 0;
    while i < expertise.len()
        invariant
            i <= expertise@.len(),
            views(lower_tags@) == lowered_all(views(expertise@)).subrange(0, i as int),
        decreases expertise@.len() - i,
    {
        let ghost before = lower_tags@;
        let l = lowercase(expertise[i].as_str());
        lower_tags.push(l);
        assert(views(lower_tags@) =~= views(before).push(l@));
        assert(views(lower_tags@) =~= lowered_all(views(expertise@)).subrange(0, i + 1));
        i += 1;
    }
    assert(lowered_all(views(expertise@)).subrange(0, expertise@.len() as int) =~= lowered_all(
        views(expertise@),
    ));
    validation_from_lowered(lower_topic.as_str(), &lower_tags, expertise)
}

/// The verdict read from a reply, or the keyword verdict where the reply
/// could not be read (`parsed` is `None`).
pub fn validation_or_fallback(
    parsed: Option<TopicValidation>,
    topic: &str,
    expertise: &Vec<String>,
) -> (r: TopicValidation)
    ensures
        match parsed {
            Some(v) => r == v,
            None => is_fallback_validation(
                r,
                tag_occurs(lower_of(topic@), lowered_all(views(expertise@))),
                views(expertise@),
            ),
        },
{
    match parsed {
        Some(v) => v,
        None => fallback_validation(topic, expertise),
    }
}

} // verus!
