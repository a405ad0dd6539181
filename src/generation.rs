use vstd::prelude::*;
use vstd::string::{StrSliceExecFns, StringExecFns};
use vstd::utf8::encode_utf8;

use crate::import::{lines_of, split_lines, trim, trim_text, views};
use crate::keyed::StrMap;
use crate::rag::decimal_text;

verus! {

/// A configured interviewer persona for question generation.
pub struct PersonaConfig {
    pub name: String,
    pub description: String,
    pub prompt: String,
}

/// Used when neither the requested persona nor the balanced one is
/// configured.
pub const DEFAULT_PERSONA_PROMPT: &'static str = "You are an experienced interviewer providing balanced, constructive feedback on interview answers.";

/// Persona used when the requested one is not configured.
pub const FALLBACK_PERSONA: &'static str = "balanced";

pub open spec fn persona_prompt_text(personas: Map<Seq<char>, PersonaConfig>, persona: Seq<char>) -> Seq<
    char,
> {
    if personas.contains_key(persona) {
        personas[persona].prompt@
    } else if personas.contains_key(FALLBACK_PERSONA@) {
        personas[FALLBACK_PERSONA@].prompt@
    } else {
        DEFAULT_PERSONA_PROMPT@
    }
}

/// The system prompt of a persona: its own, else the balanced persona's,
/// else a built-in one.
pub fn persona_prompt(personas: &StrMap<PersonaConfig>, persona: &String) -> (r: String)
    requires
        personas.wf(),
    ensures
        r@ == persona_prompt_text(personas.view(), persona@),
{
    match personas.get(persona) {
        Some(c) => c.prompt.clone(),
        None => {
            let balanced = String::from_str(FALLBACK_PERSONA);
            match personas.get(&balanced) {
                Some(c) => c.prompt.clone(),
                None => String::from_str(DEFAULT_PERSONA_PROMPT),
            }
        },
    }
}

pub const QUESTION_LIST_RULE: &'static str = " 你必须只返回有效的JSON数组，不要任何额外的文字或解释。";

/// The system prompt that asks a persona for a bare JSON array.
pub fn question_list_system(persona_prompt: &str) -> (r: String)
    ensures
        r@ == persona_prompt@ + QUESTION_LIST_RULE@,
{
    String::from_str(persona_prompt).concat(QUESTION_LIST_RULE)
}

pub open spec fn reference_section(context: Option<Seq<char>>) -> Seq<char> {
    match context {
        Some(c) => "\n\n知识库参考问题：\n"@ + c + "\n\n你可以参考以上示例，但需要根据提供的简历和岗位描述生成新的相关问题。"@,
        None => Seq::empty(),
    }
}

pub open spec fn question_list_text(
    resume: Seq<char>,
    jd: Seq<char>,
    count: nat,
    context: Option<Seq<char>>,
) -> Seq<char> {
    "根据以下简历和岗位描述，生成 "@ + decimal_text(count) + " 个相关的面试问题。所有问题必须使用中文。"@
        + reference_section(context) + "\n\n简历：\n"@ + resume + "\n\n岗位描述：\n"@ + jd
        + "\n\n重要提示：只返回JSON数组，不要任何解释说明。格式：[\"问题1\", \"问题2\", ...]"@
}

/// The request for `count` questions on a résumé and job description,
/// optionally with reference questions from the knowledge base.
pub fn question_list_request(resume: &str, job_description: &str, count: usize, context: Option<&str>) -> (r:
    String)
    ensures
        r@ == question_list_text(
            resume@,
            job_description@,
            count as nat,
            match context {
                Some(c) => Some(c@),
                None => None,
            },
        ),
{
    let r = String::from_str("根据以下简历和岗位描述，生成 ");
    let r = r.concat(crate::rag::decimal(count).as_str());
    let r = r.concat(" 个相关的面试问题。所有问题必须使用中文。");
    let r = match context {
        Some(c) => r.concat("\n\n知识库参考问题：\n").concat(c).concat(
            "\n\n你可以参考以上示例，但需要根据提供的简历和岗位描述生成新的相关问题。",
        ),
        None => r,
    };
    let r = r.concat("\n\n简历：\n");
    let r = r.concat(resume);
    let r = r.concat("\n\n岗位描述：\n");
    let r = r.concat(job_description);
    r.concat("\n\n重要提示：只返回JSON数组，不要任何解释说明。格式：[\"问题1\", \"问题2\", ...]")
}

pub const BEST_ANSWER_SYSTEM_PROMPT: &'static str = "你是一位资深面试辅导专家。请生成一份针对该面试问题的优秀答案，语言简洁专业，结构清晰，突出关键要点。";

pub open spec fn best_answer_text(question: Seq<char>, jd: Seq<char>) -> Seq<char> {
    "面试问题："@ + question + "\n\n岗位描述："@ + jd
        + "\n\n请生成一份高质量的答案示例，包含：\n1. 核心要点\n2. 具体举例或经验\n3. 与岗位的关联\n\n直接输出答案内容，不需要额外格式或标题。"@
}

/// The request for a reference answer to a question, from the question and
/// the job description alone.
pub fn best_answer_request(question: &str, job_description: &str) -> (r: String)
    ensures
        r@ == best_answer_text(question@, job_description@),
{
    String::from_str("面试问题：").concat(question).concat("\n\n岗位描述：").concat(job_description).concat(
        "\n\n请生成一份高质量的答案示例，包含：\n1. 核心要点\n2. 具体举例或经验\n3. 与岗位的关联\n\n直接输出答案内容，不需要额外格式或标题。",
    )
}

/// Names what `serde_json::from_str::<Vec<String>>` reads from a text: the
/// strings of a JSON array of strings, or nothing when the text is not one.
pub uninterp spec fn json_string_list(s: Seq<char>) -> Option<Seq<Seq<char>>>;

/// Relies on `serde_json::from_str` at type `Vec<String>`: the outcome
/// depends on the text alone.
#[verifier::external_body]
fn parse_string_list(text: &str) -> (r: Option<Vec<String>>)
    ensures
        r is Some == json_string_list(text@) is Some,
        r is Some ==> views(r->0@) == json_string_list(text@)->0,
{
    serde_json::from_str::<Vec<String>>(text).ok()
}

/// Names what `char::is_numeric` returns.
pub uninterp spec fn numeric(c: char) -> bool;

/// Relies on `char::is_numeric`: a property of the character alone.
#[verifier::external_body]
fn is_numeric_char(c: char) -> (r: bool)
    ensures
        r == numeric(c),
{
    c.is_numeric()
}

/// A character of a list marker such as "1." or "- ".
pub open spec fn marker_char(c: char) -> bool {
    numeric(c) || c == '.' || c == '-' || c == ' '
}

pub open spec fn strip_markers(s: Seq<char>) -> Seq<char>
    decreases s.len(),
{
    if s.len() > 0 && marker_char(s[0]) {
        strip_markers(s.drop_first())
    } else {
        s
    }
}

pub open spec fn strip_quotes_start(s: Seq<char>) -> Seq<char>
    decreases s.len(),
{
    if s.len() > 0 && s[0] == '"' {
        strip_quotes_start(s.drop_first())
    } else {
        s
    }
}

pub open spec fn strip_quotes_end(s: Seq<char>) -> Seq<char>
    decreases s.len(),
{
    if s.len() > 0 && s.last() == '"' {
        strip_quotes_end(s.drop_last())
    } else {
        s
    }
}

/// A trimmed line kept by the line-based reading: not empty, not a bracket
/// line, longer than 5 bytes.
pub open spec fn kept_line(t: Seq<char>) -> bool {
    t.len() > 0 && t[0] != '[' && t[0] != ']' && (encode_utf8(t).len() as usize) > 5
}

/// A kept line without its list marker, white space and quotes.
pub open spec fn cleaned_line(t: Seq<char>) -> Seq<char> {
    strip_quotes_end(strip_quotes_start(trim(strip_markers(t))))
}

/// The questions read line by line out of `lines`.
pub open spec fn line_questions(lines: Seq<Seq<char>>) -> Seq<Seq<char>>
    decreases lines.len(),
{
    if lines.len() == 0 {
        Seq::empty()
    } else {
        let prev = line_questions(lines.drop_last());
        let t = trim(lines.last());
        if kept_line(t) && cleaned_line(t).len() > 0 {
            prev.push(cleaned_line(t))
        } else {
            prev
        }
    }
}

/// The span from the first `[` to the last `]` of `s`, when the first comes
/// before the last.
pub open spec fn bracket_span(s: Seq<char>) -> Option<(int, int)> {
    if exists|i: int| 0 <= i < s.len() && s[i] == '[' {
        if exists|j: int| 0 <= j < s.len() && s[j] == ']' {
            let i = choose|i: int| 0 <= i < s.len() && s[i] == '[' && forall|k: int| 0 <= k < i ==> s[k] != '[';
            let j = choose|j: int| 0 <= j < s.len() && s[j] == ']' && forall|k: int| j < k < s.len() ==> s[k] != ']';
            if i < j { Some((i, j)) } else { None }
        } else {
            None
        }
    } else {
        None
    }
}

/// The text from the first `[` to the last `]`, both included.
pub open spec fn bracket_part(s: Seq<char>) -> Seq<char> {
    match bracket_span(s) {
        Some((i, j)) => s.subrange(i, j + 1),
        None => Seq::empty(),
    }
}

/// The questions read out of a reply: the whole reply as a JSON array of
/// strings; else the part from the first `[` to the last `]` as one; else the
/// non-empty list read line by line; else nothing.
pub open spec fn extracted_questions(s: Seq<char>) -> Option<Seq<Seq<char>>> {
    if json_string_list(s) is Some {
        json_string_list(s)
    } else if bracket_span(s) is Some && json_string_list(bracket_part(s)) is Some {
        json_string_list(bracket_part(s))
    } else if line_questions(lines_of(s)).len() > 0 {
        Some(line_questions(lines_of(s)))
    } else {
        None
    }
}

fn is_marker(c: char) -> (r: bool)
    ensures
        r == marker_char(c),
{
    is_numeric_char(c) || c == '.' || c == '-' || c == ' '
}

fn strip_markers_exec(s: &str) -> (r: String)
    ensures
        r@ == strip_markers(s@),
{
    let n = s.unicode_len();
    let mut i: usize = 0;
    proof {
        assert(s@.subrange(0, n as int) =~= s@);
    }
    while i < n && is_marker(s.get_char(i))
        invariant
            n == s@.len(),
            i <= n,
            strip_markers(s@) == strip_markers(s@.subrange(i as int, n as int)),
        decreases n - i,
    {
        proof {
            let t = s@.subrange(i as int, n as int);
            assert(t.drop_first() =~= s@.subrange(i + 1, n as int));
        }
        i = i + 1;
    }
    proof {
        let t = s@.subrange(i as int, n as int);
        if i < n {
            assert(t[0] == s@[i as int]);
        }
    }
    String::from_str(s.substring_char(i, n))
}

fn strip_quotes_exec(s: &str) -> (r: String)
    ensures
        r@ == strip_quotes_end(strip_quotes_start(s@)),
{
    let n = s.unicode_len();
    proof {
        assert(s@.subrange(0, n as int) =~= s@);
    }
    let mut i: usize = 0;
    while i < n && s.get_char(i) == '"'
        invariant
            n == s@.len(),
            i <= n,
            strip_quotes_start(s@) == strip_quotes_start(s@.subrange(i as int, n as int)),
        decreases n - i,
    {
        proof {
            let t = s@.subrange(i as int, n as int);
            assert(t.drop_first() =~= s@.subrange(i + 1, n as int));
        }
        i = i + 1;
    }
    proof {
        let t = s@.subrange(i as int, n as int);
        if i < n {
            assert(t[0] == s@[i as int]);
        }
    }
    let mut j: usize = n;
    while j > i && s.get_char(j - 1) == '"'
        invariant
            n == s@.len(),
            i <= j <= n,
            strip_quotes_start(s@) == s@.subrange(i as int, n as int),
            strip_quotes_end(strip_quotes_start(s@)) == strip_quotes_end(s@.subrange(i as int, j as int)),
        decreases j - i,
    {
        proof {
            let t = s@.subrange(i as int, j as int);
            assert(t.drop_last() =~= s@.subrange(i as int, j - 1));
        }
        j = j - 1;
    }
    proof {
        let t = s@.subrange(i as int, j as int);
        if j > i {
            assert(t.last() == s@[j - 1]);
        }
    }
    String::from_str(s.substring_char(i, j))
}

/// The questions of a reply read line by line.
fn questions_by_line(text: &str) -> (r: Vec<String>)
    ensures
        views(r@) == line_questions(lines_of(text@)),
{
    let lines = split_lines(text);
    let ghost ls = views(lines@);
    let mut out: Vec<String> = Vec::new();
    let mut i: usize = 0;
    while i < lines.len()
        invariant
            i <= lines@.len(),
            ls == views(lines@),
            ls == lines_of(text@),
            views(out@) == line_questions(ls.subrange(0, i as int)),
        decreases lines@.len() - i,
    {
        let t = trim_text(lines[i].as_str());
        proof {
            let sub = ls.subrange(0, i + 1);
            assert(sub.drop_last() =~= ls.subrange(0, i as int));
            assert(sub.last() == lines@[i as int]@);
        }
        let m = t.as_str().unicode_len();
        let keep = m > 0 && t.as_str().get_char(0) != '[' && t.as_str().get_char(0) != ']' && t.as_str().len() > 5;
        if keep {
            let stripped = strip_markers_exec(t.as_str());
            let inner = trim_text(stripped.as_str());
            let q = strip_quotes_exec(inner.as_str());
            if q.as_str().unicode_len() > 0 {
                let ghost before = out@;
                out.push(q);
                proof {
                    assert(views(out@) =~= views(before).push(q@));
                }
            }
        }
        i = i + 1;
    }
    proof {
        assert(ls.subrange(0, ls.len() as int) =~= ls);
    }
    out
}

/// Position of the first `[`, if any.
fn first_open_bracket(s: &str) -> (r: Option<usize>)
    ensures
        r is Some ==> r->0 < s@.len() && s@[r->0 as int] == '[' && forall|k: int| 0 <= k < r->0 ==> s@[k] != '[',
        r is None ==> forall|k: int| 0 <= k < s@.len() ==> s@[k] != '[',
{
    let n = s.unicode_len();
    let mut i: usize = 0;
    while i < n
        invariant
            n == s@.len(),
            i <= n,
            forall|k: int| 0 <= k < i ==> s@[k] != '[',
        decreases n - i,
    {
        if s.get_char(i) == '[' {
            return Some(i);
        }
        i = i + 1;
    }
    None
}

/// Position of the last `]`, if any.
fn last_close_bracket(s: &str) -> (r: Option<usize>)
    ensures
        r is Some ==> r->0 < s@.len() && s@[r->0 as int] == ']' && forall|k: int| r->0 < k < s@.len() ==> s@[k] != ']',
        r is None ==> forall|k: int| 0 <= k < s@.len() ==> s@[k] != ']',
{
    let n = s.unicode_len();
    let mut j: usize = n;
    while j > 0
        invariant
            n == s@.len(),
            j <= n,
            forall|k: int| j <= k < n ==> s@[k] != ']',
        decreases j,
    {
        if s.get_char(j - 1) == ']' {
            return Some(j - 1);
        }
        j = j - 1;
    }
    None
}

/// Reads the list of questions out of a reply that was asked for a JSON
/// array of strings; nothing when no question can be read.
pub fn extract_json_array(text: &str) -> (r: Option<Vec<String>>)
    ensures
        r is Some == extracted_questions(text@) is Some,
        r is Some ==> views(r->0@) == extracted_questions(text@)->0,
{
    let n = text.unicode_len();
    let whole = parse_string_list(text);
    if whole.is_some() {
        return whole;
    }
    let open = first_open_bracket(text);
    let close = last_close_bracket(text);
    proof {
        let s = text@;
        if open is Some && close is Some {
            let i = open->0 as int;
            let j = close->0 as int;
            assert(exists|x: int| 0 <= x < s.len() && s[x] == '[');
            assert(exists|x: int| 0 <= x < s.len() && s[x] == ']');
            let ci = choose|x: int| 0 <= x < s.len() && s[x] == '[' && forall|k: int| 0 <= k < x ==> s[k] != '[';
            let cj = choose|x: int| 0 <= x < s.len() && s[x] == ']' && forall|k: int| x < k < s.len() ==> s[k] != ']';
            assert(ci == i) by {
                assert(s[i] == '[');
                assert(s[ci] == '[');
            }
            assert(cj == j) by {
                assert(s[j] == ']');
                assert(s[cj] == ']');
            }
        }
        if open is None {
            assert(!(exists|x: int| 0 <= x < s.len() && s[x] == '['));
        }
        if close is None {
            assert(!(exists|x: int| 0 <= x < s.len() && s[x] == ']'));
        }
    }
    match (open, close) {
        (Some(i), Some(j)) => {
            if i < j && j < n {
                let part = text.substring_char(i, j + 1);
                let inner = parse_string_list(part);
                if inner.is_some() {
                    return inner;
                }
            }
        },
        _ => {},
    }
    let by_line = questions_by_line(text);
    if by_line.len() == 0 {
        return None;
    }
    Some(by_line)
}

} // verus!
