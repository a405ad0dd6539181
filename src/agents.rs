use vstd::prelude::*;
use vstd::string::StringExecFns;

use crate::state_machine::InterviewPhase;

verus! {

/// The persona that produced, or should produce, a conversation turn. The set
/// of personas is closed: each variant carries its own prompts, fallback
/// assessment and follow-up rule.
#[derive(Debug, Clone, Copy, PartialEq, Eq, Structural)]
pub enum InterviewerRole {
    Technical,
    HR,
    Business,
}

/// The assessment of one answer. `score` is in hundredths of a point on the
/// 1 to 10 scale (850 stands for 8.5).
pub struct AnalysisResult {
    pub score: u32,
    pub strengths: Vec<String>,
    pub improvements: Vec<String>,
    pub summary: String,
}

impl AnalysisResult {
    /// `self` and `other` hold the same assessment.
    pub open spec fn same_as(&self, other: &AnalysisResult) -> bool {
        &&& self.score == other.score
        &&& self.strengths@ == other.strengths@
        &&& self.improvements@ == other.improvements@
        &&& self.summary == other.summary
    }

    /// A copy of the assessment.
    pub fn duplicate(&self) -> (r: AnalysisResult)
        ensures
            r.same_as(self),
    {
        let strengths = self.strengths.clone();
        let improvements = self.improvements.clone();
        proof {
            assert(strengths@ =~= self.strengths@);
            assert(improvements@ =~= self.improvements@);
        }
        AnalysisResult {
            score: self.score,
            strengths,
            improvements,
            summary: self.summary.clone(),
        }
    }
}

/// One question of the interview, with the answer and its assessment once
/// they are known.
pub struct ConversationTurn {
    pub role: InterviewerRole,
    pub role_name: String,
    pub question: String,
    pub answer: Option<String>,
    pub analysis: Option<AnalysisResult>,
}

/// Everything the personas see of one interview.
pub struct InterviewContext {
    pub resume: String,
    pub job_description: String,
    pub conversation_history: Vec<ConversationTurn>,
    pub current_phase: InterviewPhase,
}

/// One message of a chat-completion request.
pub struct ChatMessage {
    pub role: String,
    pub content: String,
}

pub open spec fn role_name_text(r: InterviewerRole) -> Seq<char> {
    match r {
        InterviewerRole::Technical => "技术面试官"@,
        InterviewerRole::HR => "HR面试官"@,
        InterviewerRole::Business => "业务面试官"@,
    }
}

/// Score of the assessment used when the service's reply cannot be read.
pub open spec fn fallback_score(r: InterviewerRole) -> u32 {
    match r {
        InterviewerRole::Technical => 700,
        _ => 750,
    }
}

pub open spec fn fallback_strength(r: InterviewerRole) -> Seq<char> {
    match r {
        InterviewerRole::Technical => "回答完整"@,
        InterviewerRole::HR => "案例真实"@,
        InterviewerRole::Business => "思路清晰"@,
    }
}

pub open spec fn fallback_improvement(r: InterviewerRole) -> Seq<char> {
    match r {
        InterviewerRole::Technical => "可以更详细展开"@,
        InterviewerRole::HR => "可以更结构化表达"@,
        InterviewerRole::Business => "可以更关注业务指标"@,
    }
}

pub open spec fn fallback_summary(r: InterviewerRole) -> Seq<char> {
    match r {
        InterviewerRole::Technical => "回答基本到位，有改进空间。"@,
        InterviewerRole::HR => "候选人具备基本的软技能。"@,
        InterviewerRole::Business => "候选人对业务有基本理解。"@,
    }
}

/// `a` is the fixed assessment of persona `r`.
pub open spec fn is_fallback(r: InterviewerRole, a: AnalysisResult) -> bool {
    &&& a.score == fallback_score(r)
    &&& a.strengths@.len() == 1
    &&& a.strengths@[0]@ == fallback_strength(r)
    &&& a.improvements@.len() == 1
    &&& a.improvements@[0]@ == fallback_improvement(r)
    &&& a.summary@ == fallback_summary(r)
}

/// Answers shorter than this many bytes call for a follow-up question.
pub open spec fn follow_up_min_len(r: InterviewerRole) -> nat {
    match r {
        InterviewerRole::Technical => 100,
        InterviewerRole::HR => 150,
        InterviewerRole::Business => 120,
    }
}

/// Scores below this (in hundredths) call for a follow-up question.
pub open spec fn follow_up_min_score(r: InterviewerRole) -> u32 {
    match r {
        InterviewerRole::Technical => 700,
        _ => 750,
    }
}

pub open spec fn analysis_request_text(question: Seq<char>, answer: Seq<char>) -> Seq<char> {
    "问题："@ + question + "\n\n候选人回答："@ + answer + "\n\n请分析回答质量并输出JSON格式结果。"@
}

pub open spec fn question_request_text(
    r: InterviewerRole,
    jd: Seq<char>,
    resume: Seq<char>,
    references: Seq<char>,
) -> Seq<char> {
    match r {
        InterviewerRole::Technical => "基于以下JD和候选人简历，生成一个技术面试问题。\n\nJD: "@ + jd
            + "\n\n简历: "@ + resume + "\n\n参考题库: "@ + references + TECH_QUESTION_RULES@,
        InterviewerRole::HR => "基于以下JD和候选人简历，生成一个行为面试问题。\n\nJD: "@ + jd
            + "\n\n简历: "@ + resume + HR_QUESTION_RULES@,
        InterviewerRole::Business => "基于以下JD和候选人简历，生成一个业务理解类问题。\n\nJD: "@
            + jd + "\n\n简历: "@ + resume + BUSINESS_QUESTION_RULES@,
    }
}

pub const TECH_QUESTION_RULES: &'static str = "\n\n要求：\n1. 只输出问题本身，不要包含任何引导说明、评估标准或内部提示\n2. 使用纯文本格式，禁止使用Markdown（如**加粗**、#标题等）\n3. 直接以面试官口吴提问，简洁自然";

pub const HR_QUESTION_RULES: &'static str = "\n\n要求：\n1. 只输出问题本身，不要包含任何引导说明、评估标准、STAR结构提示或内部注释\n2. 使用纯文本格式，禁止使用Markdown（如**加粗**、#标题等）\n3. 直接以面试官口吴提问，简洁自然，像真实面试一样";

pub const BUSINESS_QUESTION_RULES: &'static str = "\n\n要求：\n1. 只输出问题本身，不要包含任何引导说明、评估标准或内部提示\n2. 使用纯文本格式，禁止使用Markdown（如**加粗**、#标题等）\n3. 直接以面试官口吴提问，简洁自然";

pub const TECH_SYSTEM_PROMPT: &'static str = "你是一位资深技术面试官，拥有10年以上技术管理经验。\n\n评估重点：\n- 技术深度：对核心技术原理的理解程度\n- 问题解决：分析问题和设计解决方案的能力\n- 系统设计：架构思维和技术选型判断力\n- 代码质量：编码规范和最佳实践意识\n\n提问风格：\n- 从基础概念切入，逐步深入到底层原理\n- 追问实现细节和边界情况\n- 结合实际场景考察应用能力\n\n语气：专业、严谨、有深度";

pub const HR_SYSTEM_PROMPT: &'static str = "你是一位经验丰富的HR面试官，专注于评估候选人的软技能和文化匹配度。\n\n评估重点：\n- 沟通能力：表达清晰度、逻辑性\n- 团队协作：过往协作经验和冲突处理\n- 职业规划：发展目标与岗位匹配度\n- 价值观：工作态度和职业素养\n\n提问风格：\n- 使用行为面试法（STAR）\n- 关注过往经历中的具体案例\n- 挖掘候选人的真实想法\n\n语气：亲和、专业、善于引导";

pub const BUSINESS_SYSTEM_PROMPT: &'static str = "你是一位业务部门负责人，关注候选人能否快速上手并产出业务价值。\n\n评估重点：\n- 业务理解：对行业和业务的认知深度\n- 落地能力：将想法转化为可执行方案\n- 结果导向：过往项目的实际成果\n- 学习能力：快速掌握新领域的能力\n\n提问风格：\n- 从实际业务场景出发\n- 关注解决问题的思路和方法\n- 考察数据驱动决策能力\n\n语气：务实、结果导向、注重细节";

pub const TECH_ANALYSIS_PROMPT: &'static str = "请分析候选人的回答质量。\n\n评估维度：\n1. 技术准确性：回答是否准确无误\n2. 深度广度：对问题的理解深度和覆盖广度\n3. 表达逻辑：回答是否条理清晰、有逻辑\n4. 实践经验：是否有实际项目经验支撑\n\n输出格式（JSON）：\n{\n  \"score\": 8.5,\n  \"strengths\": [\"技术理解深入\", \"有实践经验\"],\n  \"improvements\": [\"可以更详细说明XXX\"],\n  \"summary\": \"候选人对该技术有扎实理解...\"\n}";

pub const HR_ANALYSIS_PROMPT: &'static str = "请分析候选人的回答质量。\n\n评估维度：\n1. STAR结构：是否包含情境、任务、行动、结果\n2. 真实性：案例的真实性和具体性\n3. 沟通表达：表达是否清晰、有条理\n4. 文化匹配：价值观是否与公司文化匹配\n\n输出格式（JSON）：\n{\n  \"score\": 8.0,\n  \"strengths\": [\"案例真实具体\", \"沟通表达清晰\"],\n  \"improvements\": [\"可以更多展示XXX\"],\n  \"summary\": \"候选人具备良好的团队协作能力...\"\n}";

pub const BUSINESS_ANALYSIS_PROMPT: &'static str = "请分析候选人的回答质量。\n\n评估维度：\n1. 业务洞察：对业务本质的理解\n2. 方法论：解决问题的系统性方法\n3. 数据敏感度：是否用数据支撑判断\n4. 实际成果：项目的可量化成果\n\n输出格式（JSON）：\n{\n  \"score\": 8.2,\n  \"strengths\": [\"业务理解透彻\", \"有数据支撑\"],\n  \"improvements\": [\"可以更多展示XXX\"],\n  \"summary\": \"候选人具备较强的业务落地能力...\"\n}";

/// The model every persona asks.
pub const INTERVIEW_MODEL: &'static str = "Pro/Qwen/Qwen2.5-7B-Instruct";

/// Names what `{:?}` prints for a list of strings.
pub uninterp spec fn debug_list_text(items: Seq<Seq<char>>) -> Seq<char>;

pub open spec fn views_of(items: Seq<String>) -> Seq<Seq<char>> {
    items.map_values(|s: String| s@)
}

/// Relies on the `Debug` impl of `Vec<String>` through `format!("{:?}", ..)`:
/// the text depends on the strings alone.
#[verifier::external_body]
fn debug_list(items: &Vec<String>) -> (r: String)
    ensures
        r@ == debug_list_text(views_of(items@)),
{
    format!("{:?}", items)
}

impl InterviewerRole {
    /// Display name of the persona.
    pub fn role_name(&self) -> (r: &'static str)
        ensures
            r@ == role_name_text(*self),
    {
        match self {
            InterviewerRole::Technical => "技术面试官",
            InterviewerRole::HR => "HR面试官",
            InterviewerRole::Business => "业务面试官",
        }
    }

    /// Avatar identifier of the persona.
    pub fn avatar(&self) -> (r: &'static str)
        ensures
            r@ == match *self {
                InterviewerRole::Technical => "tech"@,
                InterviewerRole::HR => "hr"@,
                InterviewerRole::Business => "business"@,
            },
    {
        match self {
            InterviewerRole::Technical => "tech",
            InterviewerRole::HR => "hr",
            InterviewerRole::Business => "business",
        }
    }

    /// Instruction that sets up the persona for asking questions.
    pub fn system_prompt(&self) -> (r: &'static str)
        ensures
            r@ == match *self {
                InterviewerRole::Technical => TECH_SYSTEM_PROMPT@,
                InterviewerRole::HR => HR_SYSTEM_PROMPT@,
                InterviewerRole::Business => BUSINESS_SYSTEM_PROMPT@,
            },
    {
        match self {
            InterviewerRole::Technical => TECH_SYSTEM_PROMPT,
            InterviewerRole::HR => HR_SYSTEM_PROMPT,
            InterviewerRole::Business => BUSINESS_SYSTEM_PROMPT,
        }
    }

    /// Instruction that asks for a JSON assessment of an answer.
    pub fn analysis_prompt(&self) -> (r: &'static str)
        ensures
            r@ == match *self {
                InterviewerRole::Technical => TECH_ANALYSIS_PROMPT@,
                InterviewerRole::HR => HR_ANALYSIS_PROMPT@,
                InterviewerRole::Business => BUSINESS_ANALYSIS_PROMPT@,
            },
    {
        match self {
            InterviewerRole::Technical => TECH_ANALYSIS_PROMPT,
            InterviewerRole::HR => HR_ANALYSIS_PROMPT,
            InterviewerRole::Business => BUSINESS_ANALYSIS_PROMPT,
        }
    }

    /// The request for one question, built from the job description, the
    /// résumé and, for the technical persona, reference questions retrieved
    /// from the knowledge base (an empty list when retrieval is unavailable).
    pub fn question_request(&self, context: &InterviewContext, references: &Vec<String>) -> (r:
        String)
        ensures
            r@ == question_request_text(
                *self,
                context.job_description@,
                context.resume@,
                debug_list_text(views_of(references@)),
            ),
    {
        match self {
            InterviewerRole::Technical => {
                let listed = debug_list(references);
                let r = String::from_str("基于以下JD和候选人简历，生成一个技术面试问题。\n\nJD: ");
                let r = r.concat(context.job_description.as_str());
                let r = r.concat("\n\n简历: ");
                let r = r.concat(context.resume.as_str());
                let r = r.concat("\n\n参考题库: ");
                let r = r.concat(listed.as_str());
                r.concat(TECH_QUESTION_RULES)
            },
            InterviewerRole::HR => {
                let r = String::from_str("基于以下JD和候选人简历，生成一个行为面试问题。\n\nJD: ");
                let r = r.concat(context.job_description.as_str());
                let r = r.concat("\n\n简历: ");
                let r = r.concat(context.resume.as_str());
                r.concat(HR_QUESTION_RULES)
            },
            InterviewerRole::Business => {
                let r = String::from_str("基于以下JD和候选人简历，生成一个业务理解类问题。\n\nJD: ");
                let r = r.concat(context.job_description.as_str());
                let r = r.concat("\n\n简历: ");
                let r = r.concat(context.resume.as_str());
                r.concat(BUSINESS_QUESTION_RULES)
            },
        }
    }

    /// The fixed assessment used when the service's reply is not a readable
    /// JSON assessment.
    pub fn fallback_analysis(&self) -> (r: AnalysisResult)
        ensures
            is_fallback(*self, r),
    {
        match self {
            InterviewerRole::Technical => AnalysisResult {
                score: 700,
                strengths: vec![String::from_str("回答完整")],
                improvements: vec![String::from_str("可以更详细展开")],
                summary: String::from_str("回答基本到位，有改进空间。"),
            },
            InterviewerRole::HR => AnalysisResult {
                score: 750,
                strengths: vec![String::from_str("案例真实")],
                improvements: vec![String::from_str("可以更结构化表达")],
                summary: String::from_str("候选人具备基本的软技能。"),
            },
            InterviewerRole::Business => AnalysisResult {
                score: 750,
                strengths: vec![String::from_str("思路清晰")],
                improvements: vec![String::from_str("可以更关注业务指标")],
                summary: String::from_str("候选人对业务有基本理解。"),
            },
        }
    }

    /// The assessment of an answer from what was read out of the service's
    /// reply: the reply's assessment when it was one, else the persona's
    /// fallback. A reply that cannot be read never fails the turn.
    pub fn analyze_reply(&self, parsed: Option<AnalysisResult>) -> (r: AnalysisResult)
        ensures
            parsed is Some ==> r == parsed->0,
            parsed is None ==> is_fallback(*self, r),
    {
        match parsed {
            Some(a) => a,
            None => self.fallback_analysis(),
        }
    }

    /// Whether the answer calls for a follow-up question: it is short (in
    /// bytes) or scored low, by the persona's own thresholds.
    pub fn should_follow_up(&self, answer: &str, analysis: &AnalysisResult) -> (r: bool)
        ensures
            r == ((answer.len() as nat) < follow_up_min_len(*self) || analysis.score
                < follow_up_min_score(*self)),
    {
        match self {
            InterviewerRole::Technical => answer.len() < 100 || analysis.score < 700,
            InterviewerRole::HR => answer.len() < 150 || analysis.score < 750,
            InterviewerRole::Business => answer.len() < 120 || analysis.score < 750,
        }
    }
}

/// The request that asks a persona to assess one answer.
pub fn analysis_request(question: &str, answer: &str) -> (r: String)
    ensures
        r@ == analysis_request_text(question@, answer@),
{
    let r = String::from_str("问题：");
    let r = r.concat(question);
    let r = r.concat("\n\n候选人回答：");
    let r = r.concat(answer);
    r.concat("\n\n请分析回答质量并输出JSON格式结果。")
}

/// The messages of one completion request: the system prompt, when there is
/// one, then the user's prompt.
pub fn build_messages(system_prompt: Option<&str>, user_prompt: &str) -> (r: Vec<ChatMessage>)
    ensures
        r@.len() == if system_prompt is Some { 2int } else { 1int },
        system_prompt is Some ==> r@[0].role@ == "system"@ && r@[0].content@ == system_prompt->0@,
        r@.last().role@ == "user"@,
        r@.last().content@ == user_prompt@,
{
    let mut messages: Vec<ChatMessage> = Vec::new();
    match system_prompt {
        Some(s) => {
            messages.push(ChatMessage { role: String::from_str("system"), content: String::from_str(s) });
        },
        None => {},
    }
    messages.push(ChatMessage { role: String::from_str("user"), content: String::from_str(user_prompt) });
    messages
}

/// How well one point of a reference answer is covered.
#[derive(Debug, Clone, Copy, PartialEq, Eq, Structural)]
pub enum MatchStatus {
    Matched,
    Partial,
    Missing,
}

/// One aspect of an answer set against the reference answer.
pub struct PointComparison {
    pub aspect: String,
    pub best_answer_point: String,
    pub user_answer_point: String,
    pub match_status: MatchStatus,
    pub suggestion: String,
}

/// A point-by-point comparison of an answer with a reference answer.
/// `overall_match` is in hundredths (70 stands for 0.7).
pub struct ComparisonResult {
    pub overall_match: u32,
    pub comparisons: Vec<PointComparison>,
    pub missing_points: Vec<String>,
    pub extra_points: Vec<String>,
}

pub const COMPARISON_SYSTEM_PROMPT: &'static str = "你是一位面试答案分析专家。请将用户答案与最佳答案进行逐点对比分析。\n\n输出格式（JSON）：\n{\n  \"overall_match\": 0.75,\n  \"comparisons\": [\n    {\n      \"aspect\": \"技术准确性\",\n      \"best_answer_point\": \"最佳答案中的要点\",\n      \"user_answer_point\": \"用户答案中对应内容\",\n      \"match_status\": \"matched|partial|missing\",\n      \"suggestion\": \"改进建议\"\n    }\n  ],\n  \"missing_points\": [\"用户遗漏的关键点\"],\n  \"extra_points\": [\"用户额外提到的有价值内容\"]\n}";

/// `c` is the fixed comparison used when the service's reply cannot be read.
pub open spec fn is_fallback_comparison(c: ComparisonResult) -> bool {
    &&& c.overall_match == 70
    &&& c.comparisons@.len() == 1
    &&& c.comparisons@[0].aspect@ == "整体"@
    &&& c.comparisons@[0].best_answer_point@ == "参考答案完整"@
    &&& c.comparisons@[0].user_answer_point@ == "用户答案基本覆盖"@
    &&& c.comparisons@[0].match_status == MatchStatus::Partial
    &&& c.comparisons@[0].suggestion@ == "可以更详细展开"@
    &&& c.missing_points@.len() == 1
    &&& c.missing_points@[0]@ == "部分细节未提及"@
    &&& c.extra_points@.len() == 0
}

pub open spec fn comparison_request_text(
    question: Seq<char>,
    user_answer: Seq<char>,
    best_answer: Seq<char>,
) -> Seq<char> {
    "问题："@ + question + "\n\n用户答案："@ + user_answer + "\n\n最佳答案："@ + best_answer
        + "\n\n请进行对比分析并输出JSON格式结果。"@
}

/// The request that compares an answer with the reference answer.
pub fn comparison_request(question: &str, user_answer: &str, best_answer: &str) -> (r: String)
    ensures
        r@ == comparison_request_text(question@, user_answer@, best_answer@),
{
    let r = String::from_str("问题：");
    let r = r.concat(question);
    let r = r.concat("\n\n用户答案：");
    let r = r.concat(user_answer);
    let r = r.concat("\n\n最佳答案：");
    let r = r.concat(best_answer);
    r.concat("\n\n请进行对比分析并输出JSON格式结果。")
}

pub fn fallback_comparison() -> (r: ComparisonResult)
    ensures
        is_fallback_comparison(r),
{
    ComparisonResult {
        overall_match: 70,
        comparisons: vec![
            PointComparison {
                aspect: String::from_str("整体"),
                best_answer_point: String::from_str("参考答案完整"),
                user_answer_point: String::from_str("用户答案基本覆盖"),
                match_status: MatchStatus::Partial,
                suggestion: String::from_str("可以更详细展开"),
            },
        ],
        missing_points: vec![String::from_str("部分细节未提及")],
        extra_points: Vec::new(),
    }
}

/// The comparison read from the service's reply, or the fallback when the
/// reply was not a readable comparison.
pub fn comparison_or_fallback(parsed: Option<ComparisonResult>) -> (r: ComparisonResult)
    ensures
        parsed is Some ==> r == parsed->0,
        parsed is None ==> is_fallback_comparison(r),
{
    match parsed {
        Some(c) => c,
        None => fallback_comparison(),
    }
}

} // verus!
