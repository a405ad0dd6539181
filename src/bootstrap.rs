use vstd::prelude::*;
use vstd::string::StringExecFns;

use crate::rag::{decimal, decimal_text};

verus! {

/// A job description that seeds generated questions for one category.
pub struct JdTemplate {
    pub category: &'static str,
    pub name: &'static str,
    pub content: &'static str,
}

/// Questions generated per template.
pub const QUESTIONS_PER_CATEGORY: usize = 10;

/// The built-in job descriptions, one per category.
pub fn get_jd_templates() -> (r: Vec<JdTemplate>)
    ensures
        r@.len() == 6,
{
    vec![
        JdTemplate {
            category: "frontend",
            name: "高级前端工程师",
            content: "岗位职责：负责公司核心产品前端开发和维护；参与前端技术方案设计和架构优化。任职要求：3年以上前端开发经验；精通Vue.js和React框架；掌握TypeScript、ES6+；熟悉Webpack、Vite等构建工具。",
        },
        JdTemplate {
            category: "backend",
            name: "高级后端工程师",
            content: "岗位职责：负责后端系统的架构设计和实现；处理高并发、大数据量的技术挑战。任职要求：5年以上后端开发经验；精通Java/Go/Python；深入理解数据库原理；有分布式系统设计经验。",
        },
        JdTemplate {
            category: "pm",
            name: "产品经理",
            content: "岗位职责：负责产品模块的需求分析、设计和上线；进行用户研究和竞品分析。任职要求：2年以上互联网产品经理工作经验；掌握Axure、Figma等原型工具；具有数据分析能力。",
        },
        JdTemplate {
            category: "fullstack",
            name: "全栈工程师",
            content: "岗位职责：同时负责前后端开发；参与技术方案评审和架构设计。任职要求：4年以上开发经验；掌握React/Vue和Node.js；熟悉数据库设计和API开发。",
        },
        JdTemplate {
            category: "qa",
            name: "测试工程师",
            content: "岗位职责：负责产品功能、性能和兼容性测试；设计和开发自动化测试框架。任职要求：2年以上测试经验；掌握Python/Java编程；熟悉Selenium、JMeter等工具。",
        },
        JdTemplate {
            category: "devops",
            name: "DevOps工程师",
            content: "岗位职责：负责基础设施和运维系统的设计与维护；设计和实现CI/CD流程。任职要求：3年以上运维或DevOps经验；精通Docker和Kubernetes；掌握Python/Go/Bash。",
        },
    ]
}

/// Progress report for the UI while the knowledge base is seeded.
pub struct BootstrapProgress {
    pub current: usize,
    pub total: usize,
    pub status: String,
    pub category: String,
}

/// Outcome of seeding the knowledge base.
pub struct BootstrapResult {
    pub total_questions: usize,
    pub total_answers: usize,
    pub success: bool,
    pub message: String,
    pub failed_items: Vec<String>,
}

/// Whether the knowledge base holds anything, and how many questions and
/// answers.
pub struct KnowledgeStatus {
    pub is_empty: bool,
    pub question_count: i64,
    pub answer_count: i64,
}

/// Counts of stored vectors, in all and by content type.
pub struct KnowledgeStats {
    pub total_vectors: i64,
    pub question_count: i64,
    pub answer_count: i64,
    pub jd_count: i64,
}

impl KnowledgeStatus {
    pub fn from_counts(total: i64, question_count: i64, answer_count: i64) -> (r: Self)
        ensures
            r.is_empty == (total == 0),
            r.question_count == question_count,
            r.answer_count == answer_count,
    {
        KnowledgeStatus { is_empty: total == 0, question_count, answer_count }
    }
}

/// Where a bootstrap step failed.
#[derive(Debug, Clone, Copy, PartialEq, Eq, Structural)]
pub enum FailureStage {
    /// Generating the category's questions.
    Questions,
    QuestionStore,
    QuestionEmbed,
    AnswerStore,
    AnswerEmbed,
    AnswerGenerate,
}

pub open spec fn stage_label(category: Seq<char>, idx: nat, stage: FailureStage) -> Seq<char> {
    match stage {
        FailureStage::Questions => category + ":questions"@,
        FailureStage::QuestionStore => category + ":q"@ + decimal_text(idx),
        FailureStage::QuestionEmbed => category + ":q"@ + decimal_text(idx) + "_embed"@,
        FailureStage::AnswerStore => category + ":a"@ + decimal_text(idx),
        FailureStage::AnswerEmbed => category + ":a"@ + decimal_text(idx) + "_embed"@,
        FailureStage::AnswerGenerate => category + ":a"@ + decimal_text(idx) + "_gen"@,
    }
}

/// The label of a failed item: its category, then what failed, with the
/// question's index where there is one.
pub fn failure_label(category: &str, idx: usize, stage: FailureStage) -> (r: String)
    ensures
        r@ == stage_label(category@, idx as nat, stage),
{
    let c = String::from_str(category);
    match stage {
        FailureStage::Questions => c.concat(":questions"),
        FailureStage::QuestionStore => c.concat(":q").concat(decimal(idx).as_str()),
        FailureStage::QuestionEmbed => c.concat(":q").concat(decimal(idx).as_str()).concat("_embed"),
        FailureStage::AnswerStore => c.concat(":a").concat(decimal(idx).as_str()),
        FailureStage::AnswerEmbed => c.concat(":a").concat(decimal(idx).as_str()).concat("_embed"),
        FailureStage::AnswerGenerate => c.concat(":a").concat(decimal(idx).as_str()).concat("_gen"),
    }
}

pub open spec fn result_message(questions: nat, answers: nat, failures: nat) -> Seq<char> {
    if failures == 0 {
        "成功初始化知识库："@ + decimal_text(questions) + "道题目，"@ + decimal_text(answers) + "条答案"@
    } else {
        "知识库初始化完成，"@ + decimal_text(questions) + "道题目，"@ + decimal_text(answers)
            + "条答案，"@ + decimal_text(failures) + "项失败"@
    }
}

/// Running counts of a bootstrap: progress steps, stored questions and
/// answers, and the labels of what failed.
pub struct BootstrapTally {
    pub total_items: usize,
    pub current: usize,
    pub total_questions: usize,
    pub total_answers: usize,
    pub failed_items: Vec<String>,
}

impl BootstrapTally {
    /// A tally for `templates` categories: each brings a question and an
    /// answer per generated question.
    pub fn new(templates: usize) -> (r: Self)
        requires
            templates * QUESTIONS_PER_CATEGORY * 2 <= usize::MAX,
        ensures
            r.total_items == templates * QUESTIONS_PER_CATEGORY * 2,
            r.current == 0,
            r.total_questions == 0,
            r.total_answers == 0,
            r.failed_items@.len() == 0,
    {
        BootstrapTally {
            total_items: templates * QUESTIONS_PER_CATEGORY * 2,
            current: 0,
            total_questions: 0,
            total_answers: 0,
            failed_items: Vec::new(),
        }
    }

    /// One more step done.
    pub fn step(&mut self)
        requires
            old(self).current < usize::MAX,
        ensures
            *final(self) == (BootstrapTally { current: (old(self).current + 1) as usize, ..*old(self) }),
    {
        self.current = self.current + 1;
    }

    pub fn question_stored(&mut self)
        requires
            old(self).total_questions < usize::MAX,
        ensures
            *final(self) == (BootstrapTally {
                total_questions: (old(self).total_questions + 1) as usize,
                ..*old(self)
            }),
    {
        self.total_questions = self.total_questions + 1;
    }

    pub fn answer_stored(&mut self)
        requires
            old(self).total_answers < usize::MAX,
        ensures
            *final(self) == (BootstrapTally {
                total_answers: (old(self).total_answers + 1) as usize,
                ..*old(self)
            }),
    {
        self.total_answers = self.total_answers + 1;
    }

    /// Records a failed item under its label.
    pub fn failed(&mut self, category: &str, idx: usize, stage: FailureStage)
        ensures
            final(self).failed_items@.len() == old(self).failed_items@.len() + 1,
            final(self).failed_items@.drop_last() == old(self).failed_items@,
            final(self).failed_items@.last()@ == stage_label(category@, idx as nat, stage),
            final(self).current == old(self).current,
            final(self).total_items == old(self).total_items,
            final(self).total_questions == old(self).total_questions,
            final(self).total_answers == old(self).total_answers,
    {
        let ghost before = self.failed_items@;
        self.failed_items.push(failure_label(category, idx, stage));
        proof {
            assert(self.failed_items@.drop_last() =~= before);
        }
    }

    /// Records that the final index build failed.
    pub fn index_failed(&mut self)
        ensures
            final(self).failed_items@.len() == old(self).failed_items@.len() + 1,
            final(self).failed_items@.drop_last() == old(self).failed_items@,
            final(self).failed_items@.last()@ == "index_build"@,
            final(self).current == old(self).current,
            final(self).total_items == old(self).total_items,
            final(self).total_questions == old(self).total_questions,
            final(self).total_answers == old(self).total_answers,
    {
        let ghost before = self.failed_items@;
        self.failed_items.push(String::from_str("index_build"));
        proof {
            assert(self.failed_items@.drop_last() =~= before);
        }
    }

    /// Progress report at the current step.
    pub fn progress(&self, status: String, category: &str) -> (r: BootstrapProgress)
        ensures
            r.current == self.current,
            r.total == self.total_items,
            r.status == status,
            r.category@ == category@,
    {
        BootstrapProgress {
            current: self.current,
            total: self.total_items,
            status,
            category: String::from_str(category),
        }
    }

    /// The outcome: a success when nothing failed, with a summary message.
    pub fn finish(self) -> (r: BootstrapResult)
        ensures
            r.total_questions == self.total_questions,
            r.total_answers == self.total_answers,
            r.success == (self.failed_items@.len() == 0),
            r.failed_items@ == self.failed_items@,
            r.message@ == result_message(
                self.total_questions as nat,
                self.total_answers as nat,
                self.failed_items@.len(),
            ),
    {
        let failures = self.failed_items.len();
        let q = decimal(self.total_questions);
        let a = decimal(self.total_answers);
        let message = if failures == 0 {
            String::from_str("成功初始化知识库：").concat(q.as_str()).concat("道题目，").concat(
                a.as_str(),
            ).concat("条答案")
        } else {
            String::from_str("知识库初始化完成，").concat(q.as_str()).concat("道题目，").concat(
                a.as_str(),
            ).concat("条答案，").concat(decimal(failures).as_str()).concat("项失败")
        };
        BootstrapResult {
            total_questions: self.total_questions,
            total_answers: self.total_answers,
            success: failures == 0,
            message,
            failed_items: self.failed_items,
        }
    }
}

pub open spec fn generating_status(name: Seq<char>) -> Seq<char> {
    "正在为"@ + name + "生成面试题..."@
}

pub open spec fn processing_status(name: Seq<char>, number: nat) -> Seq<char> {
    "正在处理"@ + name + "第"@ + decimal_text(number) + "题..."@
}

pub open spec fn answering_status(name: Seq<char>, number: nat) -> Seq<char> {
    "正在生成"@ + name + "第"@ + decimal_text(number) + "题答案..."@
}

/// Status shown while a category's questions are generated.
pub fn generating_message(name: &str) -> (r: String)
    ensures
        r@ == generating_status(name@),
{
    String::from_str("正在为").concat(name).concat("生成面试题...")
}

/// Status shown while question `number` (from 1) of a category is stored.
pub fn processing_message(name: &str, number: usize) -> (r: String)
    ensures
        r@ == processing_status(name@, number as nat),
{
    String::from_str("正在处理").concat(name).concat("第").concat(decimal(number).as_str()).concat("题...")
}

/// Status shown while the answer to question `number` (from 1) is generated.
pub fn answering_message(name: &str, number: usize) -> (r: String)
    ensures
        r@ == answering_status(name@, number as nat),
{
    String::from_str("正在生成").concat(name).concat("第").concat(decimal(number).as_str()).concat(
        "题答案...",
    )
}

} // verus!
