use vstd::prelude::*;
use vstd::string::StringExecFns;
use vstd::utf8::encode_utf8;

use crate::error::RagError;
use crate::vector_store::SearchResult;

verus! {

/// Bound on one initialization attempt, in seconds. Exceeding it fails the
/// facade for good, even if the attempt would have succeeded later.
pub const INIT_TIMEOUT_SECS: u64 = 10;

/// Where the one-time loading of the model and index stands.
#[derive(Debug, Clone, Copy, PartialEq, Eq, Structural)]
pub enum InitState {
    Uninitialized,
    Initializing,
    Ready,
    /// The attempt failed with this error; the failure is sticky.
    Failed(RagError),
}

/// What a caller that needs the model and index does next.
#[derive(Debug, Clone, Copy, PartialEq, Eq, Structural)]
pub enum InitAction {
    /// Run the single initialization attempt, then report it with `finish`.
    Start,
    /// Another caller's attempt is running: wait for it and take its result.
    Await,
    /// Initialization is done: go ahead.
    Proceed,
    /// Give up at once with this error.
    Fail(RagError),
}

/// How the initialization attempt ended.
#[derive(Debug, Clone, Copy, PartialEq, Eq, Structural)]
pub enum InitOutcome {
    Succeeded,
    Failed(RagError),
    TimedOut,
}

pub open spec fn begin_step(s: InitState) -> (InitState, InitAction) {
    match s {
        InitState::Uninitialized => (InitState::Initializing, InitAction::Start),
        InitState::Initializing => (s, InitAction::Await),
        InitState::Ready => (s, InitAction::Proceed),
        InitState::Failed(_) => (s, InitAction::Fail(RagError::PreviouslyFailed)),
    }
}

pub open spec fn finish_state(o: InitOutcome) -> InitState {
    match o {
        InitOutcome::Succeeded => InitState::Ready,
        InitOutcome::Failed(e) => InitState::Failed(e),
        InitOutcome::TimedOut => InitState::Failed(RagError::InitializationTimeout),
    }
}

/// The result that every caller waiting on a settled state receives.
pub open spec fn settled_result(s: InitState) -> Option<Result<(), RagError>> {
    match s {
        InitState::Ready => Some(Ok(())),
        InitState::Failed(e) => Some(Err(e)),
        _ => None,
    }
}

/// Number of callers among `n` consecutive ones that start an attempt.
pub open spec fn starts(s: InitState, n: nat) -> nat
    decreases n,
{
    if n == 0 {
        0
    } else {
        (if begin_step(s).1 == InitAction::Start { 1nat } else { 0nat }) + starts(
            begin_step(s).0,
            (n - 1) as nat,
        )
    }
}

/// Guards the one-time loading of the embedding service and the index: a
/// single caller runs the attempt, the others wait for its result.
pub struct InitGate {
    state: InitState,
}

impl InitGate {
    pub closed spec fn view_state(&self) -> InitState {
        self.state
    }

    pub fn new() -> (r: Self)
        ensures
            r.view_state() == InitState::Uninitialized,
    {
        InitGate { state: InitState::Uninitialized }
    }

    pub fn state(&self) -> (r: InitState)
        ensures
            r == self.view_state(),
    {
        self.state
    }

    /// Admits a caller: the first one starts the attempt, callers during the
    /// attempt wait for it, callers after a success go ahead, and callers
    /// after a failure fail at once with `PreviouslyFailed`.
    pub fn begin(&mut self) -> (r: InitAction)
        ensures
            (final(self).view_state(), r) == begin_step(old(self).view_state()),
    {
        match self.state {
            InitState::Uninitialized => {
                self.state = InitState::Initializing;
                InitAction::Start
            },
            InitState::Initializing => InitAction::Await,
            InitState::Ready => InitAction::Proceed,
            InitState::Failed(_) => InitAction::Fail(RagError::PreviouslyFailed),
        }
    }

    /// Reports how the attempt ended and returns what its starter receives.
    /// A timeout counts as a failure with `InitializationTimeout`.
    pub fn finish(&mut self, outcome: InitOutcome) -> (r: Result<(), RagError>)
        requires
            old(self).view_state() == InitState::Initializing,
        ensures
            final(self).view_state() == finish_state(outcome),
            Some(r) == settled_result(final(self).view_state()),
    {
        match outcome {
            InitOutcome::Succeeded => {
                self.state = InitState::Ready;
                Ok(())
            },
            InitOutcome::Failed(e) => {
                self.state = InitState::Failed(e);
                Err(e)
            },
            InitOutcome::TimedOut => {
                self.state = InitState::Failed(RagError::InitializationTimeout);
                Err(RagError::InitializationTimeout)
            },
        }
    }

    /// For a caller that waited on the attempt: its result once it settled,
    /// the same for every waiter; nothing while it still runs.
    pub fn waited_result(&self) -> (r: Option<Result<(), RagError>>)
        ensures
            r == settled_result(self.view_state()),
    {
        match self.state {
            InitState::Ready => Some(Ok(())),
            InitState::Failed(e) => Some(Err(e)),
            _ => None,
        }
    }

    /// The administrative retry: a failed gate may be attempted once more.
    pub fn reset_failed(&mut self)
        ensures
            old(self).view_state() is Failed ==> final(self).view_state()
                == InitState::Uninitialized,
            !(old(self).view_state() is Failed) ==> final(self).view_state() == old(
                self,
            ).view_state(),
    {
        if let InitState::Failed(_) = self.state {
            self.state = InitState::Uninitialized;
        }
    }

    pub fn is_ready(&self) -> (r: bool)
        ensures
            r == (self.view_state() == InitState::Ready),
    {
        match self.state {
            InitState::Ready => true,
            _ => false,
        }
    }
}

/// However many callers arrive one after the other, at most one starts an
/// initialization attempt, and none once an attempt was started.
pub proof fn lemma_single_initialization(s: InitState, n: nat)
    ensures
        starts(s, n) == if n > 0 && s == InitState::Uninitialized { 1nat } else { 0nat },
    decreases n,
{
    if n > 0 {
        lemma_single_initialization(begin_step(s).0, (n - 1) as nat);
    }
}

/// A failure is sticky: every later caller fails at once with
/// `PreviouslyFailed`, and the state does not move.
pub proof fn lemma_failure_is_sticky(o: InitOutcome)
    ensures
        o != InitOutcome::Succeeded ==> begin_step(finish_state(o)) == (
            finish_state(o),
            InitAction::Fail(RagError::PreviouslyFailed),
        ),
{
}

/// Files of a local model directory, relative to it.
pub const ONNX_MODEL_FILE: &'static str = "onnx/model.onnx";

pub const TOKENIZER_FILE: &'static str = "tokenizer.json";

/// Loading the embedding model needs its weights and its tokenizer; the
/// other tokenizer files default to `{}` when absent.
pub fn check_model_files(onnx_present: bool, tokenizer_present: bool) -> (r: Result<(), RagError>)
    ensures
        r is Ok <==> onnx_present && tokenizer_present,
        r is Err ==> r->Err_0 == RagError::ModelLoadError,
{
    if !onnx_present || !tokenizer_present {
        return Err(RagError::ModelLoadError);
    }
    Ok(())
}

/// The content types that retrieval asks for.
#[derive(Debug, Clone, Copy, PartialEq, Eq, Structural)]
pub enum Category {
    Question,
    Answer,
    JobDescription,
}

impl Category {
    /// The content type stored for the category.
    pub fn content_type(&self) -> (r: &'static str)
        ensures
            r@ == match *self {
                Category::Question => "question"@,
                Category::Answer => "answer"@,
                Category::JobDescription => "jd"@,
            },
    {
        match self {
            Category::Question => "question",
            Category::Answer => "answer",
            Category::JobDescription => "jd",
        }
    }
}

/// Errors after which callers go on without retrieved context.
pub open spec fn unavailable(e: RagError) -> bool {
    e == RagError::ModelLoadError || e == RagError::InitializationTimeout || e
        == RagError::PreviouslyFailed
}

pub fn is_unavailable(e: RagError) -> (r: bool)
    ensures
        r == unavailable(e),
{
    match e {
        RagError::ModelLoadError | RagError::InitializationTimeout | RagError::PreviouslyFailed => true,
        _ => false,
    }
}

/// The contents of the retrieved hits, or none when retrieval failed: the
/// technical persona then asks without reference questions.
pub fn contents_or_empty(hits: Result<Vec<SearchResult>, RagError>) -> (r: Vec<String>)
    ensures
        hits is Err ==> r@.len() == 0,
        hits is Ok ==> r@.len() == hits->Ok_0@.len() && forall|i: int|
            0 <= i < r@.len() ==> #[trigger] r@[i] == hits->Ok_0@[i].content,
{
    match hits {
        Err(_) => Vec::new(),
        Ok(v) => {
            let mut out: Vec<String> = Vec::new();
            let mut i: usize = 0;
            while i < v.len()
                invariant
                    i <= v@.len(),
                    out@.len() == i,
                    forall|j: int| 0 <= j < i ==> #[trigger] out@[j] == v@[j].content,
                decreases v@.len() - i,
            {
                out.push(v[i].content.clone());
                i = i + 1;
            }
            out
        },
    }
}

pub open spec fn digit_char(d: nat) -> char {
    if d == 0 { '0' }
    else if d == 1 { '1' }
    else if d == 2 { '2' }
    else if d == 3 { '3' }
    else if d == 4 { '4' }
    else if d == 5 { '5' }
    else if d == 6 { '6' }
    else if d == 7 { '7' }
    else if d == 8 { '8' }
    else { '9' }
}

/// The decimal digits of `n`, without sign or padding.
pub open spec fn decimal_text(n: nat) -> Seq<char>
    decreases n,
{
    if n < 10 {
        seq![digit_char(n)]
    } else {
        decimal_text(n / 10).push(digit_char(n % 10))
    }
}

/// The digit `d` (below 10) as text.
fn digit_text(d: usize) -> (r: &'static str)
    requires
        d < 10,
    ensures
        r@ == seq![digit_char(d as nat)],
{
    proof {
        reveal_strlit("0");
        reveal_strlit("1");
        reveal_strlit("2");
        reveal_strlit("3");
        reveal_strlit("4");
        reveal_strlit("5");
        reveal_strlit("6");
        reveal_strlit("7");
        reveal_strlit("8");
        reveal_strlit("9");
    }
    if d == 0 {
        "0"
    } else if d == 1 {
        "1"
    } else if d == 2 {
        "2"
    } else if d == 3 {
        "3"
    } else if d == 4 {
        "4"
    } else if d == 5 {
        "5"
    } else if d == 6 {
        "6"
    } else if d == 7 {
        "7"
    } else if d == 8 {
        "8"
    } else {
        "9"
    }
}

/// The decimal digits of `n`.
pub(crate) fn decimal(n: usize) -> (r: String)
    ensures
        r@ == decimal_text(n as nat),
    decreases n,
{
    if n < 10 {
        String::from_str(digit_text(n))
    } else {
        decimal(n / 10).concat(digit_text(n % 10))
    }
}

/// One numbered line of the context: "<i + 1>. <content>\n".
pub open spec fn entry_text(i: nat, content: Seq<char>) -> Seq<char> {
    decimal_text(i + 1) + ". "@ + content + "\n"@
}

/// Length in bytes of an entry, as `str::len` reports it.
pub open spec fn entry_len(i: nat, content: Seq<char>) -> nat {
    (encode_utf8(entry_text(i, content)).len() as usize) as nat
}

/// The entries of the first `m` hits, one after the other.
pub open spec fn entries(results: Seq<SearchResult>, m: nat) -> Seq<char>
    decreases m,
{
    if m == 0 || m > results.len() {
        Seq::empty()
    } else {
        entries(results, (m - 1) as nat) + entry_text((m - 1) as nat, results[m - 1].content@)
    }
}

/// Total length in bytes of the entries of the first `m` hits.
pub open spec fn entries_len(results: Seq<SearchResult>, m: nat) -> nat
    decreases m,
{
    if m == 0 || m > results.len() {
        0
    } else {
        entries_len(results, (m - 1) as nat) + entry_len((m - 1) as nat, results[m - 1].content@)
    }
}

/// Helpers that turn retrieved hits into prompt material.
pub struct Retriever;

impl Retriever {
    pub fn new_shared() -> (r: Self) {
        Retriever
    }

/// Context text for a prompt, built from the hits. Hits are numbered from 1,
/// one per line, and taken in order while their total length in bytes stays
/// within `max_length`; the first that does not fit ends the text.
pub fn build_context(results: &[SearchResult], max_length: usize) -> (r: String)
    ensures
        exists|m: nat|
            m <= results@.len() && r@ == entries(results@, m) && entries_len(results@, m) <= max_length
                && (m < results@.len() ==> entries_len(results@, m) + entry_len(
                m,
                results@[m as int].content@,
            ) > max_length),
{
    let mut context = String::new();
    let mut current: usize = 0;
    let mut i: usize = 0;
    while i < results.len()
        invariant
            i <= results@.len(),
            context@ == entries(results@, i as nat),
            current as nat == entries_len(results@, i as nat),
            current <= max_length,
        decreases results@.len() - i,
    {
        let number = decimal(i + 1);
        let entry = number.concat(". ");
        let entry = entry.concat(results[i].content.as_str());
        let entry = entry.concat("\n");
        let n = entry.as_str().len();
        proof {
            assert(entry@ == entry_text(i as nat, results@[i as int].content@));
            assert(n as nat == entry_len(i as nat, results@[i as int].content@));
        }
        if n > max_length - current {
            assert(entries_len(results@, i as nat) + entry_len(i as nat, results@[i as int].content@)
                > max_length);
            return context;
        }
        context.append(entry.as_str());
        current = current + n;
        i = i + 1;
    }
    context
}
}

} // verus!
