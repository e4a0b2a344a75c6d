//! The bounded generation loop that every backend follows, as a state machine.
//!
//! A backend owns the model: it tokenizes, decodes and scores. What it may not
//! decide for itself is when to stop and what to report. Those decisions live
//! here. The backend drives a `Generation` like this:
//!
//! 1. `Generation::begin` with the prompt tokens; a prompt that does not fit
//!    the context is refused, and one that fits is to be decoded as the
//!    initial batch.
//! 2. `poll` with the time elapsed so far. Either the budgets are spent and the
//!    run is `Completed` as truncated, or the machine asks for a sample.
//! 3. `advance` with the model's scored candidates. Either the best candidate
//!    is the end-of-sequence token and the run is `Completed` as a success, or
//!    the machine names the token to decode and the position to decode it at;
//!    the backend decodes it and goes back to step 2.
//! 4. `Completed::into_result` with the detokenized text.
//!
//! Each state is a type of its own, so a step cannot be skipped or repeated.

use vstd::prelude::*;
use vstd::string::*;
use crate::error::EngineError;
use crate::runtime::{InferenceOptions, InferenceResult, InferenceStatus, Usage};

verus! {

/// The ceilings of one generation run.
#[derive(Debug, Clone, Copy, PartialEq, Eq, Structural)]
pub struct Budget {
    /// Tokens that the decoding context holds, prompt included.
    pub context_size: u32,
    /// Tokens that may be generated.
    pub max_tokens: u32,
    /// Wall-clock milliseconds that the whole call may take.
    pub max_time_ms: u64,
}

/// One entry of the model's per-step score distribution. `score` is an integer
/// that orders as the model's score does: a higher score is a better token.
#[derive(Debug, Clone, Copy, PartialEq, Eq, Structural)]
pub struct Candidate {
    pub token: i32,
    pub score: i64,
}

/// One token of a batch to decode: the token, its position in the context,
/// and whether the model is to score what follows it.
#[derive(Debug, Clone, Copy, PartialEq, Eq, Structural)]
pub struct BatchEntry {
    pub token: i32,
    pub position: u32,
    pub logits: bool,
}

/// The initial batch of a run: every token of the prompt at its index, and
/// scores asked for after the last one only.
pub open spec fn prompt_batch(prompt: Seq<i32>) -> Seq<BatchEntry> {
    Seq::new(
        prompt.len(),
        |i: int| BatchEntry { token: prompt[i], position: i as u32, logits: i + 1 == prompt.len() },
    )
}

/// Puts the beginning-of-sequence marker `bos` in front of the tokens of a
/// text. Every prompt starts with it.
pub fn with_bos(bos: i32, text_tokens: Vec<i32>) -> (prompt: Vec<i32>)
    ensures
        prompt@ == seq![bos] + text_tokens@,
{
    let mut prompt = text_tokens;
    prompt.insert(0, bos);
    assert(prompt@ =~= seq![bos] + text_tokens@);
    prompt
}

/// What a run looks like from outside: its budget, the size of its prompt and
/// the tokens generated so far.
pub struct Trace {
    pub budget: Budget,
    pub input_tokens: nat,
    pub output: Seq<i32>,
}

impl Trace {
    /// The position at which the next token would be decoded.
    pub open spec fn position(self) -> nat {
        self.input_tokens + self.output.len()
    }

    /// Whether the run may generate one more token `elapsed_ms` milliseconds
    /// into the call.
    pub open spec fn may_continue(self, elapsed_ms: u64) -> bool {
        budget_left(self.budget, self.input_tokens, self.output.len(), elapsed_ms)
    }

    /// The trace of a run that has not generated anything yet.
    pub open spec fn fresh(budget: Budget, input_tokens: nat) -> Trace {
        Trace { budget, input_tokens, output: Seq::empty() }
    }

    /// This trace with one more generated token.
    pub open spec fn with_token(self, token: i32) -> Trace {
        Trace { output: self.output.push(token), ..self }
    }

    /// How a run with this trace ends when it stops now with `status`.
    pub open spec fn ended(self, status: InferenceStatus) -> Ending {
        Ending { input_tokens: self.input_tokens, output: self.output, status }
    }
}

/// What a stopped run looks like from outside: the size of its prompt, the
/// tokens it generated and how it ended.
pub struct Ending {
    pub input_tokens: nat,
    pub output: Seq<i32>,
    pub status: InferenceStatus,
}

/// Whether a run with `produced` generated tokens may generate one more when
/// `elapsed_ms` milliseconds have passed: the token budget is not spent, the
/// time budget is not exceeded and the context is not full.
pub open spec fn budget_left(
    budget: Budget,
    input_tokens: nat,
    produced: nat,
    elapsed_ms: u64,
) -> bool {
    &&& produced < budget.max_tokens
    &&& elapsed_ms <= budget.max_time_ms
    &&& input_tokens + produced < budget.context_size
}

/// Whether index `i` is the greedy choice among `candidates`: no candidate
/// scores higher, and every earlier candidate scores strictly lower.
pub open spec fn is_greedy_index(candidates: Seq<Candidate>, i: int) -> bool {
    &&& 0 <= i < candidates.len()
    &&& forall|j: int| 0 <= j < candidates.len() ==> (#[trigger] candidates[j]).score
        <= candidates[i].score
    &&& forall|j: int| 0 <= j < i ==> (#[trigger] candidates[j]).score < candidates[i].score
}

/// The token that greedy selection picks: that of the highest-scoring
/// candidate, the first of them where several tie; none where there is no
/// candidate.
pub open spec fn greedy_choice(candidates: Seq<Candidate>) -> Option<i32> {
    if candidates.len() == 0 {
        None
    } else {
        Some(candidates[choose|i: int| is_greedy_index(candidates, i)].token)
    }
}

/// At most one index is the greedy choice.
pub proof fn lemma_greedy_index_unique(candidates: Seq<Candidate>, i: int, j: int)
    requires
        is_greedy_index(candidates, i),
        is_greedy_index(candidates, j),
    ensures
        i == j,
{
    if i < j {
        assert(candidates[i].score < candidates[j].score);
        assert(candidates[j].score <= candidates[i].score);
    } else if j < i {
        assert(candidates[j].score < candidates[i].score);
        assert(candidates[i].score <= candidates[j].score);
    }
}

/// Picks the highest-scoring candidate, the first-seen among equals.
pub fn select_greedy(candidates: &Vec<Candidate>) -> (pick: Option<i32>)
    ensures
        pick == greedy_choice(candidates@),
        pick is None <==> candidates@.len() == 0,
        pick matches Some(token) ==> exists|i: int|
            is_greedy_index(candidates@, i) && candidates@[i].token == token,
{
    if candidates.len() == 0 {
        return None;
    }
    let mut best: usize = 0;
    let mut k: usize = 1;
    while k < candidates.len()
        invariant
            1 <= k <= candidates.len(),
            is_greedy_index(candidates@.subrange(0, k as int), best as int),
        decreases candidates.len() - k,
    {
        let ghost before = candidates@.subrange(0, k as int);
        let ghost after = candidates@.subrange(0, k + 1);
        if candidates[k].score > candidates[best].score {
            assert forall|j: int| 0 <= j < after.len() implies (#[trigger] after[j]).score
                <= after[k as int].score by {
                if j < k {
                    assert(before[j].score <= before[best as int].score);
                }
            }
            assert forall|j: int| 0 <= j < k implies (#[trigger] after[j]).score
                < after[k as int].score by {
                assert(before[j].score <= before[best as int].score);
            }
            best = k;
        } else {
            assert forall|j: int| 0 <= j < after.len() implies (#[trigger] after[j]).score
                <= after[best as int].score by {
                if j < k {
                    assert(before[j].score <= before[best as int].score);
                }
            }
            assert forall|j: int| 0 <= j < best implies (#[trigger] after[j]).score
                < after[best as int].score by {
                assert(before[j].score < before[best as int].score);
            }
        }
        k = k + 1;
    }
    proof {
        assert(candidates@.subrange(0, k as int) =~= candidates@);
        let chosen = choose|i: int| is_greedy_index(candidates@, i);
        lemma_greedy_index_unique(candidates@, chosen, best as int);
    }
    Some(candidates[best].token)
}

/// How a run ends when it is driven from `trace` on by a clock that reads
/// `clock(k)` at the budget check before the token of index `k`, and by a
/// model whose pick for that token is `picks(k)`: the check of `poll`, then
/// the decision of `accept`, until one of them stops the run.
pub open spec fn unfold(
    trace: Trace,
    eos: i32,
    clock: spec_fn(nat) -> u64,
    picks: spec_fn(nat) -> i32,
) -> Ending
    decreases trace.budget.max_tokens - trace.output.len(),
{
    let k = trace.output.len();
    if !trace.may_continue(clock(k)) {
        trace.ended(InferenceStatus::Truncated)
    } else if picks(k) == eos {
        trace.ended(InferenceStatus::Success)
    } else {
        unfold(trace.with_token(picks(k)), eos, clock, picks)
    }
}

/// Whether the end-of-sequence token is the pick for the token of index `k`,
/// is not the pick for any earlier token from index `from` on, and every
/// budget check from `from` up to `k` passes: the model stops by itself at
/// `k`, before the token budget is spent, before the time budget is exceeded
/// and before the context is full.
pub open spec fn stops_naturally_at(
    budget: Budget,
    input_tokens: nat,
    eos: i32,
    clock: spec_fn(nat) -> u64,
    picks: spec_fn(nat) -> i32,
    from: nat,
    k: nat,
) -> bool {
    &&& from <= k
    &&& picks(k) == eos
    &&& forall|i: nat| from <= i <= k ==> budget_left(budget, input_tokens, i, #[trigger] clock(i))
    &&& forall|i: nat| from <= i < k ==> #[trigger] picks(i) != eos
}

/// The status law, from any point of a run on. The run ends as a success
/// exactly when the model stops by itself within every budget, and as
/// truncated otherwise; it never ends as an error. The output grows by the
/// picks made on the way, none of which is the end-of-sequence token, and
/// never beyond the token budget or the context.
pub proof fn lemma_unfold(
    trace: Trace,
    eos: i32,
    clock: spec_fn(nat) -> u64,
    picks: spec_fn(nat) -> i32,
) -> (end: Ending)
    requires
        trace.output.len() <= trace.budget.max_tokens,
        trace.position() <= trace.budget.context_size,
    ensures
        end == unfold(trace, eos, clock, picks),
        end.status == InferenceStatus::Success <==> exists|k: nat|
            stops_naturally_at(
                trace.budget,
                trace.input_tokens,
                eos,
                clock,
                picks,
                trace.output.len(),
                k,
            ),
        end.status != InferenceStatus::Success ==> end.status == InferenceStatus::Truncated,
        end.input_tokens == trace.input_tokens,
        trace.output.len() <= end.output.len() <= trace.budget.max_tokens,
        end.input_tokens + end.output.len() <= trace.budget.context_size,
        end.output.subrange(0, trace.output.len() as int) == trace.output,
        forall|i: int|
            trace.output.len() <= i < end.output.len() ==> #[trigger] end.output[i] == picks(
                i as nat,
            ),
        forall|i: int|
            trace.output.len() <= i < end.output.len() ==> #[trigger] end.output[i] != eos,
    decreases trace.budget.max_tokens - trace.output.len(),
{
    let end = unfold(trace, eos, clock, picks);
    let from = trace.output.len();
    let budget = trace.budget;
    let input = trace.input_tokens;
    if !trace.may_continue(clock(from)) {
        assert(end.output.subrange(0, from as int) =~= trace.output);
        assert forall|k: nat| !stops_naturally_at(budget, input, eos, clock, picks, from, k) by {
            if stops_naturally_at(budget, input, eos, clock, picks, from, k) {
                assert(budget_left(budget, input, from, clock(from)));
            }
        }
    } else if picks(from) == eos {
        assert(end.output.subrange(0, from as int) =~= trace.output);
        assert(stops_naturally_at(budget, input, eos, clock, picks, from, from));
    } else {
        let next = trace.with_token(picks(from));
        let after: nat = from + 1;
        lemma_unfold(next, eos, clock, picks);
        assert(end.output.subrange(0, after as int) == next.output);
        assert(end.output.subrange(0, from as int) =~= trace.output) by {
            assert(end.output.subrange(0, from as int) =~= next.output.subrange(0, from as int));
        }
        assert(end.output[from as int] == picks(from)) by {
            assert(end.output[from as int] == next.output[from as int]);
        }
        if end.status == InferenceStatus::Success {
            let k = choose|k: nat| stops_naturally_at(budget, input, eos, clock, picks, after, k);
            assert(stops_naturally_at(budget, input, eos, clock, picks, from, k));
        }
        assert forall|k: nat|
            stops_naturally_at(
                budget,
                input,
                eos,
                clock,
                picks,
                from,
                k,
            ) implies end.status == InferenceStatus::Success by {
            assert(stops_naturally_at(budget, input, eos, clock, picks, after, k));
        }
        assert forall|i: int| from < i < end.output.len() implies #[trigger] end.output[i]
            == picks(i as nat) by {
            assert(after <= i);
        }
    }
    end
}

/// The status law of a whole run. A run on a prompt that fits its context
/// ends as a success exactly when the model picks the end-of-sequence token
/// at some step before which no budget check failed - the token budget not
/// spent, the time budget not exceeded, the context not full - and as
/// truncated in every other case, a token budget spent to the last token
/// without an end-of-sequence pick included. It never ends as an error.
pub proof fn lemma_status_law(
    budget: Budget,
    input_tokens: nat,
    eos: i32,
    clock: spec_fn(nat) -> u64,
    picks: spec_fn(nat) -> i32,
) -> (end: Ending)
    requires
        input_tokens <= budget.context_size,
    ensures
        end == unfold(Trace::fresh(budget, input_tokens), eos, clock, picks),
        end.status == InferenceStatus::Success <==> exists|k: nat|
            stops_naturally_at(budget, input_tokens, eos, clock, picks, 0, k),
        end.status != InferenceStatus::Success ==> end.status == InferenceStatus::Truncated,
        end.input_tokens == input_tokens,
        end.output.len() <= budget.max_tokens,
        end.input_tokens + end.output.len() <= budget.context_size,
        forall|i: int| 0 <= i < end.output.len() ==> #[trigger] end.output[i] == picks(i as nat),
        forall|i: int| 0 <= i < end.output.len() ==> #[trigger] end.output[i] != eos,
{
    lemma_unfold(Trace::fresh(budget, input_tokens), eos, clock, picks)
}

/// A run stops at the first budget check that fails. Where every check
/// before the token of index `k` passes, no pick before it is the
/// end-of-sequence token, and the check before the token of index `k` fails,
/// the run ends as truncated with exactly the `k` tokens picked so far: no
/// further token is generated.
pub proof fn lemma_first_failed_check(
    trace: Trace,
    eos: i32,
    clock: spec_fn(nat) -> u64,
    picks: spec_fn(nat) -> i32,
    k: nat,
) -> (end: Ending)
    requires
        trace.output.len() <= k,
        forall|i: nat|
            trace.output.len() <= i < k ==> budget_left(
                trace.budget,
                trace.input_tokens,
                i,
                #[trigger] clock(i),
            ),
        forall|i: nat| trace.output.len() <= i < k ==> #[trigger] picks(i) != eos,
        !budget_left(trace.budget, trace.input_tokens, k, clock(k)),
    ensures
        end == unfold(trace, eos, clock, picks),
        end.status == InferenceStatus::Truncated,
        end.input_tokens == trace.input_tokens,
        end.output.len() == k,
        end.output.subrange(0, trace.output.len() as int) == trace.output,
        forall|i: int|
            trace.output.len() <= i < k ==> #[trigger] end.output[i] == picks(i as nat),
    decreases k - trace.output.len(),
{
    let end = unfold(trace, eos, clock, picks);
    let from = trace.output.len();
    if from < k {
        assert(budget_left(trace.budget, trace.input_tokens, from, clock(from)));
        assert(picks(from) != eos);
        let next = trace.with_token(picks(from));
        lemma_first_failed_check(next, eos, clock, picks, k);
        assert(end.output.subrange(0, from as int + 1) == next.output);
        assert(end.output.subrange(0, from as int) =~= trace.output) by {
            assert(end.output.subrange(0, from as int) =~= next.output.subrange(0, from as int));
        }
        assert(end.output[from as int] == picks(from)) by {
            assert(end.output[from as int] == next.output[from as int]);
        }
        assert forall|i: int| from < i < k implies #[trigger] end.output[i] == picks(
            i as nat,
        ) by {
            assert(from + 1 <= i);
        }
    } else {
        assert(end.output.subrange(0, from as int) =~= trace.output);
    }
    end
}

/// A run that spends its whole token budget without an end-of-sequence pick
/// ends as truncated, with exactly `max_tokens` tokens generated.
pub proof fn lemma_exhaustion_truncates(
    budget: Budget,
    input_tokens: nat,
    eos: i32,
    clock: spec_fn(nat) -> u64,
    picks: spec_fn(nat) -> i32,
) -> (end: Ending)
    requires
        input_tokens + budget.max_tokens <= budget.context_size,
        forall|i: nat| i < budget.max_tokens ==> #[trigger] clock(i) <= budget.max_time_ms,
        forall|i: nat| i < budget.max_tokens ==> #[trigger] picks(i) != eos,
    ensures
        end == unfold(Trace::fresh(budget, input_tokens), eos, clock, picks),
        end.status == InferenceStatus::Truncated,
        end.output.len() == budget.max_tokens,
        forall|i: int|
            0 <= i < budget.max_tokens ==> #[trigger] end.output[i] == picks(i as nat),
{
    lemma_first_failed_check(
        Trace::fresh(budget, input_tokens),
        eos,
        clock,
        picks,
        budget.max_tokens as nat,
    )
}

/// A run that meets the time budget exceeded at the check before the token
/// of index `k`, after `k` checks that passed and `k` picks that were not the
/// end-of-sequence token, ends as truncated with the `k` tokens generated
/// before that check.
pub proof fn lemma_time_budget_truncates(
    budget: Budget,
    input_tokens: nat,
    eos: i32,
    clock: spec_fn(nat) -> u64,
    picks: spec_fn(nat) -> i32,
    k: nat,
) -> (end: Ending)
    requires
        forall|i: nat| i < k ==> budget_left(budget, input_tokens, i, #[trigger] clock(i)),
        forall|i: nat| i < k ==> #[trigger] picks(i) != eos,
        clock(k) > budget.max_time_ms,
    ensures
        end == unfold(Trace::fresh(budget, input_tokens), eos, clock, picks),
        end.status == InferenceStatus::Truncated,
        end.input_tokens == input_tokens,
        end.output.len() == k,
        forall|i: int| 0 <= i < k ==> #[trigger] end.output[i] == picks(i as nat),
{
    lemma_first_failed_check(Trace::fresh(budget, input_tokens), eos, clock, picks, k)
}

/// A run that has room for fewer tokens in its context than its token budget
/// allows, and neither runs out of time nor picks the end-of-sequence token
/// on the way, fills the context and ends as truncated: prompt and output
/// together are exactly `context_size` tokens, never more.
pub proof fn lemma_full_context_truncates(
    budget: Budget,
    input_tokens: nat,
    eos: i32,
    clock: spec_fn(nat) -> u64,
    picks: spec_fn(nat) -> i32,
) -> (end: Ending)
    requires
        input_tokens <= budget.context_size,
        budget.context_size - input_tokens <= budget.max_tokens,
        forall|i: nat|
            i < budget.context_size - input_tokens ==> #[trigger] clock(i) <= budget.max_time_ms,
        forall|i: nat| i < budget.context_size - input_tokens ==> #[trigger] picks(i) != eos,
    ensures
        end == unfold(Trace::fresh(budget, input_tokens), eos, clock, picks),
        end.status == InferenceStatus::Truncated,
        end.output.len() == budget.context_size - input_tokens,
        end.input_tokens + end.output.len() == budget.context_size,
        forall|i: int|
            0 <= i < budget.context_size - input_tokens ==> #[trigger] end.output[i] == picks(
                i as nat,
            ),
{
    let room: nat = (budget.context_size - input_tokens) as nat;
    lemma_first_failed_check(Trace::fresh(budget, input_tokens), eos, clock, picks, room)
}

/// A run that is ready for its next budget check.
pub struct Generation {
    budget: Budget,
    input_tokens: u32,
    output: Vec<i32>,
}

/// A run whose budget check has passed and that waits for the model's pick.
pub struct Sampling {
    budget: Budget,
    input_tokens: u32,
    output: Vec<i32>,
}

/// A run that has stopped.
pub struct Completed {
    input_tokens: u32,
    output: Vec<i32>,
    status: InferenceStatus,
}

/// What `poll` decides.
pub enum Poll {
    /// The budgets allow another token: sample the model.
    Sample(Sampling),
    /// A budget is spent: the run is over.
    Stopped(Completed),
}

/// What `accept` and `advance` decide.
pub enum Progress {
    /// Decode `token` at `position` as a one-token batch, then poll again.
    Decode { generation: Generation, token: i32, position: u32 },
    /// The model chose to stop: the run is over.
    Stopped(Completed),
}

impl Generation {
    #[verifier::type_invariant]
    spec fn inv(self) -> bool {
        &&& self.output@.len() <= self.budget.max_tokens
        &&& self.input_tokens + self.output@.len() <= self.budget.context_size
    }

    /// The run as seen from outside.
    pub closed spec fn trace(self) -> Trace {
        Trace {
            budget: self.budget,
            input_tokens: self.input_tokens as nat,
            output: self.output@,
        }
    }

    /// Starts a run on the tokenized prompt `prompt`, the
    /// beginning-of-sequence marker included, in a context of `context_size`
    /// tokens. A prompt longer than the context is refused, never cut. With
    /// the run comes the initial batch to decode: the whole prompt.
    pub fn begin(prompt: &Vec<i32>, context_size: u32, options: &InferenceOptions) -> (started:
        Result<(Generation, Vec<BatchEntry>), EngineError>)
        ensures
            started is Err <==> prompt@.len() > context_size,
            started matches Err(e) ==> e == (EngineError::ContextOverflow {
                input_tokens: prompt@.len() as u64,
                context_size: context_size as u64,
            }),
            started matches Ok((generation, batch)) ==> generation.trace() == Trace::fresh(
                Budget {
                    context_size,
                    max_tokens: options.token_budget(),
                    max_time_ms: options.time_budget_ms(),
                },
                prompt@.len(),
            ) && batch@ == prompt_batch(prompt@),
    {
        let input_tokens = prompt.len();
        if input_tokens > context_size as usize {
            return Err(
                EngineError::ContextOverflow {
                    input_tokens: input_tokens as u64,
                    context_size: context_size as u64,
                },
            );
        }
        let max_tokens = match options.max_tokens {
            Some(n) => n,
            None => crate::runtime::DEFAULT_MAX_TOKENS,
        };
        let max_time_ms = match options.max_time_ms {
            Some(ms) => ms,
            None => crate::runtime::DEFAULT_MAX_TIME_MS,
        };
        let mut batch: Vec<BatchEntry> = Vec::new();
        let mut i: usize = 0;
        while i < input_tokens
            invariant
                i <= input_tokens,
                input_tokens == prompt@.len(),
                input_tokens <= context_size,
                batch@ == prompt_batch(prompt@).subrange(0, i as int),
            decreases input_tokens - i,
        {
            batch.push(
                BatchEntry { token: prompt[i], position: i as u32, logits: i + 1 == input_tokens },
            );
            assert(batch@ =~= prompt_batch(prompt@).subrange(0, i + 1));
            i = i + 1;
        }
        assert(batch@ =~= prompt_batch(prompt@));
        Ok(
            (
                Generation {
                    budget: Budget { context_size, max_tokens, max_time_ms },
                    input_tokens: input_tokens as u32,
                    output: Vec::new(),
                },
                batch,
            ),
        )
    }

    /// Checks the budgets before the next token, `elapsed_ms` milliseconds
    /// into the call. The run goes on exactly when `budget_left` holds, and is
    /// otherwise completed as truncated, with what it has generated.
    pub fn poll(self, elapsed_ms: u64) -> (decision: Poll)
        ensures
            match decision {
                Poll::Sample(sampling) => self.trace().may_continue(elapsed_ms)
                    && sampling.trace() == self.trace(),
                Poll::Stopped(completed) => !self.trace().may_continue(elapsed_ms)
                    && completed.ending() == self.trace().ended(InferenceStatus::Truncated),
            },
    {
        proof {
            use_type_invariant(&self);
        }
        let produced = self.output.len();
        if produced >= self.budget.max_tokens as usize || elapsed_ms > self.budget.max_time_ms
            || self.input_tokens as usize + produced >= self.budget.context_size as usize {
            Poll::Stopped(
                Completed {
                    input_tokens: self.input_tokens,
                    output: self.output,
                    status: InferenceStatus::Truncated,
                },
            )
        } else {
            Poll::Sample(
                Sampling {
                    budget: self.budget,
                    input_tokens: self.input_tokens,
                    output: self.output,
                },
            )
        }
    }
}

impl Sampling {
    #[verifier::type_invariant]
    spec fn inv(self) -> bool {
        &&& self.output@.len() < self.budget.max_tokens
        &&& self.input_tokens + self.output@.len() < self.budget.context_size
    }

    /// The run as seen from outside.
    pub closed spec fn trace(self) -> Trace {
        Trace {
            budget: self.budget,
            input_tokens: self.input_tokens as nat,
            output: self.output@,
        }
    }

    /// Takes the model's pick. The end-of-sequence token `eos` completes the
    /// run as a success and is not added to the output; any other token is
    /// added, and is to be decoded at the position it now occupies.
    pub fn accept(self, pick: i32, eos: i32) -> (progress: Progress)
        ensures
            match progress {
                Progress::Stopped(completed) => pick == eos && completed.ending()
                    == self.trace().ended(InferenceStatus::Success),
                Progress::Decode { generation, token, position } => pick != eos && token == pick
                    && position == self.trace().position() && generation.trace()
                    == self.trace().with_token(pick),
            },
    {
        proof {
            use_type_invariant(&self);
        }
        if pick == eos {
            Progress::Stopped(
                Completed {
                    input_tokens: self.input_tokens,
                    output: self.output,
                    status: InferenceStatus::Success,
                },
            )
        } else {
            let position: u32 = self.input_tokens + self.output.len() as u32;
            let mut output = self.output;
            output.push(pick);
            Progress::Decode {
                generation: Generation {
                    budget: self.budget,
                    input_tokens: self.input_tokens,
                    output,
                },
                token: pick,
                position,
            }
        }
    }

    /// Selects greedily among `candidates` and takes the pick as `accept`
    /// does. Fails, as a runtime failure, exactly when there is no candidate.
    pub fn advance(self, candidates: &Vec<Candidate>, eos: i32) -> (progress: Result<
        Progress,
        EngineError,
    >)
        ensures
            match progress {
                Err(e) => candidates@.len() == 0 && (e matches EngineError::Runtime(detail)
                    && detail@ == "No candidates found"@),
                Ok(Progress::Stopped(completed)) => greedy_choice(candidates@) == Some(eos)
                    && completed.ending() == self.trace().ended(InferenceStatus::Success),
                Ok(Progress::Decode { generation, token, position }) => greedy_choice(
                    candidates@,
                ) == Some(token) && token != eos && position == self.trace().position()
                    && generation.trace() == self.trace().with_token(token),
            },
    {
        match select_greedy(candidates) {
            None => Err(EngineError::Runtime(String::from_str("No candidates found"))),
            Some(pick) => Ok(self.accept(pick, eos)),
        }
    }
}

impl Completed {
    #[verifier::type_invariant]
    spec fn inv(self) -> bool {
        &&& self.input_tokens + self.output@.len() <= u32::MAX
        &&& self.status != InferenceStatus::Error
    }

    /// The run as seen from outside.
    pub closed spec fn ending(self) -> Ending {
        Ending {
            input_tokens: self.input_tokens as nat,
            output: self.output@,
            status: self.status,
        }
    }

    /// The generated tokens, to be turned into text.
    pub fn tokens(&self) -> (tokens: &Vec<i32>)
        ensures
            tokens@ == self.ending().output,
    {
        &self.output
    }

    /// How the run ended: `Success` or `Truncated`, never `Error`.
    pub fn status(&self) -> (status: InferenceStatus)
        ensures
            status == self.ending().status,
            status != InferenceStatus::Error,
    {
        proof {
            use_type_invariant(self);
        }
        self.status
    }

    /// Builds the result of the call from the detokenized `text` and the
    /// wall-clock span of the whole call. The usage counts the prompt tokens,
    /// the generated tokens and their sum.
    pub fn into_result(self, text: String, duration_ms: u64) -> (result: InferenceResult)
        ensures
            result.text == text,
            result.status == self.ending().status,
            result.status != InferenceStatus::Error,
            result.usage.input_tokens == self.ending().input_tokens,
            result.usage.output_tokens == self.ending().output.len(),
            result.usage.total_tokens == self.ending().input_tokens + self.ending().output.len(),
            result.usage.duration_ms == duration_ms,
            result.usage.balanced(),
    {
        proof {
            use_type_invariant(&self);
        }
        let output_tokens: u32 = self.output.len() as u32;
        InferenceResult {
            text,
            usage: Usage {
                input_tokens: self.input_tokens,
                output_tokens,
                total_tokens: self.input_tokens + output_tokens,
                duration_ms,
            },
            status: self.status,
        }
    }
}

} // verus!
