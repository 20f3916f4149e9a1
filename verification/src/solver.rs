use crate::decimal::{decimal_bytes, decimal_text, push_decimal_bytes};
use crate::job::{Job, JobView};
use crate::hashing::{digest_equals, sha1_digest, sha1_of};
use vstd::prelude::*;
use vstd::utf8::encode_utf8;

verus! {

/// A solved job: the nonce, and how long the search for it took.
#[derive(Debug, Clone, Copy, PartialEq, Eq, Structural)]
pub struct Solution {
    pub nonce: u64,
    pub elapsed_us: u128,
}

/// What a search found, and how many candidates it hashed on the way.
#[derive(Debug, Clone, Copy, PartialEq, Eq, Structural)]
pub struct SearchOutcome {
    pub nonce: Option<u64>,
    pub evaluations: u64,
}

/// How many candidates are tried for each unit of difficulty.
pub const CANDIDATES_PER_DIFFICULTY: u64 = 100;

/// The highest nonce that is tried for a job of the given difficulty.
pub open spec fn search_bound(difficulty: u32) -> nat {
    difficulty as nat * CANDIDATES_PER_DIFFICULTY as nat
}

/// The bytes that are hashed for the nonce `n`: the base text in UTF-8, then
/// `n` in decimal.
pub open spec fn candidate(base: Seq<char>, n: nat) -> Seq<u8> {
    encode_utf8(base) + decimal_bytes(n)
}

/// Whether the nonce `n` solves `job`.
pub open spec fn solves(job: JobView, n: nat) -> bool {
    sha1_digest(candidate(job.base, n)) == job.target
}

/// The lowest nonce from `from` up to the job's bound that solves it.
pub open spec fn first_solution_from(job: JobView, from: nat) -> Option<nat>
    decreases search_bound(job.difficulty) + 1 - from,
{
    if from > search_bound(job.difficulty) {
        None
    } else if solves(job, from) {
        Some(from)
    } else {
        first_solution_from(job, from + 1)
    }
}

/// The lowest nonce within the job's bound that solves it.
pub open spec fn first_solution(job: JobView) -> Option<nat> {
    first_solution_from(job, 0)
}

/// How many candidates a search of `job` hashes: all up to and including the
/// first solution, or every one within the bound.
pub open spec fn evaluations_needed(job: JobView) -> nat {
    match first_solution(job) {
        Some(n) => n + 1,
        None => search_bound(job.difficulty) + 1,
    }
}

/// The nonce of a search or of a solution as a natural number.
pub open spec fn found(nonce: Option<u64>) -> Option<nat> {
    match nonce {
        Some(n) => Some(n as nat),
        None => None,
    }
}

/// The nonce that `result` carries.
pub open spec fn solved_nonce(result: Option<Solution>) -> Option<nat> {
    match result {
        Some(solution) => Some(solution.nonce as nat),
        None => None,
    }
}

/// Tries the nonces `0 ..= 100 * difficulty` in increasing order and stops at
/// the first whose candidate hashes to the target.
pub fn search(job: &Job) -> (out: SearchOutcome)
    ensures
        found(out.nonce) == first_solution(job@),
        out.evaluations == evaluations_needed(job@),
{
    let bound: u64 = job.difficulty as u64 * CANDIDATES_PER_DIFFICULTY;
    let mut message: Vec<u8> = job.base.as_str().as_bytes_vec();
    let base_len = message.len();
    let mut nonce: u64 = 0;
    let mut evaluations: u64 = 0;
    while nonce <= bound
        invariant
            bound == search_bound(job.difficulty),
            nonce <= bound + 1,
            evaluations == nonce,
            base_len <= message@.len(),
            message@.subrange(0, base_len as int) == encode_utf8(job@.base),
            first_solution(job@) == first_solution_from(job@, nonce as nat),
        decreases bound + 1 - nonce,
    {
        message.truncate(base_len);
        push_decimal_bytes(nonce, &mut message);
        assert(message@ =~= candidate(job@.base, nonce as nat));
        let digest = sha1_of(message.as_slice());
        evaluations = evaluations + 1;
        if digest_equals(&digest, &job.target) {
            return SearchOutcome { nonce: Some(nonce), evaluations };
        }
        assert(message@.subrange(0, base_len as int) =~= encode_utf8(job@.base));
        nonce = nonce + 1;
    }
    SearchOutcome { nonce: None, evaluations }
}

/// `tokio::time::Instant`, a reading of the clock. It is only carried from
/// one call to the next.
#[verifier::external_type_specification]
#[verifier::external_body]
pub struct ExInstant(tokio::time::Instant);

/// `tokio::time::Instant::now`. Nothing is claimed of the reading.
#[verifier::external_body]
fn clock_now() -> tokio::time::Instant {
    tokio::time::Instant::now()
}

/// `tokio::time::Instant::elapsed`, taken in whole microseconds by
/// `Duration::as_micros`. Nothing is claimed of the time that has passed.
#[verifier::external_body]
fn micros_since(start: &tokio::time::Instant) -> u128 {
    start.elapsed().as_micros()
}

/// Searches for the job's nonce and times the search. A job without a
/// solution within its bound gives `None`.
pub fn solve(job: &Job) -> (result: Option<Solution>)
    ensures
        solved_nonce(result) == first_solution(job@),
{
    let start = clock_now();
    let out = search(job);
    match out.nonce {
        Some(nonce) => Some(Solution { nonce, elapsed_us: micros_since(&start) }),
        None => None,
    }
}

proof fn lemma_first_solution_from(job: JobView, from: nat, k: nat)
    requires
        from <= k <= search_bound(job.difficulty),
        solves(job, k),
    ensures
        first_solution_from(job, from) matches Some(n) && from <= n <= k && solves(job, n)
            && forall|m: nat| from <= m < n ==> !solves(job, m),
    decreases k - from,
{
    if !solves(job, from) {
        lemma_first_solution_from(job, from + 1, k);
    }
}

proof fn lemma_no_solution_from(job: JobView, from: nat)
    requires
        forall|n: nat| n <= search_bound(job.difficulty) ==> !solves(job, n),
    ensures
        first_solution_from(job, from) is None,
    decreases search_bound(job.difficulty) + 1 - from,
{
    if from <= search_bound(job.difficulty) {
        lemma_no_solution_from(job, from + 1);
    }
}

proof fn lemma_first_solution_in_bound(job: JobView, from: nat)
    ensures
        first_solution_from(job, from) matches Some(n) ==> from <= n <= search_bound(
            job.difficulty,
        ) && solves(job, n),
    decreases search_bound(job.difficulty) + 1 - from,
{
    if from <= search_bound(job.difficulty) && !solves(job, from) {
        lemma_first_solution_in_bound(job, from + 1);
    }
}

/// Where some nonce `k` within the bound solves the job, the solver returns
/// a solution, and its nonce is the lowest one that solves the job: it is
/// `k` itself unless a lower nonce solves the job too.
pub proof fn lemma_lowest_solution_wins(job: JobView, k: nat, result: Option<Solution>)
    requires
        k <= search_bound(job.difficulty),
        solves(job, k),
        solved_nonce(result) == first_solution(job),
    ensures
        result matches Some(solution) && solution.nonce <= k && solves(job, solution.nonce as nat)
            && forall|m: nat| m < solution.nonce ==> !solves(job, m),
        (forall|m: nat| m < k ==> !solves(job, m)) ==> result->0.nonce == k,
{
    lemma_first_solution_from(job, 0, k);
}

/// Where no nonce within the bound solves the job, the solver returns no
/// solution, and the search hashes every candidate within the bound once:
/// one more than a hundred times the difficulty.
pub proof fn lemma_unsolvable_job(job: JobView, result: Option<Solution>, out: SearchOutcome)
    requires
        forall|n: nat| n <= search_bound(job.difficulty) ==> !solves(job, n),
        solved_nonce(result) == first_solution(job),
        found(out.nonce) == first_solution(job),
        out.evaluations == evaluations_needed(job),
    ensures
        result is None,
        out.nonce is None,
        out.evaluations == job.difficulty * 100 + 1,
{
    lemma_no_solution_from(job, 0);
}

/// A solution that the solver returns lies within the bound and solves the
/// job.
pub proof fn lemma_solution_solves(job: JobView, result: Option<Solution>)
    requires
        solved_nonce(result) == first_solution(job),
    ensures
        result matches Some(solution) ==> solution.nonce <= search_bound(job.difficulty)
            && solves(job, solution.nonce as nat),
{
    lemma_first_solution_in_bound(job, 0);
}

/// Two searches of the same job find the same nonce after the same number
/// of evaluations.
pub proof fn lemma_search_repeatable(job: JobView, first: SearchOutcome, second: SearchOutcome)
    requires
        found(first.nonce) == first_solution(job),
        first.evaluations == evaluations_needed(job),
        found(second.nonce) == first_solution(job),
        second.evaluations == evaluations_needed(job),
    ensures
        first == second,
{
}

/// Two runs of the solver on the same job agree on whether there is a
/// solution and on its nonce. Only the time taken may differ.
pub proof fn lemma_solve_repeatable(
    job: JobView,
    first: Option<Solution>,
    second: Option<Solution>,
)
    requires
        solved_nonce(first) == first_solution(job),
        solved_nonce(second) == first_solution(job),
    ensures
        first is Some <==> second is Some,
        first is Some ==> first->0.nonce == second->0.nonce,
{
}

proof fn lemma_encode_concat(a: Seq<char>, b: Seq<char>)
    ensures
        encode_utf8(a + b) == encode_utf8(a) + encode_utf8(b),
    decreases a.len(),
{
    if a.len() == 0 {
        assert(a + b =~= b);
        assert(encode_utf8(a) + encode_utf8(b) =~= encode_utf8(b));
    } else {
        lemma_encode_concat(a.drop_first(), b);
        assert((a + b).drop_first() =~= a.drop_first() + b);
        assert(encode_utf8(a + b) =~= encode_utf8(a) + encode_utf8(b));
    }
}

proof fn lemma_decimal_text_is_ascii(n: nat)
    ensures
        decimal_text(n).len() == decimal_bytes(n).len(),
        forall|i: int|
            0 <= i < decimal_text(n).len() ==> '\0' <= #[trigger] decimal_text(n)[i] <= '\u{7f}'
                && decimal_text(n)[i] as u8 == decimal_bytes(n)[i],
    decreases n,
{
    if n >= 10 {
        lemma_decimal_text_is_ascii(n / 10);
    }
}

/// What is hashed for the nonce `n` is the UTF-8 form of the base text
/// followed by `n` in decimal.
pub proof fn lemma_candidate_is_text(base: Seq<char>, n: nat)
    ensures
        candidate(base, n) == encode_utf8(base + decimal_text(n)),
{
    lemma_encode_concat(base, decimal_text(n));
    lemma_decimal_text_is_ascii(n);
    vstd::utf8::is_ascii_chars_encode_utf8(decimal_text(n));
    assert(encode_utf8(decimal_text(n)) =~= decimal_bytes(n));
}

} // verus!
