//! Reactors, and how they are retried when the database is busy.

use vstd::arithmetic::power2::{
    lemma2_to64, lemma2_to64_rest, lemma_pow2_pos, lemma_pow2_strictly_increases,
    lemma_pow2_unfold, pow2,
};
use vstd::prelude::*;

verus! {

/// Something that reacts to the events of entities. Nothing is assumed of what an
/// implementation does.
pub trait Reactor {
    type Event;

    type Error;

    fn react(&self, event: Self::Event) -> Result<(), Self::Error>;
}

/// A reactor whose `react` may be run again in full after it failed: whatever it does,
/// it does in one database transaction, or so that doing it twice changes nothing.
pub trait IdempotentReactor: Reactor {

}

/// A reactor that is retried while the database is busy.
pub struct RetryOnBusy<Inner> {
    pub inner: Inner,
}

/// How often a reaction is retried.
pub const RETRY_MAX_ATTEMPTS: u32 = 10;

/// How long to wait before the first retry.
pub const RETRY_BASE_DELAY_MS: u64 = 10;

/// How long to wait at most.
pub const RETRY_MAX_DELAY_MS: u64 = 1000;

/// All that the retries of one reaction wait together, at most.
pub const RETRY_BUDGET_MS: u64 = 4270;

/// The delay before the retry that follows on `attempt` earlier ones: `base_ms` doubled
/// that often, but at most `max_ms`, and `max_ms` where it cannot be counted.
pub open spec fn backoff(attempt: nat, base_ms: nat, max_ms: nat) -> nat {
    if pow2(attempt) > u64::MAX || base_ms * pow2(attempt) > u64::MAX || base_ms * pow2(attempt)
        > max_ms {
        max_ms
    } else {
        base_ms * pow2(attempt)
    }
}

/// The delay before the retry that follows on `attempt` earlier ones.
pub fn backoff_delay_ms(attempt: u32, base_delay_ms: u64, max_delay_ms: u64) -> (delay_ms: u64)
    ensures
        delay_ms == backoff(attempt as nat, base_delay_ms as nat, max_delay_ms as nat),
{
    proof {
        lemma2_to64();
        lemma2_to64_rest();
    }
    if attempt >= 64 {
        proof {
            if attempt > 64 {
                lemma_pow2_strictly_increases(64, attempt as nat);
            }
        }
        return max_delay_ms;
    }
    let mut multiplier: u64 = 1;
    let mut doubled: u32 = 0;
    while doubled < attempt
        invariant
            doubled <= attempt < 64,
            multiplier == pow2(doubled as nat),
            pow2(63) == 0x8000000000000000,
        decreases attempt - doubled,
    {
        proof {
            lemma_pow2_unfold((doubled + 1) as nat);
            if doubled + 1 < 63 {
                lemma_pow2_strictly_increases((doubled + 1) as nat, 63);
            }
        }
        multiplier = multiplier * 2;
        doubled = doubled + 1;
    }
    match base_delay_ms.checked_mul(multiplier) {
        Some(computed) => if computed < max_delay_ms {
            computed
        } else {
            max_delay_ms
        },
        None => max_delay_ms,
    }
}

/// What to do after a try that failed.
#[derive(Clone, Copy, Debug, Eq, PartialEq, Structural)]
pub enum RetryStep {
    /// Try again after this many milliseconds.
    RetryAfter(u64),
    /// Hand the error back.
    GiveUp,
}

/// What to do after a try that failed and followed on `attempt` retries.
pub open spec fn retried(
    attempt: nat,
    max_attempts: nat,
    base_ms: nat,
    max_ms: nat,
    retryable: bool,
) -> Option<nat> {
    if attempt < max_attempts && retryable {
        Some(backoff(attempt, base_ms, max_ms))
    } else {
        None
    }
}

/// What to do after a try that failed and followed on `attempt` retries: try again
/// while the error allows it and the retries are not used up.
pub fn retry_step(
    attempt: u32,
    max_attempts: u32,
    base_delay_ms: u64,
    max_delay_ms: u64,
    retryable: bool,
) -> (step: RetryStep)
    ensures
        match retried(
            attempt as nat,
            max_attempts as nat,
            base_delay_ms as nat,
            max_delay_ms as nat,
            retryable,
        ) {
            Some(delay_ms) => step matches RetryStep::RetryAfter(wait) && wait == delay_ms,
            None => step is GiveUp,
        },
{
    if attempt < max_attempts && retryable {
        RetryStep::RetryAfter(backoff_delay_ms(attempt, base_delay_ms, max_delay_ms))
    } else {
        RetryStep::GiveUp
    }
}

/// What one error of a chain is.
#[derive(Debug, Eq, PartialEq)]
pub enum ErrorKind {
    /// An error of the database driver that wraps what the database reported, with the
    /// result code.
    Database(Option<String>),
    /// What the database reported, with the result code.
    Reported(Option<String>),
    /// A persistence error whose cause is boxed inside it.
    Persistence(Box<ErrorNode>),
    Other,
}

/// An error with its cause.
#[derive(Debug, Eq, PartialEq)]
pub struct ErrorNode {
    pub kind: ErrorKind,
    pub source: Option<Box<ErrorNode>>,
}

/// Whether the text is one or more decimal digits.
pub open spec fn all_digits(text: Seq<char>) -> bool {
    &&& text.len() > 0
    &&& forall|i: int| 0 <= i < text.len() ==> '0' <= #[trigger] text[i] <= '9'
}

/// The number that decimal digits write.
pub open spec fn digits_value(text: Seq<char>) -> int
    decreases text.len(),
{
    if text.len() == 0 {
        0
    } else {
        digits_value(text.drop_last()) * 10 + (text.last() as int - '0' as int)
    }
}

/// The number that the text writes: decimal digits with at most one sign before them.
pub open spec fn decimal(text: Seq<char>) -> Option<int> {
    if text.len() > 0 && (text[0] == '-' || text[0] == '+') {
        let digits = text.skip(1);
        if !all_digits(digits) {
            None
        } else if text[0] == '-' {
            Some(-digits_value(digits))
        } else {
            Some(digits_value(digits))
        }
    } else if all_digits(text) {
        Some(digits_value(text))
    } else {
        None
    }
}

/// `str::parse::<i32>`: the number that the text writes in decimal digits, with at most
/// one sign before them; none where the text is anything else or the number is out of
/// range.
#[verifier::external_body]
fn parse_i32(text: &str) -> (number: Option<i32>)
    ensures
        number == match decimal(text@) {
            Some(value) => if i32::MIN <= value <= i32::MAX {
                Some(value as i32)
            } else {
                None
            },
            None => None,
        },
{
    text.parse::<i32>().ok()
}

/// Whether the result code is one of the busy codes: its low byte is 5.
pub open spec fn busy_code(code: Option<Seq<char>>) -> bool {
    code matches Some(text) && decimal(text) matches Some(value) && i32::MIN <= value <= i32::MAX
        && value % 256 == 5
}

/// The text of a code.
pub open spec fn code_text(code: Option<String>) -> Option<Seq<char>> {
    match code {
        Some(text) => Some(text@),
        None => None,
    }
}

/// Whether the result code is one of the busy codes.
pub fn is_busy_extended_code(code: Option<&str>) -> (busy: bool)
    ensures
        busy <==> busy_code(
            match code {
                Some(text) => Some(text@),
                None => None,
            },
        ),
{
    let Some(text) = code else {
        return false;
    };
    match parse_i32(text) {
        Some(number) => {
            let low: i32 = number & 0xFF;
            assert(low == number % 256) by (bit_vector)
                requires
                    low == number & 0xFF,
            ;
            low == 5
        },
        None => false,
    }
}

/// Whether the error itself says that the database is busy.
pub open spec fn says_busy(node: ErrorNode) -> bool {
    match node.kind {
        ErrorKind::Database(code) => busy_code(code_text(code)),
        ErrorKind::Reported(code) => busy_code(code_text(code)),
        _ => false,
    }
}

/// Whether an error of the chain says that the database is busy. The chain goes on with
/// the cause that a persistence error boxes, else with the source.
pub open spec fn busy_chain(node: ErrorNode) -> bool
    decreases node,
{
    says_busy(node) || match node.kind {
        ErrorKind::Persistence(inner) => busy_chain(*inner),
        _ => match node.source {
            Some(source) => busy_chain(*source),
            None => false,
        },
    }
}

/// The text of a code.
fn borrowed_code(code: &Option<String>) -> (text: Option<&str>)
    ensures
        match text {
            Some(text) => code_text(*code) == Some(text@),
            None => code_text(*code) is None,
        },
{
    match code {
        Some(text) => Some(text.as_str()),
        None => None,
    }
}

/// Whether an error of the chain says that the database is busy. An error that hides
/// its cause is not retried.
pub fn is_retryable_sqlite_busy(error: &ErrorNode) -> (retryable: bool)
    ensures
        retryable <==> busy_chain(*error),
    decreases *error,
{
    match &error.kind {
        ErrorKind::Database(code) => if is_busy_extended_code(borrowed_code(code)) {
            return true;
        },
        ErrorKind::Reported(code) => if is_busy_extended_code(borrowed_code(code)) {
            return true;
        },
        ErrorKind::Persistence(inner) => {
            return is_retryable_sqlite_busy(inner);
        },
        ErrorKind::Other => {},
    }
    match &error.source {
        Some(source) => is_retryable_sqlite_busy(source),
        None => false,
    }
}

impl<Inner: IdempotentReactor> RetryOnBusy<Inner> {
    /// What to do after a reaction that failed and followed on `attempt` retries.
    pub fn after_failure(&self, attempt: u32, error: &ErrorNode) -> (step: RetryStep)
        ensures
            match retried(
                attempt as nat,
                RETRY_MAX_ATTEMPTS as nat,
                RETRY_BASE_DELAY_MS as nat,
                RETRY_MAX_DELAY_MS as nat,
                busy_chain(*error),
            ) {
                Some(delay_ms) => step matches RetryStep::RetryAfter(wait) && wait == delay_ms,
                None => step is GiveUp,
            },
    {
        retry_step(
            attempt,
            RETRY_MAX_ATTEMPTS,
            RETRY_BASE_DELAY_MS,
            RETRY_MAX_DELAY_MS,
            is_retryable_sqlite_busy(error),
        )
    }
}

/// How many tries are made from the one after `attempt` retries on, where the i-th of
/// them would fail with an error that may be retried (`failures[i]`) or not, and a try
/// beyond all failures succeeds.
pub open spec fn tries(failures: Seq<bool>, attempt: nat, max_attempts: nat) -> nat
    decreases failures.len(),
{
    if failures.len() > 0 && attempt < max_attempts && failures[0] {
        1 + tries(failures.skip(1), attempt + 1, max_attempts)
    } else {
        1
    }
}

/// How long those tries wait together.
pub open spec fn waited(
    failures: Seq<bool>,
    attempt: nat,
    max_attempts: nat,
    base_ms: nat,
    max_ms: nat,
) -> nat
    decreases failures.len(),
{
    if failures.len() > 0 {
        match retried(attempt, max_attempts, base_ms, max_ms, failures[0]) {
            Some(delay_ms) => delay_ms + waited(
                failures.skip(1),
                attempt + 1,
                max_attempts,
                base_ms,
                max_ms,
            ),
            None => 0,
        }
    } else {
        0
    }
}

/// Delays never go down, and none is longer than the longest one.
pub proof fn law_delays_grow_up_to_the_longest(earlier: nat, later: nat, base_ms: nat, max_ms: nat)
    requires
        earlier <= later,
    ensures
        backoff(earlier, base_ms, max_ms) <= backoff(later, base_ms, max_ms) <= max_ms,
{
    lemma_pow2_pos(earlier);
    if earlier < later {
        lemma_pow2_strictly_increases(earlier, later);
    }
    assert(base_ms * pow2(earlier) <= base_ms * pow2(later)) by (nonlinear_arith)
        requires
            pow2(earlier) <= pow2(later),
    ;
}

/// There is at least one try, and there are at most as many retries as allowed; an
/// error that may not be retried ends the tries at once; and where every try fails
/// with an error that may be retried, all of the retries are made.
pub proof fn law_retries_are_bounded(failures: Seq<bool>, attempt: nat, max_attempts: nat)
    requires
        attempt <= max_attempts,
    ensures
        1 <= tries(failures, attempt, max_attempts) <= max_attempts - attempt + 1,
        failures.len() > 0 && !failures[0] ==> tries(failures, attempt, max_attempts) == 1,
        failures.len() >= max_attempts - attempt && (forall|i: int|
            0 <= i < failures.len() ==> #[trigger] failures[i]) ==> tries(
            failures,
            attempt,
            max_attempts,
        ) == max_attempts - attempt + 1,
    decreases failures.len(),
{
    if failures.len() > 0 && attempt < max_attempts && failures[0] {
        law_retries_are_bounded(failures.skip(1), attempt + 1, max_attempts);
    }
}

/// However a reaction fails, its retries wait no longer than the budget.
pub proof fn law_retries_stay_within_the_budget(failures: Seq<bool>)
    ensures
        waited(
            failures,
            0,
            RETRY_MAX_ATTEMPTS as nat,
            RETRY_BASE_DELAY_MS as nat,
            RETRY_MAX_DELAY_MS as nat,
        ) <= RETRY_BUDGET_MS,
{
    lemma2_to64();
    lemma_waited_within(failures, 0);
}

/// What is left of the budget after `attempt` retries.
spec fn budget_left(attempt: nat) -> nat {
    if attempt <= 7 {
        (RETRY_BUDGET_MS - (RETRY_BASE_DELAY_MS * pow2(attempt) - RETRY_BASE_DELAY_MS)) as nat
    } else if attempt < 10 {
        ((10 - attempt) * RETRY_MAX_DELAY_MS) as nat
    } else {
        0
    }
}

proof fn lemma_waited_within(failures: Seq<bool>, attempt: nat)
    ensures
        waited(
            failures,
            attempt,
            RETRY_MAX_ATTEMPTS as nat,
            RETRY_BASE_DELAY_MS as nat,
            RETRY_MAX_DELAY_MS as nat,
        ) <= budget_left(attempt),
    decreases failures.len(),
{
    lemma2_to64();
    if failures.len() > 0 && attempt < RETRY_MAX_ATTEMPTS && failures[0] {
        lemma_waited_within(failures.skip(1), attempt + 1);
    }
    assert(attempt == 0 || attempt == 1 || attempt == 2 || attempt == 3 || attempt == 4 || attempt
        == 5 || attempt == 6 || attempt == 7 || attempt == 8 || attempt == 9 || attempt >= 10);
}

/// The first delay is the base, each delay after it is twice the one before, and none is
/// beyond the longest.
pub proof fn law_delays_double(attempt: nat, base_ms: nat, max_ms: nat)
    requires
        max_ms <= u64::MAX,
    ensures
        backoff(0, base_ms, max_ms) == if base_ms <= max_ms {
            base_ms
        } else {
            max_ms
        },
        base_ms > 0 ==> backoff(attempt + 1, base_ms, max_ms) == if 2 * backoff(
            attempt,
            base_ms,
            max_ms,
        ) <= max_ms {
            2 * backoff(attempt, base_ms, max_ms)
        } else {
            max_ms
        },
{
    lemma2_to64();
    lemma_pow2_pos(attempt);
    lemma_pow2_unfold(attempt + 1);
    let power = pow2(attempt) as int;
    let base = base_ms as int;
    assert(base * (2 * power) == 2 * (base * power)) by (nonlinear_arith);
    if base_ms > 0 {
        assert(base * power >= power) by (nonlinear_arith)
            requires
                base >= 1,
                power >= 1,
        ;
    }
}

/// A try that failed is followed by another exactly while its error allows it and the
/// retries are not used up.
pub proof fn law_failed_tries_are_repeated_while_they_may(
    attempt: u32,
    max_attempts: u32,
    base_delay_ms: u64,
    max_delay_ms: u64,
    retryable: bool,
    step: RetryStep,
    delay_ms: u64,
)
    requires
        call_ensures(
            retry_step,
            (attempt, max_attempts, base_delay_ms, max_delay_ms, retryable),
            step,
        ),
        call_ensures(backoff_delay_ms, (attempt, base_delay_ms, max_delay_ms), delay_ms),
    ensures
        step is GiveUp <==> !retryable || attempt >= max_attempts,
        step matches RetryStep::RetryAfter(wait) ==> wait == delay_ms,
        delay_ms <= max_delay_ms,
        attempt == 0 && base_delay_ms <= max_delay_ms ==> delay_ms == base_delay_ms,
{
    lemma2_to64();
    law_delays_grow_up_to_the_longest(
        attempt as nat,
        attempt as nat,
        base_delay_ms as nat,
        max_delay_ms as nat,
    );
}

/// A reaction is retried exactly while the database is busy, ten times at most.
pub proof fn law_reactions_are_retried_while_busy<Inner: IdempotentReactor>(
    reactor: RetryOnBusy<Inner>,
    attempt: u32,
    error: ErrorNode,
    step: RetryStep,
)
    requires
        call_ensures(RetryOnBusy::<Inner>::after_failure, (&reactor, attempt, &error), step),
    ensures
        step is RetryAfter <==> attempt < 10 && busy_chain(error),
        step matches RetryStep::RetryAfter(delay_ms) ==> 10 <= delay_ms <= 1000,
{
    law_delays_grow_up_to_the_longest(
        0,
        attempt as nat,
        RETRY_BASE_DELAY_MS as nat,
        RETRY_MAX_DELAY_MS as nat,
    );
    lemma2_to64();
}

/// An error is busy where it says so itself, or where its cause is: a persistence error
/// is what it boxes, and any other error is what it came from. An error that neither says
/// anything nor has a cause is not busy.
pub proof fn law_busy_errors_are_found_through_their_causes(
    kind: ErrorKind,
    cause: ErrorNode,
    other: Option<Box<ErrorNode>>,
)
    ensures
        busy_chain(ErrorNode { kind: ErrorKind::Persistence(Box::new(cause)), source: other })
            <==> busy_chain(cause),
        busy_chain(ErrorNode { kind: ErrorKind::Other, source: Some(Box::new(cause)) })
            <==> busy_chain(cause),
        !busy_chain(ErrorNode { kind: ErrorKind::Other, source: None }),
        !(kind is Persistence) && busy_chain(cause) ==> busy_chain(
            ErrorNode { kind, source: Some(Box::new(cause)) },
        ),
        kind matches ErrorKind::Database(code) ==> (busy_chain(ErrorNode { kind, source: None })
            <==> (code matches Some(text) && busy_code(Some(text@)))),
        kind matches ErrorKind::Reported(code) ==> (busy_chain(ErrorNode { kind, source: None })
            <==> (code matches Some(text) && busy_code(Some(text@)))),
{
    reveal_with_fuel(busy_chain, 2);
}

/// A code is busy by its low byte alone, however it is extended; a text that is no number
/// is none, nor is a code that is not there.
pub proof fn law_busy_codes_are_told_by_their_low_byte(
    text: &str,
    high: int,
    low: int,
    busy: bool,
    absent: bool,
)
    requires
        call_ensures(is_busy_extended_code, (Some(text),), busy),
        call_ensures(is_busy_extended_code, (None,), absent),
        0 <= low < 256,
        i32::MIN <= 256 * high + low <= i32::MAX,
    ensures
        !absent,
        decimal(text@) is None ==> !busy,
        decimal(text@) == Some(256 * high + low) ==> (busy <==> low == 5),
{
    assert((256 * high + low) % 256 == low);
}

} // verus!
