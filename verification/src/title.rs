//! The buffer title manager: a buffer is renamed to the wanted title, or,
//! where that name is taken, to the title with the first free numeric suffix.

use vstd::prelude::*;
use vstd::string::*;

use crate::decimal::{decimal_digits, u64_to_string};
use crate::text::same_text;

verus! {

/// The highest suffix that is tried.
pub const MAX_TITLE_SUFFIX: u64 = 99;

/// The name that is tried at the attempt `attempt`: the title itself at the
/// attempt 0, then the title followed by the attempt's number in parentheses.
pub open spec fn candidate_text(title: Seq<char>, attempt: nat) -> Seq<char> {
    if attempt == 0 {
        title
    } else {
        title + "("@ + decimal_digits(attempt) + ")"@
    }
}

/// What the editor says when the name asked for is taken.
pub open spec fn name_taken_text() -> Seq<char> {
    "0 - Failed to rename buffer"@
}

/// What follows an attempt to rename.
#[derive(Debug, PartialEq, Eq)]
pub enum TitleStep {
    /// The buffer has the name: the display is to be redrawn.
    Renamed,
    /// The name is taken: try the attempt with this number.
    Retry(u64),
    /// The operation failed; the description of the last failure is given.
    GiveUp(String),
}

/// Whether the attempt `attempt`, answered with `answer`, is followed by
/// another one.
pub open spec fn retries(attempt: u64, answer: Result<(), String>) -> bool {
    answer matches Err(description) && description@ == name_taken_text() && attempt
        < MAX_TITLE_SUFFIX
}

/// Builds the name that is tried at the attempt `attempt`.
pub fn title_candidate(buf_title: &str, attempt: u64) -> (name: String)
    ensures
        name@ == candidate_text(buf_title@, attempt as nat),
{
    let mut name = String::from_str(buf_title);
    if attempt != 0 {
        let number = u64_to_string(attempt);
        name.append("(");
        name.append(number.as_str());
        name.append(")");
    }
    name
}

/// Decides what follows the attempt `attempt`, which the editor answered with
/// `answer`: nothing or the description of a failure.
///
/// Only the failure that says that the name is taken is followed by another
/// attempt, and only as long as the suffix stays within
/// [`MAX_TITLE_SUFFIX`].
pub fn update_buffer_title(attempt: u64, answer: &Result<(), String>) -> (step: TitleStep)
    ensures
        match step {
            TitleStep::Renamed => answer.is_ok(),
            TitleStep::Retry(next) => retries(attempt, *answer) && next == attempt + 1,
            TitleStep::GiveUp(description) => {
                &&& !retries(attempt, *answer)
                &&& answer matches Err(d) && d@ == description@
            },
        },
{
    match answer {
        Ok(_) => TitleStep::Renamed,
        Err(description) => {
            if attempt < MAX_TITLE_SUFFIX && same_text(
                description.as_str(),
                "0 - Failed to rename buffer",
            ) {
                TitleStep::Retry(attempt + 1)
            } else {
                TitleStep::GiveUp(description.clone())
            }
        },
    }
}

/// How a run of attempts ended.
pub enum TitleEnd {
    /// The attempt with this number gave the buffer its name.
    Renamed(nat),
    /// The attempt with this number failed, and none followed.
    GaveUp(nat),
    /// The answers ran out before the attempt with this number.
    Unanswered(nat),
}

/// The end of the run that starts at the attempt `attempt`, where
/// `answers[i]` is the editor's answer to the attempt `i`.
pub open spec fn run_from(answers: Seq<Result<(), String>>, attempt: nat) -> TitleEnd
    decreases answers.len() - attempt,
{
    if attempt >= answers.len() || attempt > MAX_TITLE_SUFFIX {
        TitleEnd::Unanswered(attempt)
    } else if answers[attempt as int].is_ok() {
        TitleEnd::Renamed(attempt)
    } else if retries(attempt as u64, answers[attempt as int]) {
        run_from(answers, attempt + 1)
    } else {
        TitleEnd::GaveUp(attempt)
    }
}

/// Whether the editor answered each of the attempts before `upto` by saying
/// that the name is taken.
pub open spec fn all_taken(answers: Seq<Result<(), String>>, upto: int) -> bool {
    forall|i: int|
        0 <= i < upto && i < answers.len() ==> (#[trigger] answers[i] matches Err(d) && d@
            == name_taken_text())
}

/// The first free name wins: when the names of the attempts before `k` are
/// taken and the attempt `k`, with a suffix within the limit, is accepted, the
/// run ends there, renamed.
pub proof fn lemma_first_free_title_wins(answers: Seq<Result<(), String>>, k: nat)
    requires
        k <= MAX_TITLE_SUFFIX,
        k < answers.len(),
        all_taken(answers, k as int),
        answers[k as int].is_ok(),
    ensures
        run_from(answers, 0) == TitleEnd::Renamed(k),
{
    lemma_run_skips_taken(answers, 0, k);
}

/// The retry is bounded: when every name up to the last suffix is taken, the
/// run gives up at that suffix, after one attempt for the bare title and one
/// for each suffix, and asks for no further name.
pub proof fn lemma_exhausted_titles_give_up(answers: Seq<Result<(), String>>)
    requires
        answers.len() > MAX_TITLE_SUFFIX,
        all_taken(answers, MAX_TITLE_SUFFIX + 1),
    ensures
        run_from(answers, 0) == TitleEnd::GaveUp(MAX_TITLE_SUFFIX as nat),
{
    lemma_run_skips_taken(answers, 0, MAX_TITLE_SUFFIX as nat);
    assert(answers[MAX_TITLE_SUFFIX as int] matches Err(d) && d@ == name_taken_text());
}

/// No run reaches beyond the last suffix, whatever the editor answers.
pub proof fn lemma_run_stays_within_limit(answers: Seq<Result<(), String>>, attempt: nat)
    requires
        attempt <= MAX_TITLE_SUFFIX,
    ensures
        match run_from(answers, attempt) {
            TitleEnd::Renamed(last) => attempt <= last <= MAX_TITLE_SUFFIX,
            TitleEnd::GaveUp(last) => attempt <= last <= MAX_TITLE_SUFFIX,
            TitleEnd::Unanswered(next) => attempt <= next <= MAX_TITLE_SUFFIX && next
                >= answers.len(),
        },
    decreases answers.len() - attempt,
{
    if attempt < answers.len() && !answers[attempt as int].is_ok() && retries(
        attempt as u64,
        answers[attempt as int],
    ) {
        lemma_run_stays_within_limit(answers, attempt + 1);
    }
}

/// A run that meets only taken names from `from` up to `to` goes on at `to`.
proof fn lemma_run_skips_taken(answers: Seq<Result<(), String>>, from: nat, to: nat)
    requires
        from <= to <= MAX_TITLE_SUFFIX,
        to < answers.len(),
        all_taken(answers, to as int),
    ensures
        run_from(answers, from) == run_from(answers, to),
    decreases to - from,
{
    if from < to {
        assert(answers[from as int] matches Err(d) && d@ == name_taken_text());
        assert(retries(from as u64, answers[from as int]));
        lemma_run_skips_taken(answers, from + 1, to);
    }
}

} // verus!
