//! The launch session: which candidate to try next, and what each spawn
//! outcome means for the caller.
//!
//! A [`LaunchSession`] drives one launch. The caller asks for the next
//! invocation, performs the spawn, and reports what the operating system
//! said; the session answers with the final response as soon as one is
//! decided. On the single-candidate platforms the first outcome decides; on
//! Linux a failed candidate only moves the session to the next one, and the
//! aggregate failure is reported after the last. Sessions are plain values
//! with no shared state, so concurrent launches cannot observe one another.

use vstd::prelude::*;
use crate::command::{Platform, Invocation, candidate_count, num_candidates, invocation,
    program_spec, args_spec};

verus! {

/// What the operating system reported for one spawn attempt.
pub enum SpawnOutcome {
    /// The spawn call itself failed (the program is missing or cannot be
    /// executed); the payload is the OS error's textual description.
    SpawnError(String),
    /// The program started and completed; `true` means a success status.
    Exited(bool),
}

/// Whether an outcome counts as a successful launch: the spawn call worked
/// and the program reported success.
pub open spec fn outcome_succeeds(outcome: SpawnOutcome) -> bool {
    outcome matches SpawnOutcome::Exited(true)
}

/// The message reported when a terminal was launched.
pub open spec fn success_message() -> Seq<char> {
    "Terminal launched successfully"@
}

/// The message reported when the single candidate started but did not report
/// success.
pub open spec fn launch_failure_message() -> Seq<char> {
    "Failed to launch terminal"@
}

/// The message reported when every Linux candidate has been tried and failed.
pub open spec fn linux_failure_message() -> Seq<char> {
    "Failed to launch terminal on Linux"@
}

/// A response with its strings read as sequences of characters, the form the
/// contracts speak of.
pub open spec fn response_view(response: Result<String, String>) -> Result<Seq<char>, Seq<char>> {
    match response {
        Ok(message) => Ok(message@),
        Err(message) => Err(message@),
    }
}

/// What the outcome of attempt number `attempt` (counted from 0) decides:
/// the final response, or `None` when a later candidate is still to be tried.
///
/// A success ends any session with the success message. On the
/// single-candidate platforms any other outcome ends it too: a spawn error
/// surfaces the OS error text verbatim, a non-success completion the fixed
/// failure message. On Linux a failed candidate is swallowed while candidates
/// remain, and only after the last one the aggregate failure is reported.
pub open spec fn step_response(platform: Platform, attempt: int, outcome: SpawnOutcome) -> Option<
    Result<Seq<char>, Seq<char>>,
> {
    if outcome_succeeds(outcome) {
        Some(Ok(success_message()))
    } else if platform is Linux {
        if attempt + 1 < candidate_count(platform) {
            None
        } else {
            Some(Err(linux_failure_message()))
        }
    } else {
        match outcome {
            SpawnOutcome::SpawnError(error) => Some(Err(error@)),
            SpawnOutcome::Exited(_) => Some(Err(launch_failure_message())),
        }
    }
}

/// The response decided by feeding `outcomes` in order to a session whose
/// next attempt is number `attempt`, or `None` when they do not decide one.
pub open spec fn run_response_from(
    platform: Platform,
    attempt: int,
    outcomes: Seq<SpawnOutcome>,
) -> Option<Result<Seq<char>, Seq<char>>>
    decreases outcomes.len(),
{
    if outcomes.len() == 0 {
        None
    } else {
        match step_response(platform, attempt, outcomes[0]) {
            Some(response) => Some(response),
            None => run_response_from(platform, attempt + 1, outcomes.drop_first()),
        }
    }
}

/// The response a fresh session decides after the spawn attempts turned out
/// as `outcomes`, in order; `None` when more attempts would be needed.
pub open spec fn run_response(platform: Platform, outcomes: Seq<SpawnOutcome>) -> Option<
    Result<Seq<char>, Seq<char>>,
> {
    run_response_from(platform, 0, outcomes)
}

/// A run that reaches a successful spawn reports success: whenever attempt
/// number `i` succeeds, every earlier attempt failed, and a candidate number
/// `i` exists on the platform, the run ends in `Ok` with the success message,
/// which is not empty.
pub proof fn lemma_success_reported(platform: Platform, outcomes: Seq<SpawnOutcome>, i: int)
    requires
        0 <= i < outcomes.len(),
        i < candidate_count(platform),
        outcome_succeeds(outcomes[i]),
        forall|j: int| 0 <= j < i ==> !outcome_succeeds(#[trigger] outcomes[j]),
    ensures
        run_response(platform, outcomes) == Some(Ok::<Seq<char>, Seq<char>>(success_message())),
        success_message().len() > 0,
{
    reveal_strlit("Terminal launched successfully");
    lemma_run_response_shift(platform, 0, outcomes, i);
}

/// The success law with the attempt counter general, as the induction needs
/// it: in a run whose next attempt is number `attempt`, when attempt number
/// `attempt + i` succeeds, everything before it failed, and that candidate
/// exists, the run ends in `Ok` with the success message.
proof fn lemma_run_response_shift(
    platform: Platform,
    attempt: int,
    outcomes: Seq<SpawnOutcome>,
    i: int,
)
    requires
        0 <= i < outcomes.len(),
        0 <= attempt,
        attempt + i < candidate_count(platform),
        outcome_succeeds(outcomes[i]),
        forall|j: int| 0 <= j < i ==> !outcome_succeeds(#[trigger] outcomes[j]),
    ensures
        run_response_from(platform, attempt, outcomes) == Some(
            Ok::<Seq<char>, Seq<char>>(success_message()),
        ),
    decreases i,
{
    if i == 0 {
    } else {
        let rest = outcomes.drop_first();
        assert(step_response(platform, attempt, outcomes[0]) is None);
        assert forall|j: int| 0 <= j < i - 1 implies !outcome_succeeds(#[trigger] rest[j]) by {
            assert(rest[j] == outcomes[j + 1]);
        }
        assert(outcome_succeeds(rest[i - 1]));
        lemma_run_response_shift(platform, attempt + 1, rest, i - 1);
    }
}

/// On Linux, when the first candidate fails and the second succeeds, one
/// outcome does not finish the run — so a second attempt is made — and the
/// second outcome finishes it with success, so no third attempt is made.
pub proof fn lemma_linux_second_candidate_success(first: SpawnOutcome, second: SpawnOutcome)
    requires
        !outcome_succeeds(first),
        outcome_succeeds(second),
    ensures
        run_response(Platform::Linux, seq![first]) is None,
        run_response(Platform::Linux, seq![first, second]) == Some(
            Ok::<Seq<char>, Seq<char>>(success_message()),
        ),
{
    assert(seq![first].drop_first() =~= Seq::<SpawnOutcome>::empty());
    assert(run_response_from(Platform::Linux, 1, Seq::<SpawnOutcome>::empty()) is None);
    assert(seq![first, second].drop_first() =~= seq![second]);
    assert(run_response_from(Platform::Linux, 1, seq![second]) == Some(
        Ok::<Seq<char>, Seq<char>>(success_message()),
    ));
}

/// When every Linux candidate fails, neither one nor two outcomes finish the
/// run — so all three candidates are attempted — and the third outcome
/// finishes it with the aggregate Linux failure message.
pub proof fn lemma_linux_all_candidates_fail(
    first: SpawnOutcome,
    second: SpawnOutcome,
    third: SpawnOutcome,
)
    requires
        !outcome_succeeds(first),
        !outcome_succeeds(second),
        !outcome_succeeds(third),
    ensures
        run_response(Platform::Linux, seq![first]) is None,
        run_response(Platform::Linux, seq![first, second]) is None,
        run_response(Platform::Linux, seq![first, second, third]) == Some(
            Err::<Seq<char>, Seq<char>>(linux_failure_message()),
        ),
{
    assert(seq![first].drop_first() =~= Seq::<SpawnOutcome>::empty());
    assert(run_response_from(Platform::Linux, 1, Seq::<SpawnOutcome>::empty()) is None);
    assert(seq![first, second].drop_first() =~= seq![second]);
    assert(seq![second].drop_first() =~= Seq::<SpawnOutcome>::empty());
    assert(run_response_from(Platform::Linux, 2, Seq::<SpawnOutcome>::empty()) is None);
    assert(run_response_from(Platform::Linux, 1, seq![second]) is None);
    assert(seq![first, second, third].drop_first() =~= seq![second, third]);
    assert(seq![second, third].drop_first() =~= seq![third]);
    assert(run_response_from(Platform::Linux, 2, seq![third]) == Some(
        Err::<Seq<char>, Seq<char>>(linux_failure_message()),
    ));
    assert(run_response_from(Platform::Linux, 1, seq![second, third]) == Some(
        Err::<Seq<char>, Seq<char>>(linux_failure_message()),
    ));
}

/// On the single-candidate platforms the first outcome decides the run, and
/// an error is reported with its own text: a failed spawn call surfaces the
/// OS error's description verbatim, not a generic message, while a
/// non-success completion yields the fixed failure message.
pub proof fn lemma_spawn_error_text_surfaced(platform: Platform, outcome: SpawnOutcome)
    requires
        platform != Platform::Linux,
        !outcome_succeeds(outcome),
    ensures
        outcome matches SpawnOutcome::SpawnError(error) ==> run_response(platform, seq![outcome])
            == Some(Err::<Seq<char>, Seq<char>>(error@)),
        outcome matches SpawnOutcome::Exited(_) ==> run_response(platform, seq![outcome]) == Some(
            Err::<Seq<char>, Seq<char>>(launch_failure_message()),
        ),
{
}

/// One launch in progress: the command to run, how many candidates have been
/// attempted, and whether a response has been decided.
pub struct LaunchSession {
    platform: Platform,
    command: String,
    attempts: usize,
    finished: bool,
}

impl LaunchSession {
    /// The platform the session launches on.
    pub closed spec fn spec_platform(&self) -> Platform {
        self.platform
    }

    /// The command the session was opened for, as the caller gave it.
    pub closed spec fn spec_command(&self) -> Seq<char> {
        self.command@
    }

    /// How many spawn outcomes the session has been given.
    pub closed spec fn spec_attempts(&self) -> int {
        self.attempts as int
    }

    /// Whether a response has been decided; a finished session takes no
    /// further outcome.
    pub closed spec fn is_finished(&self) -> bool {
        self.finished
    }

    /// The session never counts more attempts than there are candidates, and
    /// while it is not finished a candidate is left to try.
    pub closed spec fn wf(&self) -> bool {
        &&& self.attempts <= candidate_count(self.platform)
        &&& !self.finished ==> self.attempts < candidate_count(self.platform)
    }

    /// Opens a session that will launch `command` on `platform`.
    pub fn new(platform: Platform, command: String) -> (session: Self)
        ensures
            session.wf(),
            session.spec_platform() == platform,
            session.spec_command() == command@,
            session.spec_attempts() == 0,
            !session.is_finished(),
    {
        LaunchSession { platform, command, attempts: 0, finished: false }
    }

    /// The invocation to spawn next: the current candidate's program and
    /// arguments for this session's wrapped command.
    pub fn next_invocation(&self) -> (inv: Invocation)
        requires
            self.wf(),
            !self.is_finished(),
        ensures
            inv.program@ == program_spec(self.spec_platform(), self.spec_attempts()),
            inv.args.deep_view() == args_spec(
                self.spec_platform(),
                self.spec_command(),
                self.spec_attempts(),
            ),
    {
        invocation(self.platform, self.command.as_str(), self.attempts)
    }

    /// Reports what the OS said for the invocation just spawned. Returns the
    /// final response as soon as one is decided, exactly as
    /// [`step_response`] states; `None` means the next candidate is to be
    /// tried.
    pub fn record_outcome(&mut self, outcome: SpawnOutcome) -> (response: Option<
        Result<String, String>,
    >)
        requires
            old(self).wf(),
            !old(self).is_finished(),
        ensures
            final(self).wf(),
            final(self).spec_platform() == old(self).spec_platform(),
            final(self).spec_command() == old(self).spec_command(),
            final(self).spec_attempts() == old(self).spec_attempts() + 1,
            final(self).is_finished() <==> response is Some,
            match response {
                Some(r) => step_response(
                    old(self).spec_platform(),
                    old(self).spec_attempts(),
                    outcome,
                ) == Some(response_view(r)),
                None => step_response(
                    old(self).spec_platform(),
                    old(self).spec_attempts(),
                    outcome,
                ) is None,
            },
    {
        self.attempts = self.attempts + 1;
        let more_candidates = self.attempts < num_candidates(self.platform);
        let response: Option<Result<String, String>> = match outcome {
            SpawnOutcome::Exited(true) => Some(
                Ok(String::from_str("Terminal launched successfully")),
            ),
            SpawnOutcome::SpawnError(error) => {
                if self.platform == Platform::Linux {
                    if more_candidates {
                        None
                    } else {
                        Some(Err(String::from_str("Failed to launch terminal on Linux")))
                    }
                } else {
                    Some(Err(error))
                }
            },
            SpawnOutcome::Exited(false) => {
                if self.platform == Platform::Linux {
                    if more_candidates {
                        None
                    } else {
                        Some(Err(String::from_str("Failed to launch terminal on Linux")))
                    }
                } else {
                    Some(Err(String::from_str("Failed to launch terminal")))
                }
            },
        };
        self.finished = response.is_some();
        response
    }
}

} // verus!
