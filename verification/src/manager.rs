//! The connection manager: the policy by which a command is attempted on
//! every machine of a fleet, and by which the fleet is polled until a
//! background command reaches a status.

use crate::command::{CommandStatus, SshCommand};
use crate::error::{SshError, SshResult};
use std::path::PathBuf;
use std::time::Duration;
use vstd::prelude::*;

verus! {

/// The seconds to wait before re-attempting an execution, and between two
/// polls.
pub const RETRY_DELAY_SECS: u64 = 5;

/// What is reported as the cause where a machine fails without an attempt.
pub const NO_ATTEMPT: &'static str = "no attempt allowed";

/// The command that lists the active background sessions of a machine.
pub const PROBE_COMMAND: &'static str = "(tmux ls || true)";

/// What a command wrote: its standard output and its standard error.
pub type Output = (String, String);

/// The policy for connecting to the machines and for running commands on them.
#[derive(Clone)]
pub struct SshConnectionManager {
    /// The ssh username.
    pub username: String,
    /// The ssh private key to connect to the instances.
    pub private_key_file: PathBuf,
    /// The timeout value of the connection.
    pub timeout: Option<Duration>,
    /// The number of retries before giving up to execute the command.
    pub retries: usize,
}

/// What follows an attempt to run a command on one machine.
#[derive(Debug, PartialEq, Eq)]
pub enum Attempted {
    /// The attempts on this machine are over, with this result.
    Finished(SshResult<Output>),
    /// Another attempt is due, over a fresh connection, once the delay has
    /// passed.
    RetryAfter { seconds: u64 },
}

/// What follows a probe of all machines.
#[derive(Debug, PartialEq, Eq)]
pub enum Polled {
    /// The wait is over, with this result.
    Finished(SshResult<()>),
    /// Another probe is due once the delay has passed.
    PollAfter { seconds: u64 },
}

/// Whether the attempt with the given number, counted from zero, is due under
/// a limit of `retries` attempts.
pub open spec fn is_due(retries: int, attempt: int) -> bool {
    0 <= attempt < retries
}

/// What follows the attempt with the given number, counted from zero, under
/// a limit of `retries` attempts: a success ends the attempts, and so does
/// the failure of the last attempt allowed; any other failure is followed by
/// another attempt.
pub open spec fn next_after_attempt(
    retries: int,
    attempt: int,
    outcome: SshResult<Output>,
) -> Attempted {
    if outcome is Ok || attempt + 1 >= retries {
        Attempted::Finished(outcome)
    } else {
        Attempted::RetryAfter { seconds: RETRY_DELAY_SECS }
    }
}

/// Whether the error is the one reported of the machine at `address` where
/// no attempt on it was allowed: the machine was not reached.
pub open spec fn is_unattempted(error: SshError, address: String) -> bool {
    error matches SshError::ConnectionError { address: host, error: cause } && host == address
        && cause@ == NO_ATTEMPT@
}

/// The result of the attempts on one machine from the attempt `from` on,
/// where `outcomes` holds the outcome of each attempt in turn and
/// `unattempted` is the error to report where no attempt is due.
pub open spec fn result_from(
    retries: int,
    outcomes: Seq<SshResult<Output>>,
    unattempted: SshError,
    from: int,
) -> SshResult<Output>
    decreases retries - from,
{
    if !is_due(retries, from) {
        Err(unattempted)
    } else {
        match next_after_attempt(retries, from, outcomes[from]) {
            Attempted::Finished(result) => result,
            Attempted::RetryAfter { .. } => result_from(retries, outcomes, unattempted, from + 1),
        }
    }
}

/// The result of running a command on one machine under a limit of `retries`
/// attempts, where `outcomes` holds the outcome of each attempt in turn and
/// `unattempted` is the error to report where the limit allows no attempt.
pub open spec fn retried(
    retries: int,
    outcomes: Seq<SshResult<Output>>,
    unattempted: SshError,
) -> SshResult<Output> {
    result_from(retries, outcomes, unattempted, 0)
}

/// The place of the first failure among the results, if there is one.
pub open spec fn first_failure(results: Seq<SshResult<Output>>) -> Option<int>
    decreases results.len(),
{
    if results.len() == 0 {
        None
    } else {
        match first_failure(results.drop_last()) {
            Some(index) => Some(index),
            None => if results.last() is Err {
                Some(results.len() - 1)
            } else {
                None
            },
        }
    }
}

/// The result of the whole operation: the outputs of all machines where all
/// succeeded, the first failure where one failed.
pub open spec fn joined(results: Seq<SshResult<Output>>) -> SshResult<Seq<Output>> {
    match first_failure(results) {
        Some(index) => Err(results[index]->Err_0),
        None => Ok(results.map_values(|result: SshResult<Output>| result->Ok_0)),
    }
}

/// Whether the listing of every machine shows the command in the status.
pub open spec fn all_show<C: Fn(usize) -> String>(
    command: SshCommand<C>,
    outputs: Seq<Output>,
    status: CommandStatus,
) -> bool {
    forall|i: int|
        0 <= i < outputs.len() ==> command.status_of((#[trigger] outputs[i]).0@) == status
}

/// What follows a probe of all machines: its failure ends the wait, and so
/// does a probe in which every machine shows the status; any other probe is
/// followed by another.
pub open spec fn next_after_probe<C: Fn(usize) -> String>(
    command: SshCommand<C>,
    probe: SshResult<Vec<Output>>,
    status: CommandStatus,
) -> Polled {
    match probe {
        Err(error) => Polled::Finished(Err(error)),
        Ok(outputs) => if all_show(command, outputs@, status) {
            Polled::Finished(Ok(()))
        } else {
            Polled::PollAfter { seconds: RETRY_DELAY_SECS }
        },
    }
}

/// The number of the probe that ends the wait, counted from `from`, and the
/// result of the wait, where `probes` holds the outcome of each probe in
/// turn; none where the wait outlasts the probes.
pub open spec fn wait_from<C: Fn(usize) -> String>(
    command: SshCommand<C>,
    probes: Seq<SshResult<Vec<Output>>>,
    status: CommandStatus,
    from: int,
) -> Option<(int, SshResult<()>)>
    decreases probes.len() - from,
{
    if from < 0 || from >= probes.len() {
        None
    } else {
        match next_after_probe(command, probes[from], status) {
            Polled::Finished(result) => Some((from, result)),
            Polled::PollAfter { .. } => wait_from(command, probes, status, from + 1),
        }
    }
}

impl SshConnectionManager {
    /// Create a new ssh manager from the instances username and private keys.
    /// It has no timeout and allows no attempt until a number of retries is
    /// set.
    pub fn new(username: String, private_key_file: PathBuf) -> (manager: Self)
        ensures
            manager.username == username,
            manager.private_key_file == private_key_file,
            manager.timeout is None,
            manager.retries == 0,
    {
        Self { username, private_key_file, timeout: None, retries: 0 }
    }

    /// Set a timeout duration for the connections.
    pub fn with_timeout(self, timeout: Duration) -> (manager: Self)
        ensures
            manager.username == self.username,
            manager.private_key_file == self.private_key_file,
            manager.timeout == Some(timeout),
            manager.retries == self.retries,
    {
        let mut manager = self;
        manager.timeout = Some(timeout);
        manager
    }

    /// Set the maximum number of times to retries to establish a connection and execute commands.
    pub fn with_retries(self, retries: usize) -> (manager: Self)
        ensures
            manager.username == self.username,
            manager.private_key_file == self.private_key_file,
            manager.timeout == self.timeout,
            manager.retries == retries,
    {
        let mut manager = self;
        manager.retries = retries;
        manager
    }

    /// Whether the attempt with the given number, counted from zero, is due:
    /// at most as many attempts are made on a machine as the limit allows.
    pub fn attempt_due(&self, attempt: usize) -> (due: bool)
        ensures
            due == is_due(self.retries as int, attempt as int),
    {
        attempt < self.retries
    }

    /// Decides what follows an attempt to run a command on one machine.
    /// `attempt` is the number of the attempt, counted from zero, which was
    /// due, and `outcome` what it came to: the output of the command, or the
    /// failure to connect or to run it.
    pub fn after_attempt(&self, attempt: usize, outcome: SshResult<Output>) -> (next: Attempted)
        requires
            is_due(self.retries as int, attempt as int),
        ensures
            next == next_after_attempt(self.retries as int, attempt as int, outcome),
    {
        match outcome {
            Ok(output) => Attempted::Finished(Ok(output)),
            Err(error) => if self.retries - attempt > 1 {
                Attempted::RetryAfter { seconds: RETRY_DELAY_SECS }
            } else {
                Attempted::Finished(Err(error))
            },
        }
    }

    /// Decides what follows a probe of all machines, made to learn whether
    /// the background command has reached the status.
    pub fn after_probe<C: Fn(usize) -> String>(
        &self,
        command: &SshCommand<C>,
        probe: SshResult<Vec<Output>>,
        status: CommandStatus,
    ) -> (next: Polled)
        ensures
            next == next_after_probe(*command, probe, status),
    {
        match probe {
            Err(error) => Polled::Finished(Err(error)),
            Ok(outputs) => {
                let mut i: usize = 0;
                while i < outputs.len()
                    invariant
                        i <= outputs@.len(),
                        probe == Ok::<Vec<Output>, SshError>(outputs),
                        forall|k: int|
                            0 <= k < i ==> command.status_of((#[trigger] outputs@[k]).0@) == status,
                    decreases outputs@.len() - i,
                {
                    if command.status(outputs[i].0.as_str()) != status {
                        assert(command.status_of(outputs@[i as int].0@) != status);
                        return Polled::PollAfter { seconds: RETRY_DELAY_SECS };
                    }
                    i += 1;
                }
                Polled::Finished(Ok(()))
            },
        }
    }
}

/// The error to report of the machine at `address` where the limit allows no
/// attempt on it.
pub fn unattempted(address: String) -> (error: SshError)
    ensures
        is_unattempted(error, address),
{
    SshError::ConnectionError { address, error: NO_ATTEMPT.to_owned() }
}

/// Where `first_failure` finds a failure, no result before it is one; where
/// it finds none, there is none.
pub proof fn lemma_first_failure(results: Seq<SshResult<Output>>)
    ensures
        match first_failure(results) {
            Some(index) => 0 <= index < results.len() && results[index] is Err && forall|i: int|
                0 <= i < index ==> (#[trigger] results[i]) is Ok,
            None => forall|i: int| 0 <= i < results.len() ==> (#[trigger] results[i]) is Ok,
        },
    decreases results.len(),
{
    if results.len() > 0 {
        lemma_first_failure(results.drop_last());
        assert forall|i: int| 0 <= i < results.len() - 1 implies results[i]
            == results.drop_last()[i] by {}
    }
}

/// Joins the results of all machines into the result of the whole operation:
/// the outputs in the order of the machines where every machine succeeded,
/// and else the failure of the first machine that failed.
pub fn join_results(results: Vec<SshResult<Output>>) -> (outcome: SshResult<Vec<Output>>)
    ensures
        match outcome {
            Ok(outputs) => joined(results@) == Ok::<Seq<Output>, SshError>(outputs@),
            Err(error) => joined(results@) == Err::<Seq<Output>, SshError>(error),
        },
{
    let ghost all = results@;
    proof {
        lemma_first_failure(all);
    }
    let mut outputs: Vec<Output> = Vec::new();
    for result in it: results
        invariant
            it.seq() == all,
            outputs@.len() == it.index(),
            forall|i: int|
                0 <= i < it.index() ==> (#[trigger] all[i]) == Ok::<Output, SshError>(outputs@[i]),
            match first_failure(all) {
                Some(index) => 0 <= index < all.len() && all[index] is Err && forall|i: int|
                    0 <= i < index ==> (#[trigger] all[i]) is Ok,
                None => forall|i: int| 0 <= i < all.len() ==> (#[trigger] all[i]) is Ok,
            },
    {
        match result {
            Ok(output) => {
                outputs.push(output);
            },
            Err(error) => {
                assert(all[it.index()] == Err::<Output, SshError>(error));
                return Err(error);
            },
        }
    }
    assert(outputs@ =~= all.map_values(|result: SshResult<Output>| result->Ok_0));
    Ok(outputs)
}


/// The result of running a command on every machine of a fleet under a limit
/// of `retries` attempts each, where `scripts` holds, for each machine, the
/// outcome of each of its attempts in turn, and `unattempted`, for each
/// machine, the error to report of it where the limit allows no attempt.
pub open spec fn executed(
    retries: int,
    scripts: Seq<Seq<SshResult<Output>>>,
    unattempted: Seq<SshError>,
) -> SshResult<Seq<Output>> {
    joined(Seq::new(scripts.len(), |k: int| retried(retries, scripts[k], unattempted[k])))
}

/// While the attempts fail and the limit is not reached, the result is that
/// of the attempts that follow.
proof fn lemma_skip_failures(
    retries: int,
    outcomes: Seq<SshResult<Output>>,
    unattempted: SshError,
    from: int,
    to: int,
)
    requires
        0 <= from <= to < retries,
        forall|i: int| from <= i < to ==> (#[trigger] outcomes[i]) is Err,
    ensures
        result_from(retries, outcomes, unattempted, from) == result_from(
            retries,
            outcomes,
            unattempted,
            to,
        ),
    decreases to - from,
{
    if from < to {
        assert(outcomes[from] is Err);
        lemma_skip_failures(retries, outcomes, unattempted, from + 1, to);
    }
}

/// A machine whose attempts fail until one succeeds, within the limit, has
/// the output of that attempt for its result.
pub proof fn lemma_success_within_limit(
    retries: int,
    outcomes: Seq<SshResult<Output>>,
    unattempted: SshError,
    successful: int,
)
    requires
        0 <= successful < retries,
        forall|i: int| 0 <= i < successful ==> (#[trigger] outcomes[i]) is Err,
        outcomes[successful] is Ok,
    ensures
        retried(retries, outcomes, unattempted) == outcomes[successful],
{
    lemma_skip_failures(retries, outcomes, unattempted, 0, successful);
}

/// A machine whose attempts all fail up to the limit fails: with the failure
/// of the last attempt where the limit allows one, and unattempted where it
/// allows none, whatever an attempt would have come to.
pub proof fn lemma_failure_at_limit(
    retries: int,
    outcomes: Seq<SshResult<Output>>,
    unattempted: SshError,
)
    requires
        0 <= retries,
        forall|i: int| 0 <= i < retries ==> (#[trigger] outcomes[i]) is Err,
    ensures
        retried(retries, outcomes, unattempted) is Err,
        retries == 0 ==> retried(retries, outcomes, unattempted) == Err::<Output, SshError>(
            unattempted,
        ),
        retries >= 1 ==> retried(retries, outcomes, unattempted) == outcomes[retries - 1],
{
    if retries >= 1 {
        lemma_skip_failures(retries, outcomes, unattempted, 0, retries - 1);
        assert(outcomes[retries - 1] is Err);
    }
}

/// A machine succeeds only by an attempt within the limit that succeeded.
pub proof fn lemma_success_needs_an_attempt(
    retries: int,
    outcomes: Seq<SshResult<Output>>,
    unattempted: SshError,
)
    requires
        retried(retries, outcomes, unattempted) is Ok,
    ensures
        exists|i: int|
            0 <= i < retries && (#[trigger] outcomes[i]) == retried(retries, outcomes, unattempted),
{
    lemma_success_from(retries, outcomes, unattempted, 0);
}

/// The attempts from `from` on succeed only by one of them that succeeded.
proof fn lemma_success_from(
    retries: int,
    outcomes: Seq<SshResult<Output>>,
    unattempted: SshError,
    from: int,
)
    requires
        0 <= from,
        result_from(retries, outcomes, unattempted, from) is Ok,
    ensures
        exists|i: int|
            from <= i < retries && (#[trigger] outcomes[i]) == result_from(
                retries,
                outcomes,
                unattempted,
                from,
            ),
    decreases retries - from,
{
    match next_after_attempt(retries, from, outcomes[from]) {
        Attempted::Finished(result) => {
            assert(outcomes[from] == result);
        },
        Attempted::RetryAfter { .. } => {
            lemma_success_from(retries, outcomes, unattempted, from + 1);
            let i = choose|i: int|
                from + 1 <= i < retries && (#[trigger] outcomes[i]) == result_from(
                    retries,
                    outcomes,
                    unattempted,
                    from + 1,
                );
            assert(outcomes[i] == result_from(retries, outcomes, unattempted, from));
        },
    }
}

/// The whole operation fails as soon as one machine fails, whatever the
/// others did.
pub proof fn lemma_one_failure_fails_all(results: Seq<SshResult<Output>>, failed: int)
    requires
        0 <= failed < results.len(),
        results[failed] is Err,
    ensures
        joined(results) is Err,
{
    lemma_first_failure(results);
}

/// Where one machine succeeds only at an attempt beyond the limit, or at
/// none, the whole operation fails, whatever the other machines did. So does
/// every operation on a fleet of at least one machine under a limit of zero.
pub proof fn lemma_execute_fails(
    retries: int,
    scripts: Seq<Seq<SshResult<Output>>>,
    unattempted: Seq<SshError>,
    failing: int,
)
    requires
        0 <= retries,
        0 <= failing < scripts.len(),
        forall|i: int| 0 <= i < retries ==> (#[trigger] scripts[failing][i]) is Err,
    ensures
        executed(retries, scripts, unattempted) is Err,
{
    lemma_failure_at_limit(retries, scripts[failing], unattempted[failing]);
    lemma_one_failure_fails_all(
        Seq::new(scripts.len(), |k: int| retried(retries, scripts[k], unattempted[k])),
        failing,
    );
}

/// Where every machine succeeds at some attempt within the limit, after
/// failing at all attempts before it, the whole operation succeeds with the
/// output of that attempt for each machine.
pub proof fn lemma_execute_succeeds(
    retries: int,
    scripts: Seq<Seq<SshResult<Output>>>,
    unattempted: Seq<SshError>,
    successful: Seq<int>,
)
    requires
        successful.len() == scripts.len(),
        forall|k: int|
            0 <= k < scripts.len() ==> 0 <= (#[trigger] successful[k]) < retries
                && scripts[k][successful[k]] is Ok,
        forall|k: int, i: int|
            0 <= k < scripts.len() && 0 <= i < successful[k] ==> (#[trigger] scripts[k][i]) is Err,
    ensures
        executed(retries, scripts, unattempted) matches Ok(outputs) && outputs.len()
            == scripts.len() && forall|k: int|
            0 <= k < scripts.len() ==> scripts[k][successful[k]] == Ok::<Output, SshError>(
                #[trigger] outputs[k],
            ),
{
    let results = Seq::new(
        scripts.len(),
        |k: int| retried(retries, scripts[k], unattempted[k]),
    );
    assert forall|k: int| 0 <= k < results.len() implies (#[trigger] results[k])
        == scripts[k][successful[k]] by {
        lemma_success_within_limit(retries, scripts[k], unattempted[k], successful[k]);
    }
    lemma_first_failure(results);
}

/// The wait ends with success at the first probe in which every machine
/// shows the status, where no earlier probe failed.
pub proof fn lemma_wait_ends_at_first_match<C: Fn(usize) -> String>(
    command: SshCommand<C>,
    probes: Seq<SshResult<Vec<Output>>>,
    status: CommandStatus,
    matching: int,
)
    requires
        0 <= matching < probes.len(),
        forall|i: int|
            0 <= i < matching ==> (#[trigger] probes[i]) is Ok && !all_show(
                command,
                probes[i]->Ok_0@,
                status,
            ),
        probes[matching] is Ok,
        all_show(command, probes[matching]->Ok_0@, status),
    ensures
        wait_from(command, probes, status, 0) == Some((matching, Ok::<(), SshError>(()))),
{
    lemma_wait_skips(command, probes, status, 0, matching);
}

/// While the probes succeed and some machine does not show the status, the
/// wait goes on.
proof fn lemma_wait_skips<C: Fn(usize) -> String>(
    command: SshCommand<C>,
    probes: Seq<SshResult<Vec<Output>>>,
    status: CommandStatus,
    from: int,
    to: int,
)
    requires
        0 <= from <= to < probes.len(),
        forall|i: int|
            from <= i < to ==> (#[trigger] probes[i]) is Ok && !all_show(
                command,
                probes[i]->Ok_0@,
                status,
            ),
    ensures
        wait_from(command, probes, status, from) == wait_from(command, probes, status, to),
    decreases to - from,
{
    if from < to {
        assert(probes[from] is Ok);
        lemma_wait_skips(command, probes, status, from + 1, to);
    }
}

/// The wait ends with success only at a probe in which every machine shows
/// the status, and after probes that all succeeded and in each of which some
/// machine did not show it.
pub proof fn lemma_wait_ends_only_on_match<C: Fn(usize) -> String>(
    command: SshCommand<C>,
    probes: Seq<SshResult<Vec<Output>>>,
    status: CommandStatus,
    last: int,
)
    requires
        wait_from(command, probes, status, 0) == Some((last, Ok::<(), SshError>(()))),
    ensures
        0 <= last < probes.len(),
        probes[last] is Ok,
        all_show(command, probes[last]->Ok_0@, status),
        forall|i: int|
            0 <= i < last ==> (#[trigger] probes[i]) is Ok && !all_show(
                command,
                probes[i]->Ok_0@,
                status,
            ),
{
    lemma_wait_end(command, probes, status, 0, last);
}

/// What holds of the probe at which a wait ends with success, and of the
/// probes before it.
proof fn lemma_wait_end<C: Fn(usize) -> String>(
    command: SshCommand<C>,
    probes: Seq<SshResult<Vec<Output>>>,
    status: CommandStatus,
    from: int,
    last: int,
)
    requires
        0 <= from,
        wait_from(command, probes, status, from) == Some((last, Ok::<(), SshError>(()))),
    ensures
        from <= last < probes.len(),
        probes[last] is Ok,
        all_show(command, probes[last]->Ok_0@, status),
        forall|i: int|
            from <= i < last ==> (#[trigger] probes[i]) is Ok && !all_show(
                command,
                probes[i]->Ok_0@,
                status,
            ),
    decreases probes.len() - from,
{
    if from < probes.len() {
        match next_after_probe(command, probes[from], status) {
            Polled::Finished(result) => {},
            Polled::PollAfter { .. } => {
                lemma_wait_end(command, probes, status, from + 1, last);
            },
        }
    }
}

} // verus!
