//! The submission engine: hands out the commands of a batch in order, counts
//! each command once its send is acknowledged, and paces the sends.
//!
//! The engine makes the decisions; the caller performs them. It asks
//! `next_action`, sends the command it is given, reports success with
//! `record_sent` (then waits the pause it gets back) or failure with
//! `send_failed`, which ends the batch.

use vstd::prelude::*;

use crate::command::{CommandKind, Request};
use crate::random::is_cluster_id;
use crate::requests::{generate_requests_for_a_random_cluster, is_cluster_batch};

verus! {

/// Why a batch could not be generated or submitted.
#[derive(Clone, Debug, PartialEq, Eq)]
pub enum GeneratorError {
    /// The listener of a batch could not be built.
    ListenerCreation(String),
    /// A request without a command reached the engine.
    EmptyRequest,
    /// The connection to the control plane could not be set up.
    CreateClient(String),
    /// The session failed to send a command.
    Send(String),
}

/// One counter per command kind.
#[derive(Clone, Copy, Debug, PartialEq, Eq, Structural)]
pub struct Counters {
    pub add_cluster: usize,
    pub add_http_listener: usize,
    pub add_http_frontend: usize,
    pub add_backend: usize,
}

/// How many requests of `reqs` carry a command of kind `k`.
pub open spec fn count_kind(reqs: Seq<Request>, k: CommandKind) -> nat
    decreases reqs.len(),
{
    if reqs.len() == 0 {
        0
    } else {
        count_kind(reqs.drop_last(), k) + if reqs.last().spec_kind() == Some(k) {
            1nat
        } else {
            0nat
        }
    }
}

/// Every request of `reqs` carries a command.
pub open spec fn all_typed(reqs: Seq<Request>) -> bool {
    forall|i: int| 0 <= i < reqs.len() ==> (#[trigger] reqs[i]).request_type is Some
}

impl Counters {
    /// The counter of kind `k`.
    pub open spec fn count(&self, k: CommandKind) -> nat {
        match k {
            CommandKind::AddCluster => self.add_cluster as nat,
            CommandKind::AddHttpListener => self.add_http_listener as nat,
            CommandKind::AddHttpFrontend => self.add_http_frontend as nat,
            CommandKind::AddBackend => self.add_backend as nat,
        }
    }

    /// The sum of all counters.
    pub open spec fn total(&self) -> nat {
        self.add_cluster as nat + self.add_http_listener as nat + self.add_http_frontend as nat
            + self.add_backend as nat
    }

    /// The counters hold the number of commands of each kind in `reqs`.
    pub open spec fn counts(&self, reqs: Seq<Request>) -> bool {
        forall|k: CommandKind| #[trigger] self.count(k) == count_kind(reqs, k)
    }

    /// All counters at zero.
    pub fn new() -> (c: Counters)
        ensures
            forall|k: CommandKind| #[trigger] c.count(k) == 0,
    {
        Counters { add_cluster: 0, add_http_listener: 0, add_http_frontend: 0, add_backend: 0 }
    }

    /// The counter of kind `k`.
    pub fn get(&self, k: CommandKind) -> (n: usize)
        ensures
            n == self.count(k),
    {
        match k {
            CommandKind::AddCluster => self.add_cluster,
            CommandKind::AddHttpListener => self.add_http_listener,
            CommandKind::AddHttpFrontend => self.add_http_frontend,
            CommandKind::AddBackend => self.add_backend,
        }
    }

    /// Adds one to the counter of kind `k`.
    pub fn increment(&mut self, k: CommandKind)
        requires
            old(self).count(k) < usize::MAX,
        ensures
            final(self).count(k) == old(self).count(k) + 1,
            forall|j: CommandKind| j != k ==> #[trigger] final(self).count(j) == old(self).count(j),
    {
        match k {
            CommandKind::AddCluster => self.add_cluster = self.add_cluster + 1,
            CommandKind::AddHttpListener => self.add_http_listener = self.add_http_listener + 1,
            CommandKind::AddHttpFrontend => self.add_http_frontend = self.add_http_frontend + 1,
            CommandKind::AddBackend => self.add_backend = self.add_backend + 1,
        }
    }
}

/// A count of one kind never exceeds the number of requests.
pub proof fn lemma_count_kind_bound(reqs: Seq<Request>, k: CommandKind)
    ensures
        count_kind(reqs, k) <= reqs.len(),
    decreases reqs.len(),
{
    if reqs.len() > 0 {
        lemma_count_kind_bound(reqs.drop_last(), k);
    }
}

/// When every request carries a command, the counts of the four kinds add up
/// to the number of requests.
pub proof fn lemma_count_kinds_sum(reqs: Seq<Request>)
    requires
        all_typed(reqs),
    ensures
        count_kind(reqs, CommandKind::AddCluster) + count_kind(reqs, CommandKind::AddHttpListener)
            + count_kind(reqs, CommandKind::AddHttpFrontend) + count_kind(reqs, CommandKind::AddBackend)
            == reqs.len(),
    decreases reqs.len(),
{
    if reqs.len() > 0 {
        let init = reqs.drop_last();
        assert forall|i: int| 0 <= i < init.len() implies (#[trigger] init[i]).request_type is Some by {
            assert(init[i] == reqs[i]);
        }
        lemma_count_kinds_sum(init);
        assert(reqs.last() == reqs[reqs.len() - 1]);
    }
}

/// What the engine asks of its caller next.
#[derive(Clone, Debug, PartialEq, Eq)]
pub enum Action {
    /// Send the command of the request at this position.
    Send(usize),
    /// Every command of the batch was sent.
    Finished,
    /// The batch is abandoned with this error.
    Fail(GeneratorError),
}

/// A batch being submitted.
pub struct Submission {
    requests: Vec<Request>,
    sent: usize,
    tally: Counters,
    pacing_ms: u64,
}

impl Submission {
    /// The requests of the batch.
    pub closed spec fn spec_requests(&self) -> Seq<Request> {
        self.requests@
    }

    /// How many commands were sent and acknowledged.
    pub closed spec fn spec_sent(&self) -> nat {
        self.sent as nat
    }

    /// What was counted for the commands sent.
    pub closed spec fn spec_tally(&self) -> Counters {
        self.tally
    }

    /// The pause after each acknowledged send, in milliseconds.
    pub closed spec fn spec_pacing_ms(&self) -> u64 {
        self.pacing_ms
    }

    /// The commands sent come first in the batch, each one carries a command,
    /// and the counters hold exactly their kinds.
    pub open spec fn wf(&self) -> bool {
        &&& self.spec_sent() <= self.spec_requests().len()
        &&& all_typed(self.spec_requests().take(self.spec_sent() as int))
        &&& self.spec_tally().counts(self.spec_requests().take(self.spec_sent() as int))
    }

    /// The action for this state: send the next command, report a request
    /// without one, or finish when the batch is done.
    pub open spec fn spec_next_action(&self) -> Action {
        if self.spec_sent() == self.spec_requests().len() {
            Action::Finished
        } else if self.spec_requests()[self.spec_sent() as int].request_type is None {
            Action::Fail(GeneratorError::EmptyRequest)
        } else {
            Action::Send(self.spec_sent() as usize)
        }
    }

    /// Starts the submission of `requests`, pausing `pacing_ms` after each
    /// acknowledged send.
    pub fn new(requests: Vec<Request>, pacing_ms: u64) -> (s: Submission)
        ensures
            s.wf(),
            s.spec_requests() == requests@,
            s.spec_sent() == 0,
            s.spec_pacing_ms() == pacing_ms,
            forall|k: CommandKind| #[trigger] s.spec_tally().count(k) == 0,
    {
        let s = Submission { requests, sent: 0, tally: Counters::new(), pacing_ms };
        assert(s.spec_requests().take(0) =~= Seq::<Request>::empty());
        s
    }

    /// How many commands were sent and acknowledged.
    pub fn sent(&self) -> (n: usize)
        ensures
            n == self.spec_sent(),
    {
        self.sent
    }

    /// What was counted for the commands sent so far.
    pub fn tally(&self) -> (c: Counters)
        ensures
            c == self.spec_tally(),
    {
        self.tally
    }

    /// The request at position `i`.
    pub fn request(&self, i: usize) -> (r: &Request)
        requires
            i < self.spec_requests().len(),
        ensures
            *r == self.spec_requests()[i as int],
    {
        &self.requests[i]
    }

    /// What to do next.
    pub fn next_action(&self) -> (a: Action)
        requires
            self.wf(),
        ensures
            a == self.spec_next_action(),
    {
        if self.sent == self.requests.len() {
            Action::Finished
        } else if self.requests[self.sent].request_type.is_none() {
            Action::Fail(GeneratorError::EmptyRequest)
        } else {
            Action::Send(self.sent)
        }
    }

    /// The send of the next command was acknowledged: counts it under its kind
    /// and returns the pause to wait before the next send, in milliseconds.
    pub fn record_sent(&mut self) -> (pause_ms: u64)
        requires
            old(self).wf(),
            old(self).spec_next_action() is Send,
        ensures
            final(self).wf(),
            final(self).spec_requests() == old(self).spec_requests(),
            final(self).spec_pacing_ms() == old(self).spec_pacing_ms(),
            final(self).spec_sent() == old(self).spec_sent() + 1,
            ({
                let k = old(self).spec_requests()[old(self).spec_sent() as int].spec_kind().unwrap();
                &&& final(self).spec_tally().count(k) == old(self).spec_tally().count(k) + 1
                &&& forall|j: CommandKind|
                    j != k ==> #[trigger] final(self).spec_tally().count(j) == old(self).spec_tally().count(j)
            }),
            pause_ms == old(self).spec_pacing_ms(),
    {
        let len = self.requests.len();
        let ghost reqs = self.requests@;
        let ghost before = reqs.take(self.sent as int);
        let ghost after = reqs.take(self.sent + 1);
        let kind = match &self.requests[self.sent].request_type {
            Some(c) => c.kind(),
            // not reached: the next action is a send, so the request is typed
            None => CommandKind::AddCluster,
        };
        proof {
            assert(after.drop_last() =~= before);
            assert(after.last() == reqs[self.sent as int]);
            lemma_count_kind_bound(before, kind);
            assert(self.tally.count(kind) == count_kind(before, kind));
            assert(self.sent < len);
        }
        self.tally.increment(kind);
        self.sent = self.sent + 1;
        proof {
            assert forall|i: int| 0 <= i < after.len() implies (#[trigger] after[i]).request_type is Some by {
                if i < before.len() {
                    assert(after[i] == before[i]);
                }
            }
            assert forall|k: CommandKind| #[trigger] self.tally.count(k) == count_kind(after, k) by {
            }
        }
        self.pacing_ms
    }

    /// The send of the next command failed with `cause`: the batch ends with
    /// the transport error, and no later command is handed out.
    pub fn send_failed(self, cause: String) -> (e: GeneratorError)
        requires
            self.spec_next_action() is Send,
        ensures
            e == GeneratorError::Send(cause),
    {
        GeneratorError::Send(cause)
    }
}

/// Generates the batch for a new random cluster and starts its submission,
/// pausing `pacing_ms` after each acknowledged send.
pub fn add_a_random_cluster(pacing_ms: u64) -> (r: Result<Submission, GeneratorError>)
    ensures
        r matches Ok(s) ==> {
            &&& s.wf()
            &&& s.spec_sent() == 0
            &&& s.spec_pacing_ms() == pacing_ms
            &&& exists|id: Seq<char>| is_cluster_id(id) && is_cluster_batch(s.spec_requests(), id)
        },
        r is Ok,
{
    match generate_requests_for_a_random_cluster() {
        Ok(requests) => Ok(Submission::new(requests, pacing_ms)),
        Err(e) => Err(e),
    }
}

/// When the send of the command at position `k` of a batch fails, what was
/// counted is exactly the kinds of the `k` commands before it, one count for
/// each: nothing for the failed command or any after it.
pub proof fn lemma_counts_at_failure(s: &Submission)
    requires
        s.wf(),
        s.spec_next_action() is Send,
    ensures
        s.spec_tally().counts(s.spec_requests().take(s.spec_sent() as int)),
        s.spec_tally().total() == s.spec_sent(),
{
    let done = s.spec_requests().take(s.spec_sent() as int);
    lemma_count_kinds_sum(done);
    assert(s.spec_tally().count(CommandKind::AddCluster) == count_kind(done, CommandKind::AddCluster));
    assert(s.spec_tally().count(CommandKind::AddHttpListener) == count_kind(done, CommandKind::AddHttpListener));
    assert(s.spec_tally().count(CommandKind::AddHttpFrontend) == count_kind(done, CommandKind::AddHttpFrontend));
    assert(s.spec_tally().count(CommandKind::AddBackend) == count_kind(done, CommandKind::AddBackend));
}

} // verus!
