//! Gathering the answers to the containers of one request.
//!
//! The containers of a request are answered in order, and the first failure
//! decides: it becomes the outcome of the whole request, and no container
//! after it is asked.

use crate::status::Status;
use vstd::prelude::*;

verus! {

/// What has been gathered: the answers so far, in order, and the failure that
/// closed the gathering, if there was one.
pub struct Gathered<R> {
    pub responses: Seq<R>,
    pub failure: Option<Status>,
}

impl<R> Gathered<R> {
    /// Nothing gathered yet.
    pub open spec fn empty() -> Gathered<R> {
        Gathered { responses: Seq::empty(), failure: None }
    }

    /// Whether another container may be asked: none has failed so far.
    pub open spec fn open(self) -> bool {
        self.failure is None
    }

    /// What is gathered once `outcome` came in. An answer is added while the
    /// gathering is open, and the first failure closes it; what comes in
    /// after that is dropped.
    pub open spec fn with(self, outcome: Result<R, Status>) -> Gathered<R> {
        if !self.open() {
            self
        } else {
            match outcome {
                Ok(response) => Gathered {
                    responses: self.responses.push(response),
                    failure: None,
                },
                Err(status) => Gathered { responses: self.responses, failure: Some(status) },
            }
        }
    }

    /// The outcome of the request: the failure if there was one, else the
    /// answers.
    pub open spec fn outcome(self) -> Result<Seq<R>, Status> {
        match self.failure {
            Some(status) => Err(status),
            None => Ok(self.responses),
        }
    }

    /// What is gathered from `outcomes`, taken in order.
    pub open spec fn of(outcomes: Seq<Result<R, Status>>) -> Gathered<R>
        decreases outcomes.len(),
    {
        if outcomes.len() == 0 {
            Gathered::empty()
        } else {
            Gathered::of(outcomes.drop_last()).with(outcomes.last())
        }
    }
}

/// The answers to the containers of one request, gathered until one fails.
#[derive(Debug)]
pub struct Gatherer<R> {
    responses: Vec<R>,
    failure: Option<Status>,
}

impl<R> View for Gatherer<R> {
    type V = Gathered<R>;

    closed spec fn view(&self) -> Gathered<R> {
        Gathered { responses: self.responses@, failure: self.failure }
    }
}

impl<R> Gatherer<R> {
    /// A gatherer for a request of `containers` containers.
    pub fn new(containers: usize) -> (gatherer: Gatherer<R>)
        ensures
            gatherer@ == Gathered::<R>::empty(),
    {
        Gatherer { responses: Vec::with_capacity(containers), failure: None }
    }

    /// Whether another container may be asked.
    pub fn is_open(&self) -> (open: bool)
        ensures
            open == self@.open(),
    {
        self.failure.is_none()
    }

    /// Takes in the outcome of one container.
    pub fn record(&mut self, outcome: Result<R, Status>)
        ensures
            final(self)@ == old(self)@.with(outcome),
    {
        if self.failure.is_none() {
            match outcome {
                Ok(response) => self.responses.push(response),
                Err(status) => {
                    self.failure = Some(status);
                },
            }
        }
    }

    /// The outcome of the request.
    pub fn finish(self) -> (outcome: Result<Vec<R>, Status>)
        ensures
            match outcome {
                Ok(responses) => self@.outcome() == Ok::<Seq<R>, Status>(responses@),
                Err(status) => self@.outcome() == Err::<Seq<R>, Status>(status),
            },
    {
        match self.failure {
            Some(status) => Err(status),
            None => Ok(self.responses),
        }
    }
}

/// While no container fails, the answers are gathered one for one, in the
/// order in which they came in.
pub proof fn law_answers_keep_order<R>(outcomes: Seq<Result<R, Status>>)
    requires
        forall|i: int| 0 <= i < outcomes.len() ==> outcomes[i] is Ok,
    ensures
        Gathered::of(outcomes).open(),
        Gathered::of(outcomes).responses.len() == outcomes.len(),
        forall|i: int|
            0 <= i < outcomes.len() ==> Ok::<R, Status>(Gathered::of(outcomes).responses[i])
                == outcomes[i],
    decreases outcomes.len(),
{
    if outcomes.len() > 0 {
        let before = outcomes.drop_last();
        law_answers_keep_order(before);
        assert forall|i: int| 0 <= i < outcomes.len() implies Ok::<R, Status>(
            Gathered::of(outcomes).responses[i],
        ) == outcomes[i] by {
            if i < before.len() {
                assert(before[i] == outcomes[i]);
            }
        }
    }
}

/// The first failure decides. If container `k` is the first to fail, the
/// request fails with its status, and what is gathered is what was gathered
/// up to `k`: the outcomes of the containers after `k` change nothing.
pub proof fn law_first_failure_decides<R>(outcomes: Seq<Result<R, Status>>, k: int)
    requires
        0 <= k < outcomes.len(),
        outcomes[k] is Err,
        forall|i: int| 0 <= i < k ==> outcomes[i] is Ok,
    ensures
        !Gathered::of(outcomes).open(),
        Gathered::of(outcomes) == Gathered::of(outcomes.take(k + 1)),
        Gathered::of(outcomes).outcome() == Err::<Seq<R>, Status>(outcomes[k]->Err_0),
        Gathered::of(outcomes).responses.len() == k,
    decreases outcomes.len(),
{
    let before = outcomes.drop_last();
    if k == outcomes.len() - 1 {
        assert(outcomes.take(k + 1) =~= outcomes);
        law_answers_keep_order(before);
    } else {
        law_first_failure_decides(before, k);
        assert(before.take(k + 1) =~= outcomes.take(k + 1));
    }
}

/// Once a container has failed, nothing that comes in changes what is
/// gathered.
pub proof fn law_closed_gathering_is_final<R>(gathered: Gathered<R>, outcome: Result<R, Status>)
    requires
        !gathered.open(),
    ensures
        gathered.with(outcome) == gathered,
{
}

} // verus!
