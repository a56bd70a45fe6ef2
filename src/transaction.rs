use crate::error::Error;
use vstd::prelude::*;

verus! {

/// What the session reports about the last action it was asked to perform.
#[derive(Debug)]
pub enum TxEvent {
    /// The action succeeded.
    Done,
    /// The action failed; the text is the session's message.
    Failed(String),
}

/// What the session is to do next.
#[derive(Debug)]
pub enum TxAction {
    /// Open a transaction.
    Begin,
    /// Run the statement at this position of the plan inside the transaction.
    Run(usize),
    /// Commit the transaction.
    Commit,
    /// Stop. On an error the transaction is dropped uncommitted, so it rolls back.
    Finish(Result<(), Error>),
}

/// Drives one transaction over a plan of `len` statements: begin, each
/// statement in order, commit. Action `k` of that schedule has been handed
/// out and awaits its outcome, unless the run is over.
#[derive(Debug, Clone, Copy)]
pub struct TxDriver {
    pub len: usize,
    pub pos: usize,
    pub over: bool,
}

/// Action `k` of the schedule for a plan of `len` statements.
pub open spec fn scheduled(len: nat, k: nat) -> TxAction {
    if k == 0 {
        TxAction::Begin
    } else if k <= len {
        TxAction::Run((k - 1) as usize)
    } else {
        TxAction::Commit
    }
}

/// Whether the driver's state is one a run can reach.
pub open spec fn driver_ok(d: TxDriver) -> bool {
    &&& d.len + 2 <= usize::MAX
    &&& d.pos <= d.len + 1
}

/// One decision: the outcome of the awaited action gives the next state and action.
pub open spec fn next(d: TxDriver, e: TxEvent) -> (TxDriver, TxAction) {
    match e {
        TxEvent::Failed(msg) => (
            TxDriver { over: true, ..d },
            TxAction::Finish(Err(Error::DatabaseError(msg))),
        ),
        TxEvent::Done => if d.pos <= d.len {
            (TxDriver { pos: (d.pos + 1) as usize, ..d }, scheduled(d.len as nat, (d.pos + 1) as nat))
        } else {
            (TxDriver { over: true, ..d }, TxAction::Finish(Ok(())))
        },
    }
}

/// The actions handed out while the outcomes in `events` come in, in order,
/// until the run is over or the outcomes run out.
pub open spec fn drive(d: TxDriver, events: Seq<TxEvent>) -> Seq<TxAction>
    decreases events.len(),
{
    if events.len() == 0 || d.over {
        Seq::empty()
    } else {
        let (d2, a) = next(d, events[0]);
        seq![a] + drive(d2, events.drop_first())
    }
}

/// Whether `f` is the position of the first failure among `events`.
pub open spec fn first_failure(events: Seq<TxEvent>, f: int) -> bool {
    &&& 0 <= f < events.len()
    &&& events[f] is Failed
    &&& forall|j: int| 0 <= j < f ==> events[j] is Done
}

impl TxDriver {
    /// Starts a run over a plan of `len` statements; the first action is to
    /// open a transaction.
    pub fn start(len: usize) -> (r: (TxDriver, TxAction))
        requires
            len + 2 <= usize::MAX,
        ensures
            r.0 == (TxDriver { len, pos: 0, over: false }),
            r.1 == TxAction::Begin,
            driver_ok(r.0),
    {
        (TxDriver { len, pos: 0, over: false }, TxAction::Begin)
    }

    /// Takes the outcome of the awaited action and gives the next action.
    /// A failure at any point ends the run with that failure, and the commit
    /// is asked for only once every earlier action succeeded.
    pub fn step(&mut self, event: TxEvent) -> (r: TxAction)
        requires
            driver_ok(*old(self)),
            !old(self).over,
        ensures
            (*final(self), r) == next(*old(self), event),
            driver_ok(*final(self)),
    {
        match event {
            TxEvent::Failed(msg) => {
                self.over = true;
                TxAction::Finish(Err(Error::DatabaseError(msg)))
            },
            TxEvent::Done => {
                if self.pos <= self.len {
                    self.pos = self.pos + 1;
                    if self.pos == 0 {
                        TxAction::Begin
                    } else if self.pos <= self.len {
                        TxAction::Run(self.pos - 1)
                    } else {
                        TxAction::Commit
                    }
                } else {
                    self.over = true;
                    TxAction::Finish(Ok(()))
                }
            },
        }
    }
}

/// A failure before the commit is asked for leaves the transaction
/// uncommitted: no commit is ever handed out, and the run ends with that
/// failure's message.
pub proof fn lemma_failure_never_commits(d: TxDriver, events: Seq<TxEvent>, f: int)
    requires
        driver_ok(d),
        !d.over,
        first_failure(events, f),
        d.pos + f <= d.len,
    ensures
        forall|j: int| 0 <= j < drive(d, events).len() ==> !(drive(d, events)[j] is Commit),
        drive(d, events).len() == f + 1,
        drive(d, events).last() == TxAction::Finish(
            Err(Error::DatabaseError(events[f]->Failed_0)),
        ),
    decreases f,
{
    let (d2, a) = next(d, events[0]);
    let rest = events.drop_first();
    if f == 0 {
        assert(d2.over);
        assert(drive(d2, rest) =~= Seq::<TxAction>::empty());
        assert(drive(d, events) =~= seq![a]);
    } else {
        assert forall|j: int| 0 <= j < f - 1 implies rest[j] is Done by {
            assert(rest[j] == events[j + 1]);
        }
        assert(rest[f - 1] == events[f]);
        lemma_failure_never_commits(d2, rest, f - 1);
        assert(drive(d, events) == seq![a] + drive(d2, rest));
        assert(!(a is Commit));
        assert forall|j: int| 0 <= j < drive(d, events).len() implies !(drive(
            d,
            events,
        )[j] is Commit) by {
            if j > 0 {
                assert(drive(d, events)[j] == drive(d2, rest)[j - 1]);
            }
        }
    }
}

/// When every action succeeds, the run hands out the whole schedule: begin,
/// each statement in order, commit, and then ends in success.
pub proof fn lemma_success_commits(d: TxDriver, events: Seq<TxEvent>)
    requires
        driver_ok(d),
        !d.over,
        events.len() == d.len + 2 - d.pos,
        forall|j: int| 0 <= j < events.len() ==> events[j] is Done,
    ensures
        drive(d, events).len() == events.len(),
        forall|j: int|
            0 <= j < events.len() - 1 ==> drive(d, events)[j] == scheduled(
                d.len as nat,
                (d.pos + j + 1) as nat,
            ),
        drive(d, events).last() == TxAction::Finish(Ok(())),
    decreases events.len(),
{
    let (d2, a) = next(d, events[0]);
    let rest = events.drop_first();
    if d.pos == d.len + 1 {
        assert(d2.over);
        assert(drive(d2, rest) =~= Seq::<TxAction>::empty());
        assert(drive(d, events) =~= seq![a]);
    } else {
        assert forall|j: int| 0 <= j < rest.len() implies rest[j] is Done by {
            assert(rest[j] == events[j + 1]);
        }
        lemma_success_commits(d2, rest);
        assert(drive(d, events) == seq![a] + drive(d2, rest));
        assert forall|j: int| 0 <= j < events.len() - 1 implies drive(d, events)[j] == scheduled(
            d.len as nat,
            (d.pos + j + 1) as nat,
        ) by {
            if j > 0 {
                assert(drive(d, events)[j] == drive(d2, rest)[j - 1]);
            }
        }
    }
}

} // verus!
