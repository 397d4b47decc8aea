//! Running a plan of bus transfers: which transfer comes next, and when the
//! operation is over. The caller performs each transfer on the bus and
//! reports whether it succeeded; the first failure ends the operation with
//! that bus error, and no transfer is ever retried or skipped.
use crate::error::Bq41z50Error;
use crate::wire::{ops_view, BusOp, Op};
use vstd::prelude::*;

verus! {

/// What the caller does next.
#[derive(Debug)]
pub enum Action<E> {
    /// Perform the transfer with this index on the bus and report its result.
    Perform(usize),
    /// The operation is over, with this result.
    Complete(Result<(), Bq41z50Error<E>>),
}

/// The state of a running plan, as values.
pub struct TransactionView {
    /// The transfers of the plan.
    pub ops: Seq<Op>,
    /// How many transfers have succeeded.
    pub done: nat,
    /// Whether a transfer has failed.
    pub failed: bool,
}

/// A plan of transfers being run.
pub struct Transaction {
    ops: Vec<BusOp>,
    done: usize,
    failed: bool,
}

impl View for Transaction {
    type V = TransactionView;

    closed spec fn view(&self) -> TransactionView {
        TransactionView { ops: ops_view(self.ops@), done: self.done as nat, failed: self.failed }
    }
}

/// The action that follows a state in which no transfer has failed: the
/// next transfer, or success once every transfer has succeeded.
pub open spec fn spec_next_action<E>(ops_len: nat, done: nat) -> Action<E> {
    if done < ops_len {
        Action::Perform(done as usize)
    } else {
        Action::Complete(Ok(()))
    }
}

impl Transaction {
    /// Well-formed: no more transfers have succeeded than the plan holds.
    pub closed spec fn wf(&self) -> bool {
        self.done <= self.ops@.len()
    }

    /// Starts running `ops`; nothing has been performed yet.
    pub fn new(ops: Vec<BusOp>) -> (t: Transaction)
        ensures
            t.wf(),
            t@.ops == ops_view(ops@),
            t@.done == 0,
            !t@.failed,
    {
        Transaction { ops, done: 0, failed: false }
    }

    /// The first action: the first transfer, or success for an empty plan.
    pub fn start<E>(&self) -> (action: Action<E>)
        requires
            self.wf(),
            self@.done == 0,
            !self@.failed,
        ensures
            action == spec_next_action::<E>(self@.ops.len(), 0),
    {
        if self.ops.len() == 0 {
            Action::Complete(Ok(()))
        } else {
            Action::Perform(0)
        }
    }

    /// The transfer with index `index`.
    pub fn op(&self, index: usize) -> (op: &BusOp)
        requires
            self.wf(),
            index < self@.ops.len(),
        ensures
            op@ == self@.ops[index as int],
    {
        &self.ops[index]
    }

    /// Records the result of the outstanding transfer and says what comes
    /// next. A failure ends the operation with the bus error; a success
    /// moves on to the following transfer, or ends the operation with
    /// success after the last one.
    pub fn record<E>(&mut self, reply: Result<(), E>) -> (action: Action<E>)
        requires
            old(self).wf(),
            !old(self)@.failed,
            old(self)@.done < old(self)@.ops.len(),
        ensures
            final(self).wf(),
            final(self)@ == spec_record(old(self)@, reply is Ok),
            match reply {
                Ok(()) => action == spec_next_action::<E>(old(self)@.ops.len(), old(self)@.done + 1),
                Err(err) => action == Action::<E>::Complete(Err(Bq41z50Error::Bus(err))),
            },
    {
        let n = self.ops.len();
        assert(n == ops_view(self.ops@).len());
        match reply {
            Ok(()) => {
                self.done = self.done + 1;
                if self.done < n {
                    Action::Perform(self.done)
                } else {
                    Action::Complete(Ok(()))
                }
            },
            Err(err) => {
                self.failed = true;
                Action::Complete(Err(Bq41z50Error::Bus(err)))
            },
        }
    }
}

/// The state after the outstanding transfer of `t` is answered: one more
/// transfer done on success, failed otherwise.
pub open spec fn spec_record(t: TransactionView, ok: bool) -> TransactionView {
    if ok {
        TransactionView { done: t.done + 1, ..t }
    } else {
        TransactionView { failed: true, ..t }
    }
}

/// The state after running `t` against the bus replies `replies` (true for
/// success), answered in order while a transfer is outstanding.
pub open spec fn spec_run(t: TransactionView, replies: Seq<bool>) -> TransactionView
    decreases replies.len(),
{
    if t.failed || t.done >= t.ops.len() || replies.len() == 0 {
        t
    } else {
        spec_run(spec_record(t, replies[0]), replies.drop_first())
    }
}

/// The number of successes that open `replies`.
pub open spec fn spec_leading_successes(replies: Seq<bool>) -> nat
    decreases replies.len(),
{
    if replies.len() == 0 || !replies[0] {
        0
    } else {
        1 + spec_leading_successes(replies.drop_first())
    }
}

/// Running a plan performs its transfers in order and stops at the first
/// failure: from a state with `done` transfers done and none failed, the
/// run ends with `done` plus as many more as the replies open with
/// successes (at most the rest of the plan), and it has failed exactly
/// when a failure came before the plan was through.
pub proof fn lemma_run_stops_at_first_failure(t: TransactionView, replies: Seq<bool>)
    requires
        !t.failed,
        t.done <= t.ops.len(),
    ensures
        spec_run(t, replies).ops == t.ops,
        spec_run(t, replies).done == t.done + if spec_leading_successes(replies) < t.ops.len() - t.done {
            spec_leading_successes(replies)
        } else {
            (t.ops.len() - t.done) as nat
        },
        spec_run(t, replies).failed <==> (spec_leading_successes(replies) < t.ops.len() - t.done
            && spec_leading_successes(replies) < replies.len()),
    decreases replies.len(),
{
    if t.done < t.ops.len() && replies.len() > 0 {
        let next = spec_record(t, replies[0]);
        if replies[0] {
            lemma_run_stops_at_first_failure(next, replies.drop_first());
        } else {
            assert(spec_run(next, replies.drop_first()) == next);
        }
    }
}

} // verus!
