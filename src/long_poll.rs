use crate::types::KachakaApiError;
use vstd::prelude::*;

verus! {

/// The cursor to send with the next poll once `outcome` has come back for a
/// poll sent with `cursor`: a success moves to the cursor the controller
/// returned, a failure keeps the one that failed.
pub open spec fn next_cursor<T>(cursor: i64, outcome: Result<(i64, T), KachakaApiError>) -> i64 {
    match outcome {
        Ok((new_cursor, _)) => new_cursor,
        Err(_) => cursor,
    }
}

/// The item that a poll outcome hands on to the consumer: the payload of a
/// success, or the error itself.
pub open spec fn delivered<T>(outcome: Result<(i64, T), KachakaApiError>) -> Result<T, KachakaApiError> {
    match outcome {
        Ok((_, value)) => Ok(value),
        Err(e) => Err(e),
    }
}

/// The cursor in force after `outcomes` came back, in order, starting from
/// `start`.
pub open spec fn cursor_after<T>(start: i64, outcomes: Seq<Result<(i64, T), KachakaApiError>>) -> i64
    decreases outcomes.len(),
{
    if outcomes.len() == 0 {
        start
    } else {
        next_cursor(cursor_after(start, outcomes.drop_last()), outcomes.last())
    }
}

/// The items handed on after `outcomes` came back, in order.
pub open spec fn deliveries<T>(outcomes: Seq<Result<(i64, T), KachakaApiError>>) -> Seq<
    Result<T, KachakaApiError>,
>
    decreases outcomes.len(),
{
    if outcomes.len() == 0 {
        Seq::empty()
    } else {
        deliveries(outcomes.drop_last()).push(delivered(outcomes.last()))
    }
}

/// The cursor discipline of one long-poll getter.
///
/// The first poll asks with cursor 0, which the controller answers at once
/// with the current value; every later poll sends the cursor of the last
/// success, so that the controller answers only once something changed.
pub struct LongPollChannel {
    cursor: i64,
}

impl LongPollChannel {
    /// The cursor that the next poll sends.
    pub closed spec fn spec_cursor(&self) -> i64 {
        self.cursor
    }

    /// A channel that has not polled yet.
    pub fn new() -> (r: Self)
        ensures
            r.spec_cursor() == 0,
    {
        LongPollChannel { cursor: 0 }
    }

    /// The cursor that the next poll sends.
    #[verifier::when_used_as_spec(spec_cursor)]
    pub fn cursor(&self) -> (r: i64)
        ensures
            r == self.spec_cursor(),
    {
        self.cursor
    }

    /// Takes in what the last poll returned and gives back the item for the
    /// consumer. A success advances the cursor to the one it carries; a
    /// failure leaves the cursor as it was, so that the next poll retries it.
    pub fn complete<T>(&mut self, outcome: Result<(i64, T), KachakaApiError>) -> (r: Result<
        T,
        KachakaApiError,
    >)
        ensures
            final(self).spec_cursor() == next_cursor(old(self).spec_cursor(), outcome),
            r == delivered(outcome),
    {
        match outcome {
            Ok((new_cursor, value)) => {
                self.cursor = new_cursor;
                Ok(value)
            },
            Err(e) => Err(e),
        }
    }
}

/// Over any run of poll outcomes, the consumer receives one item per
/// outcome, in the order the outcomes came back, each being that outcome's
/// payload or error; a failed poll leaves the cursor of the next poll
/// unchanged, and a successful one sets it to the cursor it returned.
pub proof fn lemma_poll_run<T>(start: i64, outcomes: Seq<Result<(i64, T), KachakaApiError>>)
    ensures
        deliveries(outcomes).len() == outcomes.len(),
        forall|k: int| 0 <= k < outcomes.len() ==> #[trigger] deliveries(outcomes)[k] == delivered(outcomes[k]),
        forall|k: int| 0 <= k < outcomes.len() && #[trigger] outcomes[k] is Err ==> cursor_after(
            start,
            outcomes.take(k + 1),
        ) == cursor_after(start, outcomes.take(k)),
        forall|k: int| 0 <= k < outcomes.len() && #[trigger] outcomes[k] is Ok ==> cursor_after(
            start,
            outcomes.take(k + 1),
        ) == outcomes[k]->Ok_0.0,
    decreases outcomes.len(),
{
    if outcomes.len() > 0 {
        let rest = outcomes.drop_last();
        lemma_poll_run(start, rest);
        assert forall|k: int| 0 <= k < outcomes.len() implies outcomes.take(k + 1).drop_last() =~= outcomes.take(k)
            && outcomes.take(k + 1).last() == outcomes[k] by {}
        assert forall|k: int| 0 <= k < rest.len() implies rest[k] == outcomes[k] by {}
    }
}

} // verus!
