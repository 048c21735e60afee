use vstd::prelude::*;

use crate::config::BackendKind;
use vstd::utf8::encode_utf8;

use crate::errors::{error_bytes, error_payload, prefix_text};

verus! {

/// One request of a batch: where to read, and the window `[start, end)`
/// (both zero for the whole object).
pub struct RangeRequest {
    pub location: String,
    pub start: u64,
    pub end: u64,
}

/// The requests of a batch. Without starts and ends every location is
/// fetched whole; with both, location `i` is fetched over
/// `[starts[i], ends[i])`, for as many items as all three lists have.
/// With only one of the two lists nothing is fetched.
pub fn plan_ranges(urls: &Vec<String>, starts: Option<Vec<u64>>, ends: Option<Vec<u64>>) -> (r: Vec<
    RangeRequest,
>)
    ensures
        (starts is None && ends is None) ==> r@.len() == urls@.len() && forall|i: int|
            0 <= i < r@.len() ==> #[trigger] r@[i].location@ == urls@[i]@ && r@[i].start == 0
                && r@[i].end == 0,
        starts is Some && ends is Some ==> {
            let s = starts->Some_0;
            let e = ends->Some_0;
            &&& r@.len() == vstd::math::min(
                urls@.len() as int,
                vstd::math::min(s@.len() as int, e@.len() as int),
            )
            &&& forall|i: int|
                0 <= i < r@.len() ==> #[trigger] r@[i].location@ == urls@[i]@ && r@[i].start
                    == s@[i] && r@[i].end == e@[i]
        },
        (starts is None) != (ends is None) ==> r@.len() == 0,
{
    let mut out: Vec<RangeRequest> = Vec::new();
    if starts.is_none() && ends.is_none() {
        let mut i: usize = 0;
        while i < urls.len()
            invariant
                i <= urls@.len(),
                out@.len() == i,
                forall|j: int|
                    0 <= j < i ==> #[trigger] out@[j].location@ == urls@[j]@ && out@[j].start
                        == 0 && out@[j].end == 0,
            decreases urls@.len() - i,
        {
            out.push(RangeRequest { location: urls[i].clone(), start: 0, end: 0 });
            i += 1;
        }
    } else if let (Some(s), Some(e)) = (starts, ends) {
        let mut n = urls.len();
        if s.len() < n {
            n = s.len();
        }
        if e.len() < n {
            n = e.len();
        }
        let mut i: usize = 0;
        while i < n
            invariant
                n == vstd::math::min(
                    urls@.len() as int,
                    vstd::math::min(s@.len() as int, e@.len() as int),
                ),
                n <= urls@.len(),
                n <= s@.len(),
                n <= e@.len(),
                i <= n,
                out@.len() == i,
                forall|j: int|
                    0 <= j < i ==> #[trigger] out@[j].location@ == urls@[j]@ && out@[j].start
                        == s@[j] && out@[j].end == e@[j],
            decreases n - i,
        {
            out.push(RangeRequest { location: urls[i].clone(), start: s[i], end: e[i] });
            i += 1;
        }
    }
    out
}

/// What one attempt at a request came to.
pub enum Attempt {
    /// The body of a successful response.
    Delivered(Vec<u8>),
    /// The backend answered with an error; its body.
    Rejected(Vec<u8>),
    /// The request did not get through (connection refused or dropped); the
    /// transport's message.
    Unreachable(Vec<u8>),
}

/// A request is sent at most this often: once, and once more after a
/// transport failure.
pub const MAX_ATTEMPTS: u32 = 2;

/// What to do after an attempt.
pub enum Next {
    /// Send the same request again.
    Retry,
    /// Stop, with the body or the error detail.
    Finish(Result<Vec<u8>, Vec<u8>>),
}

/// Decides what follows attempt number `attempts_made` (from 1): a body or
/// a backend error ends the request; a transport failure is retried while
/// attempts remain, and ends it after the last.
pub fn after_attempt(attempts_made: u32, attempt: Attempt) -> (r: Next)
    requires
        1 <= attempts_made <= MAX_ATTEMPTS,
    ensures
        attempt matches Attempt::Delivered(b) ==> r == Next::Finish(Ok(b)),
        attempt matches Attempt::Rejected(b) ==> r == Next::Finish(Err(b)),
        attempt matches Attempt::Unreachable(m) ==> if attempts_made < MAX_ATTEMPTS {
            r is Retry
        } else {
            r == Next::Finish(Err(m))
        },
{
    match attempt {
        Attempt::Delivered(b) => Next::Finish(Ok(b)),
        Attempt::Rejected(b) => Next::Finish(Err(b)),
        Attempt::Unreachable(m) => if attempts_made < MAX_ATTEMPTS {
            Next::Retry
        } else {
            Next::Finish(Err(m))
        },
    }
}

/// Classifies an HTTP response: a status of 400 or more is a backend error.
pub fn classify_http(status: u16, body: Vec<u8>) -> (r: Attempt)
    ensures
        status >= 400 ==> r == Attempt::Rejected(body),
        status < 400 ==> r == Attempt::Delivered(body),
{
    if status >= 400 {
        Attempt::Rejected(body)
    } else {
        Attempt::Delivered(body)
    }
}

/// The payload that stands for an outcome: the bytes fetched, or the error
/// detail behind the backend's prefix.
pub open spec fn payload_of(kind: BackendKind, outcome: Result<Vec<u8>, Vec<u8>>) -> Seq<u8> {
    match outcome {
        Ok(b) => b@,
        Err(d) => error_payload(kind, d@),
    }
}

/// A copy of a byte slice.
pub fn copy_bytes(b: &[u8]) -> (r: Vec<u8>)
    ensures
        r@ == b@,
{
    let mut out: Vec<u8> = Vec::new();
    let mut i: usize = 0;
    while i < b.len()
        invariant
            i <= b@.len(),
            out@ == b@.subrange(0, i as int),
        decreases b@.len() - i,
    {
        out.push(b[i]);
        i += 1;
        assert(out@ =~= b@.subrange(0, i as int));
    }
    assert(b@.subrange(0, b@.len() as int) =~= b@);
    out
}

/// The payload of one outcome.
pub fn outcome_payload(kind: BackendKind, outcome: &Result<Vec<u8>, Vec<u8>>) -> (r: Vec<u8>)
    ensures
        r@ == payload_of(kind, *outcome),
{
    match outcome {
        Ok(b) => copy_bytes(b.as_slice()),
        Err(d) => error_bytes(kind, d.as_slice()),
    }
}

/// The payloads of a batch, one per outcome and in the same order: each
/// depends on its own outcome alone, so a failed item never changes
/// another item's payload.
pub fn outcome_payloads(kind: BackendKind, outcomes: &Vec<Result<Vec<u8>, Vec<u8>>>) -> (r: Vec<
    Vec<u8>,
>)
    ensures
        r@.len() == outcomes@.len(),
        forall|i: int| 0 <= i < r@.len() ==> #[trigger] r@[i]@ == payload_of(kind, outcomes@[i]),
{
    let mut out: Vec<Vec<u8>> = Vec::new();
    let mut i: usize = 0;
    while i < outcomes.len()
        invariant
            i <= outcomes@.len(),
            out@.len() == i,
            forall|j: int| 0 <= j < i ==> #[trigger] out@[j]@ == payload_of(kind, outcomes@[j]),
        decreases outcomes@.len() - i,
    {
        out.push(outcome_payload(kind, &outcomes[i]));
        i += 1;
    }
    out
}

/// A streamed response body as it arrives piece by piece. The first piece
/// that is not data ends the stream, and what was received before it is
/// dropped: the attempt then comes to that failure alone.
pub struct StreamedBody {
    bytes: Vec<u8>,
    failure: Option<Attempt>,
}

impl StreamedBody {
    /// The data received so far.
    pub closed spec fn received(&self) -> Seq<u8> {
        self.bytes@
    }

    /// The piece that ended the stream, if one did.
    pub closed spec fn failure(&self) -> Option<Attempt> {
        self.failure
    }

    /// A body of which nothing has arrived.
    pub fn new() -> (r: Self)
        ensures
            r.received() == Seq::<u8>::empty(),
            r.failure() is None,
    {
        StreamedBody { bytes: Vec::new(), failure: None }
    }

    /// Takes in the next piece; returns whether to read on.
    pub fn push(&mut self, piece: Attempt) -> (more: bool)
        requires
            old(self).failure() is None,
        ensures
            piece matches Attempt::Delivered(b) ==> more && final(self).failure() is None
                && final(self).received() == old(self).received() + b@,
            !(piece is Delivered) ==> !more && final(self).failure() == Some(piece),
    {
        match piece {
            Attempt::Delivered(b) => {
                let mut more = b;
                self.bytes.append(&mut more);
                true
            },
            other => {
                self.failure = Some(other);
                false
            },
        }
    }

    /// What the attempt came to: the failure that ended the stream, or all
    /// the data received.
    pub fn finish(self) -> (r: Attempt)
        ensures
            self.failure() matches Some(a) ==> r == a,
            self.failure() is None ==> (r matches Attempt::Delivered(b) && b@ == self.received()),
    {
        match self.failure {
            Some(a) => a,
            None => Attempt::Delivered(self.bytes),
        }
    }
}

/// The payload of a failed item begins with its backend's prefix.
pub proof fn law_failed_item_begins_with_prefix(kind: BackendKind, outcome: Result<Vec<u8>, Vec<u8>>)
    requires
        outcome is Err,
    ensures
        payload_of(kind, outcome).subrange(
            0,
            encode_utf8(prefix_text(kind)).len() as int,
        ) == encode_utf8(prefix_text(kind)),
{
    crate::errors::law_error_payload_begins_with_prefix(kind, outcome->Err_0@);
}

/// One request of a batch on its way: the request that every attempt sends
/// unchanged, and how many attempts have been made.
pub struct FetchTask<R> {
    kind: BackendKind,
    request: R,
    attempts: u32,
    finished: bool,
}

impl<R> FetchTask<R> {
    pub closed spec fn kind(&self) -> BackendKind {
        self.kind
    }

    /// The request that each attempt sends.
    pub closed spec fn planned(&self) -> R {
        self.request
    }

    pub closed spec fn attempts(&self) -> u32 {
        self.attempts
    }

    pub closed spec fn finished(&self) -> bool {
        self.finished
    }

    /// A task for `request` to a backend of `kind`, before any attempt.
    pub fn new(kind: BackendKind, request: R) -> (r: Self)
        ensures
            r.kind() == kind,
            r.planned() == request,
            r.attempts() == 0,
            !r.finished(),
    {
        FetchTask { kind, request, attempts: 0, finished: false }
    }

    /// The request to send.
    pub fn request(&self) -> (r: &R)
        ensures
            *r == self.planned(),
    {
        &self.request
    }

    /// Takes in what the last attempt came to: `None` when the same request
    /// is to be sent again, else the payload that ends the task.
    pub fn on_attempt(&mut self, attempt: Attempt) -> (r: Option<Vec<u8>>)
        requires
            !old(self).finished(),
            old(self).attempts() < MAX_ATTEMPTS,
        ensures
            final(self).kind() == old(self).kind(),
            final(self).planned() == old(self).planned(),
            final(self).attempts() == old(self).attempts() + 1,
            r is None <==> !final(self).finished(),
            r is None ==> final(self).attempts() < MAX_ATTEMPTS,
            attempt matches Attempt::Delivered(b) ==> (r matches Some(p) && p@ == b@),
            attempt matches Attempt::Rejected(b) ==> (r matches Some(p) && p@ == error_payload(
                old(self).kind(),
                b@,
            )),
            attempt matches Attempt::Unreachable(m) ==> if old(self).attempts() + 1 < MAX_ATTEMPTS {
                r is None
            } else {
                r matches Some(p) && p@ == error_payload(old(self).kind(), m@)
            },
    {
        self.attempts = self.attempts + 1;
        match after_attempt(self.attempts, attempt) {
            Next::Retry => None,
            Next::Finish(outcome) => {
                self.finished = true;
                Some(outcome_payload(self.kind, &outcome))
            },
        }
    }
}

/// Gathers the payloads of a batch as its items complete, in any order,
/// and hands them out in the order of the batch.
pub struct BatchCollector {
    payloads: Vec<Vec<u8>>,
    filled: Vec<bool>,
}

impl BatchCollector {
    /// The slots of the batch: the payload of each completed item.
    pub closed spec fn slots(&self) -> Seq<Option<Seq<u8>>> {
        Seq::new(
            self.payloads@.len(),
            |i: int|
                if self.filled@[i] {
                    Some(self.payloads@[i]@)
                } else {
                    None
                },
        )
    }

    pub closed spec fn wf(&self) -> bool {
        self.payloads@.len() == self.filled@.len()
    }

    /// A collector for a batch of `n` items, none completed.
    pub fn new(n: usize) -> (r: Self)
        ensures
            r.wf(),
            r.slots() == Seq::new(n as nat, |i: int| None::<Seq<u8>>),
    {
        let mut payloads: Vec<Vec<u8>> = Vec::new();
        let mut filled: Vec<bool> = Vec::new();
        let mut i: usize = 0;
        while i < n
            invariant
                i <= n,
                payloads@.len() == i,
                filled@.len() == i,
                forall|j: int| 0 <= j < i ==> !#[trigger] filled@[j],
            decreases n - i,
        {
            payloads.push(Vec::new());
            filled.push(false);
            i += 1;
        }
        let r = BatchCollector { payloads, filled };
        assert(r.slots() =~= Seq::new(n as nat, |i: int| None::<Seq<u8>>));
        r
    }

    /// The number of items in the batch.
    pub fn len(&self) -> (r: usize)
        requires
            self.wf(),
        ensures
            r == self.slots().len(),
    {
        self.payloads.len()
    }

    /// Records the payload of item `index`.
    pub fn record(&mut self, index: usize, payload: Vec<u8>)
        requires
            old(self).wf(),
            index < old(self).slots().len(),
        ensures
            final(self).wf(),
            final(self).slots() == old(self).slots().update(index as int, Some(payload@)),
    {
        let ghost p = payload@;
        self.payloads.set(index, payload);
        self.filled.set(index, true);
        assert(self.slots() =~= old(self).slots().update(index as int, Some(p)));
    }

    /// Whether every item has completed.
    pub fn is_complete(&self) -> (r: bool)
        requires
            self.wf(),
        ensures
            r == forall|i: int| 0 <= i < self.slots().len() ==> #[trigger] self.slots()[i] is Some,
    {
        let mut i: usize = 0;
        while i < self.filled.len()
            invariant
                self.wf(),
                i <= self.filled@.len(),
                forall|j: int| 0 <= j < i ==> #[trigger] self.slots()[j] is Some,
            decreases self.filled@.len() - i,
        {
            if !self.filled[i] {
                assert(!(self.slots()[i as int] is Some));
                return false;
            }
            i += 1;
        }
        true
    }

    /// The payloads, in the order of the batch.
    pub fn finish(self) -> (r: Vec<Vec<u8>>)
        requires
            self.wf(),
            forall|i: int| 0 <= i < self.slots().len() ==> #[trigger] self.slots()[i] is Some,
        ensures
            r@.len() == self.slots().len(),
            forall|i: int| 0 <= i < r@.len() ==> self.slots()[i] == Some(#[trigger] r@[i]@),
    {
        proof {
            assert forall|i: int| 0 <= i < self.payloads@.len() implies self.slots()[i] == Some(
                #[trigger] self.payloads@[i]@,
            ) by {
                assert(self.slots()[i] is Some);
            }
        }
        self.payloads
    }
}

/// The slots after a sequence of completions `(index, payload)`, applied in
/// order, as `BatchCollector::record` applies them.
pub open spec fn apply_completions(slots: Seq<Option<Seq<u8>>>, events: Seq<(int, Seq<u8>)>) -> Seq<
    Option<Seq<u8>>,
>
    decreases events.len(),
{
    if events.len() == 0 {
        slots
    } else {
        apply_completions(slots, events.drop_last()).update(
            events.last().0,
            Some(events.last().1),
        )
    }
}

/// The completions of a batch whose items finish in `order`: item `order[k]`
/// completes `k`-th with its own payload.
pub open spec fn completions_in_order(payloads: Seq<Seq<u8>>, order: Seq<int>) -> Seq<
    (int, Seq<u8>),
> {
    order.map_values(|i: int| (i, payloads[i]))
}

proof fn lemma_completions_prefix(payloads: Seq<Seq<u8>>, order: Seq<int>, k: int)
    requires
        0 <= k <= order.len(),
        forall|m: int| 0 <= m < order.len() ==> 0 <= #[trigger] order[m] < payloads.len(),
    ensures
        ({
            let slots = apply_completions(
                Seq::new(payloads.len(), |i: int| None::<Seq<u8>>),
                completions_in_order(payloads, order).take(k),
            );
            &&& slots.len() == payloads.len()
            &&& forall|j: int|
                0 <= j < payloads.len() ==> #[trigger] slots[j] == if exists|m: int|
                    0 <= m < k && order[m] == j {
                    Some(payloads[j])
                } else {
                    None
                }
        }),
    decreases k,
{
    let events = completions_in_order(payloads, order);
    let empty = Seq::new(payloads.len(), |i: int| None::<Seq<u8>>);
    if k == 0 {
        assert(events.take(0) =~= Seq::<(int, Seq<u8>)>::empty());
    } else {
        lemma_completions_prefix(payloads, order, k - 1);
        assert(events.take(k).drop_last() =~= events.take(k - 1));
        let prev = apply_completions(empty, events.take(k - 1));
        let slots = apply_completions(empty, events.take(k));
        assert(slots == prev.update(order[k - 1], Some(payloads[order[k - 1]])));
        assert forall|j: int| 0 <= j < payloads.len() implies #[trigger] slots[j] == if exists|m: int|
            0 <= m < k && order[m] == j {
            Some(payloads[j])
        } else {
            None
        } by {
            if j == order[k - 1] {
                assert(0 <= k - 1 < k && order[k - 1] == j);
            } else {
                if exists|m: int| 0 <= m < k && order[m] == j {
                    let m = choose|m: int| 0 <= m < k && order[m] == j;
                    assert(m != k - 1);
                    assert(0 <= m < k - 1 && order[m] == j);
                }
                if exists|m: int| 0 <= m < k - 1 && order[m] == j {
                    let m = choose|m: int| 0 <= m < k - 1 && order[m] == j;
                    assert(0 <= m < k && order[m] == j);
                }
            }
        }
    }
}

/// Whatever order the items of a batch complete in, once each has completed
/// the collected slots hold every item's payload at the item's own
/// position.
pub proof fn law_completion_order_irrelevant(payloads: Seq<Seq<u8>>, order: Seq<int>)
    requires
        order.len() == payloads.len(),
        forall|m: int| 0 <= m < order.len() ==> 0 <= #[trigger] order[m] < payloads.len(),
        forall|j: int| 0 <= j < payloads.len() ==> #[trigger] order.contains(j),
    ensures
        apply_completions(
            Seq::new(payloads.len(), |i: int| None::<Seq<u8>>),
            completions_in_order(payloads, order),
        ) == payloads.map_values(|p: Seq<u8>| Some(p)),
{
    let events = completions_in_order(payloads, order);
    lemma_completions_prefix(payloads, order, order.len() as int);
    assert(events.take(order.len() as int) =~= events);
    let slots = apply_completions(Seq::new(payloads.len(), |i: int| None::<Seq<u8>>), events);
    assert forall|j: int| 0 <= j < payloads.len() implies slots[j] == Some(payloads[j]) by {
        assert(order.contains(j));
        let m = choose|m: int| 0 <= m < order.len() && order[m] == j;
        assert(0 <= m < order.len() as int && order[m] == j);
    }
    assert(slots =~= payloads.map_values(|p: Seq<u8>| Some(p)));
}

} // verus!
