use crate::error::Error;
use crate::model::{CancelledNotification, RequestId};
use crate::service_traits::{CancellationConvertible, Service, ServiceRole};
use vstd::prelude::*;

verus! {

/// The identifier a request is tracked under, as a value.
pub type IdKey = (Option<u32>, Seq<char>);

/// One request being served, and whether its peer asked to abandon it.
pub struct InFlight {
    pub id: RequestId,
    pub cancelled: bool,
}

/// Whether `key` is among the requests in flight in `v`.
pub open spec fn tracked_in(v: Seq<(IdKey, bool)>, key: IdKey) -> bool {
    exists|i: int| 0 <= i < v.len() && (#[trigger] v[i]).0 == key
}

/// Whether the request `key` is in flight in `v` and was cancelled.
pub open spec fn cancelled_in(v: Seq<(IdKey, bool)>, key: IdKey) -> bool {
    exists|i: int| 0 <= i < v.len() && (#[trigger] v[i]).0 == key && v[i].1
}

/// The cancellation signals of the requests an endpoint is serving.
///
/// Cancellation is cooperative: a delivered cancellation notification only
/// raises the signal of the named request, and the handler serving that
/// request observes it when it next looks.
pub struct CancellationRegistry {
    entries: Vec<InFlight>,
}

impl View for CancellationRegistry {
    type V = Seq<(IdKey, bool)>;

    closed spec fn view(&self) -> Seq<(IdKey, bool)> {
        self.entries@.map_values(|e: InFlight| (e.id@, e.cancelled))
    }
}

impl CancellationRegistry {
    /// Each request is tracked at most once.
    pub open spec fn wf(&self) -> bool {
        forall|i: int, j: int|
            0 <= i < j < self@.len() ==> (#[trigger] self@[i]).0 != (#[trigger] self@[j]).0
    }

    /// Whether the request `key` is in flight.
    pub open spec fn spec_tracks(&self, key: IdKey) -> bool {
        tracked_in(self@, key)
    }

    /// Whether the request `key` is in flight and was cancelled.
    pub open spec fn spec_is_cancelled(&self, key: IdKey) -> bool {
        cancelled_in(self@, key)
    }

    /// A registry with no request in flight.
    pub fn new() -> (r: Self)
        ensures
            r.wf(),
            forall|k: IdKey| !r.spec_tracks(k),
    {
        CancellationRegistry { entries: Vec::new() }
    }

    fn position(&self, id: &RequestId) -> (r: Option<usize>)
        requires
            self.wf(),
        ensures
            match r {
                Some(i) => i < self@.len() && self@[i as int].0 == id@,
                None => !self.spec_tracks(id@),
            },
    {
        let mut i: usize = 0;
        while i < self.entries.len()
            invariant
                i <= self.entries@.len(),
                self@.len() == self.entries@.len(),
                forall|j: int| 0 <= j < i ==> (#[trigger] self@[j]).0 != id@,
            decreases self.entries@.len() - i,
        {
            if self.entries[i].id.same_as(id) {
                return Some(i);
            }
            i = i + 1;
        }
        None
    }

    /// Starts tracking the request `id`, with its signal lowered; a request
    /// already in flight keeps its signal.
    pub fn begin(&mut self, id: RequestId)
        requires
            old(self).wf(),
        ensures
            final(self).wf(),
            forall|k: IdKey| #[trigger]
                final(self).spec_tracks(k) == (old(self).spec_tracks(k) || k == id@),
            forall|k: IdKey| #[trigger]
                final(self).spec_is_cancelled(k) == old(self).spec_is_cancelled(k),
    {
        match self.position(&id) {
            Some(_) => {},
            None => {
                let ghost key = id@;
                let ghost prev = self@;
                self.entries.push(InFlight { id, cancelled: false });
                assert(self@ =~= prev.push((key, false)));
                assert forall|k: IdKey| #[trigger]
                    tracked_in(self@, k) == (tracked_in(prev, k) || k == key) by {
                    if k == key {
                        assert(self@[prev.len() as int].0 == k);
                    }
                    if tracked_in(self@, k) && k != key {
                        let i = choose|i: int| 0 <= i < self@.len() && (#[trigger] self@[i]).0 == k;
                        assert(prev[i].0 == k);
                    }
                    if tracked_in(prev, k) {
                        let i = choose|i: int| 0 <= i < prev.len() && (#[trigger] prev[i]).0 == k;
                        assert(self@[i].0 == k);
                    }
                }
                assert forall|k: IdKey| #[trigger]
                    cancelled_in(self@, k) == cancelled_in(prev, k) by {
                    if cancelled_in(self@, k) {
                        let i = choose|i: int|
                            0 <= i < self@.len() && (#[trigger] self@[i]).0 == k && self@[i].1;
                        assert(prev[i].0 == k && prev[i].1);
                    }
                    if cancelled_in(prev, k) {
                        let i = choose|i: int|
                            0 <= i < prev.len() && (#[trigger] prev[i]).0 == k && prev[i].1;
                        assert(self@[i].0 == k && self@[i].1);
                    }
                }
            },
        }
    }
    /// Raises the signal of the request that `c` names, if it is in flight;
    /// says whether it was.
    pub fn cancel(&mut self, c: &CancelledNotification) -> (r: bool)
        requires
            old(self).wf(),
        ensures
            final(self).wf(),
            r == old(self).spec_tracks(c.request_id@),
            forall|k: IdKey| #[trigger] final(self).spec_tracks(k) == old(self).spec_tracks(k),
            forall|k: IdKey| #[trigger]
                final(self).spec_is_cancelled(k) == (old(self).spec_is_cancelled(k) || (r
                    && k == c.request_id@)),
    {
        match self.position(&c.request_id) {
            Some(i) => {
                let ghost key = c.request_id@;
                let ghost prev = self@;
                let id = self.entries[i].id.clone();
                self.entries.set(i, InFlight { id, cancelled: true });
                assert(self@ =~= prev.update(i as int, (key, true)));
                assert(tracked_in(prev, key)) by {
                    assert(prev[i as int].0 == key);
                }
                assert forall|k: IdKey| #[trigger] tracked_in(self@, k) == tracked_in(prev, k) by {
                    if tracked_in(self@, k) {
                        let j = choose|j: int| 0 <= j < self@.len() && (#[trigger] self@[j]).0 == k;
                        assert(prev[j].0 == k);
                    }
                    if tracked_in(prev, k) {
                        let j = choose|j: int| 0 <= j < prev.len() && (#[trigger] prev[j]).0 == k;
                        assert(self@[j].0 == k);
                    }
                }
                assert forall|k: IdKey| #[trigger]
                    cancelled_in(self@, k) == (cancelled_in(prev, k) || k == key) by {
                    if k == key {
                        assert(self@[i as int].0 == k && self@[i as int].1);
                    }
                    if cancelled_in(self@, k) && k != key {
                        let j = choose|j: int|
                            0 <= j < self@.len() && (#[trigger] self@[j]).0 == k && self@[j].1;
                        assert(prev[j].0 == k && prev[j].1);
                    }
                    if cancelled_in(prev, k) {
                        let j = choose|j: int|
                            0 <= j < prev.len() && (#[trigger] prev[j]).0 == k && prev[j].1;
                        assert(self@[j].0 == k && self@[j].1);
                    }
                }
                true
            },
            None => false,
        }
    }

    /// Whether the request `id` is in flight and its peer asked to abandon it.
    pub fn is_cancelled(&self, id: &RequestId) -> (r: bool)
        requires
            self.wf(),
        ensures
            r == self.spec_is_cancelled(id@),
    {
        match self.position(id) {
            Some(i) => {
                let r = self.entries[i].cancelled;
                assert(self@[i as int].1 == r);
                proof {
                    if !r && cancelled_in(self@, id@) {
                        let j = choose|j: int|
                            0 <= j < self@.len() && (#[trigger] self@[j]).0 == id@ && self@[j].1;
                        assert(j != i as int);
                        if j < i {
                            assert(self@[j].0 != self@[i as int].0);
                        } else {
                            assert(self@[i as int].0 != self@[j].0);
                        }
                    }
                }
                r
            },
            None => false,
        }
    }

    /// Stops tracking the request `id`, once its response or cancellation
    /// has been settled.
    pub fn finish(&mut self, id: &RequestId)
        requires
            old(self).wf(),
        ensures
            final(self).wf(),
            forall|k: IdKey| #[trigger]
                final(self).spec_tracks(k) == (old(self).spec_tracks(k) && k != id@),
            forall|k: IdKey| #[trigger]
                final(self).spec_is_cancelled(k) == (old(self).spec_is_cancelled(k) && k != id@),
    {
        match self.position(id) {
            Some(i) => {
                let ghost key = id@;
                let ghost prev = self@;
                self.entries.remove(i);
                assert(self@ =~= prev.remove(i as int));
                assert forall|a: int, b: int|
                    0 <= a < b < self@.len() implies (#[trigger] self@[a]).0 != (
                    #[trigger] self@[b]).0 by {
                    let pa = if a < i { a } else { a + 1 };
                    let pb = if b < i { b } else { b + 1 };
                    assert(self@[a] == prev[pa] && self@[b] == prev[pb]);
                }
                assert forall|k: IdKey| #[trigger]
                    tracked_in(self@, k) == (tracked_in(prev, k) && k != key) by {
                    if tracked_in(self@, k) {
                        let j = choose|j: int| 0 <= j < self@.len() && (#[trigger] self@[j]).0 == k;
                        let pj = if j < i { j } else { j + 1 };
                        assert(prev[pj].0 == k);
                        assert(pj != i);
                        if pj < i {
                            assert(prev[pj].0 != prev[i as int].0);
                        } else {
                            assert(prev[i as int].0 != prev[pj].0);
                        }
                    }
                    if tracked_in(prev, k) && k != key {
                        let j = choose|j: int| 0 <= j < prev.len() && (#[trigger] prev[j]).0 == k;
                        if j < i {
                            assert(self@[j].0 == k);
                        } else {
                            assert(self@[j - 1].0 == k);
                        }
                    }
                }
                assert forall|k: IdKey| #[trigger]
                    cancelled_in(self@, k) == (cancelled_in(prev, k) && k != key) by {
                    if cancelled_in(self@, k) {
                        let j = choose|j: int|
                            0 <= j < self@.len() && (#[trigger] self@[j]).0 == k && self@[j].1;
                        let pj = if j < i { j } else { j + 1 };
                        assert(prev[pj].0 == k && prev[pj].1);
                        if pj < i {
                            assert(prev[pj].0 != prev[i as int].0);
                        } else {
                            assert(prev[i as int].0 != prev[pj].0);
                        }
                    }
                    if cancelled_in(prev, k) && k != key {
                        let j = choose|j: int|
                            0 <= j < prev.len() && (#[trigger] prev[j]).0 == k && prev[j].1;
                        if j < i {
                            assert(self@[j].0 == k && self@[j].1);
                        } else {
                            assert(self@[j - 1].0 == k && self@[j - 1].1);
                        }
                    }
                }
            },
            None => {},
        }
    }
    /// Delivers a peer notification: a cancellation raises the signal of the
    /// request it names, if that request is in flight, and says whether it
    /// was; a notification of any other kind comes back unchanged.
    pub fn deliver<N: CancellationConvertible>(&mut self, n: N) -> (r: Result<bool, N>)
        requires
            old(self).wf(),
        ensures
            final(self).wf(),
            forall|k: IdKey| #[trigger] final(self).spec_tracks(k) == old(self).spec_tracks(k),
            match n.cancellation() {
                Some(c) => {
                    &&& r == Ok::<bool, N>(old(self).spec_tracks(c.request_id@))
                    &&& forall|k: IdKey| #[trigger]
                        final(self).spec_is_cancelled(k) == (old(self).spec_is_cancelled(k) || (
                        old(self).spec_tracks(k) && k == c.request_id@))
                },
                None => r == Err::<bool, N>(n) && final(self)@ == old(self)@,
            },
    {
        match n.try_into_cancelled() {
            Ok(c) => Ok(self.cancel(&c)),
            Err(other) => Err(other),
        }
    }
}

/// Delivers a peer notification to `service` and, when it is a
/// cancellation, first raises the signal of the request it names, if that
/// request is in flight; the handler serving it then observes the signal
/// through `is_cancelled`. The service receives the notification unchanged
/// and its outcome is returned.
pub fn dispatch_notification<R: ServiceRole, S: Service<R>>(
    service: &S,
    registry: &mut CancellationRegistry,
    notification: R::PeerNot,
) -> (r: Result<(), Error>)
    requires
        old(registry).wf(),
    ensures
        r == service.notification_outcome(notification),
        final(registry).wf(),
        forall|k: IdKey| #[trigger] final(registry).spec_tracks(k) == old(registry).spec_tracks(k),
        match notification.cancellation() {
            Some(c) => forall|k: IdKey| #[trigger]
                final(registry).spec_is_cancelled(k) == (old(registry).spec_is_cancelled(k) || (
                old(registry).spec_tracks(k) && k == c.request_id@)),
            None => final(registry)@ == old(registry)@,
        },
{
    match notification.try_into_cancelled() {
        Ok(c) => {
            registry.cancel(&c);
            let rebuilt = R::PeerNot::from_cancelled(c);
            service.handle_notification(rebuilt)
        },
        Err(other) => service.handle_notification(other),
    }
}

} // verus!
