//! The ordered queue of received fragments and the transaction scan.
//!
//! The receive reassembler appends classified fragments at the back; the
//! control-transfer state machine pops from the front until it finds a
//! `SetupComplete` marker, keeping the most recent `SetupData` seen on the
//! way. If the queue empties first, the unmatched `SetupData` (if any) is
//! restored to the front and the transaction is deferred to a later event;
//! a fragment awaiting its completion marker is never discarded.

use vstd::prelude::*;

use crate::fragment::{decode, decode_spec, ControlRequest, ReceivedFragment};

verus! {

/// First-in-first-out queue of received fragments, front at index 0.
pub struct FragmentQueue {
    pub items: Vec<ReceivedFragment>,
}

impl View for FragmentQueue {
    type V = Seq<ReceivedFragment>;

    open spec fn view(&self) -> Seq<ReceivedFragment> {
        self.items@
    }
}

/// Whether the queue holds a `SetupComplete` marker anywhere.
#[verifier::opaque]
pub open spec fn has_complete(q: Seq<ReceivedFragment>) -> bool {
    exists|i: int| 0 <= i < q.len() && q[i] is SetupComplete
}

/// Whether no `SetupComplete` marker stands before index `k`.
#[verifier::opaque]
pub open spec fn no_complete_before(q: Seq<ReceivedFragment>, k: int) -> bool {
    forall|j: int| 0 <= j < k ==> !(q[j] is SetupComplete)
}

/// The index of the first `SetupComplete` marker.
#[verifier::opaque]
pub open spec fn first_complete(q: Seq<ReceivedFragment>) -> int {
    choose|k: int| 0 <= k < q.len() && q[k] is SetupComplete && no_complete_before(q, k)
}

/// The most recent `SetupData` fragment strictly before index `k`, if any.
#[verifier::opaque]
pub open spec fn last_setup_before(q: Seq<ReceivedFragment>, k: int) -> Option<ReceivedFragment>
    decreases k,
{
    if k <= 0 {
        None
    } else if q[k - 1] is SetupData {
        Some(q[k - 1])
    } else {
        last_setup_before(q, k - 1)
    }
}

/// The control request the scan reconstructs: the most recent `SetupData`
/// before the first `SetupComplete`, decoded — `None` when no marker has
/// arrived yet or no `SetupData` precedes it.
pub open spec fn reconstructed(q: Seq<ReceivedFragment>) -> Option<ControlRequest> {
    if has_complete(q) {
        match last_setup_before(q, first_complete(q)) {
            Some(f) => Some(decode_spec(f)),
            None => None,
        }
    } else {
        None
    }
}

/// Whether the scan must defer: no completion marker yet, but an
/// unmatched `SetupData` is present.
pub open spec fn deferred(q: Seq<ReceivedFragment>) -> bool {
    !has_complete(q) && last_setup_before(q, q.len() as int) is Some
}

/// What the queue holds after the scan: everything after the first
/// `SetupComplete`; or, with no marker yet, just the unmatched
/// `SetupData` restored to the front (nothing, if there was none).
pub open spec fn queue_after_scan(q: Seq<ReceivedFragment>) -> Seq<ReceivedFragment> {
    if has_complete(q) {
        q.skip(first_complete(q) + 1)
    } else {
        match last_setup_before(q, q.len() as int) {
            Some(f) => seq![f],
            None => Seq::empty(),
        }
    }
}

/// The requeue-and-defer law: when the queue holds no completion marker
/// but an unmatched `SetupData`, the scan leaves exactly that fragment,
/// unchanged in content, at the front of the queue, and reconstructs no
/// transaction.
pub proof fn lemma_deferred_restores_fragment(q: Seq<ReceivedFragment>, f: ReceivedFragment)
    requires
        !has_complete(q),
        last_setup_before(q, q.len() as int) == Some(f),
    ensures
        queue_after_scan(q) == seq![f],
        queue_after_scan(q)[0] == f,
        reconstructed(q) is None,
{
    assert(queue_after_scan(q) =~= seq![f]);
}

/// What one scan of the queue produced.
#[derive(Clone, Copy, Debug, PartialEq, Eq, Structural)]
pub enum ScanResult {
    /// A complete transaction was reconstructed.
    Transaction(ControlRequest),
    /// An unmatched `SetupData` was found but its completion marker has
    /// not arrived: the fragment was restored to the front.
    Incomplete,
    /// Nothing to act on: the queue was empty, or a completion marker
    /// had no `SetupData` before it.
    Nothing,
}

impl FragmentQueue {
    /// Creates an empty queue.
    pub fn new() -> (r: FragmentQueue)
        ensures
            r@ =~= Seq::<ReceivedFragment>::empty(),
    {
        FragmentQueue { items: Vec::new() }
    }

    /// Appends a fragment at the back.
    pub fn push_back(&mut self, f: ReceivedFragment)
        ensures
            final(self)@ =~= old(self)@.push(f),
    {
        self.items.push(f);
    }

    /// The number of fragments queued.
    pub fn len(&self) -> (r: usize)
        ensures
            r == self@.len(),
    {
        self.items.len()
    }

    /// Pops fragments from the front until a `SetupComplete` marker is
    /// found, tracking the most recent `SetupData` seen; the decoded
    /// transaction is returned. If the queue empties without a marker,
    /// an unmatched `SetupData` is restored to the front, unchanged, and
    /// the scan reports the transaction incomplete — deferred, not
    /// dropped.
    pub fn pop_transaction(&mut self) -> (r: ScanResult)
        ensures
            final(self)@ == queue_after_scan(old(self)@),
            r is Transaction <==> reconstructed(old(self)@) is Some,
            r matches ScanResult::Transaction(req) ==> reconstructed(old(self)@) == Some(req),
            r is Incomplete <==> deferred(old(self)@),
    {
        proof {
            reveal(has_complete);
            reveal(no_complete_before);
            reveal(first_complete);
            reveal(last_setup_before);
        }
        let ghost q0: Seq<ReceivedFragment> = self@;
        let n: usize = self.items.len();
        let mut i: usize = 0;
        let mut last: Option<ReceivedFragment> = None;
        let mut found: bool = false;
        while i < n && !found
            invariant
                self@ == q0,
                n == q0.len(),
                i <= n,
                last == last_setup_before(q0, i as int),
                no_complete_before(q0, i as int),
                found ==> i < n && q0[i as int] is SetupComplete,
                !found ==> last_setup_before(q0, i as int) == last,
            decreases n - i, (if found { 0int } else { 1int }),
        {
            proof {
                reveal(no_complete_before);
                reveal(last_setup_before);
            }
            match self.items[i] {
                ReceivedFragment::SetupComplete => {
                    found = true;
                },
                ReceivedFragment::SetupData { .. } => {
                    last = Some(self.items[i]);
                    i = i + 1;
                },
            }
        }
        if found {
            proof {
                assert(has_complete(q0));
                assert(first_complete(q0) == i as int) by {
                    let k: int = first_complete(q0);
                    assert(0 <= k < q0.len() && q0[k] is SetupComplete && no_complete_before(
                        q0,
                        k,
                    ));
                    if k < i as int {
                        assert(!(q0[k] is SetupComplete));
                    }
                    if k > i as int {
                        assert(!(q0[i as int] is SetupComplete));
                    }
                }
            }
            // Everything up to and including the marker is consumed; the
            // entries after it remain, in order.
            let mut rest: Vec<ReceivedFragment> = Vec::new();
            let mut j: usize = i + 1;
            while j < n
                invariant
                    self@ == q0,
                    n == q0.len(),
                    i < n,
                    i + 1 <= j <= n,
                    rest@ =~= q0.subrange(i + 1, j as int),
                decreases n - j,
            {
                let f: ReceivedFragment = self.items[j];
                rest.push(f);
                j = j + 1;
            }
            proof {
                assert(rest@ =~= q0.skip(i + 1));
            }
            self.items = rest;
            match last {
                Some(f) => ScanResult::Transaction(decode(&f)),
                None => ScanResult::Nothing,
            }
        } else {
            proof {
                assert(i == n);
                assert(!has_complete(q0)) by {
                    if has_complete(q0) {
                        let k: int = choose|k: int|
                            0 <= k < q0.len() && q0[k] is SetupComplete;
                        assert(!(q0[k] is SetupComplete));
                    }
                }
            }
            match last {
                Some(f) => {
                    let mut rest: Vec<ReceivedFragment> = Vec::new();
                    rest.push(f);
                    self.items = rest;
                    proof {
                        assert(self@ =~= queue_after_scan(q0));
                    }
                    ScanResult::Incomplete
                },
                None => {
                    self.items = Vec::new();
                    proof {
                        assert(self@ =~= queue_after_scan(q0));
                    }
                    ScanResult::Nothing
                },
            }
        }
    }
}

} // verus!
