//! What a whole backfill achieves, stated over every possible sequence of
//! answered and failed queries.
//!
//! The log source is modelled by `chain`: the logs that match the filter, in
//! ascending block order. A query for a range that is answered returns the
//! logs of `chain` within that range, in that order.

use vstd::prelude::*;
use vstd::arithmetic::power2::{pow2, lemma_pow2_unfold, lemma2_to64};
use crate::log::RawLog;
use crate::publisher::{lemma_normalized_all_concat, normalized_all, OutboundMessageView};
use crate::scanner::{Backfill, Scanner};

verus! {

/// The test "the log's block lies between `lo` and `hi`, both included".
pub open spec fn in_blocks(lo: int, hi: int) -> spec_fn(RawLog) -> bool {
    |log: RawLog| lo <= log.block_number <= hi
}

/// The logs of `chain` whose block lies between `lo` and `hi`, in the order of `chain`.
pub open spec fn logs_between(chain: Seq<RawLog>, lo: int, hi: int) -> Seq<RawLog> {
    chain.filter(in_blocks(lo, hi))
}

/// Block numbers never decrease along `chain`.
pub open spec fn ascending(chain: Seq<RawLog>) -> bool {
    forall|i: int, j: int|
        0 <= i <= j < chain.len() ==> (#[trigger] chain[i]).block_number <= (
        #[trigger] chain[j]).block_number
}

/// `n` answered queries in a row.
pub open spec fn all_answered(n: nat) -> Seq<bool> {
    Seq::new(n, |i: int| true)
}

impl Backfill {
    /// The state after the queries went as `outcomes` tells, `true` for an
    /// answered query and `false` for a failed one.
    pub open spec fn run(self, outcomes: Seq<bool>) -> Backfill
        decreases outcomes.len(),
    {
        if outcomes.len() == 0 {
            self
        } else {
            let before = self.run(outcomes.drop_last());
            if outcomes.last() {
                before.after_success()
            } else {
                before.after_failure()
            }
        }
    }

    /// The logs handed on over the run, in the order in which they were
    /// handed on: for each answered query, the logs of its range.
    pub open spec fn forwarded(self, chain: Seq<RawLog>, outcomes: Seq<bool>) -> Seq<RawLog>
        decreases outcomes.len(),
    {
        if outcomes.len() == 0 {
            Seq::empty()
        } else {
            let before = self.run(outcomes.drop_last());
            let earlier = self.forwarded(chain, outcomes.drop_last());
            match before.window {
                Some(w) if outcomes.last() => earlier + logs_between(
                    chain,
                    w.start_block as int,
                    w.end_block as int,
                ),
                _ => earlier,
            }
        }
    }

    /// The last block that has been answered; one below the creation block
    /// before the first answer.
    pub open spec fn answered_up_to(self) -> int {
        match self.window {
            Some(w) => w.start_block - 1,
            None => self.startup_block as int,
        }
    }
}

impl Scanner {
    /// The messages given to publish over the run, in order: for each
    /// answered query, those of the logs of its range.
    pub open spec fn published(self, chain: Seq<RawLog>, outcomes: Seq<bool>) -> Seq<
        OutboundMessageView,
    >
        decreases outcomes.len(),
    {
        if outcomes.len() == 0 {
            Seq::empty()
        } else {
            let before = Scanner {
                progress: self.progress.run(outcomes.drop_last()),
                ..self
            };
            let earlier = self.published(chain, outcomes.drop_last());
            match before.progress.window {
                Some(w) if outcomes.last() => earlier + before.to_publish(
                    logs_between(chain, w.start_block as int, w.end_block as int),
                ),
                _ => earlier,
            }
        }
    }
}

proof fn lemma_none_between(chain: Seq<RawLog>, lo: int, hi: int)
    requires
        forall|k: int| 0 <= k < chain.len() ==> !(lo <= (#[trigger] chain[k]).block_number <= hi),
    ensures
        logs_between(chain, lo, hi) == Seq::<RawLog>::empty(),
    decreases chain.len(),
{
    reveal(Seq::filter);
    if chain.len() > 0 {
        lemma_none_between(chain.drop_last(), lo, hi);
    }
}

proof fn lemma_split_range(chain: Seq<RawLog>, lo: int, mid: int, hi: int)
    requires
        ascending(chain),
        lo - 1 <= mid <= hi,
    ensures
        logs_between(chain, lo, mid) + logs_between(chain, mid + 1, hi) == logs_between(
            chain,
            lo,
            hi,
        ),
    decreases chain.len(),
{
    reveal(Seq::filter);
    if chain.len() > 0 {
        let rest = chain.drop_last();
        let x = chain.last();
        assert(ascending(rest)) by {
            assert forall|i: int, j: int| 0 <= i <= j < rest.len() implies (#[trigger] rest[i]).block_number
                <= (#[trigger] rest[j]).block_number by {
                assert(rest[i] == chain[i] && rest[j] == chain[j]);
            }
        }
        lemma_split_range(rest, lo, mid, hi);
        if lo <= x.block_number <= mid {
            assert forall|k: int| 0 <= k < rest.len() implies !(mid + 1 <= (
            #[trigger] rest[k]).block_number <= hi) by {
                assert(rest[k] == chain[k]);
                assert(chain[k].block_number <= chain[chain.len() - 1].block_number);
            }
            lemma_none_between(rest, mid + 1, hi);
        }
        assert(logs_between(chain, lo, mid) + logs_between(chain, mid + 1, hi) =~= logs_between(
            chain,
            lo,
            hi,
        ));
    } else {
        assert(logs_between(chain, lo, mid) + logs_between(chain, mid + 1, hi) =~= logs_between(
            chain,
            lo,
            hi,
        ));
    }
}

proof fn lemma_between_ascending(chain: Seq<RawLog>, lo: int, hi: int)
    requires
        ascending(chain),
    ensures
        ascending(logs_between(chain, lo, hi)),
    decreases chain.len(),
{
    reveal(Seq::filter);
    if chain.len() > 0 {
        let rest = chain.drop_last();
        let x = chain.last();
        assert(ascending(rest)) by {
            assert forall|i: int, j: int| 0 <= i <= j < rest.len() implies (#[trigger] rest[i]).block_number
                <= (#[trigger] rest[j]).block_number by {
                assert(rest[i] == chain[i] && rest[j] == chain[j]);
            }
        }
        lemma_between_ascending(rest, lo, hi);
        let kept = logs_between(rest, lo, hi);
        if lo <= x.block_number <= hi {
            let all = kept.push(x);
            assert forall|i: int, j: int| 0 <= i <= j < all.len() implies (#[trigger] all[i]).block_number
                <= (#[trigger] all[j]).block_number by {
                if j < kept.len() {
                    assert(all[i] == kept[i] && all[j] == kept[j]);
                } else if i < kept.len() {
                    assert(all[i] == kept[i]);
                    assert(kept.contains(kept[i]));
                    rest.lemma_filter_contains_rev(in_blocks(lo, hi), kept[i]);
                    let k = choose|k: int| 0 <= k < rest.len() && rest[k] == kept[i];
                    assert(rest[k] == chain[k]);
                    assert(chain[k].block_number <= chain[chain.len() - 1].block_number);
                }
            }
        }
    }
}

/// The step function keeps every state well formed, and never touches the
/// two ends of the backfill.
pub proof fn lemma_run_wf(start: Backfill, outcomes: Seq<bool>)
    requires
        start.wf(),
    ensures
        start.run(outcomes).wf(),
        start.run(outcomes).creation_block == start.creation_block,
        start.run(outcomes).startup_block == start.startup_block,
    decreases outcomes.len(),
{
    if outcomes.len() > 0 {
        lemma_run_wf(start, outcomes.drop_last());
    }
}

/// At every point of a backfill, the logs handed on so far are exactly the
/// logs of the blocks answered so far, each once and in the order of the
/// chain.
pub proof fn lemma_forwarded_is_answered_prefix(
    scan: Backfill,
    chain: Seq<RawLog>,
    outcomes: Seq<bool>,
)
    requires
        scan == Backfill::initial(scan.creation_block, scan.startup_block),
        ascending(chain),
    ensures
        scan.forwarded(chain, outcomes) == logs_between(
            chain,
            scan.creation_block as int,
            scan.run(outcomes).answered_up_to(),
        ),
    decreases outcomes.len(),
{
    if outcomes.len() == 0 {
        assert forall|k: int| 0 <= k < chain.len() implies !(scan.creation_block <= (
        #[trigger] chain[k]).block_number <= scan.answered_up_to()) by {}
        lemma_none_between(chain, scan.creation_block as int, scan.answered_up_to());
    } else {
        let earlier = outcomes.drop_last();
        lemma_run_wf(scan, earlier);
        lemma_forwarded_is_answered_prefix(scan, chain, earlier);
        match scan.run(earlier).window {
            Some(w) => {
                if outcomes.last() {
                    lemma_split_range(
                        chain,
                        scan.creation_block as int,
                        w.start_block - 1,
                        w.end_block as int,
                    );
                }
            },
            None => {},
        }
    }
}

/// Once a backfill that began at the creation block is complete, every log
/// of the chain whose block lies between the creation block and the
/// start-up block, both included, has been handed on; nothing else has,
/// nothing twice, and the order is that of the chain.
pub proof fn law_backfill_complete(scan: Backfill, chain: Seq<RawLog>, outcomes: Seq<bool>)
    requires
        scan == Backfill::initial(scan.creation_block, scan.startup_block),
        ascending(chain),
        scan.run(outcomes).is_complete(),
    ensures
        scan.forwarded(chain, outcomes) == logs_between(
            chain,
            scan.creation_block as int,
            scan.startup_block as int,
        ),
        forall|k: int|
            0 <= k < chain.len() && scan.creation_block <= (#[trigger] chain[k]).block_number
                <= scan.startup_block ==> scan.forwarded(chain, outcomes).contains(chain[k]),
{
    lemma_forwarded_is_answered_prefix(scan, chain, outcomes);
    lemma_run_wf(scan, outcomes);
    let wanted = in_blocks(scan.creation_block as int, scan.startup_block as int);
    assert forall|k: int|
        0 <= k < chain.len() && scan.creation_block <= (#[trigger] chain[k]).block_number
            <= scan.startup_block implies chain.filter(wanted).contains(chain[k]) by {
        assert(wanted(chain[k]));
        chain.lemma_filter_contains(wanted, k);
    }
}

/// What a scanner gives to publish over a run is the messages of the logs
/// handed on, in the same order; once the backfill is complete these are the
/// messages of every log between creation and start-up that decodes.
pub proof fn law_backfill_publishes_every_transfer(
    scanner: Scanner,
    chain: Seq<RawLog>,
    outcomes: Seq<bool>,
)
    requires
        scanner.progress == Backfill::initial(
            scanner.progress.creation_block,
            scanner.progress.startup_block,
        ),
        ascending(chain),
    ensures
        scanner.published(chain, outcomes) == normalized_all(
            scanner.progress.forwarded(chain, outcomes),
            scanner.filter.topic0@,
        ),
        scanner.progress.run(outcomes).is_complete() ==> scanner.published(chain, outcomes)
            == normalized_all(
            logs_between(
                chain,
                scanner.progress.creation_block as int,
                scanner.progress.startup_block as int,
            ),
            scanner.filter.topic0@,
        ),
    decreases outcomes.len(),
{
    if outcomes.len() > 0 {
        let earlier = outcomes.drop_last();
        law_backfill_publishes_every_transfer(scanner, chain, earlier);
        match scanner.progress.run(earlier).window {
            Some(w) => {
                if outcomes.last() {
                    lemma_normalized_all_concat(
                        scanner.progress.forwarded(chain, earlier),
                        logs_between(chain, w.start_block as int, w.end_block as int),
                        scanner.filter.topic0@,
                    );
                }
            },
            None => {},
        }
    }
    if scanner.progress.run(outcomes).is_complete() {
        law_backfill_complete(scanner.progress, chain, outcomes);
    }
}

/// Of two logs handed on by a backfill, the one in the lower block was
/// handed on first.
pub proof fn law_forwarded_in_block_order(scan: Backfill, chain: Seq<RawLog>, outcomes: Seq<bool>)
    requires
        scan == Backfill::initial(scan.creation_block, scan.startup_block),
        ascending(chain),
    ensures
        ascending(scan.forwarded(chain, outcomes)),
        forall|i: int, j: int|
            0 <= i < scan.forwarded(chain, outcomes).len() && 0 <= j < scan.forwarded(
                chain,
                outcomes,
            ).len() && (#[trigger] scan.forwarded(chain, outcomes)[i]).block_number < (
            #[trigger] scan.forwarded(chain, outcomes)[j]).block_number ==> i < j,
{
    lemma_forwarded_is_answered_prefix(scan, chain, outcomes);
    lemma_between_ascending(
        chain,
        scan.creation_block as int,
        scan.run(outcomes).answered_up_to(),
    );
}

/// Whatever the queries did, no log outside the blocks from creation to
/// start-up is handed on, so none of the block behind start-up; and once the
/// backfill is complete every log of the start-up block itself has been
/// handed on.
pub proof fn law_boundary_inclusion(scan: Backfill, chain: Seq<RawLog>, outcomes: Seq<bool>)
    requires
        scan == Backfill::initial(scan.creation_block, scan.startup_block),
        ascending(chain),
    ensures
        forall|i: int|
            0 <= i < scan.forwarded(chain, outcomes).len() ==> scan.creation_block <= (
            #[trigger] scan.forwarded(chain, outcomes)[i]).block_number <= scan.startup_block,
        scan.run(outcomes).is_complete() && scan.creation_block <= scan.startup_block
            ==> forall|k: int|
            0 <= k < chain.len() && (#[trigger] chain[k]).block_number == scan.startup_block
                ==> scan.forwarded(chain, outcomes).contains(chain[k]),
{
    let handed = scan.forwarded(chain, outcomes);
    lemma_forwarded_is_answered_prefix(scan, chain, outcomes);
    lemma_run_wf(scan, outcomes);
    let upto = scan.run(outcomes).answered_up_to();
    assert forall|i: int| 0 <= i < handed.len() implies scan.creation_block <= (
    #[trigger] handed[i]).block_number <= scan.startup_block by {
        chain.lemma_filter_pred(in_blocks(scan.creation_block as int, upto), i);
    }
    if scan.run(outcomes).is_complete() && scan.creation_block <= scan.startup_block {
        law_backfill_complete(scan, chain, outcomes);
    }
}

/// After `n` answered queries in a row the step is two to the `n` times what
/// it was, for as long as blocks are left to scan; and one failed query puts
/// it back to one, whatever it was, and leaves the start where it is.
pub proof fn law_window_growth(start: Backfill, n: nat)
    requires
        start.wf(),
        start.window is Some,
    ensures
        start.run(all_answered(n)).window is Some ==> start.run(
            all_answered(n),
        ).window->0.step == start.window->0.step * pow2(n),
        start.after_failure().window is Some,
        start.after_failure().window->0.step == 1,
        start.after_failure().window->0.start_block == start.window->0.start_block,
    decreases n,
{
    lemma2_to64();
    if n > 0 {
        let earlier = all_answered((n - 1) as nat);
        assert(all_answered(n).drop_last() =~= earlier);
        law_window_growth(start, (n - 1) as nat);
        lemma_run_wf(start, earlier);
        lemma_pow2_unfold(n);
        let before = start.run(earlier);
        if before.window is Some && start.run(all_answered(n)).window is Some {
            let s = start.window->0.step as int;
            let p = pow2((n - 1) as nat) as int;
            assert(2 * (s * p) == s * (2 * p)) by (nonlinear_arith);
        }
    } else {
        assert(start.window->0.step * 1 == start.window->0.step);
    }
}

} // verus!
