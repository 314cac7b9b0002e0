//! The three monitors as one detector, parameterised by its rule. On each
//! trigger (a new block, or a timer tick with the latest height) the detector
//! names the ranges to fetch; given what came back, it decides the alert to
//! send and the addresses to record.
use vstd::prelude::*;
use crate::fetcher::{views, TransactionInfo, TransactionView};
use crate::monitor::{
    activity_alert, activity_body, alert_is, count_matching, threshold_alert, threshold_body,
    threshold_fires, trailing_window, window_start, Alert,
};
use crate::registry::{senders, texts};
use crate::selector::{function_sig, keccak_of, selector_of};

verus! {

/// One range query: the transactions of `address` from block `start` to block `end`.
pub struct Query {
    pub address: String,
    pub start: u64,
    pub end: u64,
}

/// A monitor and its configuration.
pub enum Detector {
    /// Alerts `receiver` about every block that touches `address`.
    Activity { address: String, receiver: String },
    /// Alerts `receiver` when the trailing `window` blocks hold more than
    /// `limit` calls of the method whose selector is `selector`.
    Threshold {
        address: String,
        signature: String,
        selector: String,
        receiver: String,
        limit: u32,
        window: u64,
    },
    /// Records the senders of every transaction that touches one of `addresses`.
    MixingService { addresses: Vec<String> },
}

/// What a detector decided for one trigger.
pub struct Outcome {
    pub alert: Option<Alert>,
    pub record: Vec<String>,
}

/// The senders of every transaction of every result, in order.
pub open spec fn all_senders(results: Seq<Seq<TransactionView>>) -> Seq<Seq<char>>
    decreases results.len(),
{
    if results.len() == 0 {
        Seq::empty()
    } else {
        all_senders(results.drop_last()) + senders(results.last())
    }
}

/// The fetched results, seen through their views.
pub open spec fn results_view(results: Seq<Vec<TransactionInfo>>) -> Seq<Seq<TransactionView>> {
    results.map_values(|r: Vec<TransactionInfo>| views(r@))
}

impl Query {
    pub open spec fn is(self, address: Seq<char>, start: nat, end: nat) -> bool {
        self.address@ == address && self.start as nat == start && self.end as nat == end
    }
}

impl Detector {
    /// How many queries each trigger issues.
    pub open spec fn query_count(&self) -> nat {
        match self {
            Detector::MixingService { addresses } => addresses@.len(),
            _ => 1,
        }
    }

    /// Whether query `i` of the trigger at `height` is `q`.
    pub open spec fn query_is(&self, height: nat, i: int, q: Query) -> bool {
        match self {
            Detector::Activity { address, .. } => q.is(address@, height, height),
            Detector::Threshold { address, window, .. } => q.is(
                address@,
                window_start(height, *window as nat),
                height,
            ),
            Detector::MixingService { addresses } => q.is(addresses@[i]@, height, height),
        }
    }

    /// The threshold detector for `signature`, with its selector derived once.
    pub fn threshold(
        address: String,
        signature: String,
        receiver: String,
        limit: u32,
        window: u64,
    ) -> (r: Self)
        ensures
            r matches Detector::Threshold { address: a, signature: s, selector, receiver: t, limit: l, window: w }
                && a@ == address@ && s@ == signature@ && selector@ == selector_of(keccak_of(signature@))
                && t@ == receiver@ && l == limit && w == window,
    {
        let selector = function_sig(signature.as_str());
        Detector::Threshold { address, signature, selector, receiver, limit, window }
    }

    /// The range queries for the trigger at `height`: the block itself for
    /// the block-driven detectors, the trailing window ending there for the
    /// threshold detector.
    pub fn queries(&self, height: u64) -> (r: Vec<Query>)
        ensures
            r@.len() == self.query_count(),
            forall|i: int| 0 <= i < r@.len() ==> self.query_is(height as nat, i, #[trigger] r@[i]),
    {
        match self {
            Detector::Activity { address, .. } => {
                let mut r: Vec<Query> = Vec::new();
                r.push(Query { address: address.clone(), start: height, end: height });
                r
            },
            Detector::Threshold { address, window, .. } => {
                let (start, end) = trailing_window(height, *window);
                let mut r: Vec<Query> = Vec::new();
                r.push(Query { address: address.clone(), start, end });
                r
            },
            Detector::MixingService { addresses } => {
                let mut r: Vec<Query> = Vec::new();
                let mut i: usize = 0;
                while i < addresses.len()
                    invariant
                        i <= addresses@.len(),
                        r@.len() == i,
                        forall|k: int|
                            0 <= k < i ==> (#[trigger] r@[k]).is(
                                addresses@[k]@,
                                height as nat,
                                height as nat,
                            ),
                    decreases addresses@.len() - i,
                {
                    r.push(Query { address: addresses[i].clone(), start: height, end: height });
                    i = i + 1;
                }
                r
            },
        }
    }

    /// The decision for one trigger, given the result of each of its queries
    /// in order. Activity: an alert exactly when the block touched the
    /// address. Threshold: an alert exactly when strictly more than `limit`
    /// transactions call the method. Mixing service: no alert, and the
    /// sender of every transaction to record.
    pub fn decide(&self, results: &Vec<Vec<TransactionInfo>>) -> (r: Outcome)
        requires
            results@.len() == self.query_count(),
        ensures
            match self {
                Detector::Activity { address, receiver } => {
                    &&& (r.alert is Some) == (results@[0]@.len() > 0)
                    &&& r.alert matches Some(a) ==> alert_is(
                        a,
                        receiver@,
                        activity_body(address@, views(results@[0]@)),
                    )
                    &&& r.record@.len() == 0
                },
                Detector::Threshold { address, signature, selector, receiver, limit, .. } => {
                    &&& (r.alert is Some) == threshold_fires(
                        views(results@[0]@),
                        selector@,
                        *limit as nat,
                    )
                    &&& r.alert matches Some(a) ==> alert_is(
                        a,
                        receiver@,
                        threshold_body(
                            address@,
                            signature@,
                            count_matching(views(results@[0]@), selector@),
                            *limit as nat,
                        ),
                    )
                    &&& r.record@.len() == 0
                },
                Detector::MixingService { .. } => {
                    &&& r.alert is None
                    &&& texts(r.record@) == all_senders(results_view(results@))
                },
            },
    {
        match self {
            Detector::Activity { address, receiver } => {
                let alert = activity_alert(address.as_str(), receiver.as_str(), &results[0]);
                Outcome { alert, record: Vec::new() }
            },
            Detector::Threshold { address, signature, selector, receiver, limit, .. } => {
                let alert = threshold_alert(
                    address.as_str(),
                    signature.as_str(),
                    selector,
                    receiver.as_str(),
                    *limit,
                    &results[0],
                );
                Outcome { alert, record: Vec::new() }
            },
            Detector::MixingService { .. } => {
                let mut record: Vec<String> = Vec::new();
                let mut i: usize = 0;
                while i < results.len()
                    invariant
                        i <= results@.len(),
                        texts(record@) == all_senders(results_view(results@).take(i as int)),
                    decreases results@.len() - i,
                {
                    let txs = &results[i];
                    let ghost before = record@;
                    let mut j: usize = 0;
                    while j < txs.len()
                        invariant
                            j <= txs@.len(),
                            txs == results@[i as int],
                            i < results@.len(),
                            texts(record@) == texts(before) + senders(views(txs@).take(j as int)),
                        decreases txs@.len() - j,
                    {
                        let ghost prev = record@;
                        let sender = txs[j].from.clone();
                        record.push(sender);
                        assert(texts(record@) =~= texts(prev).push(sender@));
                        assert(senders(views(txs@).take(j as int + 1)) =~= senders(
                            views(txs@).take(j as int),
                        ).push(txs@[j as int].from@));
                        assert(texts(record@) =~= texts(before) + senders(
                            views(txs@).take(j as int + 1),
                        ));
                        j = j + 1;
                    }
                    assert(views(txs@).take(txs@.len() as int) =~= views(txs@));
                    assert(results_view(results@).take(i as int + 1).drop_last() =~= results_view(
                        results@,
                    ).take(i as int));
                    i = i + 1;
                }
                assert(results_view(results@).take(results@.len() as int) =~= results_view(
                    results@,
                ));
                Outcome { alert: None, record }
            },
        }
    }
}

} // verus!
