//! The detection rules of the three monitors. Each rule takes what the
//! explorer returned for one block or one window and decides the alert to
//! send or the addresses to record; the loops that wait for blocks and
//! timers, and the delivery itself, are the caller's.
use vstd::prelude::*;
use crate::fetcher::{views, Fetch, TransactionInfo, TransactionView};
use crate::selector::{decimal_of, function_sig, keccak_of, push_decimal, selector_of};

verus! {

/// Blocks scanned behind the latest one by the threshold monitor: about an
/// hour at fifteen seconds a block.
pub const DEFAULT_WINDOW: u64 = 240;

/// Seconds between two evaluations of the threshold monitor.
pub const DEFAULT_INTERVAL_SECS: u64 = 30;

/// A message to deliver to one recipient.
pub struct Alert {
    pub recipient: String,
    pub subject: String,
    pub body: String,
}

/// The monitor that mails its owner about a watched address.
pub struct MessageRobot {
    pub api_key: String,
    pub wss: String,
    pub sender: String,
    pub password: String,
    pub smtp_server: String,
}

/// The monitor that follows mixing services block by block.
pub struct Listen {
    pub wss: String,
    pub api_key: String,
}

/// The subject line of every alert.
pub open spec fn alert_subject() -> Seq<char> {
    "SecHelper Robot"@
}

/// The hashes of a list of transactions, in order.
pub open spec fn hashes(txs: Seq<TransactionView>) -> Seq<Seq<char>> {
    txs.map_values(|t: TransactionView| t.hash)
}

/// A text between double quotes.
pub open spec fn quoted(s: Seq<char>) -> Seq<char> {
    seq!['"'] + s + seq!['"']
}

/// Quoted texts separated by a comma and a space.
pub open spec fn joined(items: Seq<Seq<char>>) -> Seq<char>
    decreases items.len(),
{
    if items.len() == 0 {
        Seq::empty()
    } else if items.len() == 1 {
        quoted(items[0])
    } else {
        joined(items.drop_last()) + ", "@ + quoted(items.last())
    }
}

/// The body of an activity alert: the address and every hash seen.
pub open spec fn activity_body(address: Seq<char>, txs: Seq<TransactionView>) -> Seq<char> {
    "Attention! The "@ + address + " you monitor has action! \nTx hash["@ + joined(hashes(txs))
        + "]"@
}

/// How many transactions called the method with this selector.
pub open spec fn count_matching(txs: Seq<TransactionView>, selector: Seq<char>) -> nat
    decreases txs.len(),
{
    if txs.len() == 0 {
        0
    } else {
        count_matching(txs.drop_last(), selector) + if txs.last().method_id == selector {
            1nat
        } else {
            0nat
        }
    }
}

/// The body of a threshold alert: the address, the signature, the count and the limit.
pub open spec fn threshold_body(
    address: Seq<char>,
    signature: Seq<char>,
    count: nat,
    limit: nat,
) -> Seq<char> {
    "Warning! The "@ + address + " you monitor may be in dangerous! \nResult: Too many `"@
        + signature + "` txs ("@ + decimal_of(count) + "), which over your limit("@
        + decimal_of(limit) + ")"@
}

/// The threshold rule: strictly more matching calls than the limit.
pub open spec fn threshold_fires(txs: Seq<TransactionView>, selector: Seq<char>, limit: nat) -> bool {
    count_matching(txs, selector) > limit
}

/// The first block of the trailing window that ends at `latest`.
pub open spec fn window_start(latest: nat, span: nat) -> nat {
    if latest >= span {
        (latest - span) as nat
    } else {
        0
    }
}

/// Whether an alert goes to `recipient` with the product's subject and this body.
pub open spec fn alert_is(a: Alert, recipient: Seq<char>, body: Seq<char>) -> bool {
    a.recipient@ == recipient && a.subject@ == alert_subject() && a.body@ == body
}

/// The product's subject line.
fn subject_text() -> (r: String)
    ensures
        r@ == alert_subject(),
{
    String::from_str("SecHelper Robot")
}

/// Appends the quoted hashes of `txs`, comma separated, to `out`.
fn push_hash_list(out: &mut String, txs: &Vec<TransactionInfo>)
    ensures
        final(out)@ == old(out)@ + joined(hashes(views(txs@))),
{
    let mut i: usize = 0;
    while i < txs.len()
        invariant
            i <= txs@.len(),
            out@ == old(out)@ + joined(hashes(views(txs@)).take(i as int)),
        decreases txs@.len() - i,
    {
        let ghost hs = hashes(views(txs@));
        let ghost before = out@;
        if i > 0 {
            out.append(", ");
        }
        out.append("\"");
        out.append(txs[i].hash.as_str());
        out.append("\"");
        proof {
            reveal_strlit("\"");
            reveal_strlit(", ");
            let next = hs.take(i as int + 1);
            assert(next.drop_last() =~= hs.take(i as int));
            assert(next.last() == txs@[i as int].hash@);
            if i == 0 {
                assert(hs.take(0) =~= Seq::<Seq<char>>::empty());
                assert(out@ =~= old(out)@ + joined(next));
            } else {
                assert(out@ =~= old(out)@ + joined(next));
            }
        }
        i = i + 1;
    }
    assert(hashes(views(txs@)).take(txs@.len() as int) =~= hashes(views(txs@)));
}

/// How many transactions called the method with this selector.
pub fn count_selector(txs: &Vec<TransactionInfo>, selector: &String) -> (r: usize)
    ensures
        r as nat == count_matching(views(txs@), selector@),
{
    let mut count: usize = 0;
    let mut i: usize = 0;
    while i < txs.len()
        invariant
            i <= txs@.len(),
            count <= i,
            count as nat == count_matching(views(txs@).take(i as int), selector@),
        decreases txs@.len() - i,
    {
        let ghost vs = views(txs@);
        assert(vs.take(i as int + 1).drop_last() =~= vs.take(i as int));
        if txs[i].method_id == *selector {
            count = count + 1;
        }
        i = i + 1;
    }
    assert(views(txs@).take(txs@.len() as int) =~= views(txs@));
    count
}

/// The trailing window of `span` blocks that ends at block `latest`; it
/// starts at block zero while the chain is shorter than the span.
pub fn trailing_window(latest: u64, span: u64) -> (r: (u64, u64))
    ensures
        r.0 as nat == window_start(latest as nat, span as nat),
        r.1 == latest,
        r.0 <= r.1,
{
    if latest >= span {
        (latest - span, latest)
    } else {
        (0, latest)
    }
}

/// The activity rule for one block: an alert listing every transaction hash
/// when the block touched the address, and none otherwise.
pub fn activity_alert(address: &str, receiver: &str, txs: &Vec<TransactionInfo>) -> (r: Option<Alert>)
    ensures
        (r is Some) == (txs@.len() > 0),
        r matches Some(a) ==> alert_is(a, receiver@, activity_body(address@, views(txs@))),
{
    if txs.len() == 0 {
        return None;
    }
    let mut body = String::from_str("Attention! The ");
    body.append(address);
    body.append(" you monitor has action! \nTx hash[");
    push_hash_list(&mut body, txs);
    body.append("]");
    assert(body@ =~= activity_body(address@, views(txs@)));
    Some(Alert { recipient: String::from_str(receiver), subject: subject_text(), body })
}

/// The threshold rule for one window, given the selector of the watched
/// method: one alert when strictly more than `limit` transactions call it.
pub fn threshold_alert(
    address: &str,
    signature: &str,
    selector: &String,
    receiver: &str,
    limit: u32,
    txs: &Vec<TransactionInfo>,
) -> (r: Option<Alert>)
    ensures
        (r is Some) == threshold_fires(views(txs@), selector@, limit as nat),
        r matches Some(a) ==> alert_is(
            a,
            receiver@,
            threshold_body(
                address@,
                signature@,
                count_matching(views(txs@), selector@),
                limit as nat,
            ),
        ),
{
    let count = count_selector(txs, selector);
    if count <= limit as usize {
        return None;
    }
    let mut body = String::from_str("Warning! The ");
    body.append(address);
    body.append(" you monitor may be in dangerous! \nResult: Too many `");
    body.append(signature);
    body.append("` txs (");
    push_decimal(&mut body, count as u64);
    body.append("), which over your limit(");
    push_decimal(&mut body, limit as u64);
    body.append(")");
    assert(body@ =~= threshold_body(
        address@,
        signature@,
        count_matching(views(txs@), selector@),
        limit as nat,
    ));
    Some(Alert { recipient: String::from_str(receiver), subject: subject_text(), body })
}

impl MessageRobot {
    /// A monitor with its explorer key, node URL and mail credentials.
    pub fn new(
        api_key: String,
        wss: String,
        sender: String,
        password: String,
        smtp_server: String,
    ) -> (r: Self)
        ensures
            r.api_key@ == api_key@,
            r.wss@ == wss@,
            r.sender@ == sender@,
            r.password@ == password@,
            r.smtp_server@ == smtp_server@,
    {
        MessageRobot { api_key, wss, sender, password, smtp_server }
    }

    /// An explorer client with this monitor's key.
    pub fn fetcher(&self) -> (r: Fetch)
        ensures
            r.key() == self.api_key@,
    {
        Fetch::new(self.api_key.clone())
    }

    /// What the activity monitor does with the transactions of one block.
    pub fn message_robot(&self, address: &str, receiver: &str, txs: &Vec<TransactionInfo>) -> (r:
        Option<Alert>)
        ensures
            (r is Some) == (txs@.len() > 0),
            r matches Some(a) ==> alert_is(a, receiver@, activity_body(address@, views(txs@))),
    {
        activity_alert(address, receiver, txs)
    }

    /// What the threshold monitor does with the transactions of one window:
    /// the watched method is named by its signature, such as
    /// `removeLiquidity(address,address,uint256,uint256,uint256,address,uint256)`.
    pub fn warning_robot(
        &self,
        address: &str,
        event: &str,
        receiver: &str,
        limit: u32,
        txs: &Vec<TransactionInfo>,
    ) -> (r: Option<Alert>)
        ensures
            (r is Some) == threshold_fires(
                views(txs@),
                selector_of(keccak_of(event@)),
                limit as nat,
            ),
            r matches Some(a) ==> alert_is(
                a,
                receiver@,
                threshold_body(
                    address@,
                    event@,
                    count_matching(views(txs@), selector_of(keccak_of(event@))),
                    limit as nat,
                ),
            ),
    {
        let selector = function_sig(event);
        threshold_alert(address, event, &selector, receiver, limit, txs)
    }
}

impl Listen {
    /// A monitor with its node URL and explorer key.
    pub fn new(wss: String, api_key: String) -> (r: Self)
        ensures
            r.wss@ == wss@,
            r.api_key@ == api_key@,
    {
        Listen { wss, api_key }
    }
}

/// The threshold comparison is strict: `limit + 1` matching calls fire the
/// rule, `limit` matching calls do not, whatever else the window holds.
pub proof fn lemma_threshold_strict(txs: Seq<TransactionView>, selector: Seq<char>, limit: nat)
    ensures
        count_matching(txs, selector) == limit + 1 ==> threshold_fires(txs, selector, limit),
        count_matching(txs, selector) == limit ==> !threshold_fires(txs, selector, limit),
{
}

} // verus!
