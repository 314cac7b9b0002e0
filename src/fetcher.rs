//! Transactions of an address over a range of blocks, as the block explorer
//! reports them: the queries to issue and the normalisation of the answers.
use vstd::prelude::*;
use crate::json::{array_field, json_array_field, json_parse, json_str_field, parse_json, str_field};
use crate::registry::texts;
use crate::selector::{decimal_of, push_decimal};

verus! {

/// One transaction touching a watched address. Amounts stay decimal text.
pub struct TransactionInfo {
    pub hash: String,
    pub from: String,
    pub to: String,
    pub value: String,
    pub input: String,
    pub method_id: String,
}

/// The fields of a transaction as sequences of characters.
pub struct TransactionView {
    pub hash: Seq<char>,
    pub from: Seq<char>,
    pub to: Seq<char>,
    pub value: Seq<char>,
    pub input: Seq<char>,
    pub method_id: Seq<char>,
}

impl View for TransactionInfo {
    type V = TransactionView;

    open spec fn view(&self) -> TransactionView {
        TransactionView {
            hash: self.hash@,
            from: self.from@,
            to: self.to@,
            value: self.value@,
            input: self.input@,
            method_id: self.method_id@,
        }
    }
}

/// Why a fetch of transactions failed.
#[derive(Clone, Copy, Debug, PartialEq, Eq, Structural)]
pub enum FetchError {
    /// The first block of the range lies after the last one.
    InvalidRange,
    /// The explorer answered with this non-success status.
    Http(u16),
    /// The answer was not the expected JSON document.
    Parse,
}

/// The two kinds of query the explorer serves.
#[derive(Clone, Copy, Debug, PartialEq, Eq, Structural)]
pub enum TxSource {
    /// Transactions sent directly to or from the address.
    Normal,
    /// Transfers generated inside contract execution.
    Internal,
}

/// An answer of the explorer: the HTTP status and the body text.
pub struct QueryResponse {
    pub status: u16,
    pub body: String,
}

/// The two queries that together give every transaction of a range.
pub struct QueryPlan {
    pub normal_url: String,
    pub internal_url: String,
}

/// A client of the explorer, holding its API key.
pub struct Fetch {
    api_key: String,
}

pub open spec fn action_of(source: TxSource) -> Seq<char> {
    match source {
        TxSource::Normal => "txlist"@,
        TxSource::Internal => "txlistinternal"@,
    }
}

/// The query for one kind of transaction of `address` from block `start` to
/// block `end`, oldest first.
pub open spec fn query_url(
    source: TxSource,
    address: Seq<char>,
    start: nat,
    end: nat,
    api_key: Seq<char>,
) -> Seq<char> {
    "https://api.etherscan.io/api?module=account&action="@ + action_of(source) + "&address="@
        + address + "&startblock="@ + decimal_of(start) + "&endblock="@ + decimal_of(end)
        + "&sort=asc&apikey="@ + api_key
}

/// The transaction held in one item of an answer, if it has all six fields as text.
pub open spec fn item_transaction(item: serde_json::Value) -> Option<TransactionView> {
    let hash = json_str_field(item, "hash"@);
    let from = json_str_field(item, "from"@);
    let to = json_str_field(item, "to"@);
    let value = json_str_field(item, "value"@);
    let input = json_str_field(item, "input"@);
    let method_id = json_str_field(item, "methodId"@);
    if hash is Some && from is Some && to is Some && value is Some && input is Some
        && method_id is Some {
        Some(
            TransactionView {
                hash: hash->0,
                from: from->0,
                to: to->0,
                value: value->0,
                input: input->0,
                method_id: method_id->0,
            },
        )
    } else {
        None
    }
}

/// The transactions of a list of items; a malformed item spoils the list.
pub open spec fn items_transactions(items: Seq<serde_json::Value>) -> Result<
    Seq<TransactionView>,
    FetchError,
>
    decreases items.len(),
{
    if items.len() == 0 {
        Ok(Seq::empty())
    } else {
        match items_transactions(items.drop_last()) {
            Err(e) => Err(e),
            Ok(front) => match item_transaction(items.last()) {
                None => Err(FetchError::Parse),
                Some(t) => Ok(front.push(t)),
            },
        }
    }
}

/// The transactions of a parsed answer: those of its `result` array, or none
/// when it has no such array.
pub open spec fn document_transactions(doc: serde_json::Value) -> Result<
    Seq<TransactionView>,
    FetchError,
> {
    match json_array_field(doc, "result"@) {
        None => Ok(Seq::empty()),
        Some(items) => items_transactions(items),
    }
}

/// The transactions of an answer body.
pub open spec fn body_transactions(body: Seq<char>) -> Result<Seq<TransactionView>, FetchError> {
    match json_parse(body) {
        None => Err(FetchError::Parse),
        Some(doc) => document_transactions(doc),
    }
}

/// A status in the 2xx range.
pub open spec fn is_success(status: u16) -> bool {
    200 <= status <= 299
}

/// The transactions of one answer: a non-success status is an error whatever the body.
pub open spec fn response_transactions(status: u16, body: Seq<char>) -> Result<
    Seq<TransactionView>,
    FetchError,
> {
    if !is_success(status) {
        Err(FetchError::Http(status))
    } else {
        body_transactions(body)
    }
}

/// Both answers together: the direct transactions first, then the internal
/// ones, each in the explorer's own order. Either failure fails the whole.
pub open spec fn combined_transactions(
    normal: (u16, Seq<char>),
    internal: (u16, Seq<char>),
) -> Result<Seq<TransactionView>, FetchError> {
    match response_transactions(normal.0, normal.1) {
        Err(e) => Err(e),
        Ok(first) => match response_transactions(internal.0, internal.1) {
            Err(e) => Err(e),
            Ok(second) => Ok(first + second),
        },
    }
}

/// The views of a list of transactions.
pub open spec fn views(txs: Seq<TransactionInfo>) -> Seq<TransactionView> {
    txs.map_values(|t: TransactionInfo| t@)
}

/// A result of transactions, seen through their views.
pub open spec fn result_view(r: Result<Vec<TransactionInfo>, FetchError>) -> Result<
    Seq<TransactionView>,
    FetchError,
> {
    match r {
        Ok(txs) => Ok(views(txs@)),
        Err(e) => Err(e),
    }
}

/// A text with every letter in lower case.
pub uninterp spec fn lower_of(s: Seq<char>) -> Seq<char>;

/// Relies on `str::to_lowercase`: the lower-case form of a text, which
/// depends on the text alone; an empty text stays empty.
#[verifier::external_body]
fn lowercase(s: &str) -> (r: String)
    ensures
        r@ == lower_of(s@),
        s@.len() == 0 ==> r@.len() == 0,
{
    s.to_lowercase()
}

/// Whether some address equals the receiver or the sender of some transaction.
pub open spec fn any_match(tos: Seq<Seq<char>>, froms: Seq<Seq<char>>, addrs: Seq<Seq<char>>) -> bool {
    exists|i: int, j: int|
        0 <= i < tos.len() && 0 <= j < addrs.len() && #[trigger] pair_match(tos, froms, addrs, i, j)
}

/// Whether address `j` equals the receiver or the sender of transaction `i`.
pub open spec fn pair_match(
    tos: Seq<Seq<char>>,
    froms: Seq<Seq<char>>,
    addrs: Seq<Seq<char>>,
    i: int,
    j: int,
) -> bool {
    addrs[j] == tos[i] || addrs[j] == froms[i]
}

/// Whether a transaction list touches one of the addresses, letter case aside.
pub open spec fn invokes_any(txs: Seq<TransactionView>, addrs: Seq<Seq<char>>) -> bool {
    any_match(
        txs.map_values(|t: TransactionView| lower_of(t.to)),
        txs.map_values(|t: TransactionView| lower_of(t.from)),
        addrs.map_values(|a: Seq<char>| lower_of(a)),
    )
}

/// Whether some address of `addrs` equals `tos[i]` or `froms[i]` for some `i`.
pub fn matches_any(tos: &Vec<String>, froms: &Vec<String>, addrs: &Vec<String>) -> (r: bool)
    requires
        tos@.len() == froms@.len(),
    ensures
        r == any_match(texts(tos@), texts(froms@), texts(addrs@)),
{
    let mut i: usize = 0;
    while i < tos.len()
        invariant
            i <= tos@.len(),
            tos@.len() == froms@.len(),
            forall|a: int, b: int|
                0 <= a < i && 0 <= b < addrs@.len() ==> !(texts(addrs@)[b] == texts(tos@)[a]
                    || texts(addrs@)[b] == texts(froms@)[a]),
        decreases tos@.len() - i,
    {
        let mut j: usize = 0;
        while j < addrs.len()
            invariant
                i < tos@.len(),
                j <= addrs@.len(),
                tos@.len() == froms@.len(),
                forall|a: int, b: int|
                    0 <= a < i && 0 <= b < addrs@.len() ==> !(texts(addrs@)[b] == texts(tos@)[a]
                        || texts(addrs@)[b] == texts(froms@)[a]),
                forall|b: int|
                    0 <= b < j ==> !(texts(addrs@)[b] == texts(tos@)[i as int] || texts(
                        addrs@,
                    )[b] == texts(froms@)[i as int]),
            decreases addrs@.len() - j,
        {
            if addrs[j] == tos[i] || addrs[j] == froms[i] {
                proof {
                    let (t, f, a) = (texts(tos@), texts(froms@), texts(addrs@));
                    assert(0 <= i < t.len() && 0 <= j < a.len());
                    assert(pair_match(t, f, a, i as int, j as int));
                    assert(any_match(t, f, a));
                }
                return true;
            }
            j = j + 1;
        }
        i = i + 1;
    }
    false
}

/// The lower-case forms of a list of texts.
fn lower_all(v: &Vec<String>) -> (r: Vec<String>)
    ensures
        texts(r@) == texts(v@).map_values(|a: Seq<char>| lower_of(a)),
{
    let mut r: Vec<String> = Vec::new();
    let mut i: usize = 0;
    while i < v.len()
        invariant
            i <= v@.len(),
            r@.len() == i,
            forall|k: int| 0 <= k < i ==> #[trigger] r@[k]@ == lower_of(v@[k]@),
        decreases v@.len() - i,
    {
        r.push(lowercase(v[i].as_str()));
        i = i + 1;
    }
    assert(texts(r@) =~= texts(v@).map_values(|a: Seq<char>| lower_of(a)));
    r
}

impl QueryResponse {
    pub open spec fn parts(&self) -> (u16, Seq<char>) {
        (self.status, self.body@)
    }
}

/// The transaction held in one item of an answer.
pub fn transaction_from_item(item: &serde_json::Value) -> (r: Option<TransactionInfo>)
    ensures
        match r {
            Some(t) => item_transaction(*item) == Some(t@),
            None => item_transaction(*item).is_none(),
        },
{
    let hash = str_field(item, "hash");
    let from = str_field(item, "from");
    let to = str_field(item, "to");
    let value = str_field(item, "value");
    let input = str_field(item, "input");
    let method_id = str_field(item, "methodId");
    match (hash, from, to, value, input, method_id) {
        (Some(hash), Some(from), Some(to), Some(value), Some(input), Some(method_id)) => {
            Some(TransactionInfo { hash, from, to, value, input, method_id })
        },
        _ => None,
    }
}

/// The transactions of a parsed answer.
pub fn transactions_from_document(doc: &serde_json::Value) -> (r: Result<
    Vec<TransactionInfo>,
    FetchError,
>)
    ensures
        result_view(r) == document_transactions(*doc),
{
    let items = match array_field(doc, "result") {
        None => {
            assert(views(Seq::<TransactionInfo>::empty()) =~= Seq::<TransactionView>::empty());
            return Ok(Vec::new());
        },
        Some(items) => items,
    };
    let mut out: Vec<TransactionInfo> = Vec::new();
    let mut i: usize = 0;
    assert(items@.take(0) =~= Seq::<serde_json::Value>::empty());
    assert(views(out@) =~= Seq::<TransactionView>::empty());
    while i < items.len()
        invariant
            i <= items@.len(),
            json_array_field(*doc, "result"@) == Some(items@),
            items_transactions(items@.take(i as int)) == Ok::<Seq<TransactionView>, FetchError>(
                views(out@),
            ),
        decreases items@.len() - i,
    {
        let ghost before = out@;
        assert(items@.take(i as int + 1).drop_last() =~= items@.take(i as int));
        match transaction_from_item(&items[i]) {
            None => {
                proof {
                    lemma_items_error_persists(items@, i as int + 1);
                }
                return Err(FetchError::Parse);
            },
            Some(t) => {
                out.push(t);
                assert(views(out@) =~= views(before).push(t@));
            },
        }
        i = i + 1;
    }
    assert(items@.take(items@.len() as int) =~= items@);
    Ok(out)
}

/// Once a prefix of the items fails, the whole list fails the same way.
proof fn lemma_items_error_persists(items: Seq<serde_json::Value>, k: int)
    requires
        0 <= k <= items.len(),
        items_transactions(items.take(k)) is Err,
    ensures
        items_transactions(items) == items_transactions(items.take(k)),
    decreases items.len() - k,
{
    if k < items.len() {
        assert(items.take(k + 1).drop_last() =~= items.take(k));
        lemma_items_error_persists(items, k + 1);
    } else {
        assert(items.take(k) =~= items);
    }
}

/// The transactions of an answer body.
pub fn parse_transactions(body: &str) -> (r: Result<Vec<TransactionInfo>, FetchError>)
    ensures
        result_view(r) == body_transactions(body@),
{
    match parse_json(body) {
        Err(_) => Err(FetchError::Parse),
        Ok(doc) => transactions_from_document(&doc),
    }
}

/// The transactions of one answer of the explorer.
pub fn decode_response(response: &QueryResponse) -> (r: Result<Vec<TransactionInfo>, FetchError>)
    ensures
        result_view(r) == response_transactions(response.status, response.body@),
{
    if response.status < 200 || response.status > 299 {
        return Err(FetchError::Http(response.status));
    }
    parse_transactions(response.body.as_str())
}

/// Merges the answers of the direct and the internal query: direct
/// transactions first, with no re-sorting across the two.
pub fn combine_responses(normal: &QueryResponse, internal: &QueryResponse) -> (r: Result<
    Vec<TransactionInfo>,
    FetchError,
>)
    ensures
        result_view(r) == combined_transactions(normal.parts(), internal.parts()),
{
    let mut first = match decode_response(normal) {
        Err(e) => return Err(e),
        Ok(txs) => txs,
    };
    let mut second = match decode_response(internal) {
        Err(e) => return Err(e),
        Ok(txs) => txs,
    };
    let ghost a = first@;
    let ghost b = second@;
    first.append(&mut second);
    assert(views(first@) =~= views(a) + views(b));
    Ok(first)
}

impl Fetch {
    /// Whether any of the transactions was sent to or from one of the mixing
    /// service addresses, letter case aside.
    pub fn is_invoke_mixing_service(
        &self,
        txs: &Vec<TransactionInfo>,
        mixing_services: &Vec<String>,
    ) -> (r: bool)
        ensures
            r == invokes_any(views(txs@), texts(mixing_services@)),
    {
        let mut tos: Vec<String> = Vec::new();
        let mut froms: Vec<String> = Vec::new();
        let mut i: usize = 0;
        while i < txs.len()
            invariant
                i <= txs@.len(),
                tos@.len() == i,
                froms@.len() == i,
                forall|k: int| 0 <= k < i ==> #[trigger] tos@[k]@ == lower_of(txs@[k].to@),
                forall|k: int| 0 <= k < i ==> #[trigger] froms@[k]@ == lower_of(txs@[k].from@),
            decreases txs@.len() - i,
        {
            tos.push(lowercase(txs[i].to.as_str()));
            froms.push(lowercase(txs[i].from.as_str()));
            i = i + 1;
        }
        let addrs = lower_all(mixing_services);
        assert(texts(tos@) =~= views(txs@).map_values(|t: TransactionView| lower_of(t.to)));
        assert(texts(froms@) =~= views(txs@).map_values(|t: TransactionView| lower_of(t.from)));
        matches_any(&tos, &froms, &addrs)
    }

    pub closed spec fn key(&self) -> Seq<char> {
        self.api_key@
    }

    /// A client using the given explorer API key.
    pub fn new(api_key: String) -> (r: Self)
        ensures
            r.key() == api_key@,
    {
        Fetch { api_key }
    }

    /// The query for one kind of transaction of `address` over a block range.
    pub fn query_url(&self, source: TxSource, address: &str, start: u64, end: u64) -> (r: String)
        ensures
            r@ == query_url(source, address@, start as nat, end as nat, self.key()),
    {
        let mut url = String::from_str("https://api.etherscan.io/api?module=account&action=");
        match source {
            TxSource::Normal => url.append("txlist"),
            TxSource::Internal => url.append("txlistinternal"),
        }
        url.append("&address=");
        url.append(address);
        url.append("&startblock=");
        push_decimal(&mut url, start);
        url.append("&endblock=");
        push_decimal(&mut url, end);
        url.append("&sort=asc&apikey=");
        url.append(self.api_key.as_str());
        assert(url@ =~= query_url(source, address@, start as nat, end as nat, self.key()));
        url
    }

    /// The two queries that fetch every transaction of `address` from block
    /// `start_block` to block `end_block`. A range whose start lies after its
    /// end is refused here, before any query is issued.
    pub fn plan_all_txs(&self, address: &str, start_block: u64, end_block: u64) -> (r: Result<
        QueryPlan,
        FetchError,
    >)
        ensures
            (r is Err) == (start_block > end_block),
            r is Err ==> r == Err::<QueryPlan, FetchError>(FetchError::InvalidRange),
            r matches Ok(p) ==> p.normal_url@ == query_url(
                TxSource::Normal,
                address@,
                start_block as nat,
                end_block as nat,
                self.key(),
            ) && p.internal_url@ == query_url(
                TxSource::Internal,
                address@,
                start_block as nat,
                end_block as nat,
                self.key(),
            ),
    {
        if start_block > end_block {
            return Err(FetchError::InvalidRange);
        }
        let normal_url = self.query_url(TxSource::Normal, address, start_block, end_block);
        let internal_url = self.query_url(TxSource::Internal, address, start_block, end_block);
        Ok(QueryPlan { normal_url, internal_url })
    }
}

} // verus!
