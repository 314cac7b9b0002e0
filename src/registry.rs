//! The address registry: per chain, four lists of addresses that the
//! monitors read, one of which they append to.
use vstd::prelude::*;
use crate::fetcher::{views, TransactionInfo, TransactionView};

verus! {

/// The four categories of a chain's registry.
#[derive(Clone, Copy, Debug, PartialEq, Eq, Structural)]
pub enum Category {
    Hacker,
    Protocol,
    MixingService,
    PotentialHacker,
}

/// The address lists of one chain.
pub struct AddressSets {
    pub hacker: Vec<String>,
    pub protocol: Vec<String>,
    pub mixing_service: Vec<String>,
    pub potential_hacker: Vec<String>,
}

/// The whole registry document.
pub struct AddressData {
    pub eth: AddressSets,
    pub bsc: AddressSets,
}

/// The four lists as sequences of texts.
pub struct SetsView {
    pub hacker: Seq<Seq<char>>,
    pub protocol: Seq<Seq<char>>,
    pub mixing_service: Seq<Seq<char>>,
    pub potential_hacker: Seq<Seq<char>>,
}

/// The registry as sequences of texts.
pub struct DataView {
    pub eth: SetsView,
    pub bsc: SetsView,
}

impl View for AddressSets {
    type V = SetsView;

    open spec fn view(&self) -> SetsView {
        SetsView {
            hacker: texts(self.hacker@),
            protocol: texts(self.protocol@),
            mixing_service: texts(self.mixing_service@),
            potential_hacker: texts(self.potential_hacker@),
        }
    }
}

impl View for AddressData {
    type V = DataView;

    open spec fn view(&self) -> DataView {
        DataView { eth: self.eth@, bsc: self.bsc@ }
    }
}

impl SetsView {
    /// The list of one category.
    pub open spec fn list(self, c: Category) -> Seq<Seq<char>> {
        match c {
            Category::Hacker => self.hacker,
            Category::Protocol => self.protocol,
            Category::MixingService => self.mixing_service,
            Category::PotentialHacker => self.potential_hacker,
        }
    }
}

/// The category named by an option word, if it names one.
pub open spec fn category_named(name: Seq<char>) -> Option<Category> {
    if name == "hacker"@ {
        Some(Category::Hacker)
    } else if name == "protocol"@ {
        Some(Category::Protocol)
    } else if name == "mixing_service"@ {
        Some(Category::MixingService)
    } else if name == "potential_hacker"@ {
        Some(Category::PotentialHacker)
    } else {
        None
    }
}

/// The texts of a list of strings.
pub open spec fn texts(v: Seq<String>) -> Seq<Seq<char>> {
    v.map_values(|s: String| s@)
}

/// The senders of a list of transactions, in order.
pub open spec fn senders(txs: Seq<TransactionView>) -> Seq<Seq<char>> {
    txs.map_values(|t: TransactionView| t.from)
}

/// A copy of a list of texts.
pub fn copy_list(v: &Vec<String>) -> (r: Vec<String>)
    ensures
        texts(r@) == texts(v@),
{
    let mut r: Vec<String> = Vec::new();
    let mut i: usize = 0;
    while i < v.len()
        invariant
            i <= v@.len(),
            r@.len() == i,
            texts(r@) == texts(v@).take(i as int),
        decreases v@.len() - i,
    {
        let ghost before = r@;
        let s = v[i].clone();
        r.push(s);
        assert(r@ == before.push(s));
        assert(texts(r@) =~= texts(before).push(v@[i as int]@));
        assert(texts(r@) =~= texts(v@).take(i as int + 1));
        i = i + 1;
    }
    assert(texts(v@).take(v@.len() as int) =~= texts(v@));
    r
}

/// The category that an option word names: `hacker`, `protocol`,
/// `mixing_service` or `potential_hacker`.
pub fn category_from_name(name: &str) -> (r: Option<Category>)
    ensures
        r == category_named(name@),
{
    let n = String::from_str(name);
    let hacker = String::from_str("hacker");
    let protocol = String::from_str("protocol");
    let mixing = String::from_str("mixing_service");
    let potential = String::from_str("potential_hacker");
    if n == hacker {
        Some(Category::Hacker)
    } else if n == protocol {
        Some(Category::Protocol)
    } else if n == mixing {
        Some(Category::MixingService)
    } else if n == potential {
        Some(Category::PotentialHacker)
    } else {
        None
    }
}

impl AddressSets {
    /// A copy of the list of one category.
    pub fn classified(&self, c: Category) -> (r: Vec<String>)
        ensures
            texts(r@) == self@.list(c),
    {
        match c {
            Category::Hacker => copy_list(&self.hacker),
            Category::Protocol => copy_list(&self.protocol),
            Category::MixingService => copy_list(&self.mixing_service),
            Category::PotentialHacker => copy_list(&self.potential_hacker),
        }
    }

    /// Appends one address to the potential hackers; nothing is deduplicated.
    pub fn record_potential_hacker(&mut self, address: String)
        ensures
            final(self)@ == (SetsView {
                potential_hacker: old(self)@.potential_hacker.push(address@),
                ..old(self)@
            }),
    {
        self.potential_hacker.push(address);
        assert(texts(self.potential_hacker@) =~= old(self)@.potential_hacker.push(address@));
    }

    /// Appends the sender of every transaction, in order, to the potential
    /// hackers; the other lists are left as they are.
    pub fn record_senders(&mut self, txs: &Vec<TransactionInfo>)
        ensures
            final(self)@ == (SetsView {
                potential_hacker: old(self)@.potential_hacker + senders(views(txs@)),
                ..old(self)@
            }),
    {
        let mut i: usize = 0;
        while i < txs.len()
            invariant
                i <= txs@.len(),
                self@ == (SetsView {
                    potential_hacker: old(self)@.potential_hacker + senders(
                        views(txs@).take(i as int),
                    ),
                    ..old(self)@
                }),
            decreases txs@.len() - i,
        {
            self.record_potential_hacker(txs[i].from.clone());
            assert(senders(views(txs@).take(i as int + 1)) =~= senders(
                views(txs@).take(i as int),
            ).push(txs@[i as int].from@));
            assert(old(self)@.potential_hacker + senders(views(txs@).take(i as int + 1))
                =~= (old(self)@.potential_hacker + senders(views(txs@).take(i as int))).push(
                txs@[i as int].from@,
            ));
            i = i + 1;
        }
        assert(views(txs@).take(txs@.len() as int) =~= views(txs@));
    }
}

/// The Ethereum addresses of the category that an option word names; an
/// unknown word gives an empty list.
pub fn get_db_address(data: &AddressData, option: &str) -> (r: Vec<String>)
    ensures
        texts(r@) == match category_named(option@) {
            Some(c) => data@.eth.list(c),
            None => Seq::empty(),
        },
{
    match category_from_name(option) {
        Some(c) => data.eth.classified(c),
        None => {
            let r: Vec<String> = Vec::new();
            assert(texts(r@) =~= Seq::<Seq<char>>::empty());
            r
        },
    }
}

/// Appends one address to the Ethereum potential hackers of the document.
pub fn write_addresses_db(data: &mut AddressData, address: String)
    ensures
        final(data)@ == (DataView {
            eth: SetsView {
                potential_hacker: old(data)@.eth.potential_hacker.push(address@),
                ..old(data)@.eth
            },
            bsc: old(data)@.bsc,
        }),
{
    data.eth.record_potential_hacker(address);
}

/// A registry kept in memory: the document it holds is what a load returns,
/// and a save replaces it whole.
pub struct MemoryStore {
    document: AddressData,
}

impl MemoryStore {
    pub closed spec fn contents(&self) -> DataView {
        self.document@
    }

    /// A store holding the given document.
    pub fn new(document: AddressData) -> (r: Self)
        ensures
            r.contents() == document@,
    {
        MemoryStore { document }
    }

    /// A copy of the stored document.
    pub fn load(&self) -> (r: AddressData)
        ensures
            r@ == self.contents(),
    {
        AddressData { eth: copy_sets(&self.document.eth), bsc: copy_sets(&self.document.bsc) }
    }

    /// Replaces the stored document whole.
    pub fn save(&mut self, document: AddressData)
        ensures
            final(self).contents() == document@,
    {
        self.document = document;
    }

    /// Loads the document, appends one potential hacker, and saves it whole.
    pub fn record_potential_hacker(&mut self, address: String)
        ensures
            final(self).contents() == (DataView {
                eth: SetsView {
                    potential_hacker: old(self).contents().eth.potential_hacker.push(address@),
                    ..old(self).contents().eth
                },
                bsc: old(self).contents().bsc,
            }),
    {
        let mut current = self.load();
        write_addresses_db(&mut current, address);
        self.save(current);
    }
}

/// A copy of the four lists of a chain.
pub fn copy_sets(s: &AddressSets) -> (r: AddressSets)
    ensures
        r@ == s@,
{
    AddressSets {
        hacker: copy_list(&s.hacker),
        protocol: copy_list(&s.protocol),
        mixing_service: copy_list(&s.mixing_service),
        potential_hacker: copy_list(&s.potential_hacker),
    }
}

/// Saving what was just loaded leaves the store's four lists of every chain
/// exactly as they were.
pub proof fn lemma_store_round_trip(before: MemoryStore, loaded: AddressData, after: MemoryStore)
    requires
        loaded@ == before.contents(),
        after.contents() == loaded@,
    ensures
        after.contents() == before.contents(),
        forall|c: Category| after.contents().eth.list(c) == before.contents().eth.list(c),
        forall|c: Category| after.contents().bsc.list(c) == before.contents().bsc.list(c),
{
}

/// After a block's transactions are recorded, the sender of any of them is
/// among the potential hackers; a block without transactions leaves the list
/// unchanged.
pub proof fn lemma_mixing_records_sender(
    before: SetsView,
    txs: Seq<TransactionView>,
    sender: Seq<char>,
)
    ensures
        (exists|i: int| 0 <= i < txs.len() && #[trigger] txs[i].from == sender) ==> (
        before.potential_hacker + senders(txs)).contains(sender),
        txs.len() == 0 ==> before.potential_hacker + senders(txs) == before.potential_hacker,
{
    if exists|i: int| 0 <= i < txs.len() && #[trigger] txs[i].from == sender {
        let i = choose|i: int| 0 <= i < txs.len() && #[trigger] txs[i].from == sender;
        let all = before.potential_hacker + senders(txs);
        assert(all[before.potential_hacker.len() + i] == sender);
    }
    if txs.len() == 0 {
        assert(before.potential_hacker + senders(txs) =~= before.potential_hacker);
    }
}

} // verus!
