use sec_helper::fetcher::TransactionInfo;
use sec_helper::registry::{
    category_from_name, get_db_address, write_addresses_db, AddressData, AddressSets, Category,
    MemoryStore,
};

fn strings(v: &[&str]) -> Vec<String> {
    v.iter().map(|s| s.to_string()).collect()
}

fn sample() -> AddressData {
    AddressData {
        eth: AddressSets {
            hacker: strings(&["0xh1", "0xh2"]),
            protocol: strings(&["0xp1"]),
            mixing_service: strings(&["0xA"]),
            potential_hacker: strings(&["0xq1"]),
        },
        bsc: AddressSets {
            hacker: strings(&["0xbh"]),
            protocol: Vec::new(),
            mixing_service: Vec::new(),
            potential_hacker: Vec::new(),
        },
    }
}

fn tx(from: &str, to: &str) -> TransactionInfo {
    TransactionInfo {
        hash: "0x1".to_string(),
        from: from.to_string(),
        to: to.to_string(),
        value: "0".to_string(),
        input: "0x".to_string(),
        method_id: "0x".to_string(),
    }
}

#[test]
fn category_names() {
    assert_eq!(category_from_name("hacker"), Some(Category::Hacker));
    assert_eq!(category_from_name("protocol"), Some(Category::Protocol));
    assert_eq!(category_from_name("mixing_service"), Some(Category::MixingService));
    assert_eq!(category_from_name("potential_hacker"), Some(Category::PotentialHacker));
    assert_eq!(category_from_name("Hacker"), None);
}

#[test]
fn lookup_by_option_word() {
    let d = sample();
    assert_eq!(get_db_address(&d, "hacker"), strings(&["0xh1", "0xh2"]));
    assert_eq!(get_db_address(&d, "protocol"), strings(&["0xp1"]));
    assert_eq!(get_db_address(&d, "mixing_service"), strings(&["0xA"]));
    assert_eq!(get_db_address(&d, "potential_hacker"), strings(&["0xq1"]));
    assert!(get_db_address(&d, "other").is_empty());
}

#[test]
fn appends_without_dedup() {
    let mut d = sample();
    write_addresses_db(&mut d, "0xq1".to_string());
    write_addresses_db(&mut d, "0xB".to_string());
    assert_eq!(d.eth.potential_hacker, strings(&["0xq1", "0xq1", "0xB"]));
    assert_eq!(d.eth.hacker, strings(&["0xh1", "0xh2"]));
    assert!(d.bsc.potential_hacker.is_empty());
}

#[test]
fn mixing_sender_is_recorded() {
    let mut d = sample();
    d.eth.record_senders(&vec![tx("0xB", "0xA")]);
    assert!(d.eth.potential_hacker.contains(&"0xB".to_string()));
    assert_eq!(d.eth.potential_hacker, strings(&["0xq1", "0xB"]));
}

#[test]
fn quiet_block_changes_nothing() {
    let mut d = sample();
    d.eth.record_senders(&Vec::new());
    assert_eq!(d.eth.potential_hacker, strings(&["0xq1"]));
    assert_eq!(d.eth.mixing_service, strings(&["0xA"]));
}

#[test]
fn store_round_trip() {
    let mut store = MemoryStore::new(sample());
    let loaded = store.load();
    store.save(loaded);
    let again = store.load();
    let want = sample();
    assert_eq!(again.eth.hacker, want.eth.hacker);
    assert_eq!(again.eth.protocol, want.eth.protocol);
    assert_eq!(again.eth.mixing_service, want.eth.mixing_service);
    assert_eq!(again.eth.potential_hacker, want.eth.potential_hacker);
    assert_eq!(again.bsc.hacker, want.bsc.hacker);
}

#[test]
fn store_records_potential_hacker() {
    let mut store = MemoryStore::new(sample());
    store.record_potential_hacker("0xB".to_string());
    let d = store.load();
    assert_eq!(d.eth.potential_hacker, strings(&["0xq1", "0xB"]));
    assert_eq!(d.eth.classified(Category::Hacker), strings(&["0xh1", "0xh2"]));
}
