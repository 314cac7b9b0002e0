use sec_helper::detector::Detector;
use sec_helper::fetcher::TransactionInfo;
use sec_helper::selector::function_sig;

fn tx(hash: &str, from: &str, method_id: &str) -> TransactionInfo {
    TransactionInfo {
        hash: hash.to_string(),
        from: from.to_string(),
        to: "0xA".to_string(),
        value: "0".to_string(),
        input: "0x".to_string(),
        method_id: method_id.to_string(),
    }
}

#[test]
fn activity_detector_over_three_blocks() {
    let d = Detector::Activity { address: "0xabc".to_string(), receiver: "me@example.com".to_string() };
    let mut alerts = Vec::new();
    for height in [100u64, 101, 102] {
        let qs = d.queries(height);
        assert_eq!(qs.len(), 1);
        assert_eq!((qs[0].address.as_str(), qs[0].start, qs[0].end), ("0xabc", height, height));
        let found = if height == 101 { vec![tx("0x65", "0xB", "0x")] } else { Vec::new() };
        let out = d.decide(&vec![found]);
        assert!(out.record.is_empty());
        if let Some(a) = out.alert {
            alerts.push((height, a.body));
        }
    }
    assert_eq!(alerts.len(), 1);
    assert_eq!(alerts[0].0, 101);
    assert!(alerts[0].1.ends_with("[\"0x65\"]"));
}

#[test]
fn threshold_detector_window_and_count() {
    let sig = "removeLiquidity(address,address,uint256,uint256,uint256,address,uint256)";
    let d = Detector::threshold("0xpool".to_string(), sig.to_string(), "me@example.com".to_string(), 4, 240);
    let qs = d.queries(1000);
    assert_eq!((qs[0].start, qs[0].end), (760, 1000));
    let sel = function_sig(sig);
    let mut txs: Vec<TransactionInfo> = (0..5).map(|i| tx(&format!("0xm{}", i), "0xB", &sel)).collect();
    txs.extend((0..10).map(|i| tx(&format!("0xo{}", i), "0xB", "0xa9059cbb")));
    let out = d.decide(&vec![txs]);
    let body = out.alert.unwrap().body;
    assert!(body.contains("(5)"));
    assert!(body.ends_with("limit(4)"));
    let four: Vec<TransactionInfo> = (0..4).map(|i| tx(&format!("0xm{}", i), "0xB", &sel)).collect();
    assert!(d.decide(&vec![four]).alert.is_none());
}

#[test]
fn mixing_detector_records_senders() {
    let d = Detector::MixingService { addresses: vec!["0xA".to_string(), "0xC".to_string()] };
    let qs = d.queries(7);
    assert_eq!(qs.len(), 2);
    assert_eq!((qs[1].address.as_str(), qs[1].start, qs[1].end), ("0xC", 7, 7));
    let out = d.decide(&vec![vec![tx("0x1", "0xB", "0x"), tx("0x2", "0xD", "0x")], vec![tx("0x3", "0xB", "0x")]]);
    assert!(out.alert.is_none());
    assert_eq!(out.record, vec!["0xB".to_string(), "0xD".to_string(), "0xB".to_string()]);
    let quiet = d.decide(&vec![Vec::new(), Vec::new()]);
    assert!(quiet.record.is_empty());
}
