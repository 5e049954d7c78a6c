use sha2::{Digest, Sha256};

use ququer_client::audit::{audit_chain, check_links, ChainEntry};

fn digest(s: &str) -> String {
    hex::encode(Sha256::digest(s.as_bytes()))
}

fn linked_log(n: u64) -> Vec<ChainEntry> {
    let mut log = Vec::new();
    let mut prev = String::from("genesis");
    for seq in 0..n {
        let encoded = format!("{{\"seq\":{},\"prev\":\"{}\"}}", seq, prev);
        log.push(ChainEntry { seq, prev_hash: prev.clone(), encoded: encoded.clone() });
        prev = digest(&encoded);
    }
    log
}

#[test]
fn linked_log_is_valid() {
    let report = audit_chain("g1", &linked_log(4));
    assert_eq!(report.game_id, "g1");
    assert_eq!(report.entries, 4);
    assert!(report.valid);
    assert!(report.errors.is_empty());
}

#[test]
fn empty_and_single_logs_are_valid() {
    assert!(audit_chain("g", &Vec::new()).valid);
    assert_eq!(audit_chain("g", &Vec::new()).entries, 0);
    let one = vec![ChainEntry { seq: 7, prev_hash: "x".into(), encoded: "{}".into() }];
    assert!(audit_chain("g", &one).valid);
}

#[test]
fn tampered_entries_break_the_chain() {
    let mut log = linked_log(5);
    log[1].encoded.push(' ');
    log[3].prev_hash = "00".into();
    let report = audit_chain("g2", &log);
    assert!(!report.valid);
    assert_eq!(report.entries, 5);
    assert_eq!(
        report.errors,
        vec!["hash chain broken at seq 2".to_string(), "hash chain broken at seq 3".to_string()]
    );
}

#[test]
fn broken_link_reports_large_sequence_numbers() {
    let log = vec![
        ChainEntry { seq: 0, prev_hash: String::new(), encoded: "a".into() },
        ChainEntry { seq: u64::MAX, prev_hash: "bad".into(), encoded: "b".into() },
    ];
    let report = audit_chain("g", &log);
    assert_eq!(report.errors, vec![format!("hash chain broken at seq {}", u64::MAX)]);
}

#[test]
fn links_checked_against_given_digests() {

    let log = vec![
        ChainEntry { seq: 1, prev_hash: "".into(), encoded: "x".into() },
        ChainEntry { seq: 2, prev_hash: "d1".into(), encoded: "y".into() },
        ChainEntry { seq: 3, prev_hash: "d9".into(), encoded: "z".into() },
    ];
    let digests = vec!["d1".to_string(), "d2".to_string()];
    let report = check_links("g", &log, &digests);
    assert!(!report.valid);
    assert_eq!(report.errors, vec!["hash chain broken at seq 3".to_string()]);
    let digests = vec!["d1".to_string(), "d9".to_string()];
    assert!(check_links("g", &log, &digests).valid);
}
