use huff_tests::cheats::{CheatRegistry, HuffCheatCode, LOG_CHEAT_KEY};
use huff_tests::inspector::{
    bytes_to_u32, cheats_addr, is_cheats_addr, CallOutcome, CallStatus, CheatsInspector,
};

fn word(value: u64) -> Vec<u8> {
    let mut w = vec![0u8; 24];
    w.extend_from_slice(&value.to_be_bytes());
    w
}

fn payload() -> Vec<u8> {
    (1..=32).collect()
}

fn log_call(key: u64, pc: u64, data: &[u8]) -> Vec<u8> {
    let mut input = word(key);
    input.extend(word(pc));
    input.extend_from_slice(data);
    input
}

fn outcome() -> CallOutcome<u8, u64> {
    CallOutcome {
        result: CallStatus::Other(7),
        output: vec![0xca, 0xfe],
        gas: 1234,
        memory_offset: (64, 96),
    }
}

fn is_untouched(after: &CallOutcome<u8, u64>) -> bool {
    matches!(after.result, CallStatus::Other(7))
        && after.output == vec![0xca, 0xfe]
        && after.gas == 1234
        && after.memory_offset == (64, 96)
}

fn is_reverted(after: &CallOutcome<u8, u64>) -> bool {
    matches!(after.result, CallStatus::Revert)
        && after.output == vec![0xca, 0xfe]
        && after.gas == 1234
        && after.memory_offset == (64, 96)
}

#[test]
fn reserved_address_is_beefbabe() {
    let addr = cheats_addr();
    assert_eq!(&addr[..16], &[0u8; 16]);
    assert_eq!(&addr[16..], &[0xbe, 0xef, 0xba, 0xbe]);
    assert!(is_cheats_addr(&addr));
    assert!(!is_cheats_addr(&[0u8; 20]));
    let mut near = addr;
    near[0] = 1;
    assert!(!is_cheats_addr(&near));
}

#[test]
fn words_decode_big_endian() {
    assert_eq!(bytes_to_u32(&word(10)), 10);
    assert_eq!(bytes_to_u32(&word(0x01020304)), 0x01020304);
    assert_eq!(bytes_to_u32(&word(0)), 0);
    assert_eq!(bytes_to_u32(&word(u32::MAX as u64)), u32::MAX);
    assert_eq!(bytes_to_u32(&[0x12, 0x34]), 0x1234);
    assert_eq!(bytes_to_u32(&[]), 0);
}

#[test]
fn words_too_large_decode_to_zero() {
    assert_eq!(bytes_to_u32(&word(u32::MAX as u64 + 1)), 0);
    assert_eq!(bytes_to_u32(&word(u64::MAX)), 0);
    assert_eq!(bytes_to_u32(&[0xff; 32]), 0);
    let mut high = vec![0u8; 32];
    high[0] = 1;
    assert_eq!(bytes_to_u32(&high), 0);
}

#[test]
fn log_call_appends_one_entry() {
    let mut inspector = CheatsInspector::default();
    let input = log_call(LOG_CHEAT_KEY as u64, 10, &payload());
    assert_eq!(input.len(), 96);
    let after = inspector.call_end(&cheats_addr(), &input, outcome());
    assert!(is_untouched(&after));
    assert_eq!(
        inspector.logs,
        vec![(
            10u32,
            String::from("0102030405060708090a0b0c0d0e0f101112131415161718191a1b1c1d1e1f20")
        )]
    );
}

#[test]
fn log_calls_accumulate_in_order() {
    let mut inspector = CheatsInspector::default();
    inspector.call_end(&cheats_addr(), &log_call(1, 3, &[0u8; 32]), outcome());
    inspector.call_end(&cheats_addr(), &log_call(1, 2, &[0xff; 32]), outcome());
    assert_eq!(
        inspector.logs,
        vec![(3u32, "00".repeat(32)), (2u32, "ff".repeat(32))]
    );
}

#[test]
fn short_log_call_reverts() {
    let mut inspector = CheatsInspector::default();
    let input = log_call(1, 10, &payload()[..31]);
    assert_eq!(input.len(), 95);
    let after = inspector.call_end(&cheats_addr(), &input, outcome());
    assert!(is_reverted(&after));
    assert!(inspector.logs.is_empty());
}

#[test]
fn long_log_call_reverts() {
    let mut inspector = CheatsInspector::default();
    let mut input = log_call(1, 10, &payload());
    input.push(0);
    assert_eq!(input.len(), 97);
    let after = inspector.call_end(&cheats_addr(), &input, outcome());
    assert!(is_reverted(&after));
    assert!(inspector.logs.is_empty());
}

#[test]
fn header_only_log_call_reverts() {
    let mut inspector = CheatsInspector::default();
    let after = inspector.call_end(&cheats_addr(), &log_call(1, 10, &[]), outcome());
    assert!(is_reverted(&after));
    assert!(inspector.logs.is_empty());
}

#[test]
fn other_caller_changes_nothing() {
    let mut inspector = CheatsInspector::default();
    let mut caller = cheats_addr();
    caller[19] = 0xbf;
    for input in [log_call(1, 10, &payload()), log_call(1, 10, &payload()[..31]), vec![], vec![1; 200]] {
        let after = inspector.call_end(&caller, &input, outcome());
        assert!(is_untouched(&after));
        let after = inspector.call_end(&[0u8; 20], &input, outcome());
        assert!(is_untouched(&after));
    }
    assert!(inspector.logs.is_empty());
}

#[test]
fn short_calldata_changes_nothing() {
    let mut inspector = CheatsInspector::default();
    for len in [0usize, 1, 32, 63] {
        let input = log_call(1, 10, &payload())[..len].to_vec();
        let after = inspector.call_end(&cheats_addr(), &input, outcome());
        assert!(is_untouched(&after));
    }
    assert!(inspector.logs.is_empty());
}

#[test]
fn unknown_key_changes_nothing() {
    let mut inspector = CheatsInspector::default();
    for key in [0u64, 2, 0xffff_ffff] {
        for data_len in [0usize, 31, 32] {
            let input = log_call(key, 10, &payload()[..data_len]);
            let after = inspector.call_end(&cheats_addr(), &input, outcome());
            assert!(is_untouched(&after));
        }
    }
    assert!(inspector.logs.is_empty());
}

#[test]
fn key_too_large_counts_as_zero() {
    // 2^32 + 1 does not fit, so the key decodes to 0, which stands for nothing.
    let mut inspector = CheatsInspector::default();
    let after = inspector.call_end(&cheats_addr(), &log_call(0x1_0000_0001, 10, &payload()), outcome());
    assert!(is_untouched(&after));
    assert!(inspector.logs.is_empty());

    let mut registry = CheatRegistry::new();
    registry.register(0, HuffCheatCode::Log);
    let mut inspector = CheatsInspector::new(registry);
    inspector.call_end(&cheats_addr(), &log_call(0x1_0000_0001, 10, &payload()), outcome());
    assert_eq!(inspector.logs.len(), 1);
}

#[test]
fn pc_too_large_is_logged_as_zero() {
    let mut inspector = CheatsInspector::default();
    inspector.call_end(&cheats_addr(), &log_call(1, 1 << 32, &payload()), outcome());
    assert_eq!(inspector.logs.len(), 1);
    assert_eq!(inspector.logs[0].0, 0);
}

#[test]
fn registry_decides_the_key() {
    let mut registry = CheatRegistry::new();
    assert_eq!(registry.get(1), None);
    registry.register(7, HuffCheatCode::Log);
    assert_eq!(registry.get(7), Some(HuffCheatCode::Log));
    assert_eq!(registry.get(1), None);
    let mut inspector = CheatsInspector::new(registry);
    let after = inspector.call_end(&cheats_addr(), &log_call(1, 10, &payload()[..5]), outcome());
    assert!(is_untouched(&after));
    let after = inspector.call_end(&cheats_addr(), &log_call(7, 10, &payload()[..5]), outcome());
    assert!(is_reverted(&after));
    inspector.call_end(&cheats_addr(), &log_call(7, 11, &payload()), outcome());
    assert_eq!(inspector.logs.len(), 1);
    assert_eq!(inspector.logs[0].0, 11);
}

#[test]
fn standard_registry_knows_log_only() {
    let registry = CheatRegistry::standard();
    assert_eq!(LOG_CHEAT_KEY, 1);
    assert_eq!(registry.get(LOG_CHEAT_KEY), Some(HuffCheatCode::Log));
    assert_eq!(registry.get(0), None);
    assert_eq!(registry.get(2), None);
}

#[test]
fn creation_and_call_start_pass_through() {
    let mut inspector = CheatsInspector::default();
    let answer: Option<CallOutcome<u8, u64>> = inspector.call();
    assert!(answer.is_none());
    assert_eq!(inspector.create_end(41u8), 41);
    let kept = inspector.create_end(outcome());
    assert!(is_untouched(&kept));
    assert!(inspector.logs.is_empty());
}

#[test]
fn words_decode_as_their_hex_text_parses() {
    let mut samples: Vec<Vec<u8>> = vec![vec![], vec![0], vec![0xff; 4], vec![0xff; 5], vec![0, 0, 0, 0, 1, 0, 0, 0, 0]];
    for value in [0u64, 1, 10, 255, 256, 0xffff_ffff, 0x1_0000_0000, 0x1_0000_0001, u64::MAX] {
        samples.push(word(value));
    }
    let mut high = word(7);
    high[3] = 0x80;
    samples.push(high);
    for sample in samples {
        let text = alloy_primitives::hex::encode(&sample);
        let expected = u32::from_str_radix(&text, 16).unwrap_or(0);
        assert_eq!(bytes_to_u32(&sample), expected);
    }
}
