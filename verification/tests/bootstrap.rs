use huff_tests::bootstrap::{bootstrap_code, push_immediate, BASE_HEADER_LEN, MAX_CODE_LEN};

const TRAILER: [u8; 4] = [0x3d, 0x39, 0x3d, 0xf3];

/// Splits bootstrap code into (length push, offset push, rest) by reading
/// the push opcodes.
fn split(init: &[u8]) -> (Vec<u8>, Vec<u8>, Vec<u8>) {
    let first = if init[0] == 0x60 { 2 } else { 3 };
    assert!(init[0] == 0x60 || init[0] == 0x61);
    assert_eq!(init[first], 0x80);
    let at = first + 1;
    let second = if init[at] == 0x60 { 2 } else { 3 };
    assert!(init[at] == 0x60 || init[at] == 0x61);
    (init[..first].to_vec(), init[at..at + second].to_vec(), init[at + second..].to_vec())
}

fn pushed(push: &[u8]) -> usize {
    push[1..].iter().fold(0usize, |acc, b| acc * 256 + *b as usize)
}

#[test]
fn empty_code_gets_bare_header() {
    let init = bootstrap_code(&[]);
    assert_eq!(init, vec![0x60, 0x00, 0x80, 0x60, 0x09, 0x3d, 0x39, 0x3d, 0xf3]);
    assert_eq!(init.len(), BASE_HEADER_LEN);
}

#[test]
fn one_byte_of_code() {
    let init = bootstrap_code(&[0xfe]);
    assert_eq!(init, vec![0x60, 0x01, 0x80, 0x60, 0x09, 0x3d, 0x39, 0x3d, 0xf3, 0xfe]);
}

#[test]
fn length_255_uses_narrow_push() {
    let code = vec![0x5b; 255];
    let init = bootstrap_code(&code);
    assert_eq!(&init[..9], &[0x60, 0xff, 0x80, 0x60, 0x09, 0x3d, 0x39, 0x3d, 0xf3]);
    assert_eq!(&init[9..], &code[..]);
}

#[test]
fn length_256_uses_wide_push() {
    let code = vec![0x5b; 256];
    let init = bootstrap_code(&code);
    assert_eq!(&init[..10], &[0x61, 0x01, 0x00, 0x80, 0x60, 0x0a, 0x3d, 0x39, 0x3d, 0xf3]);
    assert_eq!(&init[10..], &code[..]);
}

#[test]
fn length_65535_uses_wide_push() {
    let code = vec![0x00; MAX_CODE_LEN];
    let init = bootstrap_code(&code);
    assert_eq!(&init[..10], &[0x61, 0xff, 0xff, 0x80, 0x60, 0x0a, 0x3d, 0x39, 0x3d, 0xf3]);
    assert_eq!(init.len(), 10 + 65535);
}

#[test]
fn pushed_offset_is_header_length() {
    for len in [0usize, 1, 2, 100, 255, 256, 257, 4096, 65535] {
        let code: Vec<u8> = (0..len).map(|i| (i % 251) as u8).collect();
        let init = bootstrap_code(&code);
        let (length_push, offset_push, rest) = split(&init);
        let header_len = init.len() - len;
        assert_eq!(pushed(&length_push), len);
        assert_eq!(pushed(&offset_push), header_len);
        assert_eq!(length_push.len(), if len < 256 { 2 } else { 3 });
        assert_eq!(offset_push.len(), 2);
        assert_eq!(&rest[..4], &TRAILER);
        assert_eq!(&init[pushed(&offset_push)..pushed(&offset_push) + pushed(&length_push)], &code[..]);
    }
}

#[test]
fn push_immediate_appends() {
    let mut out = vec![0xaa];
    assert!(!push_immediate(&mut out, 0));
    assert!(!push_immediate(&mut out, 255));
    assert!(push_immediate(&mut out, 256));
    assert!(push_immediate(&mut out, 0xabcd));
    assert_eq!(out, vec![0xaa, 0x60, 0x00, 0x60, 0xff, 0x61, 0x01, 0x00, 0x61, 0xab, 0xcd]);
}
