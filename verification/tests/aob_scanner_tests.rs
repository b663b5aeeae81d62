use gubtool::aob_scanner::{
    apply_scan_mode, backward_read_offset, backward_scan_step, find_backward, find_forward,
    forward_scan_step, matches_pattern, needs_read, not_found, offset_match, parse_hex_byte,
    parse_ida, parse_pattern_element, relative_to_module, scan_start, AobScan, ProcessError,
    ScanError, ScanMode, ScanStep, CHUNK_SIZE,
};

#[test]
fn parse_pattern_with_wildcards() {
    let p = parse_ida("48 8B ? 05").unwrap();
    assert_eq!(p, vec![Some(0x48), Some(0x8B), None, Some(0x05)]);
}

#[test]
fn parse_pattern_extra_whitespace() {
    let p = parse_ida("  aa\t\tBB  ").unwrap();
    assert_eq!(p, vec![Some(0xAA), Some(0xBB)]);
}

#[test]
fn parse_pattern_names_the_bad_token() {
    match parse_ida("48 XY ZZ") {
        Err(ScanError::ParsePattern { failed_byte }) => assert_eq!(failed_byte, "XY"),
        _ => panic!("expected a parse error"),
    }
}

#[test]
fn parse_pattern_rejects_large_byte() {
    assert!(matches!(parse_ida("100"), Err(ScanError::ParsePattern { failed_byte: "100" })));
}

#[test]
fn hex_bytes() {
    assert_eq!(parse_hex_byte("ff"), Some(0xFF));
    assert_eq!(parse_hex_byte("+7"), Some(7));
    assert_eq!(parse_hex_byte("+"), None);
    assert_eq!(parse_hex_byte(""), None);
    assert_eq!(parse_pattern_element("?"), Some(None));
    assert_eq!(parse_pattern_element("??"), None);
}

#[test]
fn pattern_matching() {
    assert!(matches_pattern(&[1, 2, 3], &[Some(1), None, Some(3)]));
    assert!(!matches_pattern(&[1, 2, 4], &[Some(1), None, Some(3)]));
}

#[test]
fn find_first_and_last() {
    let buf = [0u8, 1, 2, 0, 1, 2, 9];
    let pat = [Some(1u8), Some(2)];
    assert_eq!(find_forward(&buf, &pat), Some(1));
    assert_eq!(find_backward(&buf, &pat), Some(6));
    assert_eq!(find_forward(&buf, &[Some(7u8)]), None);
}

#[test]
fn forward_step_reports_address() {
    let mut buf = vec![0u8; CHUNK_SIZE];
    buf[10] = 0xAB;
    buf[11] = 0xCD;
    let pat = [Some(0xABu8), Some(0xCD)];
    assert_eq!(forward_scan_step(0x1000, &buf, &pat), ScanStep::Found(0x100A));
    let empty = vec![0u8; CHUNK_SIZE];
    assert_eq!(
        forward_scan_step(0x1000, &empty, &pat),
        ScanStep::Continue(0x1000 + (CHUNK_SIZE - 2) as u64)
    );
}

#[test]
fn backward_step() {
    let step = (CHUNK_SIZE - 2) as u64;
    assert_eq!(backward_read_offset(step + 5, 2), Some(5));
    assert_eq!(backward_read_offset(3, 2), None);
    let empty = vec![0u8; CHUNK_SIZE];
    let pat = [Some(0xABu8), Some(0xCD)];
    assert_eq!(backward_scan_step(step + 5, &empty, &pat), ScanStep::Continue(5));
}

#[test]
fn scan_modes() {
    assert!(!needs_read(&ScanMode::Absolute));
    assert!(needs_read(&ScanMode::Direct32));
    assert_eq!(apply_scan_mode(0x1000, &ScanMode::Absolute, Ok(5)).unwrap(), 0x1000);
    assert_eq!(apply_scan_mode(0x1000, &ScanMode::Direct32, Ok(0x1234)).unwrap(), 0x1234);
    // displacement -0x10 plus 4 bytes to the next instruction
    assert_eq!(apply_scan_mode(0x1000, &ScanMode::Relative(4), Ok(0xFFFF_FFF0)).unwrap(), 0x0FF4);
    assert!(matches!(
        apply_scan_mode(0x1000, &ScanMode::Direct32, Err(ProcessError { address: 0x1000 })),
        Err(ScanError::ProcessError { err: ProcessError { address: 0x1000 } })
    ));
    assert!(matches!(
        apply_scan_mode(2, &ScanMode::Relative(0), Ok(0xFFFF_FFF0)),
        Err(ScanError::OverflowRelative)
    ));
}

#[test]
fn offsets_and_bases() {
    assert_eq!(offset_match(10, -3).unwrap(), 7);
    assert!(matches!(offset_match(1, -3), Err(ScanError::Overflow)));
    assert_eq!(relative_to_module(0x1500, 0x1000), 0x500);
    assert_eq!(relative_to_module(0x500, 0x1000), 0);
    assert_eq!(scan_start(0x1000, 0x20), 0x1020);
}

#[test]
fn missing_pattern_is_named() {
    let scan = AobScan {
        name: "world_chr_man",
        pattern: "48 8B",
        scan_origin: 0,
        offset: 0,
        scan_mode: ScanMode::Absolute,
    };
    assert!(matches!(not_found(&scan), ScanError::NotFound { scan_name: "world_chr_man" }));
}
