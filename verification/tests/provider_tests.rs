use tlg_compile::errors::DiagKind;
use tlg_compile::provider::{ProviderDesc, ProviderGenerator, ProviderInfo, ProviderOption};

fn desc(symbol: &str, name: &str, options: Vec<ProviderOption>) -> ProviderDesc {
    ProviderDesc {
        symbol: symbol.to_string(),
        name: name.to_string(),
        options,
    }
}

fn opt(name: &str, value: &str) -> ProviderOption {
    ProviderOption {
        name: name.to_string(),
        value: Some(value.to_string()),
    }
}

fn hex_bytes(guid: &str) -> [u8; 16] {
    let digits: Vec<u8> = guid
        .bytes()
        .filter(|b| *b != b'-')
        .map(|b| match b {
            b'0'..=b'9' => b - b'0',
            b'a'..=b'f' => b - b'a' + 10,
            b'A'..=b'F' => b - b'A' + 10,
            _ => panic!("not a hex digit"),
        })
        .collect();
    assert_eq!(digits.len(), 32);
    let mut out = [0u8; 16];
    for i in 0..16 {
        out[i] = digits[2 * i] * 16 + digits[2 * i + 1];
    }
    out
}

#[test]
fn provider_simple() {
    let info = ProviderInfo::from_desc(desc("PROV1", "TestProvider", vec![])).unwrap();
    assert_eq!(info.symbol, "PROV1");
    assert_eq!(info.name, "TestProvider");
    assert!(info.group_id.is_none());
    // no explicit id: derived from the name by the stable hash
    assert_eq!(
        info.id.bytes_be,
        tracelogging::Guid::from_name("TestProvider").to_bytes_be()
    );
}

#[test]
fn provider_with_id() {
    let info = ProviderInfo::from_desc(desc(
        "PROV2",
        "TestProvider2",
        vec![opt("id", "97c801ee-c28b-5bb6-2ae4-11e18fe6137a")],
    ))
    .unwrap();
    assert_eq!(info.id.bytes_be, hex_bytes("97c801ee-c28b-5bb6-2ae4-11e18fe6137a"));
    assert!(info.group_id.is_none());
}

#[test]
fn provider_with_group_id() {
    let info = ProviderInfo::from_desc(desc(
        "PROV3",
        "TestProvider3",
        vec![opt("group_id", "12345678-9abc-def0-1234-56789abcdef0")],
    ))
    .unwrap();
    let group = info.group_id.expect("group id set");
    assert_eq!(group.bytes_be, hex_bytes("12345678-9abc-def0-1234-56789abcdef0"));
}

#[test]
fn provider_with_both_ids() {
    let info = ProviderInfo::from_desc(desc(
        "PROV4",
        "TestProvider4",
        vec![
            opt("id", "97c801ee-c28b-5bb6-2ae4-11e18fe6137a"),
            opt("group_id", "12345678-9abc-def0-1234-56789abcdef0"),
        ],
    ))
    .unwrap();
    assert_eq!(info.id.bytes_be, hex_bytes("97c801ee-c28b-5bb6-2ae4-11e18fe6137a"));
    assert_eq!(
        info.group_id.unwrap().bytes_be,
        hex_bytes("12345678-9abc-def0-1234-56789abcdef0")
    );
}

#[test]
fn provider_derived_id_matches_hash() {
    let info = ProviderInfo::from_desc(desc("P", "MyCompany.MyComponent", vec![])).unwrap();
    assert_eq!(
        info.id.bytes_be,
        tracelogging::Guid::from_name("MyCompany.MyComponent").to_bytes_be()
    );
}

#[test]
fn provider_id_braced_form() {
    let info = ProviderInfo::from_desc(desc(
        "P",
        "Braces",
        vec![opt("id", "{a3a2a1a0-b1b0-c1c0-d7d6-d5d4d3d2d1d0}")],
    ))
    .unwrap();
    assert_eq!(info.id.bytes_be, hex_bytes("a3a2a1a0-b1b0-c1c0-d7d6-d5d4d3d2d1d0"));
}

#[test]
fn provider_bad_guid_diag() {
    let err = ProviderInfo::from_desc(desc("P", "Bad", vec![opt("id", "not-a-guid")])).unwrap_err();
    assert_eq!(err.len(), 1);
    assert_eq!(err[0].kind, DiagKind::Content);
}

#[test]
fn provider_duplicate_id_diag() {
    let err = ProviderInfo::from_desc(desc(
        "P",
        "Dup",
        vec![
            opt("id", "97c801ee-c28b-5bb6-2ae4-11e18fe6137a"),
            opt("id", "97c801ee-c28b-5bb6-2ae4-11e18fe6137a"),
        ],
    ))
    .unwrap_err();
    assert_eq!(err.len(), 1);
    assert_eq!(err[0].kind, DiagKind::Uniqueness);
    assert_eq!(err[0].message, "id already set");
}

#[test]
fn provider_group_name_charset() {
    let ok = ProviderInfo::from_desc(desc("P", "G", vec![opt("group_name", "abc123")]));
    assert!(ok.is_ok());
    let err =
        ProviderInfo::from_desc(desc("P", "G", vec![opt("group_name", "Abc")])).unwrap_err();
    assert_eq!(err.len(), 1);
    assert_eq!(err[0].kind, DiagKind::Content);
}

#[test]
fn provider_unknown_option_diag() {
    let err = ProviderInfo::from_desc(desc("P", "U", vec![opt("bogus", "x")])).unwrap_err();
    assert_eq!(err.len(), 1);
    assert_eq!(err[0].kind, DiagKind::Syntax);
}

#[test]
fn provider_name_length_limit() {
    // exactly 32768 bytes: rejected with a length diagnostic
    let long = "a".repeat(32768);
    let err = ProviderInfo::from_desc(desc("P", &long, vec![])).unwrap_err();
    assert_eq!(err.len(), 1);
    assert_eq!(err[0].kind, DiagKind::Content);
    assert_eq!(err[0].message, "provider name.len() must be less than 32KB");
    // 32767 bytes: accepted
    let fits = "a".repeat(32767);
    assert!(ProviderInfo::from_desc(desc("P", &fits, vec![])).is_ok());
}

#[test]
fn provider_name_nul_diag() {
    let err = ProviderInfo::from_desc(desc("P", "bad\0name", vec![])).unwrap_err();
    assert_eq!(err.len(), 1);
    assert_eq!(err[0].kind, DiagKind::Content);
}

#[test]
fn provider_block_layout() {
    let info = ProviderInfo::from_desc(desc("PROV1", "Np", vec![])).unwrap();
    let block = ProviderGenerator::generate(&info);
    // [u16 size][name bytes][0x00]
    assert_eq!(block.len(), 2 + 2 + 1);
    assert_eq!(block[0] as usize + 256 * block[1] as usize, block.len());
    assert_eq!(&block[2..4], b"Np");
    assert_eq!(block[4], 0);
}

#[test]
fn provider_block_round_trip_bytes() {
    let info = ProviderInfo::from_desc(desc(
        "PROV3",
        "RoundTrip",
        vec![opt("group_id", "12345678-9abc-def0-1234-56789abcdef0")],
    ))
    .unwrap();
    let block = ProviderGenerator::generate(&info);
    // size prefix covers the whole block
    let size = block[0] as usize + 256 * block[1] as usize;
    assert_eq!(size, block.len());
    // the name ends at the first NUL and comes back unchanged
    let nul = 2 + block[2..].iter().position(|b| *b == 0).unwrap();
    assert_eq!(&block[2..nul], b"RoundTrip");
    // the group-trait block: size 19, trait type 1, identifier bytes
    assert_eq!(block.len(), nul + 1 + 19);
    assert_eq!(block[nul + 1], 19);
    assert_eq!(block[nul + 2], 0);
    assert_eq!(block[nul + 3], 1);
    let le = &block[nul + 4..nul + 20];
    let be = hex_bytes("12345678-9abc-def0-1234-56789abcdef0");
    let expected_le: Vec<u8> = vec![
        be[3], be[2], be[1], be[0], be[5], be[4], be[7], be[6], be[8], be[9], be[10], be[11],
        be[12], be[13], be[14], be[15],
    ];
    assert_eq!(le, expected_le.as_slice());
    // cross-check against the outside crate's own byte order
    assert_eq!(
        le,
        tracelogging::Guid::from_bytes_be(&be).to_bytes_le().as_slice()
    );
}

#[test]
fn provider_aggregates_multiple_diags() {
    // one walk collects every violation: a NUL in the name, a duplicated
    // id, a malformed group identifier and an unknown option
    let err = ProviderInfo::from_desc(desc(
        "P",
        "bad\0name",
        vec![
            opt("id", "97c801ee-c28b-5bb6-2ae4-11e18fe6137a"),
            opt("id", "97c801ee-c28b-5bb6-2ae4-11e18fe6137a"),
            opt("group_id", "nope"),
            opt("bogus", "x"),
        ],
    ))
    .unwrap_err();
    assert_eq!(err.len(), 4);
    assert_eq!(err.iter().filter(|d| d.kind == DiagKind::Content).count(), 2);
    assert_eq!(err.iter().filter(|d| d.kind == DiagKind::Uniqueness).count(), 1);
    assert_eq!(err.iter().filter(|d| d.kind == DiagKind::Syntax).count(), 1);
}
