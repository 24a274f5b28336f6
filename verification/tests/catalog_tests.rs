use tlg_compile::catalog::{check_field_options, Catalog, Strategy, TypeTok, ValueType};
use tlg_compile::order::{name_order, NameOrder};
use tlg_compile::tag::{tag_encode, tag_size};

#[test]
fn field_options_sorted() {
    // the catalog's build-time self-test: strictly name-sorted
    assert!(check_field_options());
}

#[test]
fn catalog_find_u32() {
    let c = Catalog::new();
    let i = c.find("u32").expect("u32 is a field kind");
    let d = &c.defs[i];
    assert_eq!(d.name, "u32");
    assert_eq!(d.vtype, ValueType::U32);
    assert_eq!(d.intype, TypeTok::Code(8));
    assert_eq!(d.outtype, 0);
    assert_eq!(d.strategy, Strategy::Scalar);
    assert_eq!(d.arity, 0);
}

#[test]
fn catalog_find_edges() {
    let c = Catalog::new();
    // first and last entries of the table
    let first = c.find("binary").unwrap();
    assert_eq!(first, 0);
    let last = c.find("win_systemtime_utc_slice").unwrap();
    assert_eq!(last, c.len() - 1);
    // str8: counted UTF-8 text
    let s8 = &c.defs[c.find("str8").unwrap()];
    assert_eq!(s8.strategy, Strategy::Counted);
    assert_eq!(s8.intype, TypeTok::Code(23));
    assert_eq!(s8.outtype, 35);
    // ipv4: a four-byte fixed array
    let v4 = &c.defs[c.find("ipv4").unwrap()];
    assert_eq!(v4.arity, 4);
    assert_eq!(v4.intype, TypeTok::Code(8));
    assert_eq!(v4.outtype, 8);
    // pointer: platform-width hexadecimal
    let p = &c.defs[c.find("pointer").unwrap()];
    assert_eq!(p.intype, TypeTok::HexSize);
}

#[test]
fn catalog_find_unknown() {
    let c = Catalog::new();
    assert!(c.find("u33").is_none());
    assert!(c.find("").is_none());
    assert!(c.find("zzz").is_none());
}

#[test]
fn name_order_cases() {
    assert_eq!(name_order("binary", "binaryc"), NameOrder::Before);
    assert_eq!(name_order("binaryc", "binary"), NameOrder::After);
    assert_eq!(name_order("u32", "u32"), NameOrder::Same);
    assert_eq!(name_order("", "a"), NameOrder::Before);
}

#[test]
fn tag_encoding_values() {
    // the outside crate's definition is the reference for these values
    assert_eq!(tag_size(0), tracelogging::_internal::tag_size(0));
    assert_eq!(tag_size(1), tracelogging::_internal::tag_size(1));
    assert_eq!(tag_size(0x0FE00000), tracelogging::_internal::tag_size(0x0FE00000));
    assert_eq!(tag_encode(0), vec![0x00]);
    assert_eq!(tag_encode(0), tracelogging::_internal::tag_encode::<1>(0).to_vec());
    assert_eq!(tag_encode(1), vec![0x80, 0x80, 0x80, 0x01]);
    assert_eq!(tag_encode(1), tracelogging::_internal::tag_encode::<4>(1).to_vec());
    assert_eq!(tag_encode(0x0FE00000), vec![0x7F]);
    assert_eq!(
        tag_encode(0x0FE00000),
        tracelogging::_internal::tag_encode::<1>(0x0FE00000).to_vec()
    );
    assert_eq!(tag_encode(5), tracelogging::_internal::tag_encode::<4>(5).to_vec());
}
