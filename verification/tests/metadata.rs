use billion::metadata::{append_decimal, parcel_name, parcel_uri};

#[test]
fn parcel_names() {
    assert_eq!(parcel_name(1), "Parcel #1");
    assert_eq!(parcel_name(0), "Parcel #0");
    assert_eq!(parcel_name(9), "Parcel #9");
    assert_eq!(parcel_name(10), "Parcel #10");
    assert_eq!(parcel_name(100), "Parcel #100");
    assert_eq!(parcel_name(1005), "Parcel #1005");
    assert_eq!(parcel_name(65535), "Parcel #65535");
}

#[test]
fn parcel_uris() {
    let base = String::from("https://example.org/parcels/");
    assert_eq!(parcel_uri(&base, 42), "https://example.org/parcels/42");
    assert_eq!(parcel_uri(&String::new(), 7), "7");
    assert_eq!(base, "https://example.org/parcels/");
}

#[test]
fn decimal_matches_std_formatting() {
    for n in 0..=u16::MAX {
        let mut text = String::from("x");
        append_decimal(&mut text, n);
        assert_eq!(text, format!("x{}", n));
    }
}
