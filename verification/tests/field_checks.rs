use nft_metadata::checks::{
    check_address, check_category, check_name, check_seller_fee_basis_points, check_symbol,
    check_url,
};

#[test]
fn name_rule_boundaries() {
    assert!(!check_name(""));
    assert!(check_name("a"));
    assert!(check_name(&"n".repeat(32)));
    assert!(!check_name(&"n".repeat(33)));
}

#[test]
fn symbol_rule_boundaries() {
    assert!(check_symbol(""));
    assert!(check_symbol("ABCDEFGHIJ"));
    assert!(!check_symbol("ABCDEFGHIJK"));
}

#[test]
fn fee_rule_boundaries() {
    assert!(check_seller_fee_basis_points(0));
    assert!(check_seller_fee_basis_points(10000));
    assert!(!check_seller_fee_basis_points(10001));
}

#[test]
fn url_rule_accepts_well_formed_urls() {
    assert!(check_url("https://x/y.png"));
    assert!(check_url("http://example.com"));
    assert!(check_url("ipfs://QmYwAPJzv5CZsnA625s3Xf2nemtYgPpHdWEz79ojWnPbdG"));
    assert!(check_url("ar://abc"));
}

#[test]
fn url_rule_rejects_malformed_urls() {
    assert!(!check_url(""));
    assert!(!check_url("x"));
    assert!(!check_url("example.com/no-scheme"));
    assert!(!check_url("https:/x"));
    assert!(!check_url("://x"));
    assert!(!check_url("https://"));
    assert!(!check_url("ht tp://x"));
    assert!(!check_url("https://a b"));
    assert!(!check_url("1http://x"));
    assert!(!check_url("https\u{0}://x"));
}

#[test]
fn address_rule_boundaries() {
    assert!(check_address(&"1".repeat(32)));
    assert!(check_address(&"z".repeat(44)));
    assert!(check_address("DhYCkoN1f8m5V3TPEWWbSAEgkBoZAGSC"));
    assert!(!check_address(&"1".repeat(31)));
    assert!(!check_address(&"1".repeat(45)));
    // banned look-alike characters of the base-58 alphabet
    assert!(!check_address(&"0".repeat(32)));
    assert!(!check_address(&"O".repeat(32)));
    assert!(!check_address(&"I".repeat(32)));
    assert!(!check_address(&"l".repeat(32)));
    assert!(!check_address(&format!("{}!", "1".repeat(31))));
}

#[test]
fn category_vocabulary() {
    assert!(check_category("image"));
    assert!(check_category("video"));
    assert!(check_category("audio"));
    assert!(check_category("vr"));
    assert!(check_category("html"));
    assert!(!check_category(""));
    assert!(!check_category("gif"));
    assert!(!check_category("Image"));
    assert!(!check_category("image "));
}
