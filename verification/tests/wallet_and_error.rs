use evm_client::error::EvmClientError;
use evm_client::wallet::WalletKey;

fn key(r: Result<WalletKey, EvmClientError>) -> WalletKey {
    match r {
        Ok(k) => k,
        Err(e) => panic!("{}", e.to_string()),
    }
}

fn text(r: Result<WalletKey, EvmClientError>) -> String {
    match r {
        Ok(_) => panic!("the key was accepted"),
        Err(EvmClientError::RpcError(msg)) => msg,
    }
}

#[test]
fn parse_decodes_hexadecimal_in_either_case() {
    let lower = key(WalletKey::parse(
        "00000000000000000000000000000000000000000000000000000000000000ff",
    ));
    let upper = key(WalletKey::parse(
        "00000000000000000000000000000000000000000000000000000000000000FF",
    ));
    assert_eq!(lower.to_bytes()[31], 255);
    assert_eq!(lower.to_bytes()[30], 0);
    assert_eq!(lower.to_bytes(), upper.to_bytes());
}

#[test]
fn parse_takes_the_largest_scalar_and_refuses_the_group_order() {
    let largest = "fffffffffffffffffffffffffffffffebaaedce6af48a03bbfd25e8cd0364140";
    let order = "fffffffffffffffffffffffffffffffebaaedce6af48a03bbfd25e8cd0364141";
    assert_eq!(key(WalletKey::parse(largest)).to_bytes()[31], 0x40);
    assert_eq!(text(WalletKey::parse(order)), "Failed to parse private key: signature error");
}

#[test]
fn parse_accepts_a_hexadecimal_prefix() {
    let bare = key(WalletKey::parse(
        "0000000000000000000000000000000000000000000000000000000000000002",
    ));
    let lower = key(WalletKey::parse(
        "0x0000000000000000000000000000000000000000000000000000000000000002",
    ));
    let upper = key(WalletKey::parse(
        "0X0000000000000000000000000000000000000000000000000000000000000002",
    ));
    assert_eq!(bare.to_bytes()[31], 2);
    assert_eq!(lower.to_bytes(), bare.to_bytes());
    assert_eq!(upper.to_bytes(), bare.to_bytes());
}

#[test]
fn parse_names_the_first_bad_character() {
    assert_eq!(
        text(WalletKey::parse("zz")),
        "Failed to parse private key: invalid character 'z' at position 0"
    );
    assert_eq!(
        text(WalletKey::parse(
            "00000000000000000000000000000000000000000000000000000000000000g1"
        )),
        "Failed to parse private key: invalid character 'g' at position 62"
    );
    assert_eq!(
        text(WalletKey::parse("0x0g")),
        "Failed to parse private key: invalid character 'g' at position 1"
    );
}

#[test]
fn parse_refuses_wrong_lengths() {
    assert_eq!(text(WalletKey::parse("")), "Failed to parse private key: invalid string length");
    assert_eq!(text(WalletKey::parse("1")), "Failed to parse private key: odd number of digits");
    assert_eq!(
        text(WalletKey::parse(
            "000000000000000000000000000000000000000000000000000000000000000001"
        )),
        "Failed to parse private key: invalid string length"
    );
}

#[test]
fn from_parsed_keeps_the_bytes_and_names_the_complaint() {
    let mut bytes = [0u8; 32];
    bytes[0] = 9;
    bytes[31] = 7;
    assert_eq!(key(WalletKey::from_parsed(Ok(bytes))).to_bytes(), bytes);
    assert_eq!(
        text(WalletKey::from_parsed(Err(String::from("no scalar")))),
        "Failed to parse private key: no scalar"
    );
}

#[test]
fn clone_keeps_the_key() {
    let k = key(WalletKey::parse(
        "4c0883a69102937d6231471b5dbb6204fe5129617082792ae468d01a3f362318",
    ));
    assert_eq!(k.clone().to_bytes(), k.to_bytes());
    assert_eq!(k.to_bytes()[0], 0x4c);
}

#[test]
fn error_display_text() {
    let e = EvmClientError::RpcError(String::from("All RPC links are invalid"));
    assert_eq!(e.message(), "All RPC links are invalid");
    assert_eq!(e.to_string(), "RPC error: All RPC links are invalid");
    let empty = EvmClientError::RpcError(String::new());
    assert_eq!(empty.to_string(), "RPC error: ");
    assert_eq!(format!("{:?}", e), "RpcError(\"All RPC links are invalid\")");
}

#[test]
fn with_cause_joins_prefix_and_cause() {
    let e = EvmClientError::with_cause("Health check failed: ", "timeout");
    assert_eq!(e.message(), "Health check failed: timeout");
    let e = EvmClientError::with_cause("", "");
    assert_eq!(e.message(), "");
}
