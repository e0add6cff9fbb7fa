use icp_buyer_seller_contract_backend::repositories::ErrorKind;
use icp_buyer_seller_contract_backend::services::wallet_service::{
    BASE_CHAIN_ID, CONTRACT_ADDRESS, SEPOLIA_CHAIN_ID,
};
use icp_buyer_seller_contract_backend::services::{
    ecdsa_key_name_of, get_ecdsa_key_name, transfer_result, Address, WalletServiceImpl,
};

const BYTES: [u8; 20] = [
    0x1c, 0x7d, 0x4b, 0x19, 0x6c, 0xb0, 0xc7, 0xb0, 0x1d, 0x74, 0x3f, 0xbc, 0x61, 0x16, 0xa9, 0x02,
    0x37, 0x9c, 0x72, 0x38,
];

#[test]
fn address_is_read_from_hex() {
    let address = Address::parse("1c7d4b196cb0c7b01d743fbc6116a902379c7238").unwrap();
    assert_eq!(address.as_slice(), &BYTES);
}

#[test]
fn address_is_read_with_a_prefix() {
    assert_eq!(
        Address::parse("0x1c7d4b196cb0c7b01d743fbc6116a902379c7238").unwrap().as_slice(),
        &BYTES
    );
    assert_eq!(
        Address::parse("0X1c7d4b196cb0c7b01d743fbc6116a902379c7238").unwrap().as_slice(),
        &BYTES
    );
}

#[test]
fn address_is_read_in_either_case() {
    assert_eq!(
        Address::parse("0x1C7D4B196CB0C7B01D743FBC6116A902379C7238").unwrap().as_slice(),
        &BYTES
    );
    assert_eq!(
        Address::parse("1c7D4b196Cb0c7B01d743fBc6116A902379c7238").unwrap().as_slice(),
        &BYTES
    );
}

#[test]
fn token_contract_is_an_address() {
    let address = Address::parse(CONTRACT_ADDRESS).unwrap();
    assert_eq!(address.as_slice().len(), 20);
    assert_eq!(address.as_slice()[0], 0x77);
    assert_eq!(address.as_slice()[19], 0x89);
    assert_eq!(address.clone().as_slice(), address.as_slice());
}

fn assert_refused(text: &str) {
    let error = Address::parse(text).unwrap_err();
    assert_eq!(error.kind(), ErrorKind::Internal);
    assert!(!error.message().is_empty());
}

#[test]
fn malformed_address_is_an_internal_error() {
    assert_refused("");
    assert_refused("0x");
    assert_refused("1c7d4b196cb0c7b01d743fbc6116a902379c723");
    assert_refused("1c7d4b196cb0c7b01d743fbc6116a902379c72");
    assert_refused("1c7d4b196cb0c7b01d743fbc6116a902379c723800");
    assert_refused("0x1c7d4b196cb0c7b01d743fbc6116a902379c72");
    assert_refused("0x0x1c7d4b196cb0c7b01d743fbc6116a902379c72");
    assert_refused("1c7d4b196cb0c7b01d743fbc6116a902379c723g");
    assert_refused("x01c7d4b196cb0c7b01d743fbc6116a902379c7238");
    assert_refused("1c7d4b196cb0c7b01d743fbc6116a902379c72\u{e9}");
    assert_refused(" 1c7d4b196cb0c7b01d743fbc6116a902379c7238");
}

#[test]
fn malformed_address_carries_the_words_of_the_parser() {
    assert_eq!(Address::parse("abc").unwrap_err().message(), "odd number of digits");
    assert_eq!(Address::parse("abcd").unwrap_err().message(), "invalid string length");
}

#[test]
fn key_name_follows_the_network() {
    assert_eq!(get_ecdsa_key_name("local"), Some("dfx_test_key".to_string()));
    assert_eq!(get_ecdsa_key_name("ic"), Some("key_1".to_string()));
    assert_eq!(get_ecdsa_key_name("playground"), None);
    assert_eq!(get_ecdsa_key_name(""), None);
    assert_eq!(get_ecdsa_key_name("IC"), None);
}

#[test]
fn key_name_of_a_supported_network() {
    assert_eq!(ecdsa_key_name_of("local"), "dfx_test_key");
    assert_eq!(ecdsa_key_name_of("ic"), "key_1");
}

#[test]
fn transfer_reports_the_transaction_or_why_there_is_none() {
    assert_eq!(transfer_result(Ok(Some("tx 1".to_string()))), Ok("tx 1".to_string()));
    let lost = transfer_result(Ok(None)).unwrap_err();
    assert_eq!(lost.kind(), ErrorKind::Internal);
    assert_eq!(lost.message(), "Could not get transaction.");
    let failed = transfer_result(Err("network".to_string())).unwrap_err();
    assert_eq!(failed.kind(), ErrorKind::Internal);
    assert_eq!(failed.message(), "network");
}

#[test]
fn wallet_settings() {
    let mut wallet = WalletServiceImpl::new(true);
    assert!(wallet.use_testnet());
    assert_eq!(wallet.chain_id(), SEPOLIA_CHAIN_ID);
    assert_eq!(wallet.chain_id(), 11155111);
    assert_eq!(wallet.rpc_url(), "https://catts-evm-proxy-2.aledema.workers.dev/eth-sepolia");
    wallet.with_testnet(false);
    assert!(!wallet.use_testnet());
    assert_eq!(wallet.chain_id(), BASE_CHAIN_ID);
    assert_eq!(wallet.chain_id(), 1);
    assert_eq!(wallet.rpc_url(), "https://catts-evm-proxy-2.aledema.workers.dev/base-mainnet");
    assert_eq!(WalletServiceImpl::default(), WalletServiceImpl::new(false));
}

#[test]
fn transfer_order_says_what_to_send() {
    let order = WalletServiceImpl::new(false).transfer_order(
        7,
        Address::parse("0x1c7d4b196cb0c7b01d743fbc6116a902379c7238").unwrap(),
    );
    assert_eq!(order.amount, 7);
    assert_eq!(order.to.as_slice(), &BYTES);
    assert_eq!(order.chain_id, 1);
    assert_eq!(order.token_contract, CONTRACT_ADDRESS);
    assert_eq!(order.max_response_size, 2000);
}
