//! The settings of the wallet and what a transfer order says. The transfer
//! itself is the caller's to make.

use crate::repositories::types::api_error::{ApiError, ErrorKind};
use crate::repositories::types::uuid::hex_value;
use vstd::prelude::*;
use vstd::string::StringExecFns;

verus! {

/// The number of bytes of an address.
pub const ADDRESS_LENGTH: usize = 20;

/// The token contract that transfers go through.
pub const CONTRACT_ADDRESS: &'static str = "779877A7B0D9E8603169DdbD7836e478b4624789";

/// The chain id of the test network.
pub const SEPOLIA_CHAIN_ID: u64 = 11155111;

/// The chain id of the main network.
pub const BASE_CHAIN_ID: u64 = 1;

/// The endpoint for the test network.
pub const SEPOLIA_RPC_URL: &'static str = "https://catts-evm-proxy-2.aledema.workers.dev/eth-sepolia";

/// The endpoint for the main network.
pub const BASE_RPC_URL: &'static str = "https://catts-evm-proxy-2.aledema.workers.dev/base-mainnet";

/// The largest answer, in bytes, that is accepted for a transfer.
pub const TRANSFER_MAX_RESPONSE_SIZE: u64 = 2000;

/// The hex digits of an address text: all of it but a leading `0x` or `0X`.
pub open spec fn address_digits(text: Seq<char>) -> Seq<char> {
    if text.len() >= 2 && text[0] == '0' && (text[1] == 'x' || text[1] == 'X') {
        text.skip(2)
    } else {
        text
    }
}

/// The address that the text spells: 40 hex digits of either case, two for
/// each byte, after an optional `0x`. None where the text is anything else.
pub open spec fn address_bytes(text: Seq<char>) -> Option<Seq<u8>> {
    let digits = address_digits(text);
    if digits.len() == 2 * ADDRESS_LENGTH && forall|i: int|
        0 <= i < digits.len() ==> hex_value(#[trigger] digits[i]) is Some {
        Some(
            Seq::new(
                ADDRESS_LENGTH as nat,
                |i: int| (hex_value(digits[2 * i])->0 * 16 + hex_value(digits[2 * i + 1])->0) as u8,
            ),
        )
    } else {
        None
    }
}

/// What parsing an `alloy::primitives::Address` says of a text that it
/// refuses: the text of its error.
pub uninterp spec fn address_error_text(text: Seq<char>) -> Seq<char>;

/// `str::parse` to an `alloy::primitives::Address`, which is that type's
/// `from_str`: the 20 bytes that the text spells
/// in hex, with or without `0x` before them, or the text of the error where
/// it spells none.
#[verifier::external_body]
fn address_from_text(text: &str) -> (r: Result<Vec<u8>, String>)
    ensures
        match r {
            Ok(bytes) => address_bytes(text@) == Some(bytes@),
            Err(message) => address_bytes(text@) is None && message@ == address_error_text(text@),
        },
{
    match text.parse::<alloy::primitives::Address>() {
        Ok(address) => Ok(address.as_slice().to_vec()),
        Err(error) => Err(error.to_string()),
    }
}

/// The destination of a transfer: 20 bytes.
#[derive(Debug)]
pub struct Address {
    bytes: Vec<u8>,
}

impl View for Address {
    type V = Seq<u8>;

    closed spec fn view(&self) -> Seq<u8> {
        self.bytes@
    }
}

impl Address {
    /// What holds of every address: it has 20 bytes.
    #[verifier::type_invariant]
    pub open spec fn well_formed(&self) -> bool {
        self@.len() == ADDRESS_LENGTH
    }

    /// The address that the text spells in hex. A text that spells none is
    /// an `Internal` error with the parser's words.
    pub fn parse(text: &str) -> (r: Result<Address, ApiError>)
        ensures
            match r {
                Ok(address) => address_bytes(text@) == Some(address@),
                Err(e) => address_bytes(text@) is None && e.is(
                    ErrorKind::Internal,
                    address_error_text(text@),
                ),
            },
    {
        match address_from_text(text) {
            Ok(bytes) => Ok(Address { bytes }),
            Err(message) => Err(ApiError::internal(message.as_str())),
        }
    }

    /// The bytes of this address.
    pub fn as_slice(&self) -> (bytes: &[u8])
        ensures
            bytes@ == self@,
    {
        self.bytes.as_slice()
    }
}

impl Clone for Address {
    fn clone(&self) -> (copy: Address)
        ensures
            copy@ == self@,
    {
        proof {
            use_type_invariant(self);
        }
        Address { bytes: self.bytes.clone() }
    }
}

/// What is to be sent, where, and over which network.
#[derive(Debug)]
pub struct TransferOrder {
    pub amount: u64,
    pub to: Address,
    pub chain_id: u64,
    pub rpc_url: &'static str,
    pub token_contract: &'static str,
    pub max_response_size: u64,
}

/// The chain id of the network that is used.
pub open spec fn chain_id_of(use_testnet: bool) -> u64 {
    if use_testnet {
        SEPOLIA_CHAIN_ID
    } else {
        BASE_CHAIN_ID
    }
}

/// The endpoint of the network that is used.
pub open spec fn rpc_url_of(use_testnet: bool) -> Seq<char> {
    if use_testnet {
        SEPOLIA_RPC_URL@
    } else {
        BASE_RPC_URL@
    }
}

/// Whether the order is the one for these settings, amount and destination.
pub open spec fn is_order_for(order: TransferOrder, use_testnet: bool, amount: u64, to: Seq<u8>) -> bool {
    &&& order.amount == amount
    &&& order.to@ == to
    &&& order.chain_id == chain_id_of(use_testnet)
    &&& order.rpc_url@ == rpc_url_of(use_testnet)
    &&& order.token_contract@ == CONTRACT_ADDRESS@
    &&& order.max_response_size == TRANSFER_MAX_RESPONSE_SIZE
}

/// The name of the signing key for the given network: `dfx_test_key` for
/// `local`, `key_1` for `ic`, and none for any other.
pub open spec fn ecdsa_key_name(dfx_network: Seq<char>) -> Option<Seq<char>> {
    if dfx_network == "local"@ {
        Some("dfx_test_key"@)
    } else if dfx_network == "ic"@ {
        Some("key_1"@)
    } else {
        None
    }
}

/// The name of the signing key for the given network, if the network is
/// supported.
pub fn get_ecdsa_key_name(dfx_network: &str) -> (name: Option<String>)
    ensures
        match name {
            Some(n) => ecdsa_key_name(dfx_network@) == Some(n@),
            None => ecdsa_key_name(dfx_network@) is None,
        },
{
    let network = String::from_str(dfx_network);
    if network == String::from_str("local") {
        Some(String::from_str("dfx_test_key"))
    } else if network == String::from_str("ic") {
        Some(String::from_str("key_1"))
    } else {
        None
    }
}

/// The name of the signing key for a network that is supported.
pub fn ecdsa_key_name_of(dfx_network: &str) -> (name: String)
    requires
        ecdsa_key_name(dfx_network@) is Some,
    ensures
        ecdsa_key_name(dfx_network@) == Some(name@),
{
    if String::from_str(dfx_network) == String::from_str("local") {
        String::from_str("dfx_test_key")
    } else {
        String::from_str("key_1")
    }
}

/// What a transfer reports, by how the send went: the transaction where it
/// was sent and is found, an `Internal` error where it was sent and is not
/// found, and an `Internal` error with the detail of the failure where it
/// was not sent.
pub fn transfer_result(sent: Result<Option<String>, String>) -> (r: Result<String, ApiError>)
    ensures
        match sent {
            Ok(Some(transaction)) => r matches Ok(text) && text@ == transaction@,
            Ok(None) => r matches Err(e) && e.is(
                ErrorKind::Internal,
                "Could not get transaction."@,
            ),
            Err(detail) => r matches Err(e) && e.is(ErrorKind::Internal, detail@),
        },
{
    match sent {
        Ok(Some(transaction)) => Ok(transaction),
        Ok(None) => Err(ApiError::internal("Could not get transaction.")),
        Err(detail) => Err(ApiError::internal(detail.as_str())),
    }
}

/// The settings of the wallet: which network it uses.
#[derive(Clone, Copy, Debug, PartialEq, Eq, Structural)]
pub struct WalletServiceImpl {
    use_testnet: bool,
}

impl WalletServiceImpl {
    pub fn new(use_testnet: bool) -> (wallet: WalletServiceImpl)
        ensures
            wallet.uses_testnet() == use_testnet,
    {
        WalletServiceImpl { use_testnet }
    }

    pub fn with_testnet(&mut self, use_testnet: bool)
        ensures
            final(self).uses_testnet() == use_testnet,
    {
        self.use_testnet = use_testnet;
    }

    /// Whether the test network is used.
    pub closed spec fn uses_testnet(&self) -> bool {
        self.use_testnet
    }

    /// Whether the test network is used.
    pub fn use_testnet(&self) -> (r: bool)
        ensures
            r == self.uses_testnet(),
    {
        self.use_testnet
    }

    /// The chain id of the network that is used.
    pub fn chain_id(&self) -> (id: u64)
        ensures
            id == chain_id_of(self.uses_testnet()),
    {
        if self.use_testnet {
            SEPOLIA_CHAIN_ID
        } else {
            BASE_CHAIN_ID
        }
    }

    /// The endpoint of the network that is used.
    pub fn rpc_url(&self) -> (url: &'static str)
        ensures
            url@ == rpc_url_of(self.uses_testnet()),
    {
        if self.use_testnet {
            SEPOLIA_RPC_URL
        } else {
            BASE_RPC_URL
        }
    }

    /// The order to send `amount` to `to` over the network that is used.
    pub fn transfer_order(&self, amount: u64, to: Address) -> (order: TransferOrder)
        ensures
            is_order_for(order, self.uses_testnet(), amount, to@),
    {
        TransferOrder {
            amount,
            to,
            chain_id: self.chain_id(),
            rpc_url: self.rpc_url(),
            token_contract: CONTRACT_ADDRESS,
            max_response_size: TRANSFER_MAX_RESPONSE_SIZE,
        }
    }
}

impl Default for WalletServiceImpl {
    fn default() -> (wallet: WalletServiceImpl)
        ensures
            !wallet.uses_testnet(),
    {
        WalletServiceImpl::new(false)
    }
}

} // verus!
