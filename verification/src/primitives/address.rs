//! Account and contract addresses, token identifiers and amounts.

use vstd::prelude::*;
use vstd::string::*;

use crate::primitives::digest::{
    abbreviate, abbreviated, blake3_digest, blake3_hash, parse_32, parses_to, zero_bytes,
};
use crate::primitives::error::DigestDecodeError;
use crate::primitives::hexadecimal::{encode, hex_encode};
use crate::primitives::text::join;

verus! {

/// Address of an account.
#[derive(Clone, Copy, Debug, PartialEq, Eq, Hash, PartialOrd, Ord)]
pub struct AccountAddress(pub [u8; 32]);

/// Address of a deployed contract.
#[derive(Clone, Copy, Debug, PartialEq, Eq, Hash, PartialOrd, Ord)]
pub struct ContractAddress(pub [u8; 32]);

/// A token: the native one, or one that a contract issues.
#[derive(Clone, Copy, Debug, PartialEq, Eq, Hash)]
pub enum TokenId {
    /// The native token.
    Native,
    /// The token of a contract.
    Contract(ContractAddress),
}

/// A token amount in voo, the smallest unit.
#[derive(Clone, Copy, Debug, PartialEq, Eq, Structural, Hash, PartialOrd, Ord)]
pub struct Amount(pub u64);

impl View for AccountAddress {
    type V = Seq<u8>;

    open spec fn view(&self) -> Seq<u8> {
        self.0@
    }
}

impl View for ContractAddress {
    type V = Seq<u8>;

    open spec fn view(&self) -> Seq<u8> {
        self.0@
    }
}

impl Amount {
    /// Nothing.
    pub fn zero() -> (r: Amount)
        ensures
            r.0 == 0,
    {
        Amount(0)
    }

    /// One voo.
    pub fn one_voo() -> (r: Amount)
        ensures
            r.0 == 1,
    {
        Amount(1)
    }

    /// One NXS, which is a thousand million voo.
    pub fn one_nxs() -> (r: Amount)
        ensures
            r.0 == 1_000_000_000,
    {
        Amount(1_000_000_000)
    }
}

/// The domain tag under which account addresses are derived.
pub open spec fn account_domain() -> Seq<u8> {
    "nexus::account::address::v1".spec_bytes()
}

/// The domain tag under which contract addresses are derived.
pub open spec fn contract_domain() -> Seq<u8> {
    "nexus::contract::address::v1".spec_bytes()
}

impl AccountAddress {
    /// The address whose bytes are all zero.
    pub fn zero() -> (r: AccountAddress)
        ensures
            r@ == zero_bytes(),
    {
        AccountAddress([0u8; 32])
    }

    /// The address of the holder of a Dilithium public key: the BLAKE3 hash of
    /// the account domain tag followed by the key.
    pub fn from_dilithium_pubkey(pubkey: &[u8]) -> (r: Self)
        ensures
            r@ == blake3_digest(account_domain() + pubkey@),
    {
        let mut input: Vec<u8> = "nexus::account::address::v1".as_bytes_vec();
        input.extend_from_slice(pubkey);
        assert(input@ =~= account_domain() + pubkey@);
        AccountAddress(blake3_hash(input.as_slice()))
    }

    /// The address in lowercase hexadecimal.
    pub fn to_hex(&self) -> (r: String)
        ensures
            r@ == hex_encode(self@),
    {
        encode(self.0.as_slice())
    }

    /// Decodes an address from sixty-four hexadecimal digits of either case.
    pub fn from_hex(text: &str) -> (r: Result<Self, DigestDecodeError>)
        ensures
            parses_to(
                text,
                match r {
                    Ok(v) => Ok(v@),
                    Err(e) => Err(e),
                },
            ),
    {
        match parse_32(text) {
            Ok(bytes) => Ok(AccountAddress(bytes)),
            Err(e) => Err(e),
        }
    }

    /// The raw bytes as a slice.
    pub fn as_ref(&self) -> (r: &[u8])
        ensures
            r@ == self@,
    {
        self.0.as_slice()
    }

    /// The address in hexadecimal, after `0x`.
    pub fn to_string(&self) -> (r: String)
        ensures
            r@ == "0x"@ + hex_encode(self@),
    {
        join("0x", self.to_hex().as_str())
    }

    /// The address in abbreviated form, for logs.
    pub fn to_debug_string(&self) -> (r: String)
        ensures
            r@ == abbreviated("AccountAddress"@, self@),
    {
        abbreviate("AccountAddress", &self.0)
    }
}

impl ContractAddress {
    /// The address whose bytes are all zero.
    pub fn zero() -> (r: ContractAddress)
        ensures
            r@ == zero_bytes(),
    {
        ContractAddress([0u8; 32])
    }

    /// The address of a contract: the BLAKE3 hash of the contract domain tag,
    /// the deployer's address and the hash of the bytecode.
    pub fn from_deployment(deployer: &AccountAddress, bytecode_hash: &[u8]) -> (r: Self)
        ensures
            r@ == blake3_digest(contract_domain() + deployer@ + bytecode_hash@),
    {
        let mut input: Vec<u8> = "nexus::contract::address::v1".as_bytes_vec();
        input.extend_from_slice(deployer.0.as_slice());
        input.extend_from_slice(bytecode_hash);
        assert(input@ =~= contract_domain() + deployer@ + bytecode_hash@);
        ContractAddress(blake3_hash(input.as_slice()))
    }

    /// The address in lowercase hexadecimal.
    pub fn to_hex(&self) -> (r: String)
        ensures
            r@ == hex_encode(self@),
    {
        encode(self.0.as_slice())
    }

    /// Decodes an address from sixty-four hexadecimal digits of either case.
    pub fn from_hex(text: &str) -> (r: Result<Self, DigestDecodeError>)
        ensures
            parses_to(
                text,
                match r {
                    Ok(v) => Ok(v@),
                    Err(e) => Err(e),
                },
            ),
    {
        match parse_32(text) {
            Ok(bytes) => Ok(ContractAddress(bytes)),
            Err(e) => Err(e),
        }
    }

    /// The raw bytes as a slice.
    pub fn as_ref(&self) -> (r: &[u8])
        ensures
            r@ == self@,
    {
        self.0.as_slice()
    }

    /// The address in hexadecimal, after `0x`.
    pub fn to_string(&self) -> (r: String)
        ensures
            r@ == "0x"@ + hex_encode(self@),
    {
        join("0x", self.to_hex().as_str())
    }

    /// The address in abbreviated form, for logs.
    pub fn to_debug_string(&self) -> (r: String)
        ensures
            r@ == abbreviated("ContractAddress"@, self@),
    {
        abbreviate("ContractAddress", &self.0)
    }
}

} // verus!
