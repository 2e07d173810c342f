//! In-engine parts of the blockchain adapters: network naming, fee and
//! decimal constants, subaccount derivation and transfer memo selection.
//! The remote calls (balance fetch, ledger transfer submission, signing)
//! belong to the runtime around the engine.

use vstd::prelude::*;
use vstd::string::StrSliceExecFns;

use crate::model::{AccountId, TransferId};
use crate::upgrade::CanisterId;

verus! {

/// Networks of the native-ledger adapter.
#[derive(Clone, Copy, Debug, PartialEq, Eq, Structural)]
pub enum InternetComputerNetwork {
    Mainnet,
}

impl InternetComputerNetwork {
    /// Parses a network name; only the main network exists.
    pub fn from_str(variant: &str) -> (r: Result<InternetComputerNetwork, ()>)
        ensures
            r is Ok <==> variant@ == "mainnet"@,
            r is Ok ==> r->Ok_0 is Mainnet,
    {
        proof {
            reveal_strlit("mainnet");
        }
        if variant.unicode_len() != 7 {
            return Err(());
        }
        let matches_name = variant.get_char(0) == 'm' && variant.get_char(1) == 'a'
            && variant.get_char(2) == 'i' && variant.get_char(3) == 'n' && variant.get_char(4)
            == 'n' && variant.get_char(5) == 'e' && variant.get_char(6) == 't';
        if matches_name {
            proof {
                assert(variant@ =~= "mainnet"@);
            }
            Ok(InternetComputerNetwork::Mainnet)
        } else {
            Err(())
        }
    }

    /// The network's display name.
    pub fn as_str(&self) -> (r: &'static str)
        ensures
            r@ == "mainnet"@,
    {
        "mainnet"
    }
}

/// Networks of the EVM-style adapter.
#[derive(Clone, Copy, Debug, PartialEq, Eq, Structural)]
pub enum EthereumNetwork {
    Mainnet,
    Sepolia,
}

/// The native-ledger adapter; its identity on the ledger is derived from
/// the wallet unit's own identifier.
#[derive(Clone, Copy, Debug)]
pub struct InternetComputer {
    pub wallet_canister_id: CanisterId,
}

/// Byte `i` of the big-endian encoding of a 128-bit identifier.
pub open spec fn u128_be_byte(x: u128, i: int) -> u8 {
    (x >> (((15 - i) * 8) as u128)) as u8
}

/// The 32-byte ledger subaccount derived from a 16-byte account
/// identifier: the identifier's bytes, zero-padded.
pub open spec fn spec_subaccount(id: AccountId) -> Seq<u8> {
    Seq::new(32, |i: int| if i < 16 {
        u128_be_byte(id, i)
    } else {
        0u8
    })
}

/// The hex form of the ledger account identifier that the ledger derives
/// from an owner and a 32-byte subaccount; a checksummed digest of the two,
/// so a function of its arguments alone.
pub uninterp spec fn account_identifier_hex_of(owner: CanisterId, subaccount: Seq<u8>) -> Seq<
    char,
>;

/// Relies on candid::Principal::from_slice together with
/// ic_ledger_types::AccountIdentifier::new and to_hex: the account
/// identifier is a digest of the owner and subaccount alone, prefixed by
/// its checksum and hex-encoded with two digits for each of its 32 bytes.
#[verifier::external_body]
fn ledger_account_hex(owner: CanisterId, subaccount: &Vec<u8>) -> (r: String)
    requires
        subaccount@.len() == 32,
    ensures
        r@ == account_identifier_hex_of(owner, subaccount@),
        r@.len() == 64,
{
    let mut sub = [0u8; 32];
    sub.copy_from_slice(&subaccount[..]);
    let principal = candid::Principal::from_slice(&owner.to_be_bytes());
    ic_ledger_types::AccountIdentifier::new(&principal, &ic_ledger_types::Subaccount(sub))
        .to_hex()
}

impl InternetComputer {
    /// The adapter for a wallet unit; the runtime hands in the unit's own
    /// identifier.
    pub fn create(wallet_canister_id: CanisterId) -> (r: Self)
        ensures
            r.wallet_canister_id == wallet_canister_id,
    {
        InternetComputer { wallet_canister_id }
    }

    /// The 32-byte ledger subaccount of a wallet account: the account
    /// identifier's bytes, zero-padded.
    pub fn subaccount_from_wallet_account_id(&self, wallet_account_id: AccountId) -> (r: Vec<u8>)
        ensures
            r@ == spec_subaccount(wallet_account_id),
    {
        let mut sub: Vec<u8> = Vec::new();
        let mut i: usize = 0;
        while i < 16
            invariant
                0 <= i <= 16,
                sub@.len() == i,
                forall|j: int| 0 <= j < i ==> sub@[j] == u128_be_byte(wallet_account_id, j),
            decreases 16 - i,
        {
            let sh: u128 = ((15 - i) as u128) * 8;
            sub.push((wallet_account_id >> sh) as u8);
            i = i + 1;
        }
        let mut i: usize = 16;
        while i < 32
            invariant
                16 <= i <= 32,
                sub@.len() == i,
                forall|j: int| 0 <= j < 16 ==> sub@[j] == u128_be_byte(wallet_account_id, j),
                forall|j: int| 16 <= j < i ==> sub@[j] == 0u8,
            decreases 32 - i,
        {
            sub.push(0u8);
            i = i + 1;
        }
        proof {
            assert(sub@ =~= spec_subaccount(wallet_account_id));
        }
        sub
    }

    /// The ledger address of a wallet account, used for token transfers:
    /// the hex account identifier derived from the wallet unit and the
    /// account's subaccount.
    pub fn wallet_account_address(&self, wallet_account_id: AccountId) -> (r: String)
        ensures
            r@ == account_identifier_hex_of(
                self.wallet_canister_id,
                spec_subaccount(wallet_account_id),
            ),
            r@.len() == 64,
    {
        let sub = self.subaccount_from_wallet_account_id(wallet_account_id);
        ledger_account_hex(self.wallet_canister_id, &sub)
    }

    /// The ledger's flat transaction fee, in e8s.
    pub fn transaction_fee(&self) -> (r: u64)
        ensures
            r == 10000,
    {
        10000
    }

    /// Decimal places of the native token.
    pub fn decimals(&self) -> (r: u32)
        ensures
            r == 8,
    {
        8
    }
}

/// The memo a submitted transfer carries: the caller-supplied memo when the
/// transfer metadata holds one, otherwise the first eight bytes of the
/// transfer identifier read as a big-endian number.
pub fn transfer_memo(metadata_memo: Option<u64>, transfer_id: TransferId) -> (r: u64)
    ensures
        metadata_memo matches Some(m) ==> r == m,
        metadata_memo is None ==> r == (transfer_id >> 64) as u64,
{
    match metadata_memo {
        Some(m) => m,
        None => {
            let sh: u128 = 64;
            (transfer_id >> sh) as u64
        },
    }
}

} // verus!
