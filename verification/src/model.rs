//! The mathematical model of the protocol: the abstract state (two maps), the
//! views of the host actions a call requests, and one transition function per
//! operation. Every executable operation of the contract is proved to agree
//! with its transition, and the protocol laws are proved of the transitions.

use vstd::prelude::*;

use crate::account::valid_account_id;
use crate::keys::key_of_msg;

verus! {

/// Fee debited from the owner's escrow for each issued credential; also the
/// execution allowance granted to the credential's capability.
pub const ACCESS_KEY_ALLOWANCE: u128 = 500_000_000_000_000_000_000_000;

/// Fixed stake bundled into every deposit; refunded in full when the escrow
/// account closes.
pub const STORAGE_AMOUNT: u128 = 1_000_000_000_000_000_000_000_000;

/// Execution budget reserved for a resolution step of the outbound transfer.
pub const GAS_FOR_RESOLVE_TRANSFER: u64 = 10_000_000_000_000;

/// Execution budget attached to the outbound asset-transfer request.
pub const GAS_FOR_NFT_TRANSFER_CALL: u64 = 25_000_000_000_000 + GAS_FOR_RESOLVE_TRANSFER;

/// The error kinds a call can fail with. Every failure leaves the state
/// unchanged.
#[derive(Clone, Copy, Debug, PartialEq, Eq, Structural)]
pub enum Error {
    /// The attached payment does not equal stake plus declared fees.
    InvalidDepositAmount,
    /// No escrow account exists for the named owner.
    NoEscrowAccount,
    /// The owner's escrow balance does not cover one issuance fee.
    InsufficientEscrow,
    /// A claim that is not self-addressed through a granted credential.
    UnauthorizedCaller,
    /// The nominated beneficiary is not a valid account identifier.
    InvalidAccount,
    /// The claiming credential has no live binding.
    UnknownCredential,
    /// The inbound message does not decode to exactly one public key.
    InvalidMessage,
}

/// The recorded binding of a credential: which registry holds the asset,
/// which token it is, and which owner's escrow paid for the credential.
pub struct NftView {
    pub contract_id: Seq<u8>,
    pub token_id: Seq<char>,
    pub owner_id: Seq<u8>,
}

/// The abstract contract state: owner to unspent fee balance, and credential
/// public key to asset binding.
#[verifier::ext_equal]
pub struct StateView {
    pub deposits: Map<Seq<u8>, u128>,
    pub bindings: Map<Seq<u8>, NftView>,
}

/// The state of a freshly created contract.
pub open spec fn initial_state() -> StateView {
    StateView { deposits: Map::empty(), bindings: Map::empty() }
}

/// A requested native-balance transfer.
pub struct TransferView {
    pub receiver_id: Seq<u8>,
    pub amount: u128,
}

/// A requested capability grant: the key may invoke only this contract's
/// claim operation, with the given execution allowance.
pub struct KeyGrantView {
    pub public_key: Seq<u8>,
    pub allowance: u128,
}

/// A requested outbound asset transfer, addressed to the bound registry.
pub struct NftTransferView {
    pub registry_id: Seq<u8>,
    pub token_id: Seq<char>,
    pub receiver_id: Seq<u8>,
    pub approval_id: Option<u64>,
    pub memo: Seq<u8>,
    pub attached_amount: u128,
    pub gas: u64,
}

/// Everything a successful claim requests of the host: revoke the spent
/// credential, then dispatch the transfer of the bound asset.
pub struct ClaimReceiptView {
    pub deleted_key: Seq<u8>,
    pub transfer: NftTransferView,
}

/// Deposit: accepted exactly when the attached payment equals the stake plus
/// the declared number of issuance fees; the owner's balance is then replaced
/// (not topped up) by the declared fee total.
pub open spec fn spec_deposit(
    s: StateView,
    sender: Seq<u8>,
    total_drop: u128,
    attached: u128,
) -> (Result<(), Error>, StateView) {
    if attached == STORAGE_AMOUNT + total_drop * ACCESS_KEY_ALLOWANCE {
        (
            Ok(()),
            StateView {
                deposits: s.deposits.insert(
                    sender,
                    (total_drop * ACCESS_KEY_ALLOWANCE) as u128,
                ),
                ..s
            },
        )
    } else {
        (Err(Error::InvalidDepositAmount), s)
    }
}

/// Withdraw: closes the escrow account and refunds the stake exactly when the
/// balance is zero; a positive balance leaves the state unchanged and reports
/// no refund.
pub open spec fn spec_withdraw(s: StateView, sender: Seq<u8>) -> (
    Result<Option<TransferView>, Error>,
    StateView,
) {
    if !s.deposits.dom().contains(sender) {
        (Err(Error::NoEscrowAccount), s)
    } else if s.deposits[sender] == 0 {
        (
            Ok(Some(TransferView { receiver_id: sender, amount: STORAGE_AMOUNT })),
            StateView { deposits: s.deposits.remove(sender), ..s },
        )
    } else {
        (Ok(None), s)
    }
}

/// Balance query: the owner's unspent fee balance, if the account exists.
pub open spec fn spec_get_deposit(s: StateView, owner: Seq<u8>) -> Result<u128, Error> {
    if s.deposits.dom().contains(owner) {
        Ok(s.deposits[owner])
    } else {
        Err(Error::NoEscrowAccount)
    }
}

/// Issue: debits one fee from the binding owner's escrow, records the binding
/// under the credential key (replacing any stale binding for that exact key),
/// and requests a capability grant for the key — all in one step.
pub open spec fn spec_issue(s: StateView, public_key: Seq<u8>, nft: NftView) -> (
    Result<KeyGrantView, Error>,
    StateView,
) {
    if s.deposits.dom().contains(nft.owner_id)
        && s.deposits[nft.owner_id] >= ACCESS_KEY_ALLOWANCE {
        (
            Ok(KeyGrantView { public_key: public_key, allowance: ACCESS_KEY_ALLOWANCE }),
            StateView {
                deposits: s.deposits.insert(
                    nft.owner_id,
                    (s.deposits[nft.owner_id] - ACCESS_KEY_ALLOWANCE) as u128,
                ),
                bindings: s.bindings.insert(public_key, nft),
            },
        )
    } else {
        (Err(Error::InsufficientEscrow), s)
    }
}

/// Claim: only a self-addressed call authorized by a live credential may
/// consume that credential's binding; the binding is deleted and the host is
/// asked to revoke the key and transfer the bound asset to the beneficiary.
pub open spec fn spec_claim(
    s: StateView,
    predecessor_id: Seq<u8>,
    current_id: Seq<u8>,
    signer_pk: Seq<u8>,
    account_id: Seq<u8>,
) -> (Result<ClaimReceiptView, Error>, StateView) {
    if predecessor_id != current_id {
        (Err(Error::UnauthorizedCaller), s)
    } else if !valid_account_id(account_id) {
        (Err(Error::InvalidAccount), s)
    } else if !s.bindings.dom().contains(signer_pk) {
        (Err(Error::UnknownCredential), s)
    } else {
        let nft = s.bindings[signer_pk];
        (
            Ok(
                ClaimReceiptView {
                    deleted_key: signer_pk,
                    transfer: NftTransferView {
                        registry_id: nft.contract_id,
                        token_id: nft.token_id,
                        receiver_id: account_id,
                        approval_id: None,
                        memo: Seq::empty(),
                        attached_amount: 1,
                        gas: GAS_FOR_NFT_TRANSFER_CALL,
                    },
                },
            ),
            StateView { bindings: s.bindings.remove(signer_pk), ..s },
        )
    }
}

/// Inbound transfer: the message must decode to exactly one credential key;
/// the binding then names the calling registry as custodian and the sender as
/// the owner whose escrow pays the fee.
pub open spec fn spec_on_transfer(
    s: StateView,
    registry_id: Seq<u8>,
    sender_id: Seq<u8>,
    token_id: Seq<char>,
    msg: Seq<char>,
) -> (Result<KeyGrantView, Error>, StateView) {
    match key_of_msg(msg) {
        None => (Err(Error::InvalidMessage), s),
        Some(public_key) => spec_issue(
            s,
            public_key,
            NftView { contract_id: registry_id, token_id: token_id, owner_id: sender_id },
        ),
    }
}

} // verus!
