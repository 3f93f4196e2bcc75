//! The executable contract: the two persisted tables and one method per
//! boundary operation. Each method's contract states that its result and the
//! state after the call are exactly those of the corresponding transition of
//! the model.
//!
//! The host ledger executes the calls: it hands in the call context (caller,
//! signing key, attached payment) as plain arguments, and receives back the
//! actions to perform (native transfers, capability grants and revocations,
//! the outbound asset-transfer request) as plain values.

use vstd::prelude::*;

use crate::account::is_valid_account_id;
use crate::bytes::bytes_eq;
use crate::bytes::clone_bytes;
use crate::keys::parse_public_key;
use crate::model::ClaimReceiptView;
use crate::model::Error;
use crate::model::KeyGrantView;
use crate::model::NftTransferView;
use crate::model::NftView;
use crate::model::StateView;
use crate::model::TransferView;
use crate::model::ACCESS_KEY_ALLOWANCE;
use crate::model::GAS_FOR_NFT_TRANSFER_CALL;
use crate::model::STORAGE_AMOUNT;
use crate::model::initial_state;
use crate::model::spec_claim;
use crate::model::spec_deposit;
use crate::model::spec_get_deposit;
use crate::model::spec_issue;
use crate::model::spec_on_transfer;
use crate::model::spec_withdraw;
use crate::table::KvTable;

verus! {

/// An asset binding: the registry holding the asset, the token, and the
/// owner whose escrow funds the credential.
pub struct NFT {
    pub contract_id: Vec<u8>,
    pub token_id: String,
    pub owner_id: Vec<u8>,
}

impl View for NFT {
    type V = NftView;

    open spec fn view(&self) -> NftView {
        NftView {
            contract_id: self.contract_id@,
            token_id: self.token_id@,
            owner_id: self.owner_id@,
        }
    }
}

/// A requested native-balance transfer.
pub struct Transfer {
    pub receiver_id: Vec<u8>,
    pub amount: u128,
}

impl View for Transfer {
    type V = TransferView;

    open spec fn view(&self) -> TransferView {
        TransferView { receiver_id: self.receiver_id@, amount: self.amount }
    }
}

/// A requested capability grant: the key may invoke only this contract's
/// claim operation, with the given execution allowance.
pub struct KeyGrant {
    pub public_key: Vec<u8>,
    pub allowance: u128,
}

impl View for KeyGrant {
    type V = KeyGrantView;

    open spec fn view(&self) -> KeyGrantView {
        KeyGrantView { public_key: self.public_key@, allowance: self.allowance }
    }
}

/// A requested outbound asset transfer, addressed to the bound registry.
pub struct NftTransferRequest {
    pub registry_id: Vec<u8>,
    pub token_id: String,
    pub receiver_id: Vec<u8>,
    pub approval_id: Option<u64>,
    pub memo: Vec<u8>,
    pub attached_amount: u128,
    pub gas: u64,
}

impl View for NftTransferRequest {
    type V = NftTransferView;

    open spec fn view(&self) -> NftTransferView {
        NftTransferView {
            registry_id: self.registry_id@,
            token_id: self.token_id@,
            receiver_id: self.receiver_id@,
            approval_id: self.approval_id,
            memo: self.memo@,
            attached_amount: self.attached_amount,
            gas: self.gas,
        }
    }
}

/// Everything a successful claim requests of the host.
pub struct ClaimReceipt {
    pub deleted_key: Vec<u8>,
    pub transfer: NftTransferRequest,
}

impl View for ClaimReceipt {
    type V = ClaimReceiptView;

    open spec fn view(&self) -> ClaimReceiptView {
        ClaimReceiptView { deleted_key: self.deleted_key@, transfer: self.transfer@ }
    }
}

/// The view of a withdraw result.
pub open spec fn withdraw_result_view(r: Result<Option<Transfer>, Error>) -> Result<
    Option<TransferView>,
    Error,
> {
    match r {
        Ok(Some(t)) => Ok(Some(t@)),
        Ok(None) => Ok(None),
        Err(e) => Err(e),
    }
}

/// The view of an issue result.
pub open spec fn grant_result_view(r: Result<KeyGrant, Error>) -> Result<KeyGrantView, Error> {
    match r {
        Ok(g) => Ok(g@),
        Err(e) => Err(e),
    }
}

/// The view of a claim result.
pub open spec fn claim_result_view(r: Result<ClaimReceipt, Error>) -> Result<
    ClaimReceiptView,
    Error,
> {
    match r {
        Ok(c) => Ok(c@),
        Err(e) => Err(e),
    }
}

/// The escrow-and-credential contract: per-owner fee balances, and the live
/// binding of each one-time credential.
pub struct Contract {
    drop_deposits: KvTable<u128>,
    accounts: KvTable<NFT>,
}

impl View for Contract {
    type V = StateView;

    closed spec fn view(&self) -> StateView {
        StateView { deposits: self.drop_deposits@, bindings: self.accounts@ }
    }
}

impl Contract {
    /// Both tables never repeat a key.
    pub closed spec fn wf(&self) -> bool {
        self.drop_deposits.wf() && self.accounts.wf()
    }

    /// A contract with no escrow accounts and no live credentials.
    pub fn new() -> (c: Contract)
        ensures
            c.wf(),
            c@ == initial_state(),
    {
        let c = Contract { drop_deposits: KvTable::new(), accounts: KvTable::new() };
        proof {
            assert(c@ =~= initial_state());
        }
        c
    }

    /// Funds the caller's escrow for `total_drop` future credentials. The
    /// attached payment must equal the storage stake plus `total_drop`
    /// issuance fees exactly; the balance is replaced, not topped up.
    pub fn drop_deposit(&mut self, sender_id: &Vec<u8>, total_drop: u128, attached_deposit: u128)
        -> (r: Result<(), Error>)
        requires
            old(self).wf(),
        ensures
            final(self).wf(),
            r == spec_deposit(old(self)@, sender_id@, total_drop, attached_deposit).0,
            final(self)@ == spec_deposit(old(self)@, sender_id@, total_drop, attached_deposit).1,
    {
        let total = match total_drop.checked_mul(ACCESS_KEY_ALLOWANCE) {
            None => {
                return Err(Error::InvalidDepositAmount);
            },
            Some(t) => t,
        };
        let required = match STORAGE_AMOUNT.checked_add(total) {
            None => {
                return Err(Error::InvalidDepositAmount);
            },
            Some(t) => t,
        };
        if attached_deposit != required {
            return Err(Error::InvalidDepositAmount);
        }
        self.drop_deposits.insert(clone_bytes(sender_id), total);
        proof {
            assert(final(self)@ =~= spec_deposit(
                old(self)@,
                sender_id@,
                total_drop,
                attached_deposit,
            ).1);
        }
        Ok(())
    }

    /// Closes the caller's escrow account and refunds the stake, provided the
    /// whole balance has been spent; a positive balance changes nothing and
    /// yields no refund. The call must carry the minimal confirmation
    /// attachment of one unit.
    pub fn drop_withdraw(&mut self, sender_id: &Vec<u8>, attached_deposit: u128) -> (r: Result<
        Option<Transfer>,
        Error,
    >)
        requires
            old(self).wf(),
            attached_deposit == 1,
        ensures
            final(self).wf(),
            withdraw_result_view(r) == spec_withdraw(old(self)@, sender_id@).0,
            final(self)@ == spec_withdraw(old(self)@, sender_id@).1,
    {
        let balance = match self.drop_deposits.get(sender_id) {
            None => {
                return Err(Error::NoEscrowAccount);
            },
            Some(b) => *b,
        };
        if balance == 0 {
            let _ = self.drop_deposits.remove(sender_id);
            proof {
                assert(final(self)@ =~= spec_withdraw(old(self)@, sender_id@).1);
            }
            Ok(Some(Transfer { receiver_id: clone_bytes(sender_id), amount: STORAGE_AMOUNT }))
        } else {
            Ok(None)
        }
    }

    /// The owner's unspent fee balance.
    pub fn get_deposit(&self, owner_id: &Vec<u8>) -> (r: Result<u128, Error>)
        requires
            self.wf(),
        ensures
            r == spec_get_deposit(self@, owner_id@),
    {
        match self.drop_deposits.get(owner_id) {
            None => Err(Error::NoEscrowAccount),
            Some(b) => Ok(*b),
        }
    }

    /// Issues a credential: debits one fee from the binding owner's escrow,
    /// records the binding under `public_key`, and requests a capability
    /// grant restricted to the claim operation with an allowance of exactly
    /// one fee — one atomic step. Invoked through the inbound transfer
    /// listener, not directly by arbitrary callers.
    pub fn send_nft(&mut self, public_key: Vec<u8>, nft: NFT) -> (r: Result<KeyGrant, Error>)
        requires
            old(self).wf(),
        ensures
            final(self).wf(),
            grant_result_view(r) == spec_issue(old(self)@, public_key@, nft@).0,
            final(self)@ == spec_issue(old(self)@, public_key@, nft@).1,
    {
        let balance = match self.drop_deposits.get(&nft.owner_id) {
            None => {
                return Err(Error::InsufficientEscrow);
            },
            Some(b) => *b,
        };
        if balance < ACCESS_KEY_ALLOWANCE {
            return Err(Error::InsufficientEscrow);
        }
        self.drop_deposits.insert(clone_bytes(&nft.owner_id), balance - ACCESS_KEY_ALLOWANCE);
        let grant_key = clone_bytes(&public_key);
        self.accounts.insert(public_key, nft);
        proof {
            assert(final(self)@ =~= spec_issue(old(self)@, grant_key@, nft@).1);
        }
        Ok(KeyGrant { public_key: grant_key, allowance: ACCESS_KEY_ALLOWANCE })
    }

    /// Redeems the credential that signed this call: the call must be
    /// self-addressed, the beneficiary must be a valid account, and the
    /// credential must hold a live binding. The binding is deleted before the
    /// outbound transfer request is produced, so a credential is exercised at
    /// most once.
    pub fn claim_nft(
        &mut self,
        predecessor_id: &Vec<u8>,
        current_id: &Vec<u8>,
        signer_pk: &Vec<u8>,
        account_id: Vec<u8>,
    ) -> (r: Result<ClaimReceipt, Error>)
        requires
            old(self).wf(),
        ensures
            final(self).wf(),
            claim_result_view(r) == spec_claim(
                old(self)@,
                predecessor_id@,
                current_id@,
                signer_pk@,
                account_id@,
            ).0,
            final(self)@ == spec_claim(
                old(self)@,
                predecessor_id@,
                current_id@,
                signer_pk@,
                account_id@,
            ).1,
    {
        if !bytes_eq(predecessor_id, current_id) {
            return Err(Error::UnauthorizedCaller);
        }
        if !is_valid_account_id(&account_id) {
            return Err(Error::InvalidAccount);
        }
        let nft = match self.accounts.remove(signer_pk) {
            None => {
                return Err(Error::UnknownCredential);
            },
            Some(nft) => nft,
        };
        proof {
            assert(final(self)@ =~= spec_claim(
                old(self)@,
                predecessor_id@,
                current_id@,
                signer_pk@,
                account_id@,
            ).1);
        }
        Ok(
            ClaimReceipt {
                deleted_key: clone_bytes(signer_pk),
                transfer: NftTransferRequest {
                    registry_id: nft.contract_id,
                    token_id: nft.token_id,
                    receiver_id: account_id,
                    approval_id: None,
                    memo: Vec::new(),
                    attached_amount: 1,
                    gas: GAS_FOR_NFT_TRANSFER_CALL,
                },
            },
        )
    }

    /// Handles an inbound asset transfer from a registry: decodes the one-time
    /// key from the message and issues a credential bound to
    /// `{registry = caller, token_id, owner = sender}`. The returned flag is
    /// always `false` — the registry should finalize the transfer regardless
    /// of the issuance outcome, which the second component reports.
    pub fn nft_on_transfer(
        &mut self,
        predecessor_id: &Vec<u8>,
        sender_id: &Vec<u8>,
        _previous_owner_id: &Vec<u8>,
        token_id: String,
        msg: &String,
    ) -> (r: (bool, Result<KeyGrant, Error>))
        requires
            old(self).wf(),
        ensures
            final(self).wf(),
            r.0 == false,
            grant_result_view(r.1) == spec_on_transfer(
                old(self)@,
                predecessor_id@,
                sender_id@,
                token_id@,
                msg@,
            ).0,
            final(self)@ == spec_on_transfer(
                old(self)@,
                predecessor_id@,
                sender_id@,
                token_id@,
                msg@,
            ).1,
    {
        let public_key = match parse_public_key(msg) {
            None => {
                return (false, Err(Error::InvalidMessage));
            },
            Some(k) => k,
        };
        let nft = NFT {
            contract_id: clone_bytes(predecessor_id),
            token_id: token_id,
            owner_id: clone_bytes(sender_id),
        };
        let r = self.send_nft(public_key, nft);
        (false, r)
    }
}

} // verus!
