//! The protocol laws, proved of the model's transitions. Every executable
//! operation is proved equal to its transition, so these laws hold of the
//! running contract as well.

use vstd::prelude::*;

use crate::account::valid_account_id;
use crate::model::Error;
use crate::model::NftView;
use crate::model::StateView;
use crate::model::TransferView;
use crate::model::ACCESS_KEY_ALLOWANCE;
use crate::model::STORAGE_AMOUNT;
use crate::model::spec_claim;
use crate::model::spec_deposit;
use crate::model::spec_issue;
use crate::model::spec_withdraw;

verus! {

/// At-most-once redemption: once a claim has consumed a credential, any later
/// claim presenting the same credential fails with `UnknownCredential` and
/// changes nothing — whoever calls and whomever they nominate.
pub proof fn lemma_claim_at_most_once(
    s: StateView,
    predecessor_id: Seq<u8>,
    current_id: Seq<u8>,
    signer_pk: Seq<u8>,
    account_id: Seq<u8>,
    second_account_id: Seq<u8>,
)
    requires
        spec_claim(s, predecessor_id, current_id, signer_pk, account_id).0 is Ok,
        valid_account_id(second_account_id),
    ensures
        ({
            let s1 = spec_claim(s, predecessor_id, current_id, signer_pk, account_id).1;
            let (r2, s2) = spec_claim(s1, current_id, current_id, signer_pk, second_account_id);
            r2 == Err::<crate::model::ClaimReceiptView, Error>(Error::UnknownCredential) && s2
                == s1
        }),
{
}

/// Only an issue can make a credential live again: deposit and withdraw leave
/// every binding untouched, and a claim never adds one. So once a credential
/// is consumed, every later claim presenting it fails until an issue rebinds
/// that exact key — which the issuer never does, keys being one-time.
pub proof fn lemma_no_rebinding(
    s: StateView,
    pk: Seq<u8>,
    sender: Seq<u8>,
    total_drop: u128,
    attached: u128,
    predecessor_id: Seq<u8>,
    current_id: Seq<u8>,
    other_pk: Seq<u8>,
    account_id: Seq<u8>,
)
    requires
        !s.bindings.dom().contains(pk),
    ensures
        !spec_deposit(s, sender, total_drop, attached).1.bindings.dom().contains(pk),
        !spec_withdraw(s, sender).1.bindings.dom().contains(pk),
        !spec_claim(s, predecessor_id, current_id, other_pk, account_id).1.bindings.dom().contains(
            pk,
        ),
{
}

/// One step of conservation: a successful issue debits exactly one fee from
/// the binding owner's balance, and succeeds exactly when that balance covers
/// the fee.
pub proof fn lemma_issue_conservation(s: StateView, public_key: Seq<u8>, nft: NftView)
    ensures
        spec_issue(s, public_key, nft).0 is Ok <==> (s.deposits.dom().contains(nft.owner_id)
            && s.deposits[nft.owner_id] >= ACCESS_KEY_ALLOWANCE),
        spec_issue(s, public_key, nft).0 is Ok ==> {
            let s1 = spec_issue(s, public_key, nft).1;
            s1.deposits[nft.owner_id] == s.deposits[nft.owner_id] - ACCESS_KEY_ALLOWANCE
        },
        spec_issue(s, public_key, nft).0 is Err ==> spec_issue(s, public_key, nft).1 == s,
{
}

/// The state after issuing every credential of `items` in order, when each
/// issue succeeds.
pub open spec fn issue_all(s: StateView, items: Seq<(Seq<u8>, NftView)>) -> Option<StateView>
    decreases items.len(),
{
    if items.len() == 0 {
        Some(s)
    } else {
        let (r, s1) = spec_issue(s, items[0].0, items[0].1);
        if r is Ok {
            issue_all(s1, items.skip(1))
        } else {
            None
        }
    }
}

/// Issuing from a balance of `m` fees: as long as no more than `m`
/// credentials are issued for the owner, every issue succeeds and the balance
/// is exactly the remaining number of fees — in particular never negative.
proof fn lemma_issue_all_drains(
    s: StateView,
    owner: Seq<u8>,
    m: int,
    items: Seq<(Seq<u8>, NftView)>,
)
    requires
        0 <= m,
        s.deposits.dom().contains(owner),
        s.deposits[owner] == m * ACCESS_KEY_ALLOWANCE,
        items.len() <= m,
        forall|i: int| 0 <= i < items.len() ==> items[i].1.owner_id == owner,
    ensures
        issue_all(s, items) is Some,
        ({
            let s1 = issue_all(s, items)->Some_0;
            s1.deposits.dom().contains(owner) && s1.deposits[owner] == (m - items.len())
                * ACCESS_KEY_ALLOWANCE
        }),
    decreases items.len(),
{
    if items.len() == 0 {
    } else {
        assert(items[0].1.owner_id == owner);
        assert(m >= 1);
        assert(m * ACCESS_KEY_ALLOWANCE >= 1 * ACCESS_KEY_ALLOWANCE) by (nonlinear_arith)
            requires
                m >= 1,
        ;
        let (r, s1) = spec_issue(s, items[0].0, items[0].1);
        assert(r is Ok);
        assert(s1.deposits[owner] == m * ACCESS_KEY_ALLOWANCE - ACCESS_KEY_ALLOWANCE);
        assert(m * ACCESS_KEY_ALLOWANCE - ACCESS_KEY_ALLOWANCE == (m - 1)
            * ACCESS_KEY_ALLOWANCE) by (nonlinear_arith);
        assert(forall|i: int| 0 <= i < items.skip(1).len()
            ==> items.skip(1)[i] == items[i + 1]);
        lemma_issue_all_drains(s1, owner, m - 1, items.skip(1));
    }
}

/// Conservation: an accepted deposit declaring `n` credentials sets the
/// balance to `n` fees, and after any `k <= n` successful issues for that
/// owner the balance is exactly `(n - k)` fees — never negative.
pub proof fn lemma_conservation(
    s: StateView,
    sender: Seq<u8>,
    total_drop: u128,
    attached: u128,
    items: Seq<(Seq<u8>, NftView)>,
)
    requires
        attached == STORAGE_AMOUNT + total_drop * ACCESS_KEY_ALLOWANCE,
        items.len() <= total_drop,
        forall|i: int| 0 <= i < items.len() ==> items[i].1.owner_id == sender,
    ensures
        spec_deposit(s, sender, total_drop, attached).0 is Ok,
        ({
            let s1 = spec_deposit(s, sender, total_drop, attached).1;
            s1.deposits[sender] == total_drop * ACCESS_KEY_ALLOWANCE && issue_all(s1, items)
                is Some && issue_all(s1, items)->Some_0.deposits[sender] == (total_drop
                - items.len()) * ACCESS_KEY_ALLOWANCE
        }),
{
    let s1 = spec_deposit(s, sender, total_drop, attached).1;
    lemma_issue_all_drains(s1, sender, total_drop as int, items);
}

/// Withdraw gating: withdrawal succeeds — refunding exactly the stake to the
/// owner and deleting the escrow account — precisely when the account exists
/// with a balance of exactly zero; in every other case the state is
/// unchanged, and a positive balance reports no refund.
pub proof fn lemma_withdraw_gating(s: StateView, sender: Seq<u8>)
    ensures
        ({
            let (r, s1) = spec_withdraw(s, sender);
            &&& (s.deposits.dom().contains(sender) && s.deposits[sender] == 0) <==> r == Ok::<
                Option<TransferView>,
                Error,
            >(Some(TransferView { receiver_id: sender, amount: STORAGE_AMOUNT }))
            &&& (s.deposits.dom().contains(sender) && s.deposits[sender] == 0) ==> s1
                == (StateView { deposits: s.deposits.remove(sender), ..s })
            &&& (s.deposits.dom().contains(sender) && s.deposits[sender] != 0) ==> (r == Ok::<
                Option<TransferView>,
                Error,
            >(None) && s1 == s)
            &&& !s.deposits.dom().contains(sender) ==> (r == Err::<
                Option<TransferView>,
                Error,
            >(Error::NoEscrowAccount) && s1 == s)
        }),
{
}

/// Binding fidelity: a claim that succeeds transfers exactly the asset
/// recorded at issuance for that exact credential — the same registry and the
/// same token — to the nominated beneficiary, regardless of which account
/// calls the claim.
pub proof fn lemma_binding_fidelity(
    s: StateView,
    public_key: Seq<u8>,
    nft: NftView,
    caller_id: Seq<u8>,
    account_id: Seq<u8>,
)
    requires
        spec_issue(s, public_key, nft).0 is Ok,
        valid_account_id(account_id),
    ensures
        ({
            let s1 = spec_issue(s, public_key, nft).1;
            let (r, _) = spec_claim(s1, caller_id, caller_id, public_key, account_id);
            &&& r is Ok
            &&& r->Ok_0.transfer.registry_id == nft.contract_id
            &&& r->Ok_0.transfer.token_id == nft.token_id
            &&& r->Ok_0.transfer.receiver_id == account_id
        }),
{
}

/// Authorization: a claim that is not self-addressed fails with
/// `UnauthorizedCaller` and leaves every balance and every binding untouched,
/// whatever credential signed it.
pub proof fn lemma_claim_authorization(
    s: StateView,
    predecessor_id: Seq<u8>,
    current_id: Seq<u8>,
    signer_pk: Seq<u8>,
    account_id: Seq<u8>,
)
    requires
        predecessor_id != current_id,
    ensures
        spec_claim(s, predecessor_id, current_id, signer_pk, account_id).0 == Err::<
            crate::model::ClaimReceiptView,
            Error,
        >(Error::UnauthorizedCaller),
        spec_claim(s, predecessor_id, current_id, signer_pk, account_id).1 == s,
{
}

} // verus!
