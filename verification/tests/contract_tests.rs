use nft_linkdrop::Contract;
use nft_linkdrop::Error;
use nft_linkdrop::NFT;
use nft_linkdrop::ACCESS_KEY_ALLOWANCE;
use nft_linkdrop::GAS_FOR_NFT_TRANSFER_CALL;
use nft_linkdrop::STORAGE_AMOUNT;

fn acct(s: &str) -> Vec<u8> {
    s.as_bytes().to_vec()
}

fn key_msg(key_bytes: &[u8]) -> String {
    format!("\"ed25519:{}\"", bs58::encode(key_bytes).into_string())
}

fn funded_contract(owner: &str, count: u128) -> Contract {
    let mut c = Contract::new();
    let attached = STORAGE_AMOUNT + count * ACCESS_KEY_ALLOWANCE;
    assert_eq!(c.drop_deposit(&acct(owner), count, attached), Ok(()));
    c
}

#[test]
fn deposit_sets_balance() {
    let c = funded_contract("alice", 1);
    assert_eq!(c.get_deposit(&acct("alice")), Ok(ACCESS_KEY_ALLOWANCE));
}

#[test]
fn deposit_wrong_amount_rejected() {
    let mut c = Contract::new();
    let r = c.drop_deposit(&acct("alice"), 1, STORAGE_AMOUNT + ACCESS_KEY_ALLOWANCE - 1);
    assert_eq!(r, Err(Error::InvalidDepositAmount));
    assert_eq!(c.get_deposit(&acct("alice")), Err(Error::NoEscrowAccount));
}

#[test]
fn deposit_huge_count_rejected() {
    let mut c = Contract::new();
    let r = c.drop_deposit(&acct("alice"), u128::MAX, u128::MAX);
    assert_eq!(r, Err(Error::InvalidDepositAmount));
}

#[test]
fn deposit_overwrites_balance() {
    let mut c = funded_contract("alice", 3);
    let attached = STORAGE_AMOUNT + 2 * ACCESS_KEY_ALLOWANCE;
    assert_eq!(c.drop_deposit(&acct("alice"), 2, attached), Ok(()));
    assert_eq!(c.get_deposit(&acct("alice")), Ok(2 * ACCESS_KEY_ALLOWANCE));
}

#[test]
fn each_issue_consumes_exactly_one_fee() {
    let mut c = funded_contract("alice", 2);
    assert_eq!(c.get_deposit(&acct("alice")), Ok(2 * ACCESS_KEY_ALLOWANCE));
    let nft = NFT {
        contract_id: acct("registry"),
        token_id: "tok-1".to_string(),
        owner_id: acct("alice"),
    };
    c.send_nft(vec![1u8; 33], nft).expect("first issue should succeed");
    assert_eq!(c.get_deposit(&acct("alice")), Ok(ACCESS_KEY_ALLOWANCE));
    let nft2 = NFT {
        contract_id: acct("registry"),
        token_id: "tok-2".to_string(),
        owner_id: acct("alice"),
    };
    c.send_nft(vec![2u8; 33], nft2).expect("second issue should succeed");
    assert_eq!(c.get_deposit(&acct("alice")), Ok(0));
}

#[test]
fn withdraw_without_account_fails() {
    let mut c = Contract::new();
    assert_eq!(
        c.drop_withdraw(&acct("alice"), 1).map(|o| o.is_some()),
        Err(Error::NoEscrowAccount)
    );
}

#[test]
fn withdraw_with_outstanding_balance_is_a_no_op() {
    let mut c = funded_contract("alice", 1);
    let r = c.drop_withdraw(&acct("alice"), 1);
    assert!(matches!(r, Ok(None)));
    assert_eq!(c.get_deposit(&acct("alice")), Ok(ACCESS_KEY_ALLOWANCE));
}

#[test]
fn deposit_issue_withdraw_cycle() {
    let mut c = funded_contract("alice", 1);

    let nft = NFT {
        contract_id: acct("registry"),
        token_id: "tok-1".to_string(),
        owner_id: acct("alice"),
    };
    let grant = c.send_nft(vec![0u8; 33], nft).expect("issue should succeed");
    assert_eq!(grant.public_key, vec![0u8; 33]);
    assert_eq!(grant.allowance, ACCESS_KEY_ALLOWANCE);
    assert_eq!(c.get_deposit(&acct("alice")), Ok(0));

    let refund = c.drop_withdraw(&acct("alice"), 1).expect("withdraw should succeed");
    let refund = refund.expect("stake should be refunded");
    assert_eq!(refund.receiver_id, acct("alice"));
    assert_eq!(refund.amount, STORAGE_AMOUNT);
    assert_eq!(c.get_deposit(&acct("alice")), Err(Error::NoEscrowAccount));
}

#[test]
fn issue_without_escrow_fails() {
    let mut c = Contract::new();
    let nft = NFT {
        contract_id: acct("registry"),
        token_id: "tok-1".to_string(),
        owner_id: acct("alice"),
    };
    let r = c.send_nft(vec![0u8; 33], nft);
    assert!(matches!(r, Err(Error::InsufficientEscrow)));
}

#[test]
fn issue_with_less_than_one_fee_fails() {
    let mut c = funded_contract("alice", 1);
    let nft = NFT {
        contract_id: acct("registry"),
        token_id: "tok-1".to_string(),
        owner_id: acct("alice"),
    };
    c.send_nft(vec![1u8; 33], nft).expect("first issue should succeed");
    let nft2 = NFT {
        contract_id: acct("registry"),
        token_id: "tok-2".to_string(),
        owner_id: acct("alice"),
    };
    let r = c.send_nft(vec![2u8; 33], nft2);
    assert!(matches!(r, Err(Error::InsufficientEscrow)));
}

#[test]
fn on_asset_received_binds_one_key() {
    let mut c = funded_contract("sender-a", 1);
    let key_bytes = [7u8; 32];
    let msg = key_msg(&key_bytes);

    let (finalize, r) = c.nft_on_transfer(
        &acct("registry"),
        &acct("sender-a"),
        &acct("sender-a"),
        "tok-1".to_string(),
        &msg,
    );
    assert!(!finalize);
    let grant = r.expect("issuance should succeed");
    let mut expected_key = vec![0u8];
    expected_key.extend_from_slice(&key_bytes);
    assert_eq!(grant.public_key, expected_key);
    assert_eq!(grant.allowance, ACCESS_KEY_ALLOWANCE);
    assert_eq!(c.get_deposit(&acct("sender-a")), Ok(0));

    // The recorded binding is claimable exactly once, with the bound asset.
    let current = acct("linkdrop");
    let receipt = c
        .claim_nft(&current, &current, &expected_key, acct("bob"))
        .expect("claim should succeed");
    assert_eq!(receipt.transfer.registry_id, acct("registry"));
    assert_eq!(receipt.transfer.token_id, "tok-1".to_string());
}

#[test]
fn claim_twice_fails_the_second_time() {
    let mut c = funded_contract("alice", 2);
    let pk = vec![9u8; 33];
    let nft = NFT {
        contract_id: acct("registry"),
        token_id: "tok-1".to_string(),
        owner_id: acct("alice"),
    };
    c.send_nft(pk.clone(), nft).expect("issue should succeed");

    let current = acct("linkdrop");
    let receipt = c
        .claim_nft(&current, &current, &pk, acct("account-b"))
        .expect("first claim should succeed");
    assert_eq!(receipt.deleted_key, pk);
    assert_eq!(receipt.transfer.registry_id, acct("registry"));
    assert_eq!(receipt.transfer.token_id, "tok-1".to_string());
    assert_eq!(receipt.transfer.receiver_id, acct("account-b"));
    assert_eq!(receipt.transfer.approval_id, None);
    assert!(receipt.transfer.memo.is_empty());
    assert_eq!(receipt.transfer.attached_amount, 1);
    assert_eq!(receipt.transfer.gas, GAS_FOR_NFT_TRANSFER_CALL);

    let second = c.claim_nft(&current, &current, &pk, acct("account-c"));
    assert!(matches!(second, Err(Error::UnknownCredential)));
}

#[test]
fn reissuing_the_same_key_overwrites_the_stale_binding() {
    let mut c = funded_contract("alice", 2);
    let pk = vec![9u8; 33];
    let nft = NFT {
        contract_id: acct("registry"),
        token_id: "tok-1".to_string(),
        owner_id: acct("alice"),
    };
    c.send_nft(pk.clone(), nft).expect("first issue should succeed");
    let nft2 = NFT {
        contract_id: acct("registry"),
        token_id: "tok-2".to_string(),
        owner_id: acct("alice"),
    };
    c.send_nft(pk.clone(), nft2).expect("second issue should succeed");

    let current = acct("linkdrop");
    let receipt = c
        .claim_nft(&current, &current, &pk, acct("bob"))
        .expect("claim should succeed");
    assert_eq!(receipt.transfer.token_id, "tok-2".to_string());
    let again = c.claim_nft(&current, &current, &pk, acct("bob"));
    assert!(matches!(again, Err(Error::UnknownCredential)));
}

#[test]
fn claim_not_self_addressed_fails() {
    let mut c = funded_contract("alice", 1);
    let pk = vec![9u8; 33];
    let nft = NFT {
        contract_id: acct("registry"),
        token_id: "tok-1".to_string(),
        owner_id: acct("alice"),
    };
    c.send_nft(pk.clone(), nft).expect("issue should succeed");

    let r = c.claim_nft(&acct("mallory"), &acct("linkdrop"), &pk, acct("bob"));
    assert!(matches!(r, Err(Error::UnauthorizedCaller)));

    // The binding and the balance are untouched: the claim still works.
    let current = acct("linkdrop");
    assert_eq!(c.get_deposit(&acct("alice")), Ok(0));
    c.claim_nft(&current, &current, &pk, acct("bob"))
        .expect("the credential should still be live");
}

#[test]
fn claim_invalid_beneficiary_fails() {
    let mut c = funded_contract("alice", 1);
    let pk = vec![9u8; 33];
    let nft = NFT {
        contract_id: acct("registry"),
        token_id: "tok-1".to_string(),
        owner_id: acct("alice"),
    };
    c.send_nft(pk.clone(), nft).expect("issue should succeed");

    let current = acct("linkdrop");
    let r = c.claim_nft(&current, &current, &pk, acct("Not Valid!"));
    assert!(matches!(r, Err(Error::InvalidAccount)));
}

#[test]
fn claim_unknown_credential_fails() {
    let mut c = Contract::new();
    let current = acct("linkdrop");
    let r = c.claim_nft(&current, &current, &vec![5u8; 33], acct("bob"));
    assert!(matches!(r, Err(Error::UnknownCredential)));
}

#[test]
fn on_asset_received_invalid_message_fails() {
    let mut c = funded_contract("sender-a", 1);
    let (finalize, r) = c.nft_on_transfer(
        &acct("registry"),
        &acct("sender-a"),
        &acct("sender-a"),
        "tok-1".to_string(),
        &"not a json string".to_string(),
    );
    assert!(!finalize);
    assert!(matches!(r, Err(Error::InvalidMessage)));
    // No fee was consumed.
    assert_eq!(c.get_deposit(&acct("sender-a")), Ok(ACCESS_KEY_ALLOWANCE));
}
