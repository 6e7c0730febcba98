use bech32::ToBase32;
use nerdbank_zcash::materialize::{
    get_transactions, rebuild_sapling_address, AccountKeys, ChainNetwork, SaplingKey, TxRow,
};
use nerdbank_zcash::sapling::{
    decrypt_sapling_diversifier, decrypt_sapling_diversifier_with_ivk, derive_internal_fvk_sapling,
    derive_internal_sk_sapling, derive_sapling_child, derive_sapling_ivk_from_fvk,
    get_sapling_expanded_sk, get_sapling_fvk_from_expanded_sk, get_sapling_receiver,
};

struct Keys {
    fvk: [u8; 96],
    ivk: [u8; 32],
    dk: [u8; 32],
}

fn keys() -> Keys {
    let sk = [3u8; 32];
    let mut expsk = [0u8; 96];
    get_sapling_expanded_sk(&sk, &mut expsk);
    assert_ne!(expsk, [0u8; 96]);
    let mut fvk = [0u8; 96];
    assert_eq!(get_sapling_fvk_from_expanded_sk(&expsk, &mut fvk), 0);
    let mut ivk = [0u8; 32];
    assert_eq!(derive_sapling_ivk_from_fvk(&fvk, &mut ivk), 0);
    assert_ne!(ivk, [0u8; 32]);
    Keys { fvk, ivk, dk: [7u8; 32] }
}

#[test]
fn receiver_round_trips_through_both_decryptions() {
    let k = keys();
    let mut index = [0u8; 11];
    let mut receiver = [0u8; 43];
    assert_eq!(get_sapling_receiver(&k.ivk, &k.dk, &mut index, &mut receiver), 0);
    assert_ne!(receiver, [0u8; 43]);

    let mut found = [0xAAu8; 11];
    assert_eq!(decrypt_sapling_diversifier_with_ivk(&k.ivk, &k.dk, &receiver, &mut found), 0);
    assert_eq!(found, index);

    let mut found = [0xAAu8; 11];
    let mut scope = 9u8;
    assert_eq!(decrypt_sapling_diversifier(&k.fvk, &k.dk, &receiver, &mut found, &mut scope), 0);
    assert_eq!(found, index);
    assert_eq!(scope, 0);
}

#[test]
fn foreign_receiver_is_not_claimed() {
    let k = keys();
    let other_dk = [9u8; 32];
    let mut index = [0u8; 11];
    let mut receiver = [0u8; 43];
    let other_ivk = {
        let mut expsk = [0u8; 96];
        get_sapling_expanded_sk(&[4u8; 32], &mut expsk);
        let mut fvk = [0u8; 96];
        assert_eq!(get_sapling_fvk_from_expanded_sk(&expsk, &mut fvk), 0);
        let mut ivk = [0u8; 32];
        assert_eq!(derive_sapling_ivk_from_fvk(&fvk, &mut ivk), 0);
        ivk
    };
    assert_eq!(get_sapling_receiver(&other_ivk, &other_dk, &mut index, &mut receiver), 0);
    let mut found = [0xAAu8; 11];
    assert_eq!(decrypt_sapling_diversifier_with_ivk(&k.ivk, &k.dk, &receiver, &mut found), 1);
    assert_eq!(found, [0xAAu8; 11]);
    let mut scope = 9u8;
    assert_eq!(decrypt_sapling_diversifier(&k.fvk, &k.dk, &receiver, &mut found, &mut scope), 1);
    assert_eq!(scope, 9);
}

#[test]
fn undecodable_inputs_give_their_codes() {
    let k = keys();
    let bad_receiver = [0xFFu8; 43];
    let mut found = [0u8; 11];
    assert_eq!(decrypt_sapling_diversifier_with_ivk(&[0xFFu8; 32], &k.dk, &bad_receiver, &mut found), -1);
    assert_eq!(decrypt_sapling_diversifier_with_ivk(&k.ivk, &k.dk, &bad_receiver, &mut found), -2);
    let mut scope = 0u8;
    assert_eq!(decrypt_sapling_diversifier(&[0xFFu8; 96], &k.dk, &bad_receiver, &mut found, &mut scope), -1);
    assert_eq!(decrypt_sapling_diversifier(&k.fvk, &k.dk, &bad_receiver, &mut found, &mut scope), -2);
    let mut ivk = [5u8; 32];
    assert_eq!(derive_sapling_ivk_from_fvk(&[0xFFu8; 96], &mut ivk), -1);
    assert_eq!(ivk, [5u8; 32]);
    let mut receiver = [0u8; 43];
    let mut index = [0u8; 11];
    assert_eq!(get_sapling_receiver(&[0xFFu8; 32], &k.dk, &mut index, &mut receiver), -1);
    let mut fvk = [0u8; 96];
    assert_eq!(get_sapling_fvk_from_expanded_sk(&[0xFFu8; 96], &mut fvk), -1);
}

#[test]
fn internal_keys_differ_from_external_ones() {
    let k = keys();
    let mut ifvk = [0u8; 96];
    let mut idk = [0u8; 32];
    assert_eq!(derive_internal_fvk_sapling(&k.fvk, &k.dk, &mut ifvk, &mut idk), 0);
    assert_ne!(ifvk, k.fvk);
    assert_ne!(idk, k.dk);
    assert_eq!(derive_internal_fvk_sapling(&[0xFFu8; 96], &k.dk, &mut ifvk, &mut idk), -1);
}

#[test]
fn child_derivation_needs_hardened_index_and_valid_key() {
    let mut child = [0u8; 169];
    assert_eq!(derive_sapling_child(&[0u8; 169], 5, &mut child), -2);
    assert_eq!(derive_sapling_child(&[0xFFu8; 169], 0x8000_0000, &mut child), -1);
    let mut internal = [0u8; 169];
    assert_eq!(derive_internal_sk_sapling(&[0xFFu8; 169], &mut internal), -1);
}

#[test]
fn missing_sapling_recipient_is_rebuilt_from_the_viewing_key() {
    let k = keys();
    let mut index = [0u8; 11];
    let mut receiver = [0u8; 43];
    assert_eq!(get_sapling_receiver(&k.ivk, &k.dk, &mut index, &mut receiver), 0);
    let d = receiver[..11].to_vec();
    let account = AccountKeys { account_id: 4, sapling: Some(SaplingKey { fvk: k.fvk, dk: k.dk }) };
    let expected =
        bech32::encode("zs", receiver.to_base32(), bech32::Variant::Bech32).unwrap();
    assert!(expected.starts_with("zs1"));
    assert_eq!(
        rebuild_sapling_address(4, 2, &Some(d.clone()), &vec![account], ChainNetwork::Main),
        Some(expected.clone())
    );
    let testnet =
        bech32::encode("ztestsapling", receiver.to_base32(), bech32::Variant::Bech32).unwrap();
    assert_eq!(
        rebuild_sapling_address(4, 2, &Some(d.clone()), &vec![account], ChainNetwork::Test),
        Some(testnet)
    );
    assert_eq!(rebuild_sapling_address(5, 2, &Some(d.clone()), &vec![account], ChainNetwork::Main), None);
    assert_eq!(rebuild_sapling_address(4, 3, &Some(d.clone()), &vec![account], ChainNetwork::Main), None);

    let row = TxRow {
        account_id: 4,
        txid: vec![1; 32],
        output_pool: 2,
        from_account: Some(9),
        to_account: Some(4),
        to_address: None,
        diversifier: Some(d),
        value: 500,
        memo: None,
        mined_height: None,
        expired_unmined: None,
        block_time: None,
        fee_paid: None,
        account_balance_delta: 500,
    };
    let txs = get_transactions(vec![row], &vec![account], ChainNetwork::Main).unwrap();
    assert_eq!(txs[0].incoming[0].recipient, Some(expected));
}
