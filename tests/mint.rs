use nft_market::coin::Coin;
use nft_market::entropy::{mint_draw_word, new_entropy};
use nft_market::error::ContractError;
use nft_market::instruction::{Extension, Instruction, MintMsg};
use nft_market::mint::{
    draw, execute_add_white_users, execute_change_sale_type, execute_mint, execute_set_config,
    execute_set_flag, instantiate, mint_with_word, query, query_user_info, reply, MintInfo,
    QueryMsg, QueryResponse, State, WhiteUserInfo, MAX_PER_ADDRESS_LIMIT, MAX_TOKEN_LIMIT,
};
use rand::{RngCore, SeedableRng};
use sha2::Digest;
use std::collections::BTreeSet;

const NOW: u64 = 1_000;

fn s(text: &str) -> String {
    text.to_string()
}

fn coin(amount: u128, denom: &str) -> Coin {
    Coin { denom: s(denom), amount }
}

fn info(total_supply: u128, per_address_limit: u128, is_public_mint: bool) -> MintInfo {
    MintInfo {
        base_token_uri: s("ipfs://meta/"),
        total_supply,
        start_mint_time: NOW,
        per_address_limit,
        public_price: coin(100, "earth"),
        private_price: coin(50, "earth"),
        mint_flag: false,
        is_public_mint,
        nft_base_name: s("Punk"),
        base_image_uri: s("ipfs://img/"),
    }
}

fn engine(total_supply: u128, per_address_limit: u128, is_public_mint: bool) -> State {
    instantiate(s("admin"), NOW, info(total_supply, per_address_limit, is_public_mint), s("image/png"), true).unwrap()
}

fn minted_index(out: &[Instruction]) -> u32 {
    match &out[0] {
        Instruction::MintNft(m) => m.token_id.strip_prefix("Punk.").unwrap().parse().unwrap(),
        _ => panic!("first instruction must be a mint"),
    }
}

#[test]
fn instantiate_builds_full_pool() {
    let state = engine(5, 3, true);
    assert_eq!(state.enable_token_id, Some(vec![1, 2, 3, 4, 5]));
    assert_eq!(state.mint_count, 0);
    assert!(state.mint_flag);
    assert_eq!(state.admin, "admin");
    let seq = instantiate(s("admin"), NOW, info(5, 3, true), s("image/png"), false).unwrap();
    assert_eq!(seq.enable_token_id, None);
}

#[test]
fn instantiate_rejects_bad_parameters() {
    assert_eq!(
        instantiate(s("a"), NOW, info(0, 3, true), s("image/png"), true),
        Err(ContractError::InvalidNumTokens { min: 1, max: MAX_TOKEN_LIMIT })
    );
    assert_eq!(
        instantiate(s("a"), NOW, info(MAX_TOKEN_LIMIT + 1, 3, true), s("image/png"), true),
        Err(ContractError::InvalidNumTokens { min: 1, max: MAX_TOKEN_LIMIT })
    );
    assert_eq!(
        instantiate(s("a"), NOW, info(5, 0, true), s("image/png"), true),
        Err(ContractError::InvalidLimit { min: 1, max: MAX_PER_ADDRESS_LIMIT, got: 0 })
    );
    assert_eq!(
        instantiate(s("a"), NOW, info(5, 101, true), s("image/png"), true),
        Err(ContractError::InvalidLimit { min: 1, max: MAX_PER_ADDRESS_LIMIT, got: 101 })
    );
    assert_eq!(
        instantiate(s("a"), NOW + 1, info(5, 3, true), s("image/png"), true),
        Err(ContractError::InvalidStartTime { start: NOW, now: NOW + 1 })
    );
    assert!(instantiate(s("a"), NOW, info(MAX_TOKEN_LIMIT, MAX_PER_ADDRESS_LIMIT, true), s("image/png"), true).is_ok());
}

#[test]
fn draw_swaps_last_into_drawn_slot() {
    let mut pool = vec![1u32, 2, 3, 4, 5];
    assert_eq!(draw(&mut pool, 1), 2);
    assert_eq!(pool, vec![1, 5, 3, 4]);
    assert_eq!(draw(&mut pool, 7), 4);
    assert_eq!(pool, vec![1, 5, 3]);
}

#[test]
fn public_mint_pays_admin_and_names_token() {
    let mut state = engine(5, 3, true);
    let (mut minted, mut quota) = (None, None);
    let funds = vec![coin(100, "earth")];
    let out = mint_with_word(&mut state, &mut minted, &mut quota, &s("alice"), NOW, &funds, 1).unwrap();
    assert_eq!(
        out,
        vec![
            Instruction::MintNft(MintMsg {
                token_id: s("Punk.2"),
                owner: s("alice"),
                token_uri: Some(s("ipfs://meta/2.json")),
                content_type: s("image/png"),
                extension: Extension { minter: s("alice"), image_url: s("ipfs://img/2.png") },
            }),
            Instruction::SendFunds { to_address: s("admin"), amount: coin(100, "earth") },
        ]
    );
    assert_eq!(minted, Some(1));
    assert_eq!(quota, None);
    assert_eq!(state.mint_count, 1);
    assert_eq!(state.enable_token_id, Some(vec![1, 5, 3, 4]));
}

#[test]
fn per_address_limit_one_allows_a_single_mint() {
    let mut state = engine(5, 1, true);
    let (mut minted, mut quota) = (None, None);
    let funds = vec![coin(100, "earth")];
    assert!(execute_mint(&mut state, &mut minted, &mut quota, &s("A"), NOW, 12, &funds).is_ok());
    let r = execute_mint(&mut state, &mut minted, &mut quota, &s("A"), NOW, 13, &funds);
    assert_eq!(r, Err(ContractError::LimitExceeded));
    assert_eq!(state.mint_count, 1);
    assert_eq!(minted, Some(1));
}

#[test]
fn supply_runs_out_then_sold_out() {
    let mut state = engine(3, 100, true);
    let mut minted = None;
    let mut quota = None;
    for k in 0..3u128 {
        execute_mint(&mut state, &mut minted, &mut quota, &s("admin"), NOW, 40 + k as u64, &vec![]).unwrap();
        assert_eq!(state.mint_count, k + 1);
    }
    let r = execute_mint(&mut state, &mut minted, &mut quota, &s("admin"), NOW, 99, &vec![]);
    assert_eq!(r, Err(ContractError::SoldOut));
    assert_eq!(state.mint_count, 3);
    assert_eq!(state.enable_token_id, Some(vec![]));
}

#[test]
fn full_depletion_issues_each_index_once() {
    let mut state = engine(20, 100, true);
    let mut minted = None;
    let mut quota = None;
    let mut seen = BTreeSet::new();
    for k in 0..20u64 {
        let out = execute_mint(&mut state, &mut minted, &mut quota, &s("admin"), NOW, 1000 + k, &vec![]).unwrap();
        assert!(seen.insert(minted_index(&out)));
    }
    assert_eq!(seen, (1..=20).collect::<BTreeSet<u32>>());
}

#[test]
fn sequential_mode_issues_next_index() {
    let mut state = instantiate(s("admin"), NOW, info(3, 100, true), s("image/png"), false).unwrap();
    let (mut minted, mut quota) = (None, None);
    for expected in 1..=3u32 {
        let out = mint_with_word(&mut state, &mut minted, &mut quota, &s("admin"), NOW, &vec![], 77).unwrap();
        assert_eq!(minted_index(&out), expected);
        assert_eq!(out.len(), 1);
    }
}

#[test]
fn gates_are_checked_in_order() {
    let funds = vec![coin(100, "earth")];
    let mut state = engine(5, 3, true);
    let (mut minted, mut quota) = (None, None);
    state.mint_flag = false;
    assert_eq!(mint_with_word(&mut state, &mut minted, &mut quota, &s("a"), NOW, &funds, 0), Err(ContractError::MintingDisabled));
    state.mint_flag = true;
    assert_eq!(mint_with_word(&mut state, &mut minted, &mut quota, &s("a"), NOW - 1, &funds, 0), Err(ContractError::MintNotStarted));
    execute_change_sale_type(&mut state, &s("admin"), false).unwrap();
    assert_eq!(mint_with_word(&mut state, &mut minted, &mut quota, &s("a"), NOW, &funds, 0), Err(ContractError::NotAllowlisted));
    let mut empty = Some(0u128);
    assert_eq!(mint_with_word(&mut state, &mut minted, &mut empty, &s("a"), NOW, &funds, 0), Err(ContractError::LimitExceeded));
    assert_eq!(state.mint_count, 0);
}

#[test]
fn private_sale_spends_quota_at_private_price() {
    let mut state = engine(5, 3, false);
    let mut minted = None;
    let mut quota = Some(2u128);
    let r = mint_with_word(&mut state, &mut minted, &mut quota, &s("bob"), NOW, &vec![coin(100, "earth")], 0);
    assert_eq!(r, Err(ContractError::WrongAmount { expected: 50, got: 100 }));
    assert_eq!(quota, Some(2));
    let out = mint_with_word(&mut state, &mut minted, &mut quota, &s("bob"), NOW, &vec![coin(50, "earth")], 0).unwrap();
    assert_eq!(out[1], Instruction::SendFunds { to_address: s("admin"), amount: coin(50, "earth") });
    assert_eq!(quota, Some(1));
    assert_eq!(minted, None);
}

#[test]
fn admin_mints_free_only() {
    let mut state = engine(5, 3, true);
    let (mut minted, mut quota) = (None, None);
    let r = mint_with_word(&mut state, &mut minted, &mut quota, &s("admin"), NOW, &vec![coin(1, "earth")], 0);
    assert_eq!(r, Err(ContractError::OverpaidBySelf { got: 1 }));
    let r = mint_with_word(&mut state, &mut minted, &mut quota, &s("alice"), NOW, &vec![], 0);
    assert_eq!(r, Err(ContractError::WrongAmount { expected: 100, got: 0 }));
    let r = mint_with_word(&mut state, &mut minted, &mut quota, &s("admin"), NOW, &vec![coin(0, "earth"), coin(9, "moon")], 0);
    assert_eq!(r, Err(ContractError::OverpaidBySelf { got: 9 }));
    assert_eq!(state.mint_count, 0);
    let out = mint_with_word(&mut state, &mut minted, &mut quota, &s("admin"), NOW, &vec![coin(0, "earth")], 0).unwrap();
    assert_eq!(out.len(), 1);
}

#[test]
fn admin_setters_are_gated() {
    let mut state = engine(5, 3, true);
    assert_eq!(execute_set_flag(&mut state, &s("x"), false), Err(ContractError::Unauthorized));
    assert!(state.mint_flag);
    execute_set_flag(&mut state, &s("admin"), false).unwrap();
    assert!(!state.mint_flag);
    assert_eq!(execute_change_sale_type(&mut state, &s("x"), false), Err(ContractError::Unauthorized));
    let users = vec![WhiteUserInfo { address: s("bob"), wallet_limit: 2 }];
    assert_eq!(execute_add_white_users(&state, &s("x"), users), Err(ContractError::Unauthorized));
    let users = vec![WhiteUserInfo { address: s("bob"), wallet_limit: 2 }];
    assert_eq!(execute_add_white_users(&state, &s("admin"), users).unwrap().len(), 1);
    let mut config = engine(9, 7, false);
    config.nft_base_name = s("Cat");
    config.start_mint_time = 5_000;
    assert_eq!(execute_set_config(&mut state, &s("x"), engine(1, 1, true)), Err(ContractError::Unauthorized));
    execute_set_config(&mut state, &s("admin"), config).unwrap();
    assert_eq!(state.nft_base_name, "Cat");
    assert_eq!(state.per_address_limit, 7);
    assert_eq!(state.start_mint_time, 5_000);
    assert_eq!(state.total_supply, 5);
}

#[test]
fn user_info_follows_sale_type() {
    let mut state = engine(5, 3, true);
    assert_eq!(query_user_info(&state, Some(2), Some(9)), 2);
    assert_eq!(query_user_info(&state, None, Some(9)), 0);
    execute_change_sale_type(&mut state, &s("admin"), false).unwrap();
    assert_eq!(query_user_info(&state, Some(2), Some(9)), 9);
    assert_eq!(query_user_info(&state, Some(2), None), 0);
}

#[test]
fn reply_checks_callback_id() {
    assert_eq!(reply(2, Some(s("addr"))), Err(ContractError::UnexpectedCallbackId { id: 2 }));
    assert_eq!(reply(1, None), Err(ContractError::AssetRegistryInstantiateFailed));
    assert_eq!(reply(1, Some(s("addr"))), Ok(s("addr")));
}

fn sha(bytes: &[u8]) -> Vec<u8> {
    sha2::Sha256::digest(bytes).to_vec()
}

fn chacha_key(key: &[u8]) -> [u8; 32] {
    let mut seed = [0u8; 32];
    seed.copy_from_slice(key);
    seed
}

#[test]
fn entropy_matches_direct_derivation() {
    let seed = sha(b"seed");
    let extra = vec![9u8, 8, 7];
    let mut material = seed.clone();
    material.extend_from_slice(&12345u64.to_be_bytes());
    material.extend_from_slice(b"alice");
    material.extend_from_slice(&extra);
    let mut rng = rand_chacha::ChaChaRng::from_seed(chacha_key(&sha(&material)));
    let mut expected = [0u8; 32];
    rng.fill_bytes(&mut expected);
    let got = new_entropy(12345, &s("alice"), &seed, &extra);
    assert_eq!(got, expected.to_vec());
    assert_ne!(got, sha(&material));
}

#[test]
fn draw_word_matches_direct_derivation() {
    let app_seed = sha(base64::encode("entropy").as_bytes());
    assert_eq!(base64::encode("entropy"), "ZW50cm9weQ==");
    let mut material = app_seed.clone();
    material.extend_from_slice(&77u64.to_be_bytes());
    material.extend_from_slice(b"bob");
    material.extend_from_slice(&app_seed);
    let mut rng = rand_chacha::ChaChaRng::from_seed(chacha_key(&sha(&material)));
    let mut key = [0u8; 32];
    rng.fill_bytes(&mut key);
    let expected = rand_chacha::ChaChaRng::from_seed(key).next_u32();
    assert_eq!(mint_draw_word(77, &s("bob")), expected);
    assert_eq!(mint_draw_word(77, &s("bob")), mint_draw_word(77, &s("bob")));
}

#[test]
fn mint_queries_are_routed() {
    let state = engine(5, 3, true);
    match query(&state, Some(2), None, &None, &QueryMsg::GetStateInfo) {
        Ok(QueryResponse::State(copy)) => assert_eq!(copy, state),
        other => panic!("unexpected answer {:?}", other),
    }
    let ask = QueryMsg::GetUserInfo { address: s("alice") };
    assert_eq!(query(&state, Some(2), None, &None, &ask), Ok(QueryResponse::UserInfo(2)));
    assert_eq!(query(&state, None, None, &None, &QueryMsg::GetCollectionAddress), Err(ContractError::NotFound));
    assert_eq!(
        query(&state, None, None, &Some(s("reg")), &QueryMsg::GetCollectionAddress),
        Ok(QueryResponse::CollectionAddress(s("reg")))
    );
}

#[test]
fn allowlist_keeps_last_entry_per_address() {
    let state = engine(5, 3, false);
    let users = vec![
        WhiteUserInfo { address: s("bob"), wallet_limit: 2 },
        WhiteUserInfo { address: s("ann"), wallet_limit: 1 },
        WhiteUserInfo { address: s("bob"), wallet_limit: 5 },
    ];
    let mut quotas = execute_add_white_users(&state, &s("admin"), users).unwrap();
    quotas.sort_by(|a, b| a.address.cmp(&b.address));
    assert_eq!(
        quotas,
        vec![
            WhiteUserInfo { address: s("ann"), wallet_limit: 1 },
            WhiteUserInfo { address: s("bob"), wallet_limit: 5 },
        ]
    );
    assert_eq!(execute_add_white_users(&state, &s("admin"), vec![]).unwrap(), vec![]);
}

#[test]
fn multi_digit_indices_are_named_in_decimal() {
    let mut state = instantiate(s("admin"), NOW, info(12, 100, true), s("image/png"), false).unwrap();
    let (mut minted, mut quota) = (None, None);
    let mut last = vec![];
    for _ in 0..12 {
        last = mint_with_word(&mut state, &mut minted, &mut quota, &s("admin"), NOW, &vec![], 0).unwrap();
    }
    match &last[0] {
        Instruction::MintNft(m) => {
            assert_eq!(m.token_id, "Punk.12");
            assert_eq!(m.token_uri, Some(s("ipfs://meta/12.json")));
            assert_eq!(m.extension.image_url, "ipfs://img/12.png");
        }
        _ => panic!("first instruction must be a mint"),
    }
}
