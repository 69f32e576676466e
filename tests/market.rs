use nft_market::coin::Coin;
use nft_market::error::ContractError;
use nft_market::fee::{seller_share, DECIMAL_ONE};
use nft_market::instruction::Instruction;
use nft_market::market::{
    execute_add_collection, execute_buy, execute_change_fee, execute_receive_nft,
    execute_withdraw, execute_withdraw_fees, instantiate, is_registered_collection, query,
    query_all, query_sale_history, CollectionBook, CollectionInfo, QueryMsg, QueryResponse,
    SaleHistoryInfo, State,
};

const PERCENT: u128 = DECIMAL_ONE / 100;
const BLOCK_SECONDS: u64 = 1_571_797_419;

fn s(text: &str) -> String {
    text.to_string()
}

fn coin(amount: u128, denom: &str) -> Coin {
    Coin { denom: s(denom), amount }
}

fn setup() -> State {
    instantiate(s("creator"), 2 * PERCENT, s("earth"))
}

fn list(state: &State, book: Option<CollectionBook>, collection: &str, seller: &str, token: &str, price: u128) -> (CollectionBook, u64) {
    execute_receive_nft(state, book, &s(collection), s(seller), s(token), coin(price, "earth")).unwrap()
}

#[test]
fn proper_initialization() {
    let state = instantiate(s("creator"), 2 * PERCENT, s("earth"));
    assert_eq!(state.owner, "creator");
    assert_eq!(state.fee, 2 * PERCENT);
    assert_eq!(state.tvl, 0);
    assert_eq!(state.denom, "earth");
}

#[test]
fn sell_nft() {
    let state = setup();
    let res = execute_receive_nft(&state, None, &s("nft-collectibles"), s("owner"), s("1"), coin(1000, "earth"));
    let (book, id) = res.unwrap();
    assert_eq!(id, 1);
    assert_eq!(book.offerings.len(), 1);
    assert_eq!(book.offerings[0].seller, "owner");
    assert_eq!(book.offerings[0].contract, "nft-collectibles");
}

#[test]
fn buy_nft() {
    let mut state = setup();
    let (mut book, _) = list(&state, None, "collection1", "owner", "1", 1000);
    assert_eq!(book.info, CollectionInfo { sale_id: 0, num_offerings: 1, tvl: 0 });
    assert_eq!(query_all(&book, 1, 20).len(), 1);

    let funds = vec![coin(1000, "earth")];
    let res = execute_buy(&mut state, &mut book, &s("collection1"), 1, &s("owner1"), &funds, BLOCK_SECONDS);
    assert!(res.is_ok());

    assert_eq!(query_all(&book, 1, 20).len(), 0);
    assert_eq!(book.info, CollectionInfo { sale_id: 1, num_offerings: 0, tvl: 1000 });
    let history = query_sale_history(&book, 1, 10);
    assert_eq!(
        history,
        vec![SaleHistoryInfo {
            from: s("owner"),
            to: s("owner1"),
            denom: s("earth"),
            amount: 1000,
            time: BLOCK_SECONDS,
            nft_address: s("collection1"),
            token_id: s("1"),
        }]
    );
}

#[test]
fn withdraw_fees() {
    let state = setup();
    let res = execute_withdraw_fees(&state, &s("anyone"), 1000, s("earth"));
    match res {
        Err(ContractError::Unauthorized) => {}
        _ => panic!("Must return Unauthorized error"),
    }
    let res = execute_withdraw_fees(&state, &s("creator"), 1000, s("earth")).unwrap();
    assert_eq!(res.len(), 1);
    assert_eq!(res[0], Instruction::SendFunds { to_address: s("creator"), amount: coin(1000, "earth") });
}

#[test]
fn change_fee() {
    let mut state = setup();
    let res = execute_change_fee(&mut state, &s("anyone"), 3 * PERCENT);
    match res {
        Err(ContractError::Unauthorized) => {}
        _ => panic!("Must return Unauthorized error"),
    }
    execute_change_fee(&mut state, &s("creator"), 3 * PERCENT).unwrap();
    let value = query(&state, None, &QueryMsg::GetFee).unwrap();
    assert_eq!(value, QueryResponse::Fee(3 * PERCENT));
}

#[test]
fn change_fee_clamps_above_one() {
    let mut state = setup();
    execute_change_fee(&mut state, &s("creator"), 2 * DECIMAL_ONE).unwrap();
    assert_eq!(state.fee, DECIMAL_ONE);
    let high = instantiate(s("creator"), DECIMAL_ONE + 1, s("earth"));
    assert_eq!(high.fee, DECIMAL_ONE);
}

#[test]
fn sale_pays_seller_net_and_records_history() {
    let mut state = setup();
    let (mut book, _) = list(&state, None, "C", "seller", "1", 1000);
    let funds = vec![coin(1000, "earth")];
    let out = execute_buy(&mut state, &mut book, &s("C"), 1, &s("buyer"), &funds, 7).unwrap();
    assert_eq!(
        out,
        vec![
            Instruction::SendFunds { to_address: s("seller"), amount: coin(980, "earth") },
            Instruction::TransferNft { contract: s("C"), recipient: s("buyer"), token_id: s("1") },
        ]
    );
    assert_eq!(book.info.num_offerings, 0);
    assert_eq!(book.info.sale_id, 1);
    assert_eq!(book.history[0].amount, 1000);
    assert_eq!(book.history[0].from, "seller");
    assert_eq!(book.history[0].to, "buyer");
    assert_eq!(state.tvl, 1000);
}

#[test]
fn seller_share_rounds_down() {
    assert_eq!(seller_share(1000, 2 * PERCENT), 980);
    assert_eq!(seller_share(999, 3 * PERCENT), 969);
    assert_eq!(seller_share(1, 50 * PERCENT), 0);
    assert_eq!(seller_share(1000, 0), 1000);
    assert_eq!(seller_share(1000, DECIMAL_ONE), 0);
    assert_eq!(seller_share(u128::MAX, 0), u128::MAX);
}

#[test]
fn compaction_moves_last_offering_into_vacated_id() {
    let mut state = setup();
    let (book, _) = list(&state, None, "C", "a", "t1", 10);
    let (book, _) = list(&state, Some(book), "C", "b", "t2", 20);
    let (mut book, id) = list(&state, Some(book), "C", "c", "t3", 30);
    assert_eq!(id, 3);
    execute_withdraw(&mut book, 1, &s("a")).unwrap();
    assert_eq!(book.info.num_offerings, 2);
    assert_eq!(book.offerings[0].token_id, "t3");
    assert_eq!(book.offerings[1].token_id, "t2");
    let funds = vec![coin(20, "earth")];
    execute_buy(&mut state, &mut book, &s("C"), 2, &s("z"), &funds, 1).unwrap();
    assert_eq!(book.info.num_offerings, 1);
    assert_eq!(book.offerings.len(), 1);
    assert_eq!(book.offerings[0].token_id, "t3");
    let (book, id) = list(&state, Some(book), "C", "d", "t4", 40);
    assert_eq!(id, 2);
    assert_eq!(book.offerings[1].token_id, "t4");
}

#[test]
fn buy_requires_exact_funds() {
    let mut state = setup();
    let (mut book, _) = list(&state, None, "C", "seller", "1", 1000);
    let cases: Vec<Vec<Coin>> = vec![
        vec![coin(999, "earth")],
        vec![coin(1001, "earth")],
        vec![coin(1000, "moon")],
        vec![],
        vec![coin(5, "earth"), coin(1000, "earth")],
    ];
    for funds in cases {
        let r = execute_buy(&mut state, &mut book, &s("C"), 1, &s("buyer"), &funds, 1);
        assert_eq!(r, Err(ContractError::InsufficientFunds));
        assert_eq!(book.info.num_offerings, 1);
        assert_eq!(state.tvl, 0);
    }
    let funds = vec![coin(3, "moon"), coin(1000, "earth")];
    assert!(execute_buy(&mut state, &mut book, &s("C"), 1, &s("buyer"), &funds, 1).is_ok());
}

#[test]
fn seller_cannot_buy_own_offering() {
    let mut state = setup();
    let (mut book, _) = list(&state, None, "C", "seller", "1", 1000);
    for funds in [vec![coin(1000, "earth")], vec![]] {
        let r = execute_buy(&mut state, &mut book, &s("C"), 1, &s("seller"), &funds, 1);
        assert_eq!(r, Err(ContractError::InvalidBuyer));
    }
    assert_eq!(book.info.num_offerings, 1);
}

#[test]
fn buy_unknown_offering_is_not_found() {
    let mut state = setup();
    let (mut book, _) = list(&state, None, "C", "seller", "1", 1000);
    let funds = vec![coin(1000, "earth")];
    for id in [0u64, 2, u64::MAX] {
        let r = execute_buy(&mut state, &mut book, &s("C"), id, &s("buyer"), &funds, 1);
        assert_eq!(r, Err(ContractError::NotFound));
    }
}

#[test]
fn buy_overflowing_volume_fails() {
    let mut state = setup();
    let (mut book, _) = list(&state, None, "C", "seller", "1", 1000);
    state.tvl = u128::MAX - 999;
    let funds = vec![coin(1000, "earth")];
    let r = execute_buy(&mut state, &mut book, &s("C"), 1, &s("buyer"), &funds, 1);
    assert_eq!(r, Err(ContractError::Overflow));
    assert_eq!(book.info.num_offerings, 1);
    assert_eq!(state.tvl, u128::MAX - 999);
}

#[test]
fn listing_in_other_denom_is_refused() {
    let state = setup();
    let r = execute_receive_nft(&state, None, &s("C"), s("seller"), s("1"), coin(10, "moon"));
    assert!(matches!(r, Err(ContractError::WrongDenom)));
}

#[test]
fn withdraw_by_other_than_seller_is_unauthorized() {
    let state = setup();
    let (mut book, _) = list(&state, None, "C", "seller", "1", 1000);
    assert_eq!(execute_withdraw(&mut book, 1, &s("thief")), Err(ContractError::Unauthorized));
    assert_eq!(execute_withdraw(&mut book, 2, &s("seller")), Err(ContractError::NotFound));
    let out = execute_withdraw(&mut book, 1, &s("seller")).unwrap();
    assert_eq!(out, vec![Instruction::TransferNft { contract: s("C"), recipient: s("seller"), token_id: s("1") }]);
    assert_eq!(book.info.num_offerings, 0);
    assert_eq!(book.info.sale_id, 0);
}

#[test]
fn unregistered_collection_is_reported() {
    assert!(matches!(is_registered_collection(None), Err(ContractError::NotRegisteredCollection)));
    let state = setup();
    assert!(matches!(execute_add_collection(&state, &s("anyone"), None), Err(ContractError::Unauthorized)));
    let book = execute_add_collection(&state, &s("creator"), None).unwrap();
    assert_eq!(book.info, CollectionInfo { sale_id: 0, tvl: 0, num_offerings: 0 });
    assert!(is_registered_collection(Some(book)).is_ok());
}

#[test]
fn paging_skips_nothing_and_page_zero_is_empty() {
    let state = setup();
    let mut book: Option<CollectionBook> = None;
    for k in 0..5 {
        let (b, _) = list(&state, book, "C", "seller", &k.to_string(), 10);
        book = Some(b);
    }
    let book = book.unwrap();
    assert_eq!(query_all(&book, 0, 2).len(), 0);
    let page: Vec<String> = query_all(&book, 2, 2).into_iter().map(|o| o.token_id).collect();
    assert_eq!(page, vec![s("2"), s("3")]);
    let page: Vec<String> = query_all(&book, 3, 2).into_iter().map(|o| o.token_id).collect();
    assert_eq!(page, vec![s("4")]);
    assert_eq!(query_all(&book, 4, 2).len(), 0);
    assert_eq!(query_all(&book, u32::MAX, u32::MAX).len(), 0);
    assert_eq!(query_sale_history(&book, 1, 10).len(), 0);
}

#[test]
fn market_queries_are_routed() {
    let state = setup();
    let (book, _) = list(&state, None, "C", "seller", "1", 10);
    let ask = QueryMsg::GetCollectionInfo { address: s("C") };
    assert_eq!(query(&state, None, &ask), Err(ContractError::NotRegisteredCollection));
    assert_eq!(query(&state, Some(&book), &ask), Ok(QueryResponse::CollectionInfo(book.info)));
    let ask = QueryMsg::GetOffers { page_num: 1, count: 5, address: s("C") };
    match query(&state, Some(&book), &ask) {
        Ok(QueryResponse::Offers(v)) => assert_eq!(v.len(), 1),
        other => panic!("unexpected answer {:?}", other),
    }
    let ask = QueryMsg::GetSaleHistory { page_num: 1, count: 5, address: s("D") };
    assert_eq!(query(&state, None, &ask), Ok(QueryResponse::SaleHistory(vec![])));
    match query(&state, None, &QueryMsg::GetStateInfo) {
        Ok(QueryResponse::State(copy)) => assert_eq!(copy, state),
        other => panic!("unexpected answer {:?}", other),
    }
}
