use nft_market::error::ContractError;
use nft_market::factory::{
    execute_add_admin_collection, execute_add_user_collection, execute_change_admin,
    execute_set_id, execute_set_minter_id, instantiate, query, query_collections,
    register_admin_collection, QueryMsg, QueryResponse, RegisterState,
    register_user_collection, reply, AdminResponse, CollectionDetailInfo, Cw721BaseQueryMsg,
    Instantiation, MinterQueryMsg, ReplyQuery, INSTANTIATE_CW721_REPLY_ID, INSTANTIATE_MINTER_ID,
};

fn s(text: &str) -> String {
    text.to_string()
}

#[test]
fn factory_picks_code_and_callback() {
    let state = instantiate(s("boss"), 10, 20);
    assert_eq!(
        execute_add_user_collection(&state, &s("ann")),
        Instantiation {
            code_id: 10,
            reply_id: INSTANTIATE_CW721_REPLY_ID,
            minter: Some(s("ann")),
            admin: s("ann"),
            registry_code_id: None,
        }
    );
    assert_eq!(execute_add_admin_collection(&state, &s("ann")), Err(ContractError::Unauthorized));
    assert_eq!(
        execute_add_admin_collection(&state, &s("boss")),
        Ok(Instantiation {
            code_id: 20,
            reply_id: INSTANTIATE_MINTER_ID,
            minter: None,
            admin: s("boss"),
            registry_code_id: Some(10),
        })
    );
}

#[test]
fn factory_setters_are_gated() {
    let mut state = instantiate(s("boss"), 10, 20);
    assert_eq!(execute_set_id(&mut state, &s("x"), 11), Err(ContractError::Unauthorized));
    execute_set_id(&mut state, &s("boss"), 11).unwrap();
    execute_set_minter_id(&mut state, &s("boss"), 21).unwrap();
    assert_eq!(execute_set_minter_id(&mut state, &s("x"), 1), Err(ContractError::Unauthorized));
    assert_eq!((state.nft_id, state.minter_id), (11, 21));
    assert_eq!(execute_change_admin(&mut state, &s("x"), s("x")), Err(ContractError::Unauthorized));
    execute_change_admin(&mut state, &s("boss"), s("heir")).unwrap();
    assert_eq!(state.admin, "heir");
}

#[test]
fn factory_numbers_collections_in_order() {
    let mut state = instantiate(s("boss"), 10, 20);
    assert_eq!(reply(1), Ok(ReplyQuery::Registry(Cw721BaseQueryMsg::Admin)));
    assert_eq!(reply(2), Ok(ReplyQuery::Minter(MinterQueryMsg::GetCollectionAddress)));
    assert_eq!(reply(3), Err(ContractError::UnexpectedCallbackId { id: 3 }));
    let (n, rec) = register_user_collection(&mut state, s("c1"), AdminResponse { admin: s("ann") }).unwrap();
    assert_eq!(n, 1);
    assert_eq!(rec, CollectionDetailInfo { address: s("c1"), is_rand: false, creator: s("ann") });
    let (n, rec) = register_admin_collection(&mut state, s("c2")).unwrap();
    assert_eq!(n, 2);
    assert_eq!(rec, CollectionDetailInfo { address: s("c2"), is_rand: true, creator: s("boss") });
    assert_eq!(state.collection_count, 2);
    state.collection_count = u64::MAX;
    assert!(matches!(register_admin_collection(&mut state, s("c3")), Err(ContractError::Overflow)));
}

#[test]
fn factory_queries_skip_missing_collections() {
    let state = instantiate(s("boss"), 10, 20);
    let rec = |a: &str| CollectionDetailInfo { address: s(a), is_rand: false, creator: s("ann") };
    let records = vec![Some(rec("c1")), None, Some(rec("c3"))];
    assert_eq!(query_collections(&records), vec![rec("c1"), rec("c3")]);
    let ask = QueryMsg::GetCollections { id: vec![s("1"), s("2"), s("3")] };
    assert_eq!(query(&state, &records, &ask), QueryResponse::Collections(vec![rec("c1"), rec("c3")]));
    assert_eq!(
        query(&state, &vec![], &QueryMsg::GetStateInfo),
        QueryResponse::StateInfo(RegisterState { admin: s("boss"), nft_id: 10, collection_count: 0, minter_id: 20 })
    );
}
