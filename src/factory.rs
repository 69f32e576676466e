//! Deployment of new collections: code ids to instantiate, and the registry
//! of the collections that were deployed.
use vstd::prelude::*;

use crate::error::ContractError;

verus! {

/// Id of the callback that reports a user collection's registry.
pub const INSTANTIATE_CW721_REPLY_ID: u64 = 1;

/// Id of the callback that reports an admin collection's allocation engine.
pub const INSTANTIATE_MINTER_ID: u64 = 2;

/// The factory's configuration and its count of deployed collections.
#[derive(Debug, PartialEq, Eq)]
pub struct State {
    pub admin: String,
    /// Code id of the asset registry.
    pub nft_id: u64,
    pub collection_count: u64,
    /// Code id of the allocation engine.
    pub minter_id: u64,
}

/// A deployed collection, as the registry keeps it.
#[derive(Debug, PartialEq, Eq)]
pub struct CollectionDetailInfo {
    pub address: String,
    /// Whether its assets are issued by a randomized allocation engine.
    pub is_rand: bool,
    pub creator: String,
}

impl CollectionDetailInfo {
    /// A field-by-field copy.
    pub fn duplicate(&self) -> (r: CollectionDetailInfo)
        ensures
            r == *self,
    {
        CollectionDetailInfo {
            address: self.address.clone(),
            is_rand: self.is_rand,
            creator: self.creator.clone(),
        }
    }
}

/// What to instantiate for a new collection, and how the callback is tagged.
#[derive(Debug, PartialEq, Eq)]
pub struct Instantiation {
    pub code_id: u64,
    pub reply_id: u64,
    /// Holder of the mint right of the new registry, where one is named.
    pub minter: Option<String>,
    pub admin: String,
    /// Code id of the registry that a new allocation engine instantiates in
    /// turn; none where the new contract is itself the registry.
    pub registry_code_id: Option<u64>,
}

/// Builds the factory's state: the caller becomes admin, nothing is deployed yet.
pub fn instantiate(sender: String, nft_id: u64, minter_id: u64) -> (r: State)
    ensures
        r == (State { admin: sender, nft_id, collection_count: 0, minter_id }),
{
    State { admin: sender, nft_id, collection_count: 0, minter_id }
}

/// Anyone may deploy a collection of their own: a registry whose admin and
/// minter is the caller.
pub fn execute_add_user_collection(state: &State, sender: &String) -> (r: Instantiation)
    ensures
        r == (Instantiation {
            code_id: state.nft_id,
            reply_id: INSTANTIATE_CW721_REPLY_ID,
            minter: Some(*sender),
            admin: *sender,
            registry_code_id: None,
        }),
{
    Instantiation {
        code_id: state.nft_id,
        reply_id: INSTANTIATE_CW721_REPLY_ID,
        minter: Some(sender.clone()),
        admin: sender.clone(),
        registry_code_id: None,
    }
}

/// The admin alone deploys collections issued by an allocation engine; the
/// engine instantiates a registry from the factory's registry code.
pub fn execute_add_admin_collection(state: &State, sender: &String) -> (r: Result<
    Instantiation,
    ContractError,
>)
    ensures
        sender@ != state.admin@ ==> r == Err::<Instantiation, ContractError>(
            ContractError::Unauthorized,
        ),
        sender@ == state.admin@ ==> r == Ok::<Instantiation, ContractError>(
            Instantiation {
                code_id: state.minter_id,
                reply_id: INSTANTIATE_MINTER_ID,
                minter: None,
                admin: *sender,
                registry_code_id: Some(state.nft_id),
            },
        ),
{
    if *sender != state.admin {
        return Err(ContractError::Unauthorized);
    }
    Ok(
        Instantiation {
            code_id: state.minter_id,
            reply_id: INSTANTIATE_MINTER_ID,
            minter: None,
            admin: sender.clone(),
            registry_code_id: Some(state.nft_id),
        },
    )
}

/// Replaces the registry's code id (admin only).
pub fn execute_set_id(state: &mut State, sender: &String, id: u64) -> (r: Result<(), ContractError>)
    ensures
        sender@ != old(state).admin@ ==> r == Err::<(), ContractError>(ContractError::Unauthorized)
            && *final(state) == *old(state),
        sender@ == old(state).admin@ ==> r == Ok::<(), ContractError>(()) && *final(state) == (State {
            nft_id: id,
            ..*old(state)
        }),
{
    if *sender != state.admin {
        return Err(ContractError::Unauthorized);
    }
    state.nft_id = id;
    Ok(())
}

/// Replaces the allocation engine's code id (admin only).
pub fn execute_set_minter_id(state: &mut State, sender: &String, id: u64) -> (r: Result<
    (),
    ContractError,
>)
    ensures
        sender@ != old(state).admin@ ==> r == Err::<(), ContractError>(ContractError::Unauthorized)
            && *final(state) == *old(state),
        sender@ == old(state).admin@ ==> r == Ok::<(), ContractError>(()) && *final(state) == (State {
            minter_id: id,
            ..*old(state)
        }),
{
    if *sender != state.admin {
        return Err(ContractError::Unauthorized);
    }
    state.minter_id = id;
    Ok(())
}

/// Hands the admin role to `address` (admin only).
pub fn execute_change_admin(state: &mut State, sender: &String, address: String) -> (r: Result<
    (),
    ContractError,
>)
    ensures
        sender@ != old(state).admin@ ==> r == Err::<(), ContractError>(ContractError::Unauthorized)
            && *final(state) == *old(state),
        sender@ == old(state).admin@ ==> r == Ok::<(), ContractError>(()) && *final(state) == (State {
            admin: address,
            ..*old(state)
        }),
{
    if *sender != state.admin {
        return Err(ContractError::Unauthorized);
    }
    state.admin = address;
    Ok(())
}

/// The query that registry code answers with its admin.
#[derive(Debug, PartialEq, Eq)]
pub enum Cw721BaseQueryMsg {
    Admin,
}

/// The query that an allocation engine answers with its registry's address.
#[derive(Debug, PartialEq, Eq)]
pub enum MinterQueryMsg {
    GetCollectionAddress,
}

/// A registry's answer to `Cw721BaseQueryMsg::Admin`.
#[derive(Debug, PartialEq, Eq)]
pub struct AdminResponse {
    pub admin: String,
}

/// What to ask the newly instantiated contract before the collection is recorded.
#[derive(Debug, PartialEq, Eq)]
pub enum ReplyQuery {
    /// A user collection's registry: ask it for its admin, the creator.
    Registry(Cw721BaseQueryMsg),
    /// An admin collection's allocation engine: ask it for its registry.
    Minter(MinterQueryMsg),
}

/// Which deployment a callback reports, as the query to send the new contract.
pub fn reply(id: u64) -> (r: Result<ReplyQuery, ContractError>)
    ensures
        id == INSTANTIATE_CW721_REPLY_ID ==> r == Ok::<ReplyQuery, ContractError>(
            ReplyQuery::Registry(Cw721BaseQueryMsg::Admin),
        ),
        id == INSTANTIATE_MINTER_ID ==> r == Ok::<ReplyQuery, ContractError>(
            ReplyQuery::Minter(MinterQueryMsg::GetCollectionAddress),
        ),
        id != INSTANTIATE_CW721_REPLY_ID && id != INSTANTIATE_MINTER_ID ==> r == Err::<
            ReplyQuery,
            ContractError,
        >(ContractError::UnexpectedCallbackId { id }),
{
    if id == INSTANTIATE_CW721_REPLY_ID {
        Ok(ReplyQuery::Registry(Cw721BaseQueryMsg::Admin))
    } else if id == INSTANTIATE_MINTER_ID {
        Ok(ReplyQuery::Minter(MinterQueryMsg::GetCollectionAddress))
    } else {
        Err(ContractError::UnexpectedCallbackId { id })
    }
}

/// Records a deployed collection under the next number, `collection_count + 1`,
/// and returns that number with the record to store.
fn register_collection(state: &mut State, address: String, is_rand: bool, creator: String) -> (r:
    Result<(u64, CollectionDetailInfo), ContractError>)
    ensures
        old(state).collection_count == u64::MAX ==> r == Err::<
            (u64, CollectionDetailInfo),
            ContractError,
        >(ContractError::Overflow) && *final(state) == *old(state),
        old(state).collection_count < u64::MAX ==> r == Ok::<
            (u64, CollectionDetailInfo),
            ContractError,
        >(((old(state).collection_count + 1) as u64, CollectionDetailInfo { address, is_rand, creator }))
            && *final(state) == (State {
            collection_count: (old(state).collection_count + 1) as u64,
            ..*old(state)
        }),
{
    if state.collection_count == u64::MAX {
        return Err(ContractError::Overflow);
    }
    state.collection_count = state.collection_count + 1;
    Ok((state.collection_count, CollectionDetailInfo { address, is_rand, creator }))
}

/// Records a user collection's registry at `address`; its admin, as the
/// registry reported it, is the creator.
pub fn register_user_collection(state: &mut State, address: String, admin: AdminResponse) -> (r:
    Result<(u64, CollectionDetailInfo), ContractError>)
    ensures
        old(state).collection_count == u64::MAX ==> r == Err::<
            (u64, CollectionDetailInfo),
            ContractError,
        >(ContractError::Overflow) && *final(state) == *old(state),
        old(state).collection_count < u64::MAX ==> r == Ok::<
            (u64, CollectionDetailInfo),
            ContractError,
        >(
            (
                (old(state).collection_count + 1) as u64,
                CollectionDetailInfo { address, is_rand: false, creator: admin.admin },
            ),
        ) && *final(state) == (State {
            collection_count: (old(state).collection_count + 1) as u64,
            ..*old(state)
        }),
{
    register_collection(state, address, false, admin.admin)
}

/// Records an admin collection, whose allocation engine reported its
/// registry at `collection_address`; the factory's admin is the creator.
pub fn register_admin_collection(state: &mut State, collection_address: String) -> (r: Result<
    (u64, CollectionDetailInfo),
    ContractError,
>)
    ensures
        old(state).collection_count == u64::MAX ==> r == Err::<
            (u64, CollectionDetailInfo),
            ContractError,
        >(ContractError::Overflow) && *final(state) == *old(state),
        old(state).collection_count < u64::MAX ==> r == Ok::<
            (u64, CollectionDetailInfo),
            ContractError,
        >(
            (
                (old(state).collection_count + 1) as u64,
                CollectionDetailInfo {
                    address: collection_address,
                    is_rand: true,
                    creator: old(state).admin,
                },
            ),
        ) && *final(state) == (State {
            collection_count: (old(state).collection_count + 1) as u64,
            ..*old(state)
        }),
{
    let creator = state.admin.clone();
    register_collection(state, collection_address, true, creator)
}

/// The queries the factory answers.
#[derive(Debug, PartialEq, Eq)]
pub enum QueryMsg {
    GetStateInfo,
    GetCollections { id: Vec<String> },
}

/// The factory's state, as other contracts are told it.
#[derive(Debug, PartialEq, Eq)]
pub struct RegisterState {
    pub admin: String,
    pub nft_id: u64,
    pub collection_count: u64,
    pub minter_id: u64,
}

/// The answer to a query.
#[derive(Debug, PartialEq, Eq)]
pub enum QueryResponse {
    StateInfo(RegisterState),
    Collections(Vec<CollectionDetailInfo>),
}

/// The records that are present, in order.
pub open spec fn present(records: Seq<Option<CollectionDetailInfo>>) -> Seq<CollectionDetailInfo>
    decreases records.len(),
{
    if records.len() == 0 {
        Seq::empty()
    } else {
        let rest = present(records.drop_last());
        match records.last() {
            Some(c) => rest.push(c),
            None => rest,
        }
    }
}

/// The collections found under the asked numbers, in the order asked;
/// `records` holds what is stored under each number, numbers with nothing
/// stored being skipped.
pub fn query_collections(records: &Vec<Option<CollectionDetailInfo>>) -> (r: Vec<CollectionDetailInfo>)
    ensures
        r@ == present(records@),
{
    let mut out: Vec<CollectionDetailInfo> = Vec::new();
    let mut i: usize = 0;
    while i < records.len()
        invariant
            i <= records.len(),
            out@ == present(records@.subrange(0, i as int)),
        decreases records.len() - i,
    {
        assert(records@.subrange(0, i + 1).drop_last() =~= records@.subrange(0, i as int));
        match &records[i] {
            Some(c) => out.push(c.duplicate()),
            None => {},
        }
        i = i + 1;
    }
    assert(records@.subrange(0, records.len() as int) =~= records@);
    out
}

/// Answers `msg`; `records` holds what is stored under each collection number
/// that `msg` asks for, if it asks for any.
pub fn query(state: &State, records: &Vec<Option<CollectionDetailInfo>>, msg: &QueryMsg) -> (r:
    QueryResponse)
    ensures
        match *msg {
            QueryMsg::GetStateInfo => r == QueryResponse::StateInfo(
                RegisterState {
                    admin: state.admin,
                    nft_id: state.nft_id,
                    collection_count: state.collection_count,
                    minter_id: state.minter_id,
                },
            ),
            QueryMsg::GetCollections { .. } => r matches QueryResponse::Collections(v) && v@
                == present(records@),
        },
{
    match msg {
        QueryMsg::GetStateInfo => QueryResponse::StateInfo(
            RegisterState {
                admin: state.admin.clone(),
                nft_id: state.nft_id,
                collection_count: state.collection_count,
                minter_id: state.minter_id,
            },
        ),
        QueryMsg::GetCollections { .. } => QueryResponse::Collections(query_collections(records)),
    }
}

} // verus!
