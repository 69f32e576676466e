use vstd::prelude::*;

use crate::coin::{find_fund, get_fund, Coin};
use crate::error::ContractError;
use crate::fee::{net_amount, seller_share, DECIMAL_ONE};
use crate::instruction::Instruction;

verus! {

/// The marketplace's global state.
#[derive(Debug, PartialEq, Eq)]
pub struct State {
    /// Fee rate in atomics of 10^-18; never above `DECIMAL_ONE`.
    pub fee: u128,
    pub owner: String,
    /// Gross volume of every sale in every collection.
    pub tvl: u128,
    /// The only denomination that listings may be priced in.
    pub denom: String,
}

impl State {
    pub open spec fn wf(&self) -> bool {
        self.fee <= DECIMAL_ONE
    }

    /// Whether the fee rate is within `[0, 1]`.
    pub fn is_consistent(&self) -> (r: bool)
        ensures
            r == self.wf(),
    {
        self.fee <= DECIMAL_ONE
    }

    /// A field-by-field copy.
    pub fn duplicate(&self) -> (r: State)
        ensures
            r == *self,
    {
        State { fee: self.fee, owner: self.owner.clone(), tvl: self.tvl, denom: self.denom.clone() }
    }
}

/// A listed, not yet sold asset.
#[derive(Debug, PartialEq, Eq)]
pub struct Offering {
    pub token_id: String,
    /// The asset registry that holds the token.
    pub contract: String,
    pub seller: String,
    pub list_price: Coin,
}

impl Offering {
    /// A field-by-field copy.
    pub fn duplicate(&self) -> (r: Offering)
        ensures
            r == *self,
    {
        Offering {
            token_id: self.token_id.clone(),
            contract: self.contract.clone(),
            seller: self.seller.clone(),
            list_price: self.list_price.duplicate(),
        }
    }
}

/// The record of one completed sale.
#[derive(Debug, PartialEq, Eq)]
pub struct SaleHistoryInfo {
    pub from: String,
    pub to: String,
    pub denom: String,
    pub amount: u128,
    pub time: u64,
    pub nft_address: String,
    pub token_id: String,
}

impl SaleHistoryInfo {
    /// A field-by-field copy.
    pub fn duplicate(&self) -> (r: SaleHistoryInfo)
        ensures
            r == *self,
    {
        SaleHistoryInfo {
            from: self.from.clone(),
            to: self.to.clone(),
            denom: self.denom.clone(),
            amount: self.amount,
            time: self.time,
            nft_address: self.nft_address.clone(),
            token_id: self.token_id.clone(),
        }
    }
}

/// The counters of one collection.
#[derive(Debug, Clone, Copy, PartialEq, Eq, Structural)]
pub struct CollectionInfo {
    /// Number of sales so far; also the sequence number of the latest one.
    pub sale_id: u64,
    /// Gross volume of the collection's sales.
    pub tvl: u128,
    /// Number of live offerings.
    pub num_offerings: u64,
}

/// Everything stored for one collection: its counters, its live offerings
/// (the offering with id `k` in slot `k - 1`) and its sale history (the sale
/// with sequence number `k` in slot `k - 1`).
pub struct CollectionBook {
    pub info: CollectionInfo,
    pub offerings: Vec<Offering>,
    pub history: Vec<SaleHistoryInfo>,
}

/// Sum of the amounts of the recorded sales.
pub open spec fn history_volume(h: Seq<SaleHistoryInfo>) -> int
    decreases h.len(),
{
    if h.len() == 0 {
        0
    } else {
        history_volume(h.drop_last()) + h.last().amount
    }
}

proof fn lemma_volume_grows(h: Seq<SaleHistoryInfo>, k: int)
    requires
        0 <= k <= h.len(),
    ensures
        history_volume(h.subrange(0, k)) <= history_volume(h),
    decreases h.len(),
{
    if k < h.len() {
        assert(h.drop_last().subrange(0, k) =~= h.subrange(0, k));
        lemma_volume_grows(h.drop_last(), k);
    } else {
        assert(h.subrange(0, k) =~= h);
    }
}

/// The offerings after the one with id `id` is removed by compaction: the
/// offering with the last id moves into the vacated id.
pub open spec fn compact(s: Seq<Offering>, id: int) -> Seq<Offering> {
    s.update(id - 1, s.last()).drop_last()
}

/// The offering table after the offering with id `id` is removed by
/// compaction, `n` being the last id: unless `id` is `n`, the offering stored
/// under `n` is stored under `id` instead; then `n` is freed.
pub open spec fn compact_map(m: Map<int, Offering>, id: int, n: int) -> Map<int, Offering> {
    if id == n {
        m.remove(n)
    } else {
        m.insert(id, m[n]).remove(n)
    }
}

/// The set of ids `1..=n`.
pub open spec fn id_range(n: int) -> Set<int> {
    Set::new(|id: int| 1 <= id <= n)
}

impl CollectionBook {
    pub open spec fn wf(&self) -> bool {
        &&& self.info.num_offerings == self.offerings.len()
        &&& self.info.sale_id == self.history.len()
        &&& self.info.tvl == history_volume(self.history@)
    }

    /// The offering table keyed by offering id.
    pub open spec fn offering_map(&self) -> Map<int, Offering> {
        Map::new(|id: int| 1 <= id <= self.offerings.len(), |id: int| self.offerings@[id - 1])
    }

    /// Whether the book is well formed: its counters match what it stores.
    pub fn is_consistent(&self) -> (r: bool)
        ensures
            r == self.wf(),
    {
        if self.info.num_offerings as usize != self.offerings.len() || self.info.num_offerings
            > usize::MAX as u64 {
            return false;
        }
        if self.info.sale_id as usize != self.history.len() || self.info.sale_id > usize::MAX as u64 {
            return false;
        }
        let mut sum: u128 = 0;
        let mut i: usize = 0;
        while i < self.history.len()
            invariant
                i <= self.history.len(),
                sum == history_volume(self.history@.subrange(0, i as int)),
            decreases self.history.len() - i,
        {
            assert(self.history@.subrange(0, i + 1).drop_last() =~= self.history@.subrange(
                0,
                i as int,
            ));
            let amount = self.history[i].amount;
            if sum > u128::MAX - amount {
                proof {
                    lemma_volume_grows(self.history@, i as int + 1);
                }
                return false;
            }
            sum = sum + amount;
            i = i + 1;
        }
        assert(self.history@.subrange(0, self.history.len() as int) =~= self.history@);
        sum == self.info.tvl
    }
    /// Whether an offering is stored under `id`.
    pub open spec fn has_offering(&self, id: int) -> bool {
        1 <= id <= self.offerings.len()
    }

    /// The offering stored under `id`.
    pub open spec fn offering(&self, id: int) -> Offering {
        self.offerings@[id - 1]
    }
}

/// The counters of a collection's book before a listing: those of `found`, or
/// all zero where the collection has no book yet.
pub open spec fn base_info(found: Option<CollectionBook>) -> CollectionInfo {
    match found {
        Some(b) => b.info,
        None => CollectionInfo { sale_id: 0, tvl: 0, num_offerings: 0 },
    }
}

/// The offerings of a collection's book before a listing.
pub open spec fn base_offerings(found: Option<CollectionBook>) -> Seq<Offering> {
    match found {
        Some(b) => b.offerings@,
        None => Seq::empty(),
    }
}

/// The sale history of a collection's book before a listing.
pub open spec fn base_history(found: Option<CollectionBook>) -> Seq<SaleHistoryInfo> {
    match found {
        Some(b) => b.history@,
        None => Seq::empty(),
    }
}

/// A book with every counter zero and nothing listed or sold.
pub fn new_book() -> (r: CollectionBook)
    ensures
        r.wf(),
        r.info == (CollectionInfo { sale_id: 0, tvl: 0, num_offerings: 0 }),
        r.offerings@ == Seq::<Offering>::empty(),
        r.history@ == Seq::<SaleHistoryInfo>::empty(),
{
    CollectionBook {
        info: CollectionInfo { sale_id: 0, tvl: 0, num_offerings: 0 },
        offerings: Vec::new(),
        history: Vec::new(),
    }
}

/// Builds the global state: the caller becomes owner, the volume starts at
/// zero, and a fee rate above 1 is clamped to 1.
pub fn instantiate(sender: String, fee: u128, denom: String) -> (r: State)
    ensures
        r.wf(),
        r.owner == sender,
        r.denom == denom,
        r.tvl == 0,
        r.fee == if fee <= DECIMAL_ONE { fee } else { DECIMAL_ONE },
{
    let fee = if fee <= DECIMAL_ONE { fee } else { DECIMAL_ONE };
    State { fee, owner: sender, tvl: 0, denom }
}

/// The book of a registered collection; a collection without one is not registered.
pub fn is_registered_collection(found: Option<CollectionBook>) -> (r: Result<
    CollectionBook,
    ContractError,
>)
    ensures
        match found {
            Some(b) => r == Ok::<CollectionBook, ContractError>(b),
            None => r == Err::<CollectionBook, ContractError>(
                ContractError::NotRegisteredCollection,
            ),
        },
{
    match found {
        Some(b) => Ok(b),
        None => Err(ContractError::NotRegisteredCollection),
    }
}

/// Registers a collection with zeroed counters (owner only). A collection that
/// is already registered keeps its book. Listing registers a collection too.
pub fn execute_add_collection(state: &State, sender: &String, found: Option<CollectionBook>) -> (r:
    Result<CollectionBook, ContractError>)
    requires
        found is Some ==> found.unwrap().wf(),
    ensures
        sender@ != state.owner@ ==> r == Err::<CollectionBook, ContractError>(
            ContractError::Unauthorized,
        ),
        sender@ == state.owner@ ==> r is Ok,
        r matches Ok(b) ==> {
            &&& b.wf()
            &&& b.info == base_info(found)
            &&& b.offerings@ == base_offerings(found)
            &&& b.history@ == base_history(found)
        },
{
    if *sender != state.owner {
        return Err(ContractError::Unauthorized);
    }
    match found {
        Some(b) => Ok(b),
        None => Ok(new_book()),
    }
}

/// Stores `off` under the next id, `num_offerings + 1`, and returns that id.
pub fn increment_offerings(book: &mut CollectionBook, off: Offering) -> (r: Result<u64, ContractError>)
    requires
        old(book).wf(),
    ensures
        final(book).wf(),
        old(book).info.num_offerings == u64::MAX ==> r == Err::<u64, ContractError>(
            ContractError::Overflow,
        ) && *final(book) == *old(book),
        old(book).info.num_offerings < u64::MAX ==> {
            &&& r == Ok::<u64, ContractError>((old(book).info.num_offerings + 1) as u64)
            &&& final(book).offerings@ == old(book).offerings@.push(off)
            &&& final(book).info.num_offerings == old(book).info.num_offerings + 1
            &&& final(book).info.sale_id == old(book).info.sale_id
            &&& final(book).info.tvl == old(book).info.tvl
            &&& final(book).history == old(book).history
        },
{
    if book.info.num_offerings == u64::MAX {
        return Err(ContractError::Overflow);
    }
    book.offerings.push(off);
    book.info.num_offerings = book.info.num_offerings + 1;
    Ok(book.info.num_offerings)
}

/// Removes the offering with id `id` by compaction: where `id` is not the last
/// id, the offering with the last id is stored under `id` instead, and the
/// last id is freed. Ids stay dense.
pub fn remove_offering(book: &mut CollectionBook, id: u64)
    requires
        old(book).wf(),
        old(book).has_offering(id as int),
    ensures
        final(book).wf(),
        final(book).offerings@ == compact(old(book).offerings@, id as int),
        final(book).info.num_offerings == old(book).info.num_offerings - 1,
        final(book).info.sale_id == old(book).info.sale_id,
        final(book).info.tvl == old(book).info.tvl,
        final(book).history == old(book).history,
        final(book).offering_map() == compact_map(
            old(book).offering_map(),
            id as int,
            old(book).offerings.len() as int,
        ),
{
    let ghost before = book.offering_map();
    let ghost n = book.offerings.len() as int;
    let idx = (id - 1) as usize;
    let _moved = book.offerings.swap_remove(idx);
    book.info.num_offerings = book.info.num_offerings - 1;
    assert(book.offering_map() =~= compact_map(before, id as int, n));
}

/// Lists an asset that `seller` deposited with the marketplace: the price must
/// be in the settlement denomination. A collection without a book is
/// registered by its first listing. Returns the book and the new offering's id.
pub fn execute_receive_nft(
    state: &State,
    found: Option<CollectionBook>,
    collection: &String,
    seller: String,
    token_id: String,
    list_price: Coin,
) -> (r: Result<(CollectionBook, u64), ContractError>)
    requires
        found is Some ==> found.unwrap().wf(),
    ensures
        list_price.denom@ != state.denom@ ==> r == Err::<(CollectionBook, u64), ContractError>(
            ContractError::WrongDenom,
        ),
        list_price.denom@ == state.denom@ && base_info(found).num_offerings == u64::MAX ==> r
            == Err::<(CollectionBook, u64), ContractError>(ContractError::Overflow),
        list_price.denom@ == state.denom@ && base_info(found).num_offerings < u64::MAX ==> r is Ok,
        r matches Ok((b, id)) ==> {
            &&& b.wf()
            &&& id == base_info(found).num_offerings + 1
            &&& b.offerings@ == base_offerings(found).push(
                Offering { token_id, contract: *collection, seller, list_price },
            )
            &&& b.info.num_offerings == id
            &&& b.info.sale_id == base_info(found).sale_id
            &&& b.info.tvl == base_info(found).tvl
            &&& b.history@ == base_history(found)
        },
{
    if list_price.denom != state.denom {
        return Err(ContractError::WrongDenom);
    }
    let mut book = match found {
        Some(b) => b,
        None => new_book(),
    };
    let off = Offering { token_id, contract: collection.clone(), seller, list_price };
    match increment_offerings(&mut book, off) {
        Ok(id) => Ok((book, id)),
        Err(e) => Err(e),
    }
}

/// Whether the attached funds hold exactly `price`: their first entry in the
/// price's denomination carries the price's amount.
pub open spec fn pays_exactly(funds: Seq<Coin>, price: Coin) -> bool {
    find_fund(funds, price.denom@) matches Some(c) && c.amount == price.amount
}

/// Whether recording a sale of `amount` keeps every counter in range.
pub open spec fn sale_fits(state: State, book: CollectionBook, amount: u128) -> bool {
    &&& state.tvl + amount <= u128::MAX
    &&& book.info.tvl + amount <= u128::MAX
    &&& book.info.sale_id < u64::MAX
}

/// The instructions of a sale of `off` to `buyer`: the seller's share of the
/// price goes to the seller and the asset to the buyer. The fee is not sent anywhere.
pub open spec fn sale_instructions(off: Offering, buyer: String, fee: u128) -> Seq<Instruction> {
    seq![
        Instruction::SendFunds {
            to_address: off.seller,
            amount: Coin {
                denom: off.list_price.denom,
                amount: net_amount(off.list_price.amount, fee) as u128,
            },
        },
        Instruction::TransferNft { contract: off.contract, recipient: buyer, token_id: off.token_id },
    ]
}

/// The record of a sale of `off` to `buyer` in `collection` at time `now`.
pub open spec fn sale_record(off: Offering, buyer: String, collection: String, now: u64) -> SaleHistoryInfo {
    SaleHistoryInfo {
        from: off.seller,
        to: buyer,
        denom: off.list_price.denom,
        amount: off.list_price.amount,
        time: now,
        nft_address: collection,
        token_id: off.token_id,
    }
}

/// Settles the sale of offering `offering_id` of `collection` to `buyer`.
///
/// The buyer must not be the seller, and the attached funds must hold exactly
/// the asking price. The seller is paid the price less the fee, rounded down;
/// the fee stays with the marketplace. Global and collection volume grow by the
/// gross price, the sale is recorded under the next sequence number, and the
/// offering is removed by compaction. A failed call changes nothing.
pub fn execute_buy(
    state: &mut State,
    book: &mut CollectionBook,
    collection: &String,
    offering_id: u64,
    buyer: &String,
    funds: &Vec<Coin>,
    now: u64,
) -> (r: Result<Vec<Instruction>, ContractError>)
    requires
        old(state).wf(),
        old(book).wf(),
    ensures
        final(state).wf(),
        final(book).wf(),
        !old(book).has_offering(offering_id as int) ==> r == Err::<Vec<Instruction>, ContractError>(
            ContractError::NotFound,
        ),
        old(book).has_offering(offering_id as int) && old(book).offering(offering_id as int).seller@
            == buyer@ ==> r == Err::<Vec<Instruction>, ContractError>(ContractError::InvalidBuyer),
        old(book).has_offering(offering_id as int) && old(book).offering(offering_id as int).seller@
            != buyer@ && !pays_exactly(funds@, old(book).offering(offering_id as int).list_price)
            ==> r == Err::<Vec<Instruction>, ContractError>(ContractError::InsufficientFunds),
        old(book).has_offering(offering_id as int) && old(book).offering(offering_id as int).seller@
            != buyer@ && pays_exactly(funds@, old(book).offering(offering_id as int).list_price)
            && !sale_fits(
            *old(state),
            *old(book),
            old(book).offering(offering_id as int).list_price.amount,
        ) ==> r == Err::<Vec<Instruction>, ContractError>(ContractError::Overflow),
        old(book).has_offering(offering_id as int) && old(book).offering(offering_id as int).seller@
            != buyer@ && pays_exactly(funds@, old(book).offering(offering_id as int).list_price)
            && sale_fits(
            *old(state),
            *old(book),
            old(book).offering(offering_id as int).list_price.amount,
        ) ==> r is Ok,
        r is Err ==> *final(state) == *old(state) && *final(book) == *old(book),
        r matches Ok(instructions) ==> {
            let off = old(book).offering(offering_id as int);
            &&& old(book).has_offering(offering_id as int)
            &&& off.seller@ != buyer@
            &&& pays_exactly(funds@, off.list_price)
            &&& sale_fits(*old(state), *old(book), off.list_price.amount)
            &&& instructions@ == sale_instructions(off, *buyer, old(state).fee)
            &&& final(state).tvl == old(state).tvl + off.list_price.amount
            &&& final(state).fee == old(state).fee
            &&& final(state).owner == old(state).owner
            &&& final(state).denom == old(state).denom
            &&& final(book).info.sale_id == old(book).info.sale_id + 1
            &&& final(book).info.tvl == old(book).info.tvl + off.list_price.amount
            &&& final(book).info.num_offerings == old(book).info.num_offerings - 1
            &&& final(book).history@ == old(book).history@.push(
                sale_record(off, *buyer, *collection, now),
            )
            &&& final(book).offerings@ == compact(old(book).offerings@, offering_id as int)
        },
{
    if offering_id == 0 || offering_id > book.info.num_offerings {
        return Err(ContractError::NotFound);
    }
    let idx = (offering_id - 1) as usize;
    let off = book.offerings[idx].duplicate();
    if off.seller == *buyer {
        return Err(ContractError::InvalidBuyer);
    }
    let paid = match get_fund(funds, &off.list_price.denom) {
        Ok(c) => c,
        Err(e) => return Err(e),
    };
    if paid.amount != off.list_price.amount {
        return Err(ContractError::InsufficientFunds);
    }
    let amount = off.list_price.amount;
    if state.tvl > u128::MAX - amount || book.info.tvl > u128::MAX - amount || book.info.sale_id
        == u64::MAX {
        return Err(ContractError::Overflow);
    }
    let net = seller_share(amount, state.fee);
    let record = SaleHistoryInfo {
        from: off.seller.clone(),
        to: buyer.clone(),
        denom: off.list_price.denom.clone(),
        amount,
        time: now,
        nft_address: collection.clone(),
        token_id: off.token_id.clone(),
    };
    let mut instructions: Vec<Instruction> = Vec::new();
    instructions.push(
        Instruction::SendFunds {
            to_address: off.seller,
            amount: Coin { denom: off.list_price.denom, amount: net },
        },
    );
    instructions.push(
        Instruction::TransferNft {
            contract: off.contract,
            recipient: buyer.clone(),
            token_id: off.token_id,
        },
    );
    state.tvl = state.tvl + amount;
    let ghost h = book.history@;
    book.info.sale_id = book.info.sale_id + 1;
    book.info.tvl = book.info.tvl + amount;
    book.history.push(record);
    assert(book.history@.drop_last() =~= h);
    remove_offering(book, offering_id);
    assert(instructions@ =~= sale_instructions(
        old(book).offering(offering_id as int),
        *buyer,
        state.fee,
    ));
    Ok(instructions)
}

/// Hands offering `offering_id` back to its seller, who alone may withdraw
/// it, and removes it by compaction. No funds move and nothing is recorded.
pub fn execute_withdraw(book: &mut CollectionBook, offering_id: u64, sender: &String) -> (r: Result<
    Vec<Instruction>,
    ContractError,
>)
    requires
        old(book).wf(),
    ensures
        final(book).wf(),
        !old(book).has_offering(offering_id as int) ==> r == Err::<Vec<Instruction>, ContractError>(
            ContractError::NotFound,
        ),
        old(book).has_offering(offering_id as int) && old(book).offering(offering_id as int).seller@
            != sender@ ==> r == Err::<Vec<Instruction>, ContractError>(ContractError::Unauthorized),
        old(book).has_offering(offering_id as int) && old(book).offering(offering_id as int).seller@
            == sender@ ==> r is Ok,
        r is Err ==> *final(book) == *old(book),
        r matches Ok(instructions) ==> {
            let off = old(book).offering(offering_id as int);
            &&& instructions@ == seq![
                Instruction::TransferNft {
                    contract: off.contract,
                    recipient: off.seller,
                    token_id: off.token_id,
                },
            ]
            &&& final(book).info.sale_id == old(book).info.sale_id
            &&& final(book).info.tvl == old(book).info.tvl
            &&& final(book).info.num_offerings == old(book).info.num_offerings - 1
            &&& final(book).history == old(book).history
            &&& final(book).offerings@ == compact(old(book).offerings@, offering_id as int)
        },
{
    if offering_id == 0 || offering_id > book.info.num_offerings {
        return Err(ContractError::NotFound);
    }
    let idx = (offering_id - 1) as usize;
    let off = book.offerings[idx].duplicate();
    if off.seller != *sender {
        return Err(ContractError::Unauthorized);
    }
    remove_offering(book, offering_id);
    let mut instructions: Vec<Instruction> = Vec::new();
    instructions.push(
        Instruction::TransferNft { contract: off.contract, recipient: off.seller, token_id: off.token_id },
    );
    assert(instructions@ =~= seq![
        Instruction::TransferNft {
            contract: old(book).offering(offering_id as int).contract,
            recipient: old(book).offering(offering_id as int).seller,
            token_id: old(book).offering(offering_id as int).token_id,
        },
    ]);
    Ok(instructions)
}

/// Sends `amount` of `denom` from the marketplace's balance to the owner, who
/// alone may ask for it. The balance itself is checked by the host.
pub fn execute_withdraw_fees(state: &State, sender: &String, amount: u128, denom: String) -> (r:
    Result<Vec<Instruction>, ContractError>)
    ensures
        sender@ != state.owner@ ==> r == Err::<Vec<Instruction>, ContractError>(
            ContractError::Unauthorized,
        ),
        sender@ == state.owner@ ==> (r matches Ok(instructions) && instructions@ == seq![
            Instruction::SendFunds { to_address: state.owner, amount: Coin { denom, amount } },
        ]),
{
    if *sender != state.owner {
        return Err(ContractError::Unauthorized);
    }
    let mut instructions: Vec<Instruction> = Vec::new();
    instructions.push(
        Instruction::SendFunds { to_address: state.owner.clone(), amount: Coin { denom, amount } },
    );
    Ok(instructions)
}

/// Replaces the fee rate (owner only). A rate above 1 is clamped to 1, so a
/// seller's share never goes below zero.
pub fn execute_change_fee(state: &mut State, sender: &String, fee: u128) -> (r: Result<(), ContractError>)
    requires
        old(state).wf(),
    ensures
        final(state).wf(),
        sender@ != old(state).owner@ ==> r == Err::<(), ContractError>(ContractError::Unauthorized)
            && *final(state) == *old(state),
        sender@ == old(state).owner@ ==> {
            &&& r == Ok::<(), ContractError>(())
            &&& final(state).fee == if fee <= DECIMAL_ONE { fee } else { DECIMAL_ONE }
            &&& final(state).owner == old(state).owner
            &&& final(state).tvl == old(state).tvl
            &&& final(state).denom == old(state).denom
        },
{
    if *sender != state.owner {
        return Err(ContractError::Unauthorized);
    }
    state.fee = if fee <= DECIMAL_ONE { fee } else { DECIMAL_ONE };
    Ok(())
}

/// Index of the first slot of page `page_num` of `count` entries; page 0 is empty.
pub open spec fn page_start(page_num: u32, count: u32) -> int {
    if page_num == 0 { 0 } else { (page_num - 1) * count }
}

/// Index one past the last slot of page `page_num` of `count` entries.
pub open spec fn page_end(page_num: u32, count: u32) -> int {
    if page_num == 0 { 0 } else { page_num * count }
}

/// `x`, capped at `n`.
pub open spec fn clip(x: int, n: int) -> int {
    if x <= n { x } else { n }
}

/// The slots of page `page_num` of `count` entries that lie within `n` slots.
fn page_window(page_num: u32, count: u32, n: usize) -> (r: (usize, usize))
    ensures
        r.0 == clip(page_start(page_num, count), n as int),
        r.1 == clip(page_end(page_num, count), n as int),
        r.0 <= r.1 <= n,
{
    if page_num == 0 {
        return (0, 0);
    }
    let p = page_num as u64;
    let c = count as u64;
    assert((p - 1) * c <= p * c <= 0xffff_ffff * 0xffff_ffff) by (nonlinear_arith)
        requires
            1 <= p <= 0xffff_ffff,
            c <= 0xffff_ffff,
    ;
    let lo: u64 = (p - 1) * c;
    let hi: u64 = p * c;
    let lo_slot: usize = if lo <= n as u64 { lo as usize } else { n };
    let hi_slot: usize = if hi <= n as u64 { hi as usize } else { n };
    (lo_slot, hi_slot)
}

/// The offerings on page `page_num` of `count` ids: those stored under ids
/// `(page_num - 1) * count + 1 ..= page_num * count`, in id order. Page 0 is empty.
pub fn query_all(book: &CollectionBook, page_num: u32, count: u32) -> (r: Vec<Offering>)
    ensures
        r@ == book.offerings@.subrange(
            clip(page_start(page_num, count), book.offerings.len() as int),
            clip(page_end(page_num, count), book.offerings.len() as int),
        ),
{
    let (lo, hi) = page_window(page_num, count, book.offerings.len());
    let mut out: Vec<Offering> = Vec::new();
    let mut i: usize = lo;
    while i < hi
        invariant
            lo <= i <= hi <= book.offerings.len(),
            out@ == book.offerings@.subrange(lo as int, i as int),
        decreases hi - i,
    {
        out.push(book.offerings[i].duplicate());
        assert(book.offerings@.subrange(lo as int, i + 1) =~= book.offerings@.subrange(
            lo as int,
            i as int,
        ).push(book.offerings@[i as int]));
        i = i + 1;
    }
    out
}

/// The sales on page `page_num` of `count` sequence numbers: those recorded
/// under `(page_num - 1) * count + 1 ..= page_num * count`, in order. Page 0 is empty.
pub fn query_sale_history(book: &CollectionBook, page_num: u32, count: u32) -> (r: Vec<
    SaleHistoryInfo,
>)
    ensures
        r@ == book.history@.subrange(
            clip(page_start(page_num, count), book.history.len() as int),
            clip(page_end(page_num, count), book.history.len() as int),
        ),
{
    let (lo, hi) = page_window(page_num, count, book.history.len());
    let mut out: Vec<SaleHistoryInfo> = Vec::new();
    let mut i: usize = lo;
    while i < hi
        invariant
            lo <= i <= hi <= book.history.len(),
            out@ == book.history@.subrange(lo as int, i as int),
        decreases hi - i,
    {
        out.push(book.history[i].duplicate());
        assert(book.history@.subrange(lo as int, i + 1) =~= book.history@.subrange(
            lo as int,
            i as int,
        ).push(book.history@[i as int]));
        i = i + 1;
    }
    out
}

/// Compaction invariant: in a well-formed book the stored offering ids are
/// exactly `1..=num_offerings`. Every operation on a book keeps it well formed.
pub proof fn lemma_ids_dense(book: CollectionBook)
    requires
        book.wf(),
    ensures
        book.offering_map().dom() == id_range(book.info.num_offerings as int),
{
    assert(book.offering_map().dom() =~= id_range(book.info.num_offerings as int));
}

/// Compaction invariant, on the keyed table: where the stored ids are `1..=n`,
/// listing under `n + 1` leaves them `1..=n + 1`, and removing any stored id
/// by compaction leaves them `1..=n - 1`.
pub proof fn lemma_compaction_keeps_ids_dense(m: Map<int, Offering>, n: int, id: int, off: Offering)
    requires
        m.dom() == id_range(n),
        n >= 0,
    ensures
        m.insert(n + 1, off).dom() == id_range(n + 1),
        1 <= id <= n ==> compact_map(m, id, n).dom() == id_range(n - 1),
{
    assert(m.insert(n + 1, off).dom() =~= id_range(n + 1));
    if 1 <= id <= n {
        assert(compact_map(m, id, n).dom() =~= id_range(n - 1));
    }
}

/// The queries the marketplace answers.
#[derive(Debug, PartialEq, Eq)]
pub enum QueryMsg {
    GetStateInfo,
    GetCollectionInfo { address: String },
    GetFee,
    GetOffers { page_num: u32, count: u32, address: String },
    GetSaleHistory { page_num: u32, count: u32, address: String },
}

/// The answer to a query.
#[derive(Debug, PartialEq, Eq)]
pub enum QueryResponse {
    State(State),
    CollectionInfo(CollectionInfo),
    Fee(u128),
    Offers(Vec<Offering>),
    SaleHistory(Vec<SaleHistoryInfo>),
}

/// The offerings on a page of a collection's book; none where it has no book.
pub open spec fn offers_page(book: Option<&CollectionBook>, page_num: u32, count: u32) -> Seq<Offering> {
    match book {
        Some(b) => b.offerings@.subrange(
            clip(page_start(page_num, count), b.offerings.len() as int),
            clip(page_end(page_num, count), b.offerings.len() as int),
        ),
        None => Seq::empty(),
    }
}

/// The sales on a page of a collection's book; none where it has no book.
pub open spec fn history_page(book: Option<&CollectionBook>, page_num: u32, count: u32) -> Seq<
    SaleHistoryInfo,
> {
    match book {
        Some(b) => b.history@.subrange(
            clip(page_start(page_num, count), b.history.len() as int),
            clip(page_end(page_num, count), b.history.len() as int),
        ),
        None => Seq::empty(),
    }
}

/// Answers `msg`; `book` is the book of the collection that `msg` names, if
/// it names one and that collection has a book.
pub fn query(state: &State, book: Option<&CollectionBook>, msg: &QueryMsg) -> (r: Result<
    QueryResponse,
    ContractError,
>)
    ensures
        match *msg {
            QueryMsg::GetStateInfo => r == Ok::<QueryResponse, ContractError>(
                QueryResponse::State(*state),
            ),
            QueryMsg::GetCollectionInfo { .. } => match book {
                Some(b) => r == Ok::<QueryResponse, ContractError>(
                    QueryResponse::CollectionInfo(b.info),
                ),
                None => r == Err::<QueryResponse, ContractError>(
                    ContractError::NotRegisteredCollection,
                ),
            },
            QueryMsg::GetFee => r == Ok::<QueryResponse, ContractError>(QueryResponse::Fee(state.fee)),
            QueryMsg::GetOffers { page_num, count, .. } => r matches Ok(QueryResponse::Offers(v))
                && v@ == offers_page(book, page_num, count),
            QueryMsg::GetSaleHistory { page_num, count, .. } => r matches Ok(
                QueryResponse::SaleHistory(v),
            ) && v@ == history_page(book, page_num, count),
        },
{
    match msg {
        QueryMsg::GetStateInfo => Ok(QueryResponse::State(state.duplicate())),
        QueryMsg::GetCollectionInfo { .. } => match book {
            Some(b) => Ok(QueryResponse::CollectionInfo(b.info)),
            None => Err(ContractError::NotRegisteredCollection),
        },
        QueryMsg::GetFee => Ok(QueryResponse::Fee(state.fee)),
        QueryMsg::GetOffers { page_num, count, .. } => match book {
            Some(b) => Ok(QueryResponse::Offers(query_all(b, *page_num, *count))),
            None => Ok(QueryResponse::Offers(Vec::new())),
        },
        QueryMsg::GetSaleHistory { page_num, count, .. } => match book {
            Some(b) => Ok(QueryResponse::SaleHistory(query_sale_history(b, *page_num, *count))),
            None => Ok(QueryResponse::SaleHistory(Vec::new())),
        },
    }
}

} // verus!
