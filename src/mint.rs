use vstd::prelude::*;
use vstd::multiset::Multiset;
use vstd::string::StringExecFns;

use crate::coin::{attached_amount, attached_nonzero, first_nonzero, fund_amount, Coin};
use crate::entropy::{draw_word, mint_draw_word};
use crate::error::ContractError;
use crate::instruction::{Extension, Instruction, MintMsg};

verus! {

/// The largest supply a deployment may issue.
pub const MAX_TOKEN_LIMIT: u128 = 10000;

/// The largest per-address limit a deployment may set.
pub const MAX_PER_ADDRESS_LIMIT: u128 = 100;

/// Id of the callback that reports the asset registry's instantiation.
pub const INSTANTIATE_CW721_REPLY_ID: u64 = 1;

/// Configuration and counters of the allocation engine.
#[derive(Debug, PartialEq, Eq)]
pub struct State {
    pub admin: String,
    pub base_token_uri: String,
    pub total_supply: u128,
    pub mint_count: u128,
    pub start_mint_time: u64,
    pub per_address_limit: u128,
    pub public_price: Coin,
    pub private_price: Coin,
    pub mint_flag: bool,
    /// The indices not yet issued, in no meaningful order; `None` where
    /// indices are issued in sequence instead of drawn.
    pub enable_token_id: Option<Vec<u32>>,
    pub is_public_mint: bool,
    pub nft_base_name: String,
    pub base_image_uri: String,
    /// Media type of the issued assets, passed on to the registry.
    pub content_type: String,
}

impl State {
    pub open spec fn wf(&self) -> bool {
        &&& self.mint_count <= self.total_supply
        &&& self.total_supply <= MAX_TOKEN_LIMIT
        &&& self.enable_token_id matches Some(pool) ==> pool@.len() + self.mint_count
            == self.total_supply
    }
}

impl State {
    /// Whether the counters are within the supply and the pool holds what is
    /// left of it.
    pub fn is_consistent(&self) -> (r: bool)
        ensures
            r == self.wf(),
    {
        if self.mint_count > self.total_supply || self.total_supply > MAX_TOKEN_LIMIT {
            return false;
        }
        match &self.enable_token_id {
            Some(pool) => pool.len() as u128 + self.mint_count == self.total_supply,
            None => true,
        }
    }
}

/// The parameters of a sale, as given at deployment.
#[derive(Debug, PartialEq, Eq)]
pub struct MintInfo {
    pub base_token_uri: String,
    pub total_supply: u128,
    pub start_mint_time: u64,
    pub per_address_limit: u128,
    pub public_price: Coin,
    pub private_price: Coin,
    pub mint_flag: bool,
    pub is_public_mint: bool,
    pub nft_base_name: String,
    pub base_image_uri: String,
}

/// The pool `1..=n`.
pub open spec fn full_pool(n: nat) -> Seq<u32> {
    Seq::new(n, |k: int| (k + 1) as u32)
}

/// Validates the sale parameters and builds the engine's state: the caller
/// becomes admin, nothing is minted yet, minting is enabled, and where
/// `randomized` holds every index `1..=total_supply` is in the pool.
pub fn instantiate(sender: String, now: u64, msg: MintInfo, content_type: String, randomized: bool) -> (r: Result<
    State,
    ContractError,
>)
    ensures
        msg.total_supply == 0 || msg.total_supply > MAX_TOKEN_LIMIT ==> r == Err::<
            State,
            ContractError,
        >(ContractError::InvalidNumTokens { min: 1, max: MAX_TOKEN_LIMIT }),
        1 <= msg.total_supply <= MAX_TOKEN_LIMIT && (msg.per_address_limit == 0
            || msg.per_address_limit > MAX_PER_ADDRESS_LIMIT) ==> r == Err::<State, ContractError>(
            ContractError::InvalidLimit {
                min: 1,
                max: MAX_PER_ADDRESS_LIMIT,
                got: msg.per_address_limit,
            },
        ),
        1 <= msg.total_supply <= MAX_TOKEN_LIMIT && 1 <= msg.per_address_limit
            <= MAX_PER_ADDRESS_LIMIT && now > msg.start_mint_time ==> r == Err::<
            State,
            ContractError,
        >(ContractError::InvalidStartTime { start: msg.start_mint_time, now }),
        1 <= msg.total_supply <= MAX_TOKEN_LIMIT && 1 <= msg.per_address_limit
            <= MAX_PER_ADDRESS_LIMIT && now <= msg.start_mint_time ==> r is Ok,
        r matches Ok(s) ==> {
            &&& s.wf()
            &&& s.admin == sender
            &&& s.base_token_uri == msg.base_token_uri
            &&& s.total_supply == msg.total_supply
            &&& s.mint_count == 0
            &&& s.start_mint_time == msg.start_mint_time
            &&& s.per_address_limit == msg.per_address_limit
            &&& s.public_price == msg.public_price
            &&& s.private_price == msg.private_price
            &&& s.mint_flag
            &&& s.is_public_mint == msg.is_public_mint
            &&& s.nft_base_name == msg.nft_base_name
            &&& s.base_image_uri == msg.base_image_uri
            &&& s.content_type == content_type
            &&& randomized ==> (s.enable_token_id matches Some(pool) && pool@ == full_pool(
                msg.total_supply as nat,
            ))
            &&& !randomized ==> s.enable_token_id is None
        },
{
    if msg.total_supply == 0 || msg.total_supply > MAX_TOKEN_LIMIT {
        return Err(ContractError::InvalidNumTokens { min: 1, max: MAX_TOKEN_LIMIT });
    }
    if msg.per_address_limit == 0 || msg.per_address_limit > MAX_PER_ADDRESS_LIMIT {
        return Err(
            ContractError::InvalidLimit {
                min: 1,
                max: MAX_PER_ADDRESS_LIMIT,
                got: msg.per_address_limit,
            },
        );
    }
    if now > msg.start_mint_time {
        return Err(ContractError::InvalidStartTime { start: msg.start_mint_time, now });
    }
    let enable_token_id = if randomized {
        let total = msg.total_supply as u32;
        let mut pool: Vec<u32> = Vec::new();
        let mut i: u32 = 0;
        while i < total
            invariant
                i <= total,
                total == msg.total_supply,
                total <= MAX_TOKEN_LIMIT,
                pool@ == full_pool(i as nat),
            decreases total - i,
        {
            pool.push(i + 1);
            assert(pool@ =~= full_pool((i + 1) as nat));
            i = i + 1;
        }
        Some(pool)
    } else {
        None
    };
    Ok(
        State {
            admin: sender,
            base_token_uri: msg.base_token_uri,
            total_supply: msg.total_supply,
            mint_count: 0,
            start_mint_time: msg.start_mint_time,
            per_address_limit: msg.per_address_limit,
            public_price: msg.public_price,
            private_price: msg.private_price,
            mint_flag: true,
            enable_token_id,
            is_public_mint: msg.is_public_mint,
            nft_base_name: msg.nft_base_name,
            base_image_uri: msg.base_image_uri,
            content_type,
        },
    )
}

/// The slot of `pool` that `word` selects.
pub open spec fn draw_slot(pool: Seq<u32>, word: u32) -> int {
    (word as int) % (pool.len() as int)
}

/// The index that `word` draws from `pool`.
pub open spec fn drawn(pool: Seq<u32>, word: u32) -> u32 {
    pool[draw_slot(pool, word)]
}

/// The pool after `word` drew from it: the last index moves into the drawn slot.
pub open spec fn after_draw(pool: Seq<u32>, word: u32) -> Seq<u32> {
    pool.update(draw_slot(pool, word), pool.last()).drop_last()
}

/// Draws from `pool` the index in slot `word mod len` and removes it, moving
/// the last index into its slot.
pub fn draw(pool: &mut Vec<u32>, word: u32) -> (r: u32)
    requires
        old(pool).len() > 0,
    ensures
        r == drawn(old(pool)@, word),
        final(pool)@ == after_draw(old(pool)@, word),
{
    let slot = (word as usize) % pool.len();
    pool.swap_remove(slot)
}

/// The error a mint fails with before payment is looked at, if any: the
/// switch, the start time, the supply, then the caller's allowance.
pub open spec fn gate_error(s: State, now: u64, minted: Option<u128>, quota: Option<u128>) -> Option<
    ContractError,
> {
    if !s.mint_flag {
        Some(ContractError::MintingDisabled)
    } else if now < s.start_mint_time {
        Some(ContractError::MintNotStarted)
    } else if s.mint_count >= s.total_supply {
        Some(ContractError::SoldOut)
    } else if s.is_public_mint {
        match minted {
            Some(c) => if c >= s.per_address_limit {
                Some(ContractError::LimitExceeded)
            } else {
                None
            },
            None => None,
        }
    } else {
        match quota {
            None => Some(ContractError::NotAllowlisted),
            Some(q) => if q == 0 {
                Some(ContractError::LimitExceeded)
            } else {
                None
            },
        }
    }
}

/// The price of the sale that is on.
pub open spec fn active_price(s: State) -> Coin {
    if s.is_public_mint {
        s.public_price
    } else {
        s.private_price
    }
}

/// The error a mint fails with on payment, if any: the admin mints for free
/// and attaches no non-zero amount of anything; anyone else attaches, in the
/// active price's denomination, exactly the active price.
pub open spec fn payment_error(s: State, sender: Seq<char>, funds: Seq<Coin>) -> Option<ContractError> {
    let got = fund_amount(funds, active_price(s).denom@);
    if sender == s.admin@ {
        match first_nonzero(funds) {
            Some(extra) => Some(ContractError::OverpaidBySelf { got: extra }),
            None => None,
        }
    } else if got != active_price(s).amount {
        Some(ContractError::WrongAmount { expected: active_price(s).amount, got })
    } else {
        None
    }
}

/// The error a mint fails with, if any.
pub open spec fn mint_error(
    s: State,
    now: u64,
    minted: Option<u128>,
    quota: Option<u128>,
    sender: Seq<char>,
    funds: Seq<Coin>,
) -> Option<ContractError> {
    match gate_error(s, now, minted, quota) {
        Some(e) => Some(e),
        None => payment_error(s, sender, funds),
    }
}

/// The index a mint issues: the one `word` draws from the pool, or the next
/// in sequence where there is no pool.
pub open spec fn chosen_index(s: State, word: u32) -> u32 {
    match s.enable_token_id {
        Some(pool) => drawn(pool@, word),
        None => (s.mint_count + 1) as u32,
    }
}

/// The digits `0` to `9`.
pub open spec fn digit(d: int) -> char {
    seq!['0', '1', '2', '3', '4', '5', '6', '7', '8', '9'][d]
}

/// The decimal numeral of `n`, without leading zeros.
pub open spec fn decimal(n: nat) -> Seq<char>
    decreases n,
{
    if n < 10 {
        seq![digit(n as int)]
    } else {
        decimal(n / 10).push(digit((n % 10) as int))
    }
}

/// The numeral of the digit `d`.
fn digit_text(d: u32) -> (r: String)
    requires
        d < 10,
    ensures
        r@ == seq![digit(d as int)],
{
    proof {
        reveal_strlit("0");
        reveal_strlit("1");
        reveal_strlit("2");
        reveal_strlit("3");
        reveal_strlit("4");
        reveal_strlit("5");
        reveal_strlit("6");
        reveal_strlit("7");
        reveal_strlit("8");
        reveal_strlit("9");
    }
    let text = match d {
        0 => "0",
        1 => "1",
        2 => "2",
        3 => "3",
        4 => "4",
        5 => "5",
        6 => "6",
        7 => "7",
        8 => "8",
        _ => "9",
    };
    let r = text.to_owned();
    assert(r@ =~= seq![digit(d as int)]);
    r
}

/// The decimal numeral of `n`.
fn numeral(n: u32) -> (r: String)
    ensures
        r@ == decimal(n as nat),
    decreases n,
{
    if n < 10 {
        digit_text(n)
    } else {
        let mut text = numeral(n / 10);
        let last = digit_text(n % 10);
        text.append(last.as_str());
        assert(text@ =~= decimal((n / 10) as nat).push(digit((n % 10) as int)));
        text
    }
}

/// The token id of index `i`: the base name, a dot, and the index.
pub open spec fn token_name(base: Seq<char>, i: u32) -> Seq<char> {
    base + seq!['.'] + decimal(i as nat)
}

/// The metadata location of index `i`: the base, the index, and `.json`.
pub open spec fn token_uri(base: Seq<char>, i: u32) -> Seq<char> {
    base + decimal(i as nat) + seq!['.', 'j', 's', 'o', 'n']
}

/// The image location of index `i`: the base, the index, and `.png`.
pub open spec fn image_uri(base: Seq<char>, i: u32) -> Seq<char> {
    base + decimal(i as nat) + seq!['.', 'p', 'n', 'g']
}

/// Whether `ins` asks the registry to mint index `i` of sale `s` to `owner`,
/// with the sale's names, locations and media type.
pub open spec fn mints_index(ins: Instruction, s: State, owner: String, i: u32) -> bool {
    match ins {
        Instruction::MintNft(m) => {
            &&& m.token_id@ == token_name(s.nft_base_name@, i)
            &&& m.owner == owner
            &&& match m.token_uri {
                Some(uri) => uri@ == token_uri(s.base_token_uri@, i),
                None => false,
            }
            &&& m.content_type == s.content_type
            &&& m.extension.minter == owner
            &&& m.extension.image_url@ == image_uri(s.base_image_uri@, i)
        },
        _ => false,
    }
}

/// The caller's public-sale count after a mint.
pub open spec fn next_minted(minted: Option<u128>) -> Option<u128> {
    match minted {
        Some(c) => Some((c + 1) as u128),
        None => Some(1),
    }
}

/// What a successful mint of the index that `word` selects does: the
/// counters and pool of `old_state` move on by one issue, the caller's record
/// moves on, and the instructions mint the index to the caller and, for a
/// paying caller, forward the price to the admin.
pub open spec fn minted_as(
    old_state: State,
    new_state: State,
    old_minted: Option<u128>,
    new_minted: Option<u128>,
    old_quota: Option<u128>,
    new_quota: Option<u128>,
    sender: String,
    instructions: Seq<Instruction>,
    word: u32,
) -> bool
{
    let s = old_state;
    let i = chosen_index(s, word);
    let price = active_price(s);
    &&& new_state.mint_count == s.mint_count + 1
    &&& match s.enable_token_id {
        Some(pool) => new_state.enable_token_id matches Some(p) && p@ == after_draw(
            pool@,
            word,
        ),
        None => new_state.enable_token_id is None,
    }
    &&& new_state.admin == s.admin
    &&& new_state.base_token_uri == s.base_token_uri
    &&& new_state.total_supply == s.total_supply
    &&& new_state.start_mint_time == s.start_mint_time
    &&& new_state.per_address_limit == s.per_address_limit
    &&& new_state.public_price == s.public_price
    &&& new_state.private_price == s.private_price
    &&& new_state.mint_flag == s.mint_flag
    &&& new_state.is_public_mint == s.is_public_mint
    &&& new_state.nft_base_name == s.nft_base_name
    &&& new_state.base_image_uri == s.base_image_uri
    &&& new_state.content_type == s.content_type
    &&& s.is_public_mint ==> new_minted == next_minted(old_minted) && new_quota
        == old_quota
    &&& !s.is_public_mint ==> new_minted == old_minted && new_quota == Some(
        (old_quota.unwrap() - 1) as u128,
    )
    &&& instructions.len() == if sender@ == s.admin@ { 1int } else { 2int }
    &&& mints_index(instructions[0], s, sender, i)
    &&& sender@ != s.admin@ ==> instructions[1] == (Instruction::SendFunds {
        to_address: s.admin,
        amount: Coin { denom: price.denom, amount: price.amount },
    })
}

/// Issues one index to `sender`, taking `word` as the random word of the draw.
///
/// `minted` is the caller's public-sale count and `quota` their remaining
/// allowlist quota, `None` where none is stored; both come back as they are
/// to be stored. On success the instructions are a mint of the index to the
/// caller, then, for a paying caller, the payment forwarded to the admin.
pub fn mint_with_word(
    state: &mut State,
    minted: &mut Option<u128>,
    quota: &mut Option<u128>,
    sender: &String,
    now: u64,
    funds: &Vec<Coin>,
    word: u32,
) -> (r: Result<Vec<Instruction>, ContractError>)
    requires
        old(state).wf(),
    ensures
        final(state).wf(),
        mint_error(*old(state), now, *old(minted), *old(quota), sender@, funds@) matches Some(e)
            ==> r == Err::<Vec<Instruction>, ContractError>(e),
        mint_error(*old(state), now, *old(minted), *old(quota), sender@, funds@) is None ==> r is Ok,
        r is Err ==> *final(state) == *old(state) && *final(minted) == *old(minted) && *final(quota)
            == *old(quota),
        r matches Ok(instructions) ==> minted_as(
            *old(state),
            *final(state),
            *old(minted),
            *final(minted),
            *old(quota),
            *final(quota),
            *sender,
            instructions@,
            word,
        ),
{
    if !state.mint_flag {
        return Err(ContractError::MintingDisabled);
    }
    if now < state.start_mint_time {
        return Err(ContractError::MintNotStarted);
    }
    if state.mint_count >= state.total_supply {
        return Err(ContractError::SoldOut);
    }
    let new_minted: Option<u128>;
    let new_quota: Option<u128>;
    if state.is_public_mint {
        match *minted {
            Some(c) => {
                if c >= state.per_address_limit {
                    return Err(ContractError::LimitExceeded);
                }
                new_minted = Some(c + 1);
            },
            None => {
                new_minted = Some(1);
            },
        }
        new_quota = *quota;
    } else {
        match *quota {
            None => {
                return Err(ContractError::NotAllowlisted);
            },
            Some(q) => {
                if q == 0 {
                    return Err(ContractError::LimitExceeded);
                }
                new_quota = Some(q - 1);
            },
        }
        new_minted = *minted;
    }
    let price = if state.is_public_mint {
        state.public_price.duplicate()
    } else {
        state.private_price.duplicate()
    };
    let is_admin = *sender == state.admin;
    if is_admin {
        match attached_nonzero(funds) {
            Some(extra) => {
                return Err(ContractError::OverpaidBySelf { got: extra });
            },
            None => {},
        }
    } else {
        let got = attached_amount(funds, &price.denom);
        if got != price.amount {
            return Err(ContractError::WrongAmount { expected: price.amount, got });
        }
    }
    let index: u32 = match &mut state.enable_token_id {
        Some(pool) => draw(pool, word),
        None => (state.mint_count + 1) as u32,
    };
    state.mint_count = state.mint_count + 1;
    *minted = new_minted;
    *quota = new_quota;

    let digits = numeral(index);
    let mut token_id = state.nft_base_name.clone();
    token_id.append(".");
    token_id.append(digits.as_str());
    let mut uri = state.base_token_uri.clone();
    uri.append(digits.as_str());
    uri.append(".json");
    let mut image_url = state.base_image_uri.clone();
    image_url.append(digits.as_str());
    image_url.append(".png");
    proof {
        reveal_strlit(".");
        reveal_strlit(".json");
        reveal_strlit(".png");
    }
    let mut instructions: Vec<Instruction> = Vec::new();
    let msg = MintMsg {
        token_id,
        owner: sender.clone(),
        token_uri: Some(uri),
        content_type: state.content_type.clone(),
        extension: Extension { minter: sender.clone(), image_url },
    };
    let ghost msg_view = msg;
    instructions.push(Instruction::MintNft(msg));
    if !is_admin {
        instructions.push(
            Instruction::SendFunds {
                to_address: state.admin.clone(),
                amount: Coin { denom: price.denom, amount: price.amount },
            },
        );
    }
    assert(instructions@[0] == Instruction::MintNft(msg_view));
    assert(msg_view.token_uri matches Some(u) && u@ == token_uri(old(state).base_token_uri@, index));
    assert(msg_view.token_id@ == token_name(old(state).nft_base_name@, index));
    assert(msg_view.owner == *sender);
    assert(msg_view.extension.minter == *sender);
    assert(msg_view.extension.image_url@ == image_uri(old(state).base_image_uri@, index));
    assert(mints_index(instructions@[0], *old(state), *sender, index));
    Ok(instructions)
}

/// Issues one index to `sender` at block `height` and time `now`: the random
/// word of the draw is derived from the height and the caller's address.
pub fn execute_mint(
    state: &mut State,
    minted: &mut Option<u128>,
    quota: &mut Option<u128>,
    sender: &String,
    now: u64,
    height: u64,
    funds: &Vec<Coin>,
) -> (r: Result<Vec<Instruction>, ContractError>)
    requires
        old(state).wf(),
    ensures
        final(state).wf(),
        mint_error(*old(state), now, *old(minted), *old(quota), sender@, funds@) matches Some(e)
            ==> r == Err::<Vec<Instruction>, ContractError>(e),
        mint_error(*old(state), now, *old(minted), *old(quota), sender@, funds@) is None ==> r is Ok,
        r is Err ==> *final(state) == *old(state) && *final(minted) == *old(minted) && *final(quota)
            == *old(quota),
        r matches Ok(instructions) ==> minted_as(
            *old(state),
            *final(state),
            *old(minted),
            *final(minted),
            *old(quota),
            *final(quota),
            *sender,
            instructions@,
            draw_word(height, sender@),
        ),
{
    let word = mint_draw_word(height, sender);
    mint_with_word(state, minted, quota, sender, now, funds, word)
}

/// The indices handed out when the words `words` draw from `pool` one after
/// the other, until the words or the pool run out.
pub open spec fn deplete(pool: Seq<u32>, words: Seq<u32>) -> Seq<u32>
    decreases words.len(),
{
    if words.len() == 0 || pool.len() == 0 {
        Seq::empty()
    } else {
        seq![drawn(pool, words[0])] + deplete(after_draw(pool, words[0]), words.drop_first())
    }
}

proof fn lemma_after_draw_multiset(pool: Seq<u32>, word: u32)
    requires
        pool.len() > 0,
    ensures
        after_draw(pool, word).to_multiset() == pool.to_multiset().remove(drawn(pool, word)),
        after_draw(pool, word).len() == pool.len() - 1,
        pool.to_multiset().count(drawn(pool, word)) > 0,
{
    broadcast use vstd::seq_lib::group_to_multiset_ensures, vstd::seq_lib::to_multiset_update;
    broadcast use vstd::multiset::group_multiset_axioms;

    let i = draw_slot(pool, word);
    let t = pool.drop_last();
    let l = pool.last();
    assert(pool =~= t.push(l));
    assert(pool.contains(pool[i]));
    if i == pool.len() - 1 {
        assert(after_draw(pool, word) =~= t);
        assert(pool.to_multiset() == t.to_multiset().insert(l));
        assert(t.to_multiset() =~= t.to_multiset().insert(l).remove(l));
    } else {
        assert(after_draw(pool, word) =~= t.update(i, l));
        assert(t.update(i, l).to_multiset() == t.to_multiset().insert(l).remove(t[i]));
        assert(pool.to_multiset() == t.to_multiset().insert(l));
    }
}

/// Draw uniqueness: drawing from `pool` until it is empty hands out every
/// member exactly as often as it occurs in the pool, in some order; from a
/// pool without duplicates, no index is handed out twice.
pub proof fn lemma_draw_uniqueness(pool: Seq<u32>, words: Seq<u32>)
    requires
        words.len() >= pool.len(),
    ensures
        deplete(pool, words).to_multiset() == pool.to_multiset(),
        deplete(pool, words).len() == pool.len(),
        pool.no_duplicates() ==> deplete(pool, words).no_duplicates(),
    decreases pool.len(),
{
    broadcast use vstd::seq_lib::group_to_multiset_ensures, vstd::seq_lib::lemma_multiset_commutative;
    broadcast use vstd::multiset::group_multiset_axioms;

    if pool.len() == 0 {
        assert(deplete(pool, words) =~= Seq::<u32>::empty());
        assert(pool.to_multiset() =~= Multiset::<u32>::empty());
        assert(deplete(pool, words).to_multiset() =~= Multiset::<u32>::empty());
    } else {
        let w = words[0];
        let d = drawn(pool, w);
        let rest = after_draw(pool, w);
        lemma_after_draw_multiset(pool, w);
        lemma_draw_uniqueness(rest, words.drop_first());
        let tail = deplete(rest, words.drop_first());
        assert(deplete(pool, words) == seq![d] + tail);
        assert(seq![d].to_multiset() =~= Multiset::<u32>::empty().insert(d)) by {
            assert(Seq::<u32>::empty().push(d) =~= seq![d]);
        }
        assert(deplete(pool, words).to_multiset() =~= pool.to_multiset());
    }
    if pool.no_duplicates() {
        pool.lemma_multiset_has_no_duplicates();
        deplete(pool, words).lemma_multiset_has_no_duplicates_conv();
    }
}

proof fn lemma_run_suffix(pools: Seq<Seq<u32>>, words: Seq<u32>, issued: Seq<u32>, k: int)
    requires
        words.len() == issued.len(),
        pools.len() == words.len() + 1,
        0 <= k <= words.len(),
        pools[k].len() == words.len() - k,
        forall|j: int|
            0 <= j < words.len() ==> pools[j + 1] == after_draw(pools[j], #[trigger] words[j])
                && issued[j] == drawn(pools[j], words[j]),
    ensures
        issued.subrange(k, words.len() as int) == deplete(
            pools[k],
            words.subrange(k, words.len() as int),
        ),
        pools[words.len() as int].len() == 0,
    decreases words.len() - k,
{
    let n = words.len() as int;
    if k == n {
        assert(issued.subrange(k, n) =~= Seq::<u32>::empty());
        assert(words.subrange(k, n) =~= Seq::<u32>::empty());
    } else {
        assert(pools[k + 1] == after_draw(pools[k], words[k]));
        assert(pools[k + 1].len() == n - k - 1);
        lemma_run_suffix(pools, words, issued, k + 1);
        let ws = words.subrange(k, n);
        assert(ws.drop_first() =~= words.subrange(k + 1, n));
        assert(ws[0] == words[k]);
        assert(issued.subrange(k, n) =~= seq![issued[k]] + issued.subrange(k + 1, n));
    }
}

/// Draw uniqueness over a run of mints: where the `k`-th mint of a run issues
/// `issued[k]` by drawing with `words[k]` from `pools[k]` and leaves
/// `pools[k + 1]`, as `mint_with_word` does, a run as long as the first pool
/// empties it and issues every member exactly as often as it occurs, so from
/// a pool without duplicates no index twice.
pub proof fn lemma_run_issues_each_once(pools: Seq<Seq<u32>>, words: Seq<u32>, issued: Seq<u32>)
    requires
        words.len() == issued.len(),
        pools.len() == words.len() + 1,
        pools[0].len() == words.len(),
        forall|j: int|
            0 <= j < words.len() ==> pools[j + 1] == after_draw(pools[j], #[trigger] words[j])
                && issued[j] == drawn(pools[j], words[j]),
    ensures
        issued.to_multiset() == pools[0].to_multiset(),
        pools[0].no_duplicates() ==> issued.no_duplicates(),
        pools[words.len() as int].len() == 0,
{
    lemma_run_suffix(pools, words, issued, 0);
    assert(issued.subrange(0, words.len() as int) =~= issued);
    assert(words.subrange(0, words.len() as int) =~= words);
    lemma_draw_uniqueness(pools[0], words);
}

/// Per-address limit: in the public sale, once a mint has moved a caller's
/// count to the limit (a first mint, where the limit is one), the caller's
/// next mint fails with `LimitExceeded` while minting stays enabled and
/// started and supply remains.
pub proof fn lemma_second_mint_refused(
    s: State,
    t: State,
    minted0: Option<u128>,
    minted1: Option<u128>,
    quota0: Option<u128>,
    quota1: Option<u128>,
    sender: String,
    instructions: Seq<Instruction>,
    word: u32,
    now: u64,
    funds: Seq<Coin>,
)
    requires
        minted_as(s, t, minted0, minted1, quota0, quota1, sender, instructions, word),
        s.is_public_mint,
        s.per_address_limit == 1,
        minted0 is None,
        t.mint_flag,
        t.start_mint_time <= now,
        t.mint_count < t.total_supply,
    ensures
        mint_error(t, now, minted1, quota1, sender@, funds) == Some(ContractError::LimitExceeded),
{
}

/// Supply conservation: once the whole supply is issued, every further mint
/// fails with `SoldOut` while minting is enabled and started.
pub proof fn lemma_sold_out(
    s: State,
    now: u64,
    minted: Option<u128>,
    quota: Option<u128>,
    sender: Seq<char>,
    funds: Seq<Coin>,
)
    requires
        s.wf(),
        s.mint_count == s.total_supply,
        s.mint_flag,
        s.start_mint_time <= now,
    ensures
        mint_error(s, now, minted, quota, sender, funds) == Some(ContractError::SoldOut),
{
}

/// An allowlist entry: the address and its private-sale quota.
#[derive(Debug, PartialEq, Eq)]
pub struct WhiteUserInfo {
    pub address: String,
    pub wallet_limit: u128,
}

/// Succeeds for the admin alone.
fn authorize(state: &State, sender: &String) -> (r: Result<(), ContractError>)
    ensures
        sender@ == state.admin@ ==> r == Ok::<(), ContractError>(()),
        sender@ != state.admin@ ==> r == Err::<(), ContractError>(ContractError::Unauthorized),
{
    if *sender == state.admin {
        Ok(())
    } else {
        Err(ContractError::Unauthorized)
    }
}

/// Replaces the sale parameters (admin only): base uri, start time,
/// per-address limit, both prices and base name. Supply, counters, pool and
/// switches are kept.
pub fn execute_set_config(state: &mut State, sender: &String, config: State) -> (r: Result<
    (),
    ContractError,
>)
    requires
        old(state).wf(),
    ensures
        final(state).wf(),
        sender@ != old(state).admin@ ==> r == Err::<(), ContractError>(ContractError::Unauthorized)
            && *final(state) == *old(state),
        sender@ == old(state).admin@ ==> r == Ok::<(), ContractError>(()) && *final(state) == (State {
            base_token_uri: config.base_token_uri,
            start_mint_time: config.start_mint_time,
            per_address_limit: config.per_address_limit,
            public_price: config.public_price,
            private_price: config.private_price,
            nft_base_name: config.nft_base_name,
            ..*old(state)
        }),
{
    match authorize(state, sender) {
        Ok(()) => {},
        Err(e) => return Err(e),
    }
    state.base_token_uri = config.base_token_uri;
    state.start_mint_time = config.start_mint_time;
    state.per_address_limit = config.per_address_limit;
    state.public_price = config.public_price;
    state.private_price = config.private_price;
    state.nft_base_name = config.nft_base_name;
    Ok(())
}

/// Switches minting on or off (admin only).
pub fn execute_set_flag(state: &mut State, sender: &String, flag: bool) -> (r: Result<(), ContractError>)
    requires
        old(state).wf(),
    ensures
        final(state).wf(),
        sender@ != old(state).admin@ ==> r == Err::<(), ContractError>(ContractError::Unauthorized)
            && *final(state) == *old(state),
        sender@ == old(state).admin@ ==> r == Ok::<(), ContractError>(()) && *final(state) == (State {
            mint_flag: flag,
            ..*old(state)
        }),
{
    match authorize(state, sender) {
        Ok(()) => {},
        Err(e) => return Err(e),
    }
    state.mint_flag = flag;
    Ok(())
}

/// Switches between the public and the private sale (admin only).
pub fn execute_change_sale_type(state: &mut State, sender: &String, is_public_mint: bool) -> (r:
    Result<(), ContractError>)
    requires
        old(state).wf(),
    ensures
        final(state).wf(),
        sender@ != old(state).admin@ ==> r == Err::<(), ContractError>(ContractError::Unauthorized)
            && *final(state) == *old(state),
        sender@ == old(state).admin@ ==> r == Ok::<(), ContractError>(()) && *final(state) == (State {
            is_public_mint,
            ..*old(state)
        }),
{
    match authorize(state, sender) {
        Ok(()) => {},
        Err(e) => return Err(e),
    }
    state.is_public_mint = is_public_mint;
    Ok(())
}

impl WhiteUserInfo {
    /// A field-by-field copy.
    pub fn duplicate(&self) -> (r: WhiteUserInfo)
        ensures
            r == *self,
    {
        WhiteUserInfo { address: self.address.clone(), wallet_limit: self.wallet_limit }
    }
}

/// The quotas that a list of allowlist entries sets, applied in order: each
/// address gets the limit of its last entry.
pub open spec fn quota_map(entries: Seq<WhiteUserInfo>) -> Map<Seq<char>, u128>
    decreases entries.len(),
{
    if entries.len() == 0 {
        Map::empty()
    } else {
        quota_map(entries.drop_last()).insert(entries.last().address@, entries.last().wallet_limit)
    }
}

/// Whether `r` names each address at most once, gives it its quota in `m`,
/// and names every address of `m`.
pub open spec fn sets_quotas(r: Seq<WhiteUserInfo>, m: Map<Seq<char>, u128>) -> bool {
    &&& forall|i: int, j: int| 0 <= i < j < r.len() ==> r[i].address@ != r[j].address@
    &&& forall|i: int|
        0 <= i < r.len() ==> m.contains_key(#[trigger] r[i].address@) && m[r[i].address@]
            == r[i].wallet_limit
    &&& forall|a: Seq<char>| #[trigger]
        m.contains_key(a) ==> exists|i: int| 0 <= i < r.len() && r[i].address@ == a
}

/// The slot of `entries` that names `address`, if any.
fn entry_position(entries: &Vec<WhiteUserInfo>, address: &String) -> (r: Option<usize>)
    ensures
        match r {
            Some(i) => i < entries.len() && entries@[i as int].address@ == address@,
            None => forall|i: int| 0 <= i < entries.len() ==> entries@[i].address@ != address@,
        },
{
    let mut i: usize = 0;
    while i < entries.len()
        invariant
            i <= entries.len(),
            forall|j: int| 0 <= j < i ==> entries@[j].address@ != address@,
        decreases entries.len() - i,
    {
        if entries[i].address == *address {
            return Some(i);
        }
        i = i + 1;
    }
    None
}

/// Admits allowlist entries (admin only). On success the result holds one
/// entry per address, carrying the limit of that address's last entry: the
/// quotas to store, each replacing what the address had.
pub fn execute_add_white_users(state: &State, sender: &String, white_users: Vec<WhiteUserInfo>) -> (r:
    Result<Vec<WhiteUserInfo>, ContractError>)
    ensures
        sender@ != state.admin@ ==> r == Err::<Vec<WhiteUserInfo>, ContractError>(
            ContractError::Unauthorized,
        ),
        sender@ == state.admin@ ==> (r matches Ok(v) && sets_quotas(v@, quota_map(white_users@))),
{
    match authorize(state, sender) {
        Ok(()) => {},
        Err(e) => return Err(e),
    }
    let mut out: Vec<WhiteUserInfo> = Vec::new();
    let mut k: usize = 0;
    assert(white_users@.subrange(0, 0) =~= Seq::<WhiteUserInfo>::empty());
    while k < white_users.len()
        invariant
            k <= white_users.len(),
            sets_quotas(out@, quota_map(white_users@.subrange(0, k as int))),
        decreases white_users.len() - k,
    {
        let ghost m = quota_map(white_users@.subrange(0, k as int));
        let e = white_users[k].duplicate();
        assert(white_users@.subrange(0, k + 1).drop_last() =~= white_users@.subrange(0, k as int));
        let ghost m2 = m.insert(e.address@, e.wallet_limit);
        assert(quota_map(white_users@.subrange(0, k + 1)) == m2);
        match entry_position(&out, &e.address) {
            Some(i) => {
                let ghost before = out@;
                out.remove(i);
                out.insert(i, e);
                assert(out@ =~= before.update(i as int, white_users@[k as int]));
                assert forall|a: Seq<char>| #[trigger] m2.contains_key(a) implies exists|j: int|
                    0 <= j < out@.len() && out@[j].address@ == a by {
                    if a == white_users@[k as int].address@ {
                        assert(out@[i as int].address@ == a);
                    } else {
                        let j = choose|j: int| 0 <= j < before.len() && before[j].address@ == a;
                        assert(out@[j].address@ == a);
                    }
                }
            },
            None => {
                let ghost before = out@;
                out.push(e);
                assert forall|a: Seq<char>| #[trigger] m2.contains_key(a) implies exists|j: int|
                    0 <= j < out@.len() && out@[j].address@ == a by {
                    if a == white_users@[k as int].address@ {
                        assert(out@[before.len() as int].address@ == a);
                    } else {
                        let j = choose|j: int| 0 <= j < before.len() && before[j].address@ == a;
                        assert(out@[j].address@ == a);
                    }
                }
            },
        }
        k = k + 1;
    }
    assert(white_users@.subrange(0, white_users.len() as int) =~= white_users@);
    Ok(out)
}

/// What a user's record says for the sale that is on: their public-sale
/// count in the public sale, their remaining quota in the private one, zero
/// where nothing is stored.
pub fn query_user_info(state: &State, minted: Option<u128>, quota: Option<u128>) -> (r: u128)
    ensures
        r == if state.is_public_mint {
            match minted {
                Some(c) => c,
                None => 0,
            }
        } else {
            match quota {
                Some(q) => q,
                None => 0,
            }
        },
{
    let stored = if state.is_public_mint { minted } else { quota };
    match stored {
        Some(v) => v,
        None => 0,
    }
}

/// Handles the callback of the asset registry's instantiation: `instantiated`
/// is the new registry's address, `None` where the instantiation failed. On
/// success the address comes back, to be stored as the collection address.
pub fn reply(id: u64, instantiated: Option<String>) -> (r: Result<String, ContractError>)
    ensures
        id != INSTANTIATE_CW721_REPLY_ID ==> r == Err::<String, ContractError>(
            ContractError::UnexpectedCallbackId { id },
        ),
        id == INSTANTIATE_CW721_REPLY_ID ==> match instantiated {
            Some(a) => r == Ok::<String, ContractError>(a),
            None => r == Err::<String, ContractError>(
                ContractError::AssetRegistryInstantiateFailed,
            ),
        },
{
    if id != INSTANTIATE_CW721_REPLY_ID {
        return Err(ContractError::UnexpectedCallbackId { id });
    }
    match instantiated {
        Some(a) => Ok(a),
        None => Err(ContractError::AssetRegistryInstantiateFailed),
    }
}

/// Whether `a` holds what `b` holds, field by field, the pool by its contents.
pub open spec fn is_copy(a: State, b: State) -> bool {
    &&& a.admin == b.admin
    &&& a.base_token_uri == b.base_token_uri
    &&& a.total_supply == b.total_supply
    &&& a.mint_count == b.mint_count
    &&& a.start_mint_time == b.start_mint_time
    &&& a.per_address_limit == b.per_address_limit
    &&& a.public_price == b.public_price
    &&& a.private_price == b.private_price
    &&& a.mint_flag == b.mint_flag
    &&& match b.enable_token_id {
        Some(p) => a.enable_token_id matches Some(q) && q@ == p@,
        None => a.enable_token_id is None,
    }
    &&& a.is_public_mint == b.is_public_mint
    &&& a.nft_base_name == b.nft_base_name
    &&& a.base_image_uri == b.base_image_uri
    &&& a.content_type == b.content_type
}

/// A copy of `pool`.
fn copy_pool(pool: &Vec<u32>) -> (r: Vec<u32>)
    ensures
        r@ == pool@,
{
    let mut out: Vec<u32> = Vec::new();
    let mut i: usize = 0;
    while i < pool.len()
        invariant
            i <= pool.len(),
            out@ == pool@.subrange(0, i as int),
        decreases pool.len() - i,
    {
        out.push(pool[i]);
        assert(pool@.subrange(0, i + 1) =~= pool@.subrange(0, i as int).push(pool@[i as int]));
        i = i + 1;
    }
    assert(pool@.subrange(0, pool.len() as int) =~= pool@);
    out
}

impl State {
    /// A field-by-field copy.
    pub fn duplicate(&self) -> (r: State)
        ensures
            is_copy(r, *self),
    {
        let enable_token_id = match &self.enable_token_id {
            Some(p) => Some(copy_pool(p)),
            None => None,
        };
        State {
            admin: self.admin.clone(),
            base_token_uri: self.base_token_uri.clone(),
            total_supply: self.total_supply,
            mint_count: self.mint_count,
            start_mint_time: self.start_mint_time,
            per_address_limit: self.per_address_limit,
            public_price: self.public_price.duplicate(),
            private_price: self.private_price.duplicate(),
            mint_flag: self.mint_flag,
            enable_token_id,
            is_public_mint: self.is_public_mint,
            nft_base_name: self.nft_base_name.clone(),
            base_image_uri: self.base_image_uri.clone(),
            content_type: self.content_type.clone(),
        }
    }
}

/// The queries the allocation engine answers.
#[derive(Debug, PartialEq, Eq)]
pub enum QueryMsg {
    GetStateInfo,
    GetUserInfo { address: String },
    GetCollectionAddress,
}

/// The answer to a query.
#[derive(Debug, PartialEq, Eq)]
pub enum QueryResponse {
    State(State),
    UserInfo(u128),
    CollectionAddress(String),
}

/// Answers `msg`. `minted` and `quota` are the records of the address that
/// `msg` names, if it names one; `collection_address` is the registry's
/// address, once the registry is instantiated.
pub fn query(
    state: &State,
    minted: Option<u128>,
    quota: Option<u128>,
    collection_address: &Option<String>,
    msg: &QueryMsg,
) -> (r: Result<QueryResponse, ContractError>)
    ensures
        match *msg {
            QueryMsg::GetStateInfo => r matches Ok(QueryResponse::State(c)) && is_copy(c, *state),
            QueryMsg::GetUserInfo { .. } => r == Ok::<QueryResponse, ContractError>(
                QueryResponse::UserInfo(
                    if state.is_public_mint {
                        match minted {
                            Some(c) => c,
                            None => 0,
                        }
                    } else {
                        match quota {
                            Some(q) => q,
                            None => 0,
                        }
                    },
                ),
            ),
            QueryMsg::GetCollectionAddress => match *collection_address {
                Some(a) => r == Ok::<QueryResponse, ContractError>(
                    QueryResponse::CollectionAddress(a),
                ),
                None => r == Err::<QueryResponse, ContractError>(ContractError::NotFound),
            },
        },
{
    match msg {
        QueryMsg::GetStateInfo => Ok(QueryResponse::State(state.duplicate())),
        QueryMsg::GetUserInfo { .. } => Ok(QueryResponse::UserInfo(query_user_info(state, minted, quota))),
        QueryMsg::GetCollectionAddress => match collection_address {
            Some(a) => Ok(QueryResponse::CollectionAddress(a.clone())),
            None => Err(ContractError::NotFound),
        },
    }
}

} // verus!
