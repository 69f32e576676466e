use vstd::prelude::*;

use crate::error::ContractError;

verus! {

/// An amount of one denomination of the host's native funds.
#[derive(Debug, PartialEq, Eq)]
pub struct Coin {
    pub denom: String,
    pub amount: u128,
}

impl Coin {
    /// A field-by-field copy.
    pub fn duplicate(&self) -> (r: Coin)
        ensures
            r == *self,
    {
        Coin { denom: self.denom.clone(), amount: self.amount }
    }
}

/// The first entry of `funds` in denomination `denom`, if there is one.
pub open spec fn find_fund(funds: Seq<Coin>, denom: Seq<char>) -> Option<Coin>
    decreases funds.len(),
{
    if funds.len() == 0 {
        None
    } else if funds[0].denom@ == denom {
        Some(funds[0])
    } else {
        find_fund(funds.drop_first(), denom)
    }
}

/// The amount attached in denomination `denom`: that of its first entry, or zero.
pub open spec fn fund_amount(funds: Seq<Coin>, denom: Seq<char>) -> u128 {
    match find_fund(funds, denom) {
        Some(c) => c.amount,
        None => 0,
    }
}

proof fn lemma_find_fund_skip(funds: Seq<Coin>, denom: Seq<char>, i: int)
    requires
        0 <= i < funds.len(),
        funds[i].denom@ != denom,
    ensures
        find_fund(funds.skip(i), denom) == find_fund(funds.skip(i + 1), denom),
{
    assert(funds.skip(i).drop_first() =~= funds.skip(i + 1));
}

/// Index of the first entry of `funds` in denomination `denom`.
pub fn fund_position(funds: &Vec<Coin>, denom: &String) -> (r: Option<usize>)
    ensures
        match r {
            Some(i) => i < funds.len() && find_fund(funds@, denom@) == Some(funds@[i as int]),
            None => find_fund(funds@, denom@) is None,
        },
{
    let mut i: usize = 0;
    assert(funds@.skip(0) =~= funds@);
    while i < funds.len()
        invariant
            i <= funds.len(),
            find_fund(funds@, denom@) == find_fund(funds@.skip(i as int), denom@),
        decreases funds.len() - i,
    {
        if funds[i].denom == *denom {
            return Some(i);
        }
        proof {
            lemma_find_fund_skip(funds@, denom@, i as int);
        }
        i = i + 1;
    }
    None
}

/// The first entry of `funds` in denomination `denom`; attached funds with no
/// such entry cannot pay a price in it.
pub fn get_fund(funds: &Vec<Coin>, denom: &String) -> (r: Result<Coin, ContractError>)
    ensures
        match find_fund(funds@, denom@) {
            Some(c) => r == Ok::<Coin, ContractError>(c),
            None => r == Err::<Coin, ContractError>(ContractError::InsufficientFunds),
        },
{
    match fund_position(funds, denom) {
        Some(i) => Ok(funds[i].duplicate()),
        None => Err(ContractError::InsufficientFunds),
    }
}

/// The amount attached in denomination `denom`, zero where none is.
pub fn attached_amount(funds: &Vec<Coin>, denom: &String) -> (r: u128)
    ensures
        r == fund_amount(funds@, denom@),
{
    match fund_position(funds, denom) {
        Some(i) => funds[i].amount,
        None => 0,
    }
}

/// The amount of the first entry of `funds` that is not zero, if there is one.
pub open spec fn first_nonzero(funds: Seq<Coin>) -> Option<u128>
    decreases funds.len(),
{
    if funds.len() == 0 {
        None
    } else if funds[0].amount != 0 {
        Some(funds[0].amount)
    } else {
        first_nonzero(funds.drop_first())
    }
}

/// The amount of the first entry of `funds` that is not zero, if there is one.
pub fn attached_nonzero(funds: &Vec<Coin>) -> (r: Option<u128>)
    ensures
        r == first_nonzero(funds@),
{
    let mut i: usize = 0;
    assert(funds@.skip(0) =~= funds@);
    while i < funds.len()
        invariant
            i <= funds.len(),
            first_nonzero(funds@) == first_nonzero(funds@.skip(i as int)),
        decreases funds.len() - i,
    {
        if funds[i].amount != 0 {
            return Some(funds[i].amount);
        }
        assert(funds@.skip(i as int).drop_first() =~= funds@.skip(i + 1));
        i = i + 1;
    }
    None
}

} // verus!
