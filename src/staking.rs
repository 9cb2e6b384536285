use vstd::prelude::*;

verus! {

/// Instantiating the staking contract takes no parameters.
#[derive(Clone, Copy, Debug, PartialEq, Eq, Structural)]
pub struct InstantiateMsg {}

/// The staking contract's one action: delegate the funds sent with it.
#[derive(Clone, Copy, Debug, PartialEq, Eq, Structural)]
pub enum ExecuteMsg {
    Run {},
}

/// An amount of one denomination.
#[derive(Clone, Debug, PartialEq, Eq)]
pub struct Coin {
    pub denom: String,
    pub amount: u128,
}

/// A delegation of `amount` to `validator`.
#[derive(Clone, Debug, PartialEq, Eq)]
pub struct Delegation {
    pub validator: String,
    pub amount: Coin,
}

/// The operator address of the validator that the contract delegates to.
pub open spec fn validator_spec() -> Seq<char> {
    "nibivaloper1zaavvzxez0elundtn32qnk9lkm8kmcszuwx9jz"@
}

fn validator_address() -> (r: &'static str)
    ensures
        r@ == validator_spec(),
{
    "nibivaloper1zaavvzxez0elundtn32qnk9lkm8kmcszuwx9jz"
}

/// The delegation that `Run` makes: the first coin of the funds sent, to the
/// contract's validator; `None` where no funds were sent.
pub fn plan_delegation(funds: &Vec<Coin>) -> (r: Option<Delegation>)
    ensures
        funds@.len() == 0 ==> r is None,
        funds@.len() > 0 ==> r is Some && r->Some_0.validator@ == validator_spec()
            && r->Some_0.amount.denom@ == funds@[0].denom@ && r->Some_0.amount.amount
            == funds@[0].amount,
{
    if funds.len() == 0 {
        None
    } else {
        let first = &funds[0];
        let amount = Coin { denom: first.denom.clone(), amount: first.amount };
        Some(Delegation { validator: validator_address().to_owned(), amount })
    }
}

} // verus!
