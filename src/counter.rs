use vstd::prelude::*;

verus! {

/// Instantiating the counter contract takes no parameters.
#[derive(Clone, Copy, Debug, PartialEq, Eq, Structural)]
pub struct InstantiateMsg {}

/// The changes that the counter contract accepts.
#[derive(Clone, Copy, Debug, PartialEq, Eq, Structural)]
pub enum ExecuteMsg {
    IncrementCounter { by: u64 },
    ResetCounter {},
}

/// The queries that the counter contract answers.
#[derive(Clone, Copy, Debug, PartialEq, Eq, Structural)]
pub enum QueryMsg {
    GetCounter {},
}

/// The counter's current value.
#[derive(Clone, Copy, Debug, PartialEq, Eq, Structural)]
pub struct GetCounterResponse {
    pub counter: u64,
}

/// The record that the counter contract keeps.
#[derive(Clone, Copy, Debug, PartialEq, Eq, Structural)]
pub struct State {
    pub counter: u64,
}

/// Why a change to the counter was refused.
#[derive(Clone, Copy, Debug, PartialEq, Eq, Structural)]
pub enum ContractError {
    /// The new value would not fit in a `u64`.
    Overflow,
}

/// The record written at instantiation: the counter at zero.
pub fn instantiate(_msg: InstantiateMsg) -> (r: State)
    ensures
        r.counter == 0,
{
    State { counter: 0 }
}

impl State {
    /// The record with the counter raised by `by`, or `Overflow` where the
    /// sum does not fit.
    pub fn increment(&self, by: u64) -> (r: Result<State, ContractError>)
        ensures
            self.counter + by <= u64::MAX ==> r == Ok::<State, ContractError>(
                State { counter: (self.counter + by) as u64 },
            ),
            self.counter + by > u64::MAX ==> r == Err::<State, ContractError>(ContractError::Overflow),
    {
        match self.counter.checked_add(by) {
            Some(counter) => Ok(State { counter }),
            None => Err(ContractError::Overflow),
        }
    }
}

/// The record after `msg`: raised by the amount, or back at zero. A failed
/// change leaves no new record.
pub fn execute(state: State, msg: ExecuteMsg) -> (r: Result<State, ContractError>)
    ensures
        match msg {
            ExecuteMsg::IncrementCounter { by } => {
                &&& state.counter + by <= u64::MAX ==> r == Ok::<State, ContractError>(
                    State { counter: (state.counter + by) as u64 },
                )
                &&& state.counter + by > u64::MAX ==> r == Err::<State, ContractError>(
                    ContractError::Overflow,
                )
            },
            ExecuteMsg::ResetCounter {} => r == Ok::<State, ContractError>(State { counter: 0 }),
        },
{
    match msg {
        ExecuteMsg::IncrementCounter { by } => state.increment(by),
        ExecuteMsg::ResetCounter {} => Ok(State { counter: 0 }),
    }
}

/// The answer to `msg` on `state`.
pub fn query(state: State, msg: QueryMsg) -> (r: GetCounterResponse)
    ensures
        r.counter == state.counter,
{
    match msg {
        QueryMsg::GetCounter {} => GetCounterResponse { counter: state.counter },
    }
}

} // verus!
