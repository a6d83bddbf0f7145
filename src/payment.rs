//! Funds attached to an invocation, and the single-coin rule that settles a
//! payment.
use vstd::prelude::*;

verus! {

/// An amount of one denomination, as attached to a call or sent by the bank.
#[derive(Clone, Debug, PartialEq, Eq)]
pub struct Coin {
    pub denom: String,
    pub amount: u128,
}

/// cw_utils::PaymentError, the error of cw_utils::one_coin, carried opaquely.
#[verifier::external_type_specification]
#[verifier::external_body]
pub struct ExPaymentError(cw_utils::PaymentError);

/// The funds hold exactly one coin, and its amount is not zero.
pub open spec fn is_single_coin(funds: Seq<Coin>) -> bool {
    funds.len() == 1 && funds[0].amount != 0
}

/// Relies on cw_utils::one_coin: it returns the one coin attached when exactly
/// one coin of non-zero amount was sent, and an error otherwise.
#[verifier::external_body]
pub(crate) fn one_coin(funds: &Vec<Coin>) -> (r: Result<Coin, cw_utils::PaymentError>)
    ensures
        r.is_ok() == is_single_coin(funds@),
        r.is_ok() ==> r->Ok_0.denom@ == funds@[0].denom@,
        r.is_ok() ==> r->Ok_0.amount == funds@[0].amount,
{
    let info = cosmwasm_std::MessageInfo {
        sender: cosmwasm_std::Addr::unchecked(""),
        funds: funds.iter().map(|c| cosmwasm_std::coin(c.amount, c.denom.as_str())).collect(),
    };
    cw_utils::one_coin(&info).map(|c| Coin { denom: c.denom, amount: c.amount.u128() })
}

} // verus!
