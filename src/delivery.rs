//! The delivery variant of the custody engine: anyone may forward an item,
//! and a trace ends with the place name of the contract that holds it.
use vstd::prelude::*;
use crate::consignment::{Consignment, ContractError};
use crate::network::Network;

verus! {

#[derive(Clone, Debug, PartialEq, Eq)]
pub struct InstantiateMsg {
    pub place: String,
}

#[derive(Clone, Debug, PartialEq, Eq)]
pub enum ExecuteMsg {
    ItemForwarding { item_id: u32, forwarding_addr: String },
    DepositItem {},
}

#[derive(Clone, Debug, PartialEq, Eq)]
pub enum QueryMsg {
    Place { item_id: u32 },
}

#[derive(Clone, Debug, PartialEq, Eq)]
pub struct PlaceResponse {
    pub place: String,
}

/// Sets up a delivery contract at `msg.place`, from which anyone may forward.
pub fn instantiate(msg: &InstantiateMsg) -> (r: Consignment)
    ensures
        r.wf(),
        r.owner is None,
        r.terminal == msg.place,
        r.items@.len() == 0,
{
    Consignment { owner: None, terminal: msg.place.clone(), items: Vec::new(), next_item_id: 1 }
}

/// The delivery variant's name for an answer: an item forwarded before is
/// reported as moved.
pub open spec fn as_moved(r: Result<(), ContractError>) -> Result<(), ContractError> {
    match r {
        Err(ContractError::AlreadyConsignment { item_id, consignee }) => Err(
            ContractError::AlreadyMoved { item_id, forwarding_addr: consignee },
        ),
        _ => r,
    }
}

/// Reports an item forwarded before as moved, and passes any other answer on.
pub fn moved(r: Result<(), ContractError>) -> (m: Result<(), ContractError>)
    ensures
        m == as_moved(r),
{
    match r {
        Err(ContractError::AlreadyConsignment { item_id, consignee }) => Err(
            ContractError::AlreadyMoved { item_id, forwarding_addr: consignee },
        ),
        _ => r,
    }
}

/// Forwards item `item_id` of the delivery contract at `at` to the contract
/// at `forwarding_addr`, which takes the item in under a new id. The answer
/// is that of a consign, with an item forwarded before reported as moved.
/// On any error nothing changes.
pub fn do_item_forwarding(
    net: &mut Network,
    at: &String,
    sender: &String,
    item_id: u32,
    forwarding_addr: &String,
) -> (r: Result<(), ContractError>)
    requires
        old(net).wf(),
    ensures
        final(net).wf(),
        r == as_moved(old(net).consign_result(*at, *sender, item_id, *forwarding_addr)),
        r is Err ==> *final(net) == *old(net),
        r is Ok ==> old(net).consigned_into(
            *final(net),
            old(net).locate(at@)->Some_0,
            item_id,
            old(net).locate(forwarding_addr@)->Some_0,
            *forwarding_addr,
        ),
{
    moved(net.consign(at, sender, item_id, forwarding_addr))
}

/// Takes an item in at the delivery contract at `at` and returns its id: a
/// fresh record is appended there and nothing else changes.
pub fn do_deposit_item(net: &mut Network, at: &String) -> (r: Result<u32, ContractError>)
    requires
        old(net).wf(),
    ensures
        final(net).wf(),
        old(net).locate(at@) is None ==> r is Err && r->Err_0 == (ContractError::NoContract {
            address: *at,
        }) && *final(net) == *old(net),
        old(net).locate(at@) is Some ==> ({
            let c = old(net).locate(at@)->Some_0;
            let next = old(net).peers@[c].contract.next_item_id;
            &&& next < u32::MAX ==> r is Ok && r->Ok_0 == next && old(net).minted_into(*final(net), c)
            &&& next == u32::MAX ==> r is Err && r->Err_0 == (ContractError::IdsExhausted {})
                && *final(net) == *old(net)
        }),
{
    net.mint(at)
}

/// The place where item `item_id` of the delivery contract at `at` is now.
pub fn do_trace_place(net: &Network, at: &String, item_id: u32) -> (r: Result<
    PlaceResponse,
    ContractError,
>)
    requires
        net.wf(),
    ensures
        net.locate(at@) is None ==> r is Err,
        net.locate(at@) is Some && !net.peers@[net.locate(at@)->Some_0].contract.has_item(item_id)
            ==> r is Err && r->Err_0 == (ContractError::NoItemExists { item_id }),
        net.locate(at@) is Some && net.peers@[net.locate(at@)->Some_0].contract.has_item(item_id)
            ==> r is Ok && r->Ok_0.place@ == net.terminal(net.locate(at@)->Some_0, item_id - 1),
{
    match net.trace_terminal_owner(at, item_id) {
        Ok(place) => Ok(PlaceResponse { place }),
        Err(e) => Err(e),
    }
}

} // verus!
