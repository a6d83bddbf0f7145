//! The custody engine of one contract instance: items are minted here,
//! consigned at most once to a peer contract, and traced to the contract
//! that holds them now.
//!
//! An item id is allocated from a counter that starts at 1; the id `0` in a
//! record means that the item has not been consigned and rests here. Records
//! are never removed, so the counter is always one more than the number of
//! records: counting the records gives the same ids in constant time.
use vstd::prelude::*;

verus! {

/// The custody record of one item: where it was consigned and under which id
/// the consignee knows it, or `0` and an empty address while it rests here.
#[derive(Clone, Debug, PartialEq, Eq)]
pub struct Item {
    pub id_in_consignee: u32,
    pub consignee: String,
}

#[derive(Clone, Debug, PartialEq, Eq)]
pub struct InstantiateMsg {}

#[derive(Clone, Debug, PartialEq, Eq)]
pub enum ExecuteMsg {
    Consign { item_id: u32, consignee: String },
    Mint {},
}

#[derive(Clone, Debug, PartialEq, Eq)]
pub enum QueryMsg {
    TerminalOwner { item_id: u32 },
}

#[derive(Clone, Debug, PartialEq, Eq)]
pub struct OwnerResponse {
    pub owner: String,
}

/// Where a trace goes on from this contract.
#[derive(Clone, Debug, PartialEq, Eq)]
pub enum Custody {
    /// The item rests here; the trace ends with this identity.
    Here(String),
    /// The item was consigned; the trace goes on at the consignee.
    Consigned { consignee: String, item_id: u32 },
}

#[derive(Debug)]
pub enum ContractError {
    /// No item was minted under this id.
    NoItemExists { item_id: u32 },
    /// The item was consigned before; the record it holds is reported.
    AlreadyConsignment { item_id: u32, consignee: String },
    /// The item was forwarded before, in the delivery variant; the record it
    /// holds is reported.
    AlreadyMoved { item_id: u32, forwarding_addr: String },
    /// Only the owner of this contract may consign.
    UnauthorizedSender { sender: String },
    /// A call into the consignee failed with this error.
    Consignee(Box<ContractError>),
    /// A call into a peer failed on the host's side, for this reason.
    PeerFailed { reason: String },
    /// The consignee answered a mint with the id that marks no item.
    InvalidConsigneeId {},
    /// Every item id has been allocated.
    IdsExhausted {},
    /// No contract is deployed at this address.
    NoContract { address: String },
    /// A contract is already deployed at this address.
    AddressTaken { address: String },
}

impl Item {
    /// The item has not been consigned and rests here.
    pub open spec fn is_resident(self) -> bool {
        self.id_in_consignee == 0
    }

    /// The record of a newly minted item: no consignee id and no address.
    pub open spec fn is_fresh(self) -> bool {
        self.id_in_consignee == 0 && self.consignee@.len() == 0
    }
}

/// The custody state of one contract instance.
pub struct Consignment {
    /// The only sender allowed to consign, or `None` when anyone may.
    pub owner: Option<String>,
    /// What a trace that ends at this contract reports: its identity or place.
    pub terminal: String,
    /// The record of item `id` stands at index `id - 1`.
    pub items: Vec<Item>,
    pub next_item_id: u32,
}

impl Consignment {
    pub open spec fn wf(self) -> bool {
        self.next_item_id as int == self.items@.len() + 1
    }

    /// Whether an item was minted under `item_id`.
    pub open spec fn has_item(self, item_id: u32) -> bool {
        1 <= item_id <= self.items@.len()
    }

    /// The record of item `item_id`.
    pub open spec fn item(self, item_id: u32) -> Item {
        self.items@[item_id - 1]
    }

    /// The checks of `consign` that come before the consignee is called.
    pub open spec fn consign_gate(self, caller: String, item_id: u32) -> Result<(), ContractError> {
        if !self.has_item(item_id) {
            Err(ContractError::NoItemExists { item_id })
        } else if self.owner is Some && self.owner->Some_0@ != caller@ {
            Err(ContractError::UnauthorizedSender { sender: caller })
        } else if !self.item(item_id).is_resident() {
            Err(
                ContractError::AlreadyConsignment {
                    item_id: self.item(item_id).id_in_consignee,
                    consignee: self.item(item_id).consignee,
                },
            )
        } else {
            Ok(())
        }
    }

    /// Whether `next` is this state with item `item_id` consigned to
    /// `consignee`, known there as `id`.
    pub open spec fn consigned_into(
        self,
        next: Consignment,
        item_id: u32,
        consignee: String,
        id: u32,
    ) -> bool {
        &&& next.owner == self.owner
        &&& next.terminal == self.terminal
        &&& next.next_item_id == self.next_item_id
        &&& next.items@ == self.items@.update(
            item_id - 1,
            Item { id_in_consignee: id, consignee },
        )
    }
}

/// Sets up a contract that only `sender` may consign from, and whose traces
/// end with `address`, its own address.
pub fn instantiate(address: String, sender: String, msg: &InstantiateMsg) -> (r: Consignment)
    ensures
        r.wf(),
        r.owner == Some(sender),
        r.terminal == address,
        r.items@.len() == 0,
        r.next_item_id == 1,
{
    Consignment { owner: Some(sender), terminal: address, items: Vec::new(), next_item_id: 1 }
}

impl Consignment {
    /// Allocates the next item id and records the item as resting here.
    pub fn mint(&mut self) -> (r: Result<u32, ContractError>)
        requires
            old(self).wf(),
        ensures
            final(self).wf(),
            final(self).owner == old(self).owner,
            final(self).terminal == old(self).terminal,
            old(self).next_item_id < u32::MAX ==> {
                &&& r is Ok && r->Ok_0 == old(self).next_item_id
                &&& final(self).items@.drop_last() == old(self).items@
                &&& final(self).items@.len() == old(self).items@.len() + 1
                &&& final(self).items@.last().is_fresh()
            },
            old(self).next_item_id == u32::MAX ==> r is Err && r->Err_0 == (
            ContractError::IdsExhausted {}) && *final(self) == *old(self),
    {
        if self.next_item_id == u32::MAX {
            return Err(ContractError::IdsExhausted {});
        }
        let item_id = self.next_item_id;
        self.items.push(Item { id_in_consignee: 0, consignee: String::new() });
        self.next_item_id = item_id + 1;
        proof {
            assert(self.items@.drop_last() =~= old(self).items@);
        }
        Ok(item_id)
    }

    /// Makes the checks of `consign` that come before the consignee is
    /// called: the item exists, the caller may consign, and the item rests
    /// here.
    pub fn consign_check(&self, caller: &String, item_id: u32) -> (r: Result<(), ContractError>)
        requires
            self.wf(),
        ensures
            r == self.consign_gate(*caller, item_id),
    {
        if item_id == 0 || item_id as usize > self.items.len() {
            return Err(ContractError::NoItemExists { item_id });
        }
        if let Some(owner) = &self.owner {
            if *owner != *caller {
                return Err(ContractError::UnauthorizedSender { sender: caller.clone() });
            }
        }
        let rec = &self.items[item_id as usize - 1];
        if rec.id_in_consignee != 0 {
            return Err(
                ContractError::AlreadyConsignment {
                    item_id: rec.id_in_consignee,
                    consignee: rec.consignee.clone(),
                },
            );
        }
        Ok(())
    }

    /// Consigns item `item_id` to the contract at `consignee` for `caller`;
    /// `minted` is what that contract answered to the mint that registers the
    /// item there. On any error nothing changes.
    pub fn consign(
        &mut self,
        caller: &String,
        item_id: u32,
        consignee: &String,
        minted: Result<u32, ContractError>,
    ) -> (r: Result<(), ContractError>)
        requires
            old(self).wf(),
        ensures
            final(self).wf(),
            old(self).consign_gate(*caller, item_id) is Err ==> r == old(self).consign_gate(
                *caller,
                item_id,
            ) && *final(self) == *old(self),
            old(self).consign_gate(*caller, item_id) is Ok && minted is Err ==> r is Err
                && r->Err_0 == ContractError::Consignee(Box::new(minted->Err_0)) && *final(self)
                == *old(self),
            old(self).consign_gate(*caller, item_id) is Ok && minted is Ok && minted->Ok_0 == 0 ==> r is Err && r->Err_0 == (ContractError::InvalidConsigneeId {}) && *final(self)
                == *old(self),
            old(self).consign_gate(*caller, item_id) is Ok && minted is Ok && minted->Ok_0 != 0 ==> r
                is Ok && old(self).consigned_into(*final(self), item_id, *consignee, minted->Ok_0),
            !old(self).has_item(item_id) || !old(self).item(item_id).is_resident() ==> r is Err
                && *final(self) == *old(self),
    {
        let checked = self.consign_check(caller, item_id);
        if let Err(e) = checked {
            return Err(e);
        }
        let id = match minted {
            Ok(id) => id,
            Err(e) => {
                return Err(ContractError::Consignee(Box::new(e)));
            },
        };
        if id == 0 {
            return Err(ContractError::InvalidConsigneeId {});
        }
        self.items.set(
            item_id as usize - 1,
            Item { id_in_consignee: id, consignee: consignee.clone() },
        );
        Ok(())
    }

    /// The next step of a trace of item `item_id`: the item rests here, or
    /// the consignee and the id under which it knows the item.
    pub fn trace_terminal_owner(&self, item_id: u32) -> (r: Result<Custody, ContractError>)
        requires
            self.wf(),
        ensures
            !self.has_item(item_id) ==> r is Err && r->Err_0 == (ContractError::NoItemExists {
                item_id,
            }),
            self.has_item(item_id) && self.item(item_id).is_resident() ==> r is Ok && r->Ok_0
                == Custody::Here(self.terminal),
            self.has_item(item_id) && !self.item(item_id).is_resident() ==> r is Ok && r->Ok_0
                == (Custody::Consigned {
                consignee: self.item(item_id).consignee,
                item_id: self.item(item_id).id_in_consignee,
            }),
    {
        if item_id == 0 || item_id as usize > self.items.len() {
            return Err(ContractError::NoItemExists { item_id });
        }
        let rec = &self.items[item_id as usize - 1];
        if rec.id_in_consignee == 0 {
            Ok(Custody::Here(self.terminal.clone()))
        } else {
            Ok(
                Custody::Consigned {
                    consignee: rec.consignee.clone(),
                    item_id: rec.id_in_consignee,
                },
            )
        }
    }
}

/// Passes on what the consignee answered to a trace: its result unchanged,
/// or its error wrapped so that the cause is kept.
pub fn relay_trace(answer: Result<String, ContractError>) -> (r: Result<String, ContractError>)
    ensures
        answer is Ok ==> r == answer,
        answer is Err ==> r is Err && r->Err_0 == ContractError::Consignee(Box::new(answer->Err_0)),
{
    match answer {
        Ok(owner) => Ok(owner),
        Err(e) => Err(ContractError::Consignee(Box::new(e))),
    }
}

} // verus!
