//! Contract instances of the custody engine, deployed at addresses, that
//! call one another: a consign mints the item at the consignee, and a trace
//! follows the custody records from contract to contract.
//!
//! A consigned item always points at an item minted later than itself, so a
//! trace ends; the ghost mint order below records this.
use vstd::prelude::*;
use crate::consignment::{
    Consignment, ContractError, Custody, Item, OwnerResponse, QueryMsg, relay_trace,
};

verus! {

/// A contract instance and the address it is deployed at.
pub struct Peer {
    pub address: String,
    pub contract: Consignment,
}

/// The deployed contract instances, and the order in which their items were
/// minted.
pub struct Network {
    pub peers: Vec<Peer>,
    /// `stamps@[c][i]` is when the item at index `i` of `peers[c]` was minted.
    pub stamps: Ghost<Seq<Seq<nat>>>,
    /// The time of the next mint.
    pub clock: Ghost<nat>,
}

impl Network {
    pub open spec fn addresses(self) -> Seq<Seq<char>> {
        self.peers@.map_values(|p: Peer| p.address@)
    }

    /// The position of the first contract deployed at `a`.
    pub open spec fn locate(self, a: Seq<char>) -> Option<int> {
        self.addresses().index_of_first(a)
    }

    /// Whether contract `c` holds a record at index `i`.
    pub open spec fn holds(self, c: int, i: int) -> bool {
        0 <= c < self.peers@.len() && 0 <= i < self.peers@[c].contract.items@.len()
    }

    pub open spec fn record(self, c: int, i: int) -> Item {
        self.peers@[c].contract.items@[i]
    }

    /// A consigned record points at an item of a deployed contract that was
    /// minted after it.
    pub open spec fn link_ok(self, c: int, i: int) -> bool {
        let it = self.record(c, i);
        !it.is_resident() ==> {
            &&& self.locate(it.consignee@) is Some
            &&& self.holds(self.locate(it.consignee@)->Some_0, it.id_in_consignee - 1)
            &&& self.stamps@[c][i] < self.stamps@[self.locate(
                it.consignee@,
            )->Some_0][it.id_in_consignee - 1]
        }
    }

    pub open spec fn wf(self) -> bool {
        &&& self.stamps@.len() == self.peers@.len()
        &&& forall|c: int|
            #![trigger self.peers@[c]]
            0 <= c < self.peers@.len() ==> self.peers@[c].contract.wf() && self.stamps@[c].len()
                == self.peers@[c].contract.items@.len()
        &&& forall|c: int, i: int|
            #[trigger] self.holds(c, i) ==> self.stamps@[c][i] < self.clock@ && self.link_ok(c, i)
    }

    /// What a trace of the record at index `i` of contract `c` ends with.
    pub open spec fn terminal(self, c: int, i: int) -> Seq<char>
        decreases self.clock@ - self.stamps@[c][i],
        when self.wf() && self.holds(c, i)
    {
        let it = self.record(c, i);
        if it.is_resident() {
            self.peers@[c].contract.terminal@
        } else {
            self.terminal(self.locate(it.consignee@)->Some_0, it.id_in_consignee - 1)
        }
    }

    /// How many calls a trace of item `item_id` at `at` may still make.
    pub open spec fn trace_measure(self, at: Seq<char>, item_id: u32) -> int {
        match self.locate(at) {
            Some(c) => if self.holds(c, item_id - 1) {
                self.clock@ - self.stamps@[c][item_id - 1]
            } else {
                0
            },
            None => 0,
        }
    }
}

/// The position of `a` in `s` stays where it was when `x` is appended.
proof fn lemma_index_of_first_push(s: Seq<Seq<char>>, x: Seq<char>, a: Seq<char>)
    requires
        s.contains(a),
    ensures
        s.push(x).index_of_first(a) == s.index_of_first(a),
{
    s.index_of_first_ensures(a);
    s.push(x).index_of_first_ensures(a);
    let i = s.index_of_first(a)->Some_0;
    assert(s.push(x)[i] == a);
    assert(s.push(x).contains(a));
    let j = s.push(x).index_of_first(a)->Some_0;
    if j < i {
        assert(s[j] == s.push(x)[j]);
    }
    if i < j {
        assert(s.push(x)[i] == s[i]);
    }
}

impl Network {
    /// What consigning item `item_id` of the contract at `at`, for `caller`,
    /// to the contract at `consignee` answers: the first failing check, or
    /// success.
    pub open spec fn consign_result(
        self,
        at: String,
        caller: String,
        item_id: u32,
        consignee: String,
    ) -> Result<(), ContractError> {
        match self.locate(at@) {
            None => Err(ContractError::NoContract { address: at }),
            Some(c) => {
                let gate = self.peers@[c].contract.consign_gate(caller, item_id);
                if gate is Err {
                    gate
                } else {
                    match self.locate(consignee@) {
                        None => Err(
                            ContractError::Consignee(
                                Box::new((ContractError::NoContract { address: consignee })),
                            ),
                        ),
                        Some(d) => if self.peers@[d].contract.next_item_id == u32::MAX {
                            Err(ContractError::Consignee(Box::new((ContractError::IdsExhausted {}))))
                        } else {
                            Ok(())
                        },
                    }
                }
            },
        }
    }

    /// Whether `next` is this network after item `item_id` of contract `c`
    /// was consigned to contract `d` at `consignee`, which minted it under its
    /// next id: the record at `c` points there, `d` holds a fresh record, and
    /// nothing else changes.
    pub open spec fn consigned_into(
        self,
        next: Network,
        c: int,
        item_id: u32,
        d: int,
        consignee: String,
    ) -> bool {
        let k = self.peers@[d].contract.next_item_id;
        &&& next.addresses() == self.addresses()
        &&& next.peers@.len() == self.peers@.len()
        &&& forall|j: int|
            0 <= j < self.peers@.len() ==> {
                &&& (#[trigger] next.peers@[j]).contract.owner == self.peers@[j].contract.owner
                &&& next.peers@[j].contract.terminal == self.peers@[j].contract.terminal
                &&& next.peers@[j].contract.items@.len() == self.peers@[j].contract.items@.len() + (
                if j == d {
                    1int
                } else {
                    0int
                })
            }
        &&& forall|j: int, n: int|
            #![trigger next.record(j, n)]
            self.holds(j, n) && !(j == c && n == item_id - 1) ==> next.record(j, n) == self.record(
                j,
                n,
            )
        &&& next.holds(c, item_id - 1)
        &&& next.record(c, item_id - 1) == (Item { id_in_consignee: k, consignee })
        &&& next.holds(d, k - 1)
        &&& next.record(d, k - 1).is_fresh()
        &&& next.terminal(c, item_id - 1) == next.terminal(d, k - 1)
        &&& next.terminal(c, item_id - 1) == next.peers@[d].contract.terminal@
    }

    /// Whether `next` is this network after contract `c` minted one item: a
    /// fresh record is appended there, and nothing else changes.
    pub open spec fn minted_into(self, next: Network, c: int) -> bool {
        let before = self.peers@[c].contract;
        let after = next.peers@[c].contract;
        &&& next.addresses() == self.addresses()
        &&& next.peers@.len() == self.peers@.len()
        &&& forall|j: int|
            0 <= j < self.peers@.len() && j != c ==> #[trigger] next.peers@[j] == self.peers@[j]
        &&& next.peers@[c].address == self.peers@[c].address
        &&& after.owner == before.owner
        &&& after.terminal == before.terminal
        &&& after.next_item_id == before.next_item_id + 1
        &&& after.items@.drop_last() == before.items@
        &&& after.items@.len() == before.items@.len() + 1
        &&& after.items@.last().is_fresh()
    }

    /// A network with no contract deployed.
    pub fn new() -> (r: Network)
        ensures
            r.wf(),
            r.peers@.len() == 0,
    {
        Network { peers: Vec::new(), stamps: Ghost(Seq::empty()), clock: Ghost(0) }
    }

    /// The position of the contract deployed at `address`.
    pub fn find(&self, address: &String) -> (r: Option<usize>)
        ensures
            r is Some <==> self.locate(address@) is Some,
            r is Some ==> r->Some_0 as int == self.locate(address@)->Some_0,
    {
        proof {
            self.addresses().index_of_first_ensures(address@);
        }
        let mut k: usize = 0;
        while k < self.peers.len()
            invariant
                0 <= k <= self.peers@.len(),
                self.addresses().len() == self.peers@.len(),
                forall|j: int| 0 <= j < k ==> self.addresses()[j] != address@,
            decreases self.peers@.len() - k,
        {
            if self.peers[k].address == *address {
                proof {
                    assert(self.addresses()[k as int] == address@);
                    assert(self.addresses().contains(address@));
                    self.addresses().index_of_first_ensures(address@);
                    let idx = self.addresses().index_of_first(address@)->Some_0;
                    if idx < k {
                        assert(self.addresses()[idx] != address@);
                    }
                    if k < idx {
                        assert(self.addresses()[k as int] != address@);
                    }
                }
                return Some(k);
            }
            assert(self.addresses()[k as int] == self.peers@[k as int].address@);
            k += 1;
        }
        proof {
            if self.addresses().contains(address@) {
                let j = choose|j: int|
                    0 <= j < self.addresses().len() && self.addresses()[j] == address@;
                assert(self.addresses()[j] != address@);
            }
        }
        None
    }

    /// Deploys `contract`, which holds no item yet, at `address`.
    pub fn deploy(&mut self, address: String, contract: Consignment) -> (r: Result<(), ContractError>)
        requires
            old(self).wf(),
            contract.wf(),
            contract.items@.len() == 0,
        ensures
            final(self).wf(),
            old(self).locate(address@) is Some ==> r is Err && r->Err_0 == (
            ContractError::AddressTaken { address }) && *final(self) == *old(self),
            old(self).locate(address@) is None ==> r is Ok && final(self).peers@ == old(self).peers@.push(Peer { address, contract }),
    {
        if let Some(_) = self.find(&address) {
            return Err(ContractError::AddressTaken { address });
        }
        let ghost pre = *self;
        self.peers.push(Peer { address, contract });
        self.stamps = Ghost(self.stamps@.push(Seq::empty()));
        proof {
            let a = self.peers@.last().address@;
            assert(self.addresses() =~= pre.addresses().push(a));
            assert forall|c: int| 0 <= c < self.peers@.len() implies #[trigger] self.peers@[c].contract.wf()
                && self.stamps@[c].len() == self.peers@[c].contract.items@.len() by {
                if c < pre.peers@.len() {
                    assert(pre.peers@[c] == self.peers@[c]);
                }
            }
            assert forall|c: int, i: int| #[trigger] self.holds(c, i) implies self.stamps@[c][i] < self.clock@
                && self.link_ok(c, i) by {
                assert(c < pre.peers@.len());
                assert(pre.holds(c, i));
                assert(pre.link_ok(c, i));
                let it = self.record(c, i);
                if !it.is_resident() {
                    pre.addresses().index_of_first_ensures(it.consignee@);
                    lemma_index_of_first_push(pre.addresses(), a, it.consignee@);
                    let d = pre.locate(it.consignee@)->Some_0;
                    assert(pre.holds(d, it.id_in_consignee - 1));
                }
            }
        }
        Ok(())
    }

    /// Mints an item at the contract deployed at `address`: the call a
    /// consigning contract makes into its consignee.
    pub fn mint(&mut self, address: &String) -> (r: Result<u32, ContractError>)
        requires
            old(self).wf(),
        ensures
            final(self).wf(),
            final(self).addresses() == old(self).addresses(),
            final(self).peers@.len() == old(self).peers@.len(),
            old(self).locate(address@) is None ==> r is Err && r->Err_0 == (
            ContractError::NoContract { address: *address }) && *final(self) == *old(self),
            old(self).locate(address@) is Some ==> ({
                let c = old(self).locate(address@)->Some_0;
                let before = old(self).peers@[c].contract;
                &&& before.next_item_id < u32::MAX ==> {
                    &&& r is Ok && r->Ok_0 == before.next_item_id
                    &&& old(self).minted_into(*final(self), c)
                    &&& final(self).clock@ == old(self).clock@ + 1
                    &&& final(self).stamps@ == old(self).stamps@.update(
                        c,
                        old(self).stamps@[c].push(old(self).clock@),
                    )
                }
                &&& before.next_item_id == u32::MAX ==> r is Err && r->Err_0 == (
                ContractError::IdsExhausted {}) && *final(self) == *old(self)
            }),
    {
        let c = match self.find(address) {
            Some(c) => c,
            None => {
                return Err(ContractError::NoContract { address: address.clone() });
            },
        };
        let ghost pre = *self;
        proof {
            self.addresses().index_of_first_ensures(address@);
            assert(self.peers@[c as int].contract.wf());
        }
        if self.peers[c].contract.next_item_id == u32::MAX {
            return Err(ContractError::IdsExhausted {});
        }
        let minted = self.peers[c].contract.mint();
        self.stamps = Ghost(self.stamps@.update(c as int, self.stamps@[c as int].push(self.clock@)));
        self.clock = Ghost(self.clock@ + 1);
        proof {
            assert(self.addresses() =~= pre.addresses());
            assert forall|j: int| 0 <= j < self.peers@.len() implies #[trigger] self.peers@[j].contract.wf()
                && self.stamps@[j].len() == self.peers@[j].contract.items@.len() by {
                if j != c {
                    assert(pre.peers@[j] == self.peers@[j]);
                }
            }
            assert forall|j: int, i: int| #[trigger] self.holds(j, i) implies self.stamps@[j][i] < self.clock@
                && self.link_ok(j, i) by {
                assert(self.peers@[j].contract.wf());
                if j == c && i == pre.peers@[j].contract.items@.len() {
                    assert(self.record(j, i) == self.peers@[j].contract.items@.last());
                } else {
                    assert(pre.holds(j, i));
                    assert(pre.peers@[j].contract.wf());
                    assert(pre.link_ok(j, i));
                    assert(self.record(j, i) == pre.record(j, i));
                    let it = self.record(j, i);
                    if !it.is_resident() {
                        let d = pre.locate(it.consignee@)->Some_0;
                        assert(pre.holds(d, it.id_in_consignee - 1));
                        assert(self.holds(d, it.id_in_consignee - 1));
                    }
                }
            }
        }
        minted
    }

    /// Consigns item `item_id` of the contract at `at`, for `caller`, to the
    /// contract at `consignee`: the consignee mints the item, and the record
    /// at `at` points at it from then on. On any error nothing changes.
    pub fn consign(&mut self, at: &String, caller: &String, item_id: u32, consignee: &String) -> (r:
        Result<(), ContractError>)
        requires
            old(self).wf(),
        ensures
            final(self).wf(),
            final(self).addresses() == old(self).addresses(),
            r == old(self).consign_result(*at, *caller, item_id, *consignee),
            r is Err ==> *final(self) == *old(self),
            r is Ok ==> old(self).consigned_into(
                *final(self),
                old(self).locate(at@)->Some_0,
                item_id,
                old(self).locate(consignee@)->Some_0,
                *consignee,
            ),
    {
        let c = match self.find(at) {
            Some(c) => c,
            None => {
                return Err(ContractError::NoContract { address: at.clone() });
            },
        };
        proof {
            self.addresses().index_of_first_ensures(at@);
            assert(self.peers@[c as int].contract.wf());
        }
        let checked = self.peers[c].contract.consign_check(caller, item_id);
        if let Err(e) = checked {
            return Err(e);
        }
        let ghost pre = *self;
        let ghost d = pre.locate(consignee@)->Some_0;
        let minted = self.mint(consignee);
        let k = match minted {
            Ok(k) => k,
            Err(e) => {
                return Err(ContractError::Consignee(Box::new(e)));
            },
        };
        let ghost mid = *self;
        proof {
            pre.addresses().index_of_first_ensures(consignee@);
            assert(mid.peers@[c as int].contract.wf());
            let before = pre.peers@[c as int].contract;
            let now = mid.peers@[c as int].contract;
            if c as int == d {
                assert(now.items@[item_id - 1] == now.items@.drop_last()[item_id - 1]);
            } else {
                assert(mid.peers@[c as int] == pre.peers@[c as int]);
            }
            assert(now.consign_gate(*caller, item_id) == before.consign_gate(*caller, item_id));
        }
        let result = self.peers[c].contract.consign(caller, item_id, consignee, Ok(k));
        proof {
            assert(result is Ok);
            let i = item_id - 1;
            assert(self.addresses() =~= mid.addresses());
            assert forall|j: int| 0 <= j < self.peers@.len() implies #[trigger] self.peers@[j].contract.wf()
                && self.stamps@[j].len() == self.peers@[j].contract.items@.len() by {
                assert(mid.peers@[j].contract.wf());
                if j != c {
                    assert(mid.peers@[j] == self.peers@[j]);
                }
            }
            assert(mid.holds(d, k - 1));
            assert(mid.stamps@[d][k - 1] == pre.clock@);
            assert(pre.holds(c as int, i));
            assert forall|j: int, n: int| #[trigger] self.holds(j, n) implies self.stamps@[j][n] < self.clock@
                && self.link_ok(j, n) by {
                assert(mid.holds(j, n));
                assert(mid.link_ok(j, n));
                if j == c && n == i {
                    assert(self.record(j, n) == (Item { id_in_consignee: k, consignee: *consignee }));
                    assert(self.holds(d, k - 1));
                } else {
                    assert(self.record(j, n) == mid.record(j, n));
                    let it = self.record(j, n);
                    if !it.is_resident() {
                        let e = mid.locate(it.consignee@)->Some_0;
                        assert(mid.holds(e, it.id_in_consignee - 1));
                        assert(self.holds(e, it.id_in_consignee - 1));
                    }
                }
            }
            assert(self.wf());
            assert(self.holds(c as int, i));
            assert(self.record(d, k - 1) == mid.record(d, k - 1));
            assert(self.terminal(d, k - 1) == self.peers@[d].contract.terminal@);
            assert(pre.locate(at@) == Some(c as int));
            assert(pre.locate(consignee@) == Some(d));
            assert(pre.peers@[d].contract.next_item_id < u32::MAX);
            assert(pre.peers@[c as int].contract.consign_gate(*caller, item_id) is Ok);
        }
        if let Err(e) = result {
            return Err(e);
        }
        Ok(())
    }

    /// Traces item `item_id` of the contract at `at` to the contract that
    /// holds it now, calling each consignee in turn, and returns that
    /// contract's identity.
    pub fn trace_terminal_owner(&self, at: &String, item_id: u32) -> (r: Result<String, ContractError>)
        requires
            self.wf(),
        ensures
            self.locate(at@) is None ==> r is Err && r->Err_0 == (ContractError::NoContract {
                address: *at,
            }),
            self.locate(at@) is Some && !self.peers@[self.locate(at@)->Some_0].contract.has_item(
                item_id,
            ) ==> r is Err && r->Err_0 == (ContractError::NoItemExists { item_id }),
            self.locate(at@) is Some && self.peers@[self.locate(at@)->Some_0].contract.has_item(
                item_id,
            ) ==> r is Ok && r->Ok_0@ == self.terminal(self.locate(at@)->Some_0, item_id - 1),
        decreases self.trace_measure(at@, item_id),
    {
        let c = match self.find(at) {
            Some(c) => c,
            None => {
                return Err(ContractError::NoContract { address: at.clone() });
            },
        };
        proof {
            self.addresses().index_of_first_ensures(at@);
            assert(self.peers@[c as int].contract.wf());
        }
        match self.peers[c].contract.trace_terminal_owner(item_id) {
            Err(e) => Err(e),
            Ok(Custody::Here(owner)) => Ok(owner),
            Ok(Custody::Consigned { consignee, item_id: id }) => {
                proof {
                    assert(self.holds(c as int, item_id - 1));
                    assert(self.link_ok(c as int, item_id - 1));
                    let d = self.locate(consignee@)->Some_0;
                    assert(self.holds(d, id - 1));
                    self.addresses().index_of_first_ensures(consignee@);
                    assert(self.peers@[d].contract.wf());
                }
                relay_trace(self.trace_terminal_owner(&consignee, id))
            },
        }
    }
}

impl Network {
    /// Whether record `a` was consigned as record `b`.
    pub open spec fn links_to(self, a: (int, int), b: (int, int)) -> bool {
        let it = self.record(a.0, a.1);
        &&& !it.is_resident()
        &&& self.locate(it.consignee@) == Some(b.0)
        &&& it.id_in_consignee - 1 == b.1
    }
}

/// A trace of an item that rests at its contract ends with that contract's
/// own identity.
pub proof fn lemma_trace_resident(net: Network, c: int, i: int)
    requires
        net.wf(),
        net.holds(c, i),
        net.record(c, i).is_resident(),
    ensures
        net.terminal(c, i) == net.peers@[c].contract.terminal@,
{
}

/// A trace of a consigned item ends where a trace of the item it was
/// consigned as ends: the consigning contract passes the answer on unchanged.
pub proof fn lemma_trace_passes_through(net: Network, c: int, i: int)
    requires
        net.wf(),
        net.holds(c, i),
        !net.record(c, i).is_resident(),
    ensures
        ({
            let it = net.record(c, i);
            let d = net.locate(it.consignee@)->Some_0;
            &&& net.locate(it.consignee@) is Some
            &&& net.holds(d, it.id_in_consignee - 1)
            &&& net.links_to((c, i), (d, it.id_in_consignee - 1))
            &&& net.terminal(c, i) == net.terminal(d, it.id_in_consignee - 1)
        }),
{
    assert(net.link_ok(c, i));
}

/// Every record along a custody chain, however long, traces to the same
/// end as the last record of the chain.
pub proof fn lemma_custody_chain(net: Network, chain: Seq<(int, int)>)
    requires
        net.wf(),
        chain.len() > 0,
        forall|k: int| 0 <= k < chain.len() ==> net.holds(#[trigger] chain[k].0, chain[k].1),
        forall|k: int| 0 <= k < chain.len() - 1 ==> net.links_to(#[trigger] chain[k], chain[k + 1]),
    ensures
        forall|k: int|
            0 <= k < chain.len() ==> net.terminal(#[trigger] chain[k].0, chain[k].1) == net.terminal(
                chain.last().0,
                chain.last().1,
            ),
    decreases chain.len(),
{
    if chain.len() > 1 {
        let rest = chain.drop_first();
        assert forall|k: int| 0 <= k < rest.len() implies net.holds(#[trigger] rest[k].0, rest[k].1) by {
            assert(rest[k] == chain[k + 1]);
        }
        assert forall|k: int| 0 <= k < rest.len() - 1 implies net.links_to(#[trigger] rest[k], rest[k + 1]) by {
            assert(rest[k] == chain[k + 1]);
            assert(rest[k + 1] == chain[k + 2]);
        }
        lemma_custody_chain(net, rest);
        assert(rest.last() == chain.last());
        assert forall|k: int| 0 <= k < chain.len() implies net.terminal(#[trigger] chain[k].0, chain[k].1)
            == net.terminal(chain.last().0, chain.last().1) by {
            if k == 0 {
                assert(net.holds(chain[0].0, chain[0].1));
                assert(net.links_to(chain[0], chain[1]));
                assert(net.link_ok(chain[0].0, chain[0].1));
                assert(rest[0] == chain[1]);
            } else {
                assert(rest[k - 1] == chain[k]);
            }
        }
    }
}

impl Network {
    /// Answers a query on the contract at `at`: the identity that a trace of
    /// the item ends with.
    pub fn query(&self, at: &String, msg: &QueryMsg) -> (r: Result<OwnerResponse, ContractError>)
        requires
            self.wf(),
        ensures
            ({
                let QueryMsg::TerminalOwner { item_id } = *msg;
                &&& self.locate(at@) is None ==> r is Err && r->Err_0 == (
                ContractError::NoContract { address: *at })
                &&& self.locate(at@) is Some && !self.peers@[self.locate(
                    at@,
                )->Some_0].contract.has_item(item_id) ==> r is Err && r->Err_0 == (
                ContractError::NoItemExists { item_id })
                &&& self.locate(at@) is Some && self.peers@[self.locate(
                    at@,
                )->Some_0].contract.has_item(item_id) ==> r is Ok && r->Ok_0.owner@ == self.terminal(
                    self.locate(at@)->Some_0,
                    item_id - 1,
                )
            }),
    {
        match msg {
            QueryMsg::TerminalOwner { item_id } => match self.trace_terminal_owner(at, *item_id) {
                Ok(owner) => Ok(OwnerResponse { owner }),
                Err(e) => Err(e),
            },
        }
    }
}

} // verus!
