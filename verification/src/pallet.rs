use std::collections::HashMap;
use vstd::prelude::*;

use crate::errors::{DispatchError, Error, LedgerError};
use crate::genome::{breed_genomes, child_genome, Kitty};
use crate::ledger::Ledger;
use crate::randomness::{blake2_128_of, payload_scale, random_value};

verus! {

broadcast use vstd::std_specs::hash::group_hash_axioms;

/// A recorded notification of a completed state change, observable by
/// external subscribers through the module's event log.
#[derive(Clone, Copy, Debug, PartialEq, Eq, Structural)]
pub enum Event {
    /// (owner, id): a new entity was created.
    KittiesCreate(u64, u32),
    /// (old owner, new owner, id): ownership was reassigned without payment.
    KittyTransfer(u64, u64, u32),
    /// (previous owner, buyer, price, id): a purchase completed.
    BuyKitty(u64, u64, u128, u32),
    /// (seller, buyer, price, id): a sale completed.
    SellKitty(u64, u64, u128, u32),
}

/// The registry's persisted state: the entity counter, the genome table, the
/// ownership table and the emitted notifications, plus the fixed creation
/// deposit the escrow protocol reserves.
pub struct Pallet {
    /// The fixed amount reserved from a creator's free balance per creation.
    pub deposit: u128,
    /// The next id to allocate; absent until the first entity is created.
    pub count: Option<u32>,
    /// The genome of each existing entity, keyed by id.
    pub genomes: HashMap<u32, Kitty>,
    /// The current owner of each existing entity, keyed by id.
    pub owners: HashMap<u32, u64>,
    /// Every notification emitted so far, oldest first.
    pub events: Vec<Event>,
}

impl Pallet {
    /// The id the next successful creation will hand out.
    pub open spec fn next_id(self) -> u32 {
        match self.count {
            None => 1u32,
            Some(c) => c,
        }
    }

    /// Well-formedness: ids were handed out consecutively starting at 1, so
    /// every existing entity id lies strictly below the counter, and exactly
    /// the existing entities carry an owner entry.
    pub open spec fn wf(self) -> bool {
        &&& (match self.count {
            Some(c) => c >= 1,
            None => true,
        })
        &&& (forall|i: u32| #[trigger]
            self.genomes@.contains_key(i) ==> 1 <= i && i < self.next_id())
        &&& (forall|i: u32|
            #![trigger self.genomes@.contains_key(i)]
            #![trigger self.owners@.contains_key(i)]
            self.genomes@.contains_key(i) <==> self.owners@.contains_key(i))
    }

    /// A fresh module instance with the given creation deposit: no entities,
    /// no owners, an unset counter and an empty event log.
    pub fn new(deposit: u128) -> (r: Pallet)
        ensures
            r.wf(),
            r.deposit == deposit,
            r.count is None,
            r.genomes@ == Map::<u32, Kitty>::empty(),
            r.owners@ == Map::<u32, u64>::empty(),
            r.events@ == Seq::<Event>::empty(),
    {
        Pallet {
            deposit,
            count: None,
            genomes: HashMap::new(),
            owners: HashMap::new(),
            events: Vec::new(),
        }
    }

    /// The entity counter: the next id to allocate, absent before the first
    /// creation.
    pub fn kitties_count(&self) -> (r: Option<u32>)
        ensures
            r == self.count,
    {
        self.count
    }

    /// The genome of an entity; absence means the id names no entity.
    pub fn kitties(&self, kitty_id: u32) -> (r: Option<Kitty>)
        ensures
            match r {
                Some(k) => self.genomes@.contains_key(kitty_id) && k == self.genomes@[kitty_id],
                None => !self.genomes@.contains_key(kitty_id),
            },
    {
        match self.genomes.get(&kitty_id) {
            Some(k) => Some(*k),
            None => None,
        }
    }

    /// The recorded owner of an entity; absence means the id names no entity.
    pub fn owner(&self, kitty_id: u32) -> (r: Option<u64>)
        ensures
            match r {
                Some(a) => self.owners@.contains_key(kitty_id) && a == self.owners@[kitty_id],
                None => !self.owners@.contains_key(kitty_id),
            },
    {
        match self.owners.get(&kitty_id) {
            Some(a) => Some(*a),
            None => None,
        }
    }

    /// The most recently emitted notification, if any was emitted yet.
    pub fn last_event(&self) -> (r: Option<Event>)
        ensures
            match r {
                Some(e) => self.events@.len() > 0 && e == self.events@.last(),
                None => self.events@.len() == 0,
            },
    {
        if self.events.len() > 0 {
            Some(self.events[self.events.len() - 1])
        } else {
            None
        }
    }

    /// Registry creation, the only entry point that introduces an entity:
    /// allocate the next id, store the genome, record the owner and emit the
    /// creation notification. Fails closed when the id space is exhausted,
    /// and then changes nothing.
    pub fn create_kitty(&mut self, who: u64, dna: &[u8; 16]) -> (r: Result<u32, Error>)
        requires
            old(self).wf(),
        ensures
            final(self).wf(),
            final(self).deposit == old(self).deposit,
            (if old(self).count == Some(u32::MAX) {
                r == Err::<u32, Error>(Error::KittiesCountOverflow) && *final(self) == *old(self)
            } else {
                ({
                    let id = old(self).next_id();
                    r == Ok::<u32, Error>(id) && final(self).count == Some((id + 1) as u32)
                        && final(self).genomes@ == old(self).genomes@.insert(id, Kitty(*dna))
                        && final(self).owners@ == old(self).owners@.insert(id, who)
                        && final(self).events@ == old(self).events@.push(
                        Event::KittiesCreate(who, id),
                    )
                })
            }),
    {
        let id: u32 = match self.count {
            Some(c) => {
                if c == u32::MAX {
                    return Err(Error::KittiesCountOverflow);
                }
                c
            },
            None => 1,
        };
        self.genomes.insert(id, Kitty(*dna));
        self.owners.insert(id, who);
        self.count = Some(id + 1);
        self.events.push(Event::KittiesCreate(who, id));
        Ok(id)
    }

    /// Dispatchable create: derive a genome from the caller, the chain
    /// entropy and the per-call nonce, reserve the creation deposit from the
    /// caller, then register the entity to the caller. Every check precedes
    /// every mutation, so a decline leaves registry and ledger untouched.
    pub fn create(
        &mut self,
        ledger: &mut Ledger,
        who: u64,
        seed: &[u8; 32],
        nonce: Option<u32>,
    ) -> (r: Result<(), DispatchError>)
        requires
            old(self).wf(),
            old(ledger).wf(),
        ensures
            final(self).wf(),
            final(ledger).wf(),
            final(self).deposit == old(self).deposit,
            (if old(ledger).free_of(who) < old(self).deposit {
                r == Err::<(), DispatchError>(DispatchError::Module(Error::ReserveFailed))
                    && *final(self) == *old(self) && *final(ledger) == *old(ledger)
            } else if old(self).count == Some(u32::MAX) {
                r == Err::<(), DispatchError>(DispatchError::Module(Error::KittiesCountOverflow))
                    && *final(self) == *old(self) && *final(ledger) == *old(ledger)
            } else {
                ({
                    let id = old(self).next_id();
                    let dna = blake2_128_of(payload_scale(seed@, who, nonce));
                    r == Ok::<(), DispatchError>(()) && final(self).count == Some((id + 1) as u32)
                        && final(self).genomes@ == old(self).genomes@.insert(
                        id,
                        final(self).genomes@[id],
                    ) && final(self).genomes@[id].0@ == dna && final(self).owners@ == old(
                        self,
                    ).owners@.insert(id, who) && final(self).events@ == old(self).events@.push(
                        Event::KittiesCreate(who, id),
                    ) && final(ledger).free_of(who) == old(ledger).free_of(who) - old(self).deposit
                        && final(ledger).reserved_of(who) == old(ledger).reserved_of(who) + old(
                        self,
                    ).deposit && (forall|x: u64|
                        x != who ==> #[trigger] final(ledger).free_of(x) == old(ledger).free_of(x)
                            && final(ledger).reserved_of(x) == old(ledger).reserved_of(x))
                })
            }),
    {
        let dna = random_value(who, seed, nonce);
        if ledger.free_balance(who) < self.deposit {
            return Err(DispatchError::Module(Error::ReserveFailed));
        }
        if let Some(c) = self.count {
            if c == u32::MAX {
                return Err(DispatchError::Module(Error::KittiesCountOverflow));
            }
        }
        let deposit = self.deposit;
        let _ = ledger.reserve(who, deposit);
        let _ = self.create_kitty(who, &dna);
        Ok(())
    }

    /// Dispatchable transfer: only the recorded owner may reassign an
    /// entity, and a plain transfer moves no currency. A caller who is not
    /// the recorded owner is declined whatever the named new owner is.
    pub fn transfer(&mut self, who: u64, new_owner: u64, kitty_id: u32) -> (r: Result<
        (),
        DispatchError,
    >)
        requires
            old(self).wf(),
        ensures
            final(self).wf(),
            final(self).deposit == old(self).deposit,
            (if old(self).owners@.contains_key(kitty_id) && old(self).owners@[kitty_id] == who {
                r == Ok::<(), DispatchError>(()) && final(self).owners@ == old(
                    self,
                ).owners@.insert(kitty_id, new_owner) && final(self).genomes@ == old(self).genomes@
                    && final(self).count == old(self).count && final(self).events@ == old(
                    self,
                ).events@.push(Event::KittyTransfer(who, new_owner, kitty_id))
            } else {
                r == Err::<(), DispatchError>(DispatchError::Module(Error::NotOwner))
                    && *final(self) == *old(self)
            }),
    {
        let is_owner = match self.owner(kitty_id) {
            Some(o) => o == who,
            None => false,
        };
        if !is_owner {
            return Err(DispatchError::Module(Error::NotOwner));
        }
        self.owners.insert(kitty_id, new_owner);
        self.events.push(Event::KittyTransfer(who, new_owner, kitty_id));
        Ok(())
    }

    /// Marketplace settlement shared by buy and sell: reassign the entity to
    /// the buyer, move the price from the buyer to the seller, and release
    /// the seller's creation deposit from escrow. Ownership and currency
    /// move as one step: every check precedes every mutation, so a declined
    /// payment leaves ownership and balances untouched. A buyer who already
    /// is the seller pays nothing but still has the deposit released.
    pub fn change_currency_owner(
        &mut self,
        ledger: &mut Ledger,
        seller: u64,
        buyer: u64,
        kitty_id: u32,
        value: u128,
    ) -> (r: Result<(), DispatchError>)
        requires
            old(self).wf(),
            old(ledger).wf(),
            old(self).owners@.contains_key(kitty_id),
        ensures
            final(self).wf(),
            final(ledger).wf(),
            final(self).deposit == old(self).deposit,
            final(self).genomes@ == old(self).genomes@,
            final(self).count == old(self).count,
            final(self).events@ == old(self).events@,
            (if buyer != seller && old(ledger).free_of(buyer) < value {
                r == Err::<(), DispatchError>(
                    DispatchError::Currency(LedgerError::InsufficientBalance),
                ) && *final(self) == *old(self) && *final(ledger) == *old(ledger)
            } else if buyer != seller && old(ledger).free_of(seller) + old(ledger).reserved_of(
                seller,
            ) + value > u128::MAX {
                r == Err::<(), DispatchError>(DispatchError::Currency(LedgerError::Overflow))
                    && *final(self) == *old(self) && *final(ledger) == *old(ledger)
            } else if buyer == seller {
                ({
                    let rel = if old(self).deposit <= old(ledger).reserved_of(seller) {
                        old(self).deposit
                    } else {
                        old(ledger).reserved_of(seller)
                    };
                    r == Ok::<(), DispatchError>(()) && final(self).owners@ == old(
                        self,
                    ).owners@.insert(kitty_id, buyer) && final(ledger).free_of(seller) == old(
                        ledger,
                    ).free_of(seller) + rel && final(ledger).reserved_of(seller) == old(
                        ledger,
                    ).reserved_of(seller) - rel && (forall|x: u64|
                        x != seller ==> #[trigger] final(ledger).free_of(x) == old(
                            ledger,
                        ).free_of(x) && final(ledger).reserved_of(x) == old(ledger).reserved_of(x))
                })
            } else {
                ({
                    let rel = if old(self).deposit <= old(ledger).reserved_of(seller) {
                        old(self).deposit
                    } else {
                        old(ledger).reserved_of(seller)
                    };
                    r == Ok::<(), DispatchError>(()) && final(self).owners@ == old(
                        self,
                    ).owners@.insert(kitty_id, buyer) && final(ledger).free_of(buyer) == old(
                        ledger,
                    ).free_of(buyer) - value && final(ledger).free_of(seller) == old(
                        ledger,
                    ).free_of(seller) + value + rel && final(ledger).reserved_of(seller) == old(
                        ledger,
                    ).reserved_of(seller) - rel && final(ledger).reserved_of(buyer) == old(
                        ledger,
                    ).reserved_of(buyer) && (forall|x: u64|
                        x != seller && x != buyer ==> #[trigger] final(ledger).free_of(x) == old(
                            ledger,
                        ).free_of(x) && final(ledger).reserved_of(x) == old(ledger).reserved_of(x))
                })
            }),
    {
        if buyer != seller {
            if ledger.free_balance(buyer) < value {
                return Err(DispatchError::Currency(LedgerError::InsufficientBalance));
            }
            let seller_free = ledger.free_balance(seller);
            let seller_reserved = ledger.reserved_balance(seller);
            if value > u128::MAX - seller_free || seller_free + value > u128::MAX
                - seller_reserved {
                return Err(DispatchError::Currency(LedgerError::Overflow));
            }
        }
        self.owners.insert(kitty_id, buyer);
        let _ = ledger.transfer(buyer, seller, value);
        let deposit = self.deposit;
        ledger.unreserve(seller, deposit);
        Ok(())
    }

    /// Dispatchable buy: the caller purchases an existing entity from its
    /// recorded owner at the offered price. The entity must exist, the
    /// caller must not already own it, and the payment must go through;
    /// then ownership, payment and the deposit release happen as one step.
    pub fn buy(&mut self, ledger: &mut Ledger, who: u64, kitty_id: u32, value: u128) -> (r: Result<
        (),
        DispatchError,
    >)
        requires
            old(self).wf(),
            old(ledger).wf(),
        ensures
            final(self).wf(),
            final(ledger).wf(),
            final(self).deposit == old(self).deposit,
            final(self).genomes@ == old(self).genomes@,
            final(self).count == old(self).count,
            (if !old(self).genomes@.contains_key(kitty_id) {
                r == Err::<(), DispatchError>(DispatchError::Module(Error::InvalidKittyIndex))
                    && *final(self) == *old(self) && *final(ledger) == *old(ledger)
            } else {
                ({
                    let seller = old(self).owners@[kitty_id];
                    if who == seller {
                        r == Err::<(), DispatchError>(DispatchError::Module(Error::BuyerIsOwner))
                            && *final(self) == *old(self) && *final(ledger) == *old(ledger)
                    } else if old(ledger).free_of(who) < value {
                        r == Err::<(), DispatchError>(
                            DispatchError::Currency(LedgerError::InsufficientBalance),
                        ) && *final(self) == *old(self) && *final(ledger) == *old(ledger)
                    } else if old(ledger).free_of(seller) + old(ledger).reserved_of(seller) + value
                        > u128::MAX {
                        r == Err::<(), DispatchError>(
                            DispatchError::Currency(LedgerError::Overflow),
                        ) && *final(self) == *old(self) && *final(ledger) == *old(ledger)
                    } else {
                        ({
                            let rel = if old(self).deposit <= old(ledger).reserved_of(seller) {
                                old(self).deposit
                            } else {
                                old(ledger).reserved_of(seller)
                            };
                            r == Ok::<(), DispatchError>(()) && final(self).owners@ == old(
                                self,
                            ).owners@.insert(kitty_id, who) && final(self).events@ == old(
                                self,
                            ).events@.push(Event::BuyKitty(seller, who, value, kitty_id)) && final(ledger).free_of(who) == old(ledger).free_of(who) - value && final(ledger).free_of(seller) == old(ledger).free_of(seller) + value + rel && final(ledger).reserved_of(seller) == old(ledger).reserved_of(seller) - rel && final(ledger).reserved_of(who) == old(ledger).reserved_of(who) && (forall|x: u64|
                                x != seller && x != who ==> #[trigger] final(ledger).free_of(x)
                                    == old(ledger).free_of(x) && final(ledger).reserved_of(x)
                                    == old(ledger).reserved_of(x))
                        })
                    }
                })
            }),
    {
        match self.kitties(kitty_id) {
            Some(_) => {},
            None => {
                return Err(DispatchError::Module(Error::InvalidKittyIndex));
            },
        }
        let seller = match self.owner(kitty_id) {
            Some(o) => o,
            None => {
                return Err(DispatchError::Module(Error::InvalidKittyIndex));
            },
        };
        if who == seller {
            return Err(DispatchError::Module(Error::BuyerIsOwner));
        }
        match self.change_currency_owner(ledger, seller, who, kitty_id, value) {
            Ok(()) => {},
            Err(e) => {
                return Err(e);
            },
        }
        self.events.push(Event::BuyKitty(seller, who, value, kitty_id));
        Ok(())
    }

    /// Dispatchable sell: the recorded owner offers an existing entity to a
    /// named buyer at a price. The entity must exist, the caller must be its
    /// owner, and the payment must go through; then ownership, payment and
    /// the deposit release happen as one step. A caller who is not the owner
    /// is declined whatever the named buyer or price. An owner selling to
    /// themself keeps the entity, pays nothing and has the deposit released.
    pub fn sell(
        &mut self,
        ledger: &mut Ledger,
        who: u64,
        kitty_id: u32,
        buyer: u64,
        value: u128,
    ) -> (r: Result<(), DispatchError>)
        requires
            old(self).wf(),
            old(ledger).wf(),
        ensures
            final(self).wf(),
            final(ledger).wf(),
            final(self).deposit == old(self).deposit,
            final(self).genomes@ == old(self).genomes@,
            final(self).count == old(self).count,
            (if !old(self).genomes@.contains_key(kitty_id) {
                r == Err::<(), DispatchError>(DispatchError::Module(Error::InvalidKittyIndex))
                    && *final(self) == *old(self) && *final(ledger) == *old(ledger)
            } else if old(self).owners@[kitty_id] != who {
                r == Err::<(), DispatchError>(DispatchError::Module(Error::NotOwner))
                    && *final(self) == *old(self) && *final(ledger) == *old(ledger)
            } else {
                ({
                    let rel = if old(self).deposit <= old(ledger).reserved_of(who) {
                        old(self).deposit
                    } else {
                        old(ledger).reserved_of(who)
                    };
                    if buyer == who {
                        r == Ok::<(), DispatchError>(()) && final(self).owners@ == old(
                            self,
                        ).owners@.insert(kitty_id, buyer) && final(self).events@ == old(
                            self,
                        ).events@.push(Event::SellKitty(who, buyer, value, kitty_id)) && final(ledger).free_of(who) == old(ledger).free_of(who) + rel && final(ledger).reserved_of(who) == old(ledger).reserved_of(who) - rel && (forall|x: u64|
                            x != who ==> #[trigger] final(ledger).free_of(x) == old(
                                ledger,
                            ).free_of(x) && final(ledger).reserved_of(x) == old(
                                ledger,
                            ).reserved_of(x))
                    } else if old(ledger).free_of(buyer) < value {
                        r == Err::<(), DispatchError>(
                            DispatchError::Currency(LedgerError::InsufficientBalance),
                        ) && *final(self) == *old(self) && *final(ledger) == *old(ledger)
                    } else if old(ledger).free_of(who) + old(ledger).reserved_of(who) + value
                        > u128::MAX {
                        r == Err::<(), DispatchError>(
                            DispatchError::Currency(LedgerError::Overflow),
                        ) && *final(self) == *old(self) && *final(ledger) == *old(ledger)
                    } else {
                        r == Ok::<(), DispatchError>(()) && final(self).owners@ == old(
                            self,
                        ).owners@.insert(kitty_id, buyer) && final(self).events@ == old(
                            self,
                        ).events@.push(Event::SellKitty(who, buyer, value, kitty_id)) && final(ledger).free_of(buyer) == old(ledger).free_of(buyer) - value && final(ledger).free_of(who) == old(ledger).free_of(who) + value + rel && final(ledger).reserved_of(who) == old(ledger).reserved_of(who) - rel && final(ledger).reserved_of(buyer) == old(ledger).reserved_of(buyer) && (forall|x: u64|
                            x != who && x != buyer ==> #[trigger] final(ledger).free_of(x) == old(
                                ledger,
                            ).free_of(x) && final(ledger).reserved_of(x) == old(
                                ledger,
                            ).reserved_of(x))
                    }
                })
            }),
    {
        match self.kitties(kitty_id) {
            Some(_) => {},
            None => {
                return Err(DispatchError::Module(Error::InvalidKittyIndex));
            },
        }
        let recorded = match self.owner(kitty_id) {
            Some(o) => o,
            None => {
                return Err(DispatchError::Module(Error::InvalidKittyIndex));
            },
        };
        if who != recorded {
            return Err(DispatchError::Module(Error::NotOwner));
        }
        match self.change_currency_owner(ledger, who, buyer, kitty_id, value) {
            Ok(()) => {},
            Err(e) => {
                return Err(e);
            },
        }
        self.events.push(Event::SellKitty(who, buyer, value, kitty_id));
        Ok(())
    }

    /// Dispatchable breed: combine two distinct existing parents into a new
    /// entity owned by the caller. The child genome multiplexes the parents'
    /// genomes under a selector drawn from the randomness adapter; the
    /// parents are neither consumed nor altered, and no currency moves.
    pub fn breed(
        &mut self,
        who: u64,
        kitty_id_1: u32,
        kitty_id_2: u32,
        seed: &[u8; 32],
        nonce: Option<u32>,
    ) -> (r: Result<(), DispatchError>)
        requires
            old(self).wf(),
        ensures
            final(self).wf(),
            final(self).deposit == old(self).deposit,
            (if kitty_id_1 == kitty_id_2 {
                r == Err::<(), DispatchError>(DispatchError::Module(Error::SameParentIndex))
                    && *final(self) == *old(self)
            } else if !old(self).genomes@.contains_key(kitty_id_1) || !old(
                self,
            ).genomes@.contains_key(kitty_id_2) {
                r == Err::<(), DispatchError>(DispatchError::Module(Error::InvalidKittyIndex))
                    && *final(self) == *old(self)
            } else if old(self).count == Some(u32::MAX) {
                r == Err::<(), DispatchError>(DispatchError::Module(Error::KittiesCountOverflow))
                    && *final(self) == *old(self)
            } else {
                ({
                    let id = old(self).next_id();
                    let sel = blake2_128_of(payload_scale(seed@, who, nonce));
                    r == Ok::<(), DispatchError>(()) && final(self).count == Some((id + 1) as u32)
                        && final(self).genomes@ == old(self).genomes@.insert(
                        id,
                        final(self).genomes@[id],
                    ) && final(self).genomes@[id].0@ == child_genome(
                        sel,
                        old(self).genomes@[kitty_id_1].0@,
                        old(self).genomes@[kitty_id_2].0@,
                    ) && final(self).owners@ == old(self).owners@.insert(id, who)
                        && final(self).events@ == old(self).events@.push(
                        Event::KittiesCreate(who, id),
                    )
                })
            }),
    {
        if kitty_id_1 == kitty_id_2 {
            return Err(DispatchError::Module(Error::SameParentIndex));
        }
        let kitty1 = match self.kitties(kitty_id_1) {
            Some(k) => k,
            None => {
                return Err(DispatchError::Module(Error::InvalidKittyIndex));
            },
        };
        let kitty2 = match self.kitties(kitty_id_2) {
            Some(k) => k,
            None => {
                return Err(DispatchError::Module(Error::InvalidKittyIndex));
            },
        };
        if let Some(c) = self.count {
            if c == u32::MAX {
                return Err(DispatchError::Module(Error::KittiesCountOverflow));
            }
        }
        let selector = random_value(who, seed, nonce);
        let new_dna = breed_genomes(&kitty1.0, &kitty2.0, &selector);
        let _ = self.create_kitty(who, &new_dna);
        Ok(())
    }
}

/// Identifier freshness: in a well-formed registry every existing entity id
/// lies strictly below the id the next successful creation hands out, and
/// that id names no existing entity. Since each successful creation moves
/// the counter past the id it allocated, allocated ids strictly increase
/// over any sequence of successful creations and breedings and are never
/// reused.
pub proof fn lemma_ids_fresh(p: Pallet)
    requires
        p.wf(),
    ensures
        forall|i: u32| #[trigger] p.genomes@.contains_key(i) ==> i < p.next_id(),
        !p.genomes@.contains_key(p.next_id()),
{
}

} // verus!
