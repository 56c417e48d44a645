//! The ledger itself: one in-memory state value per contract instance, and
//! every operation as a verified state transition on it.
//!
//! Records live in arena-style stores: each family is a growable vector in
//! creation order, and the record with id `i` sits at index `i - 1`, so ids
//! start at 1, grow by 1 per successful creation, and are never reused. The
//! next free id of each family is therefore the store's length plus one.

use vstd::prelude::*;

use crate::records::Address;
use crate::records::Animal;
use crate::records::Donation;
use crate::records::Error;
use crate::records::PaymentRequest;
use crate::records::Stats;
use crate::totals::count_active;
use crate::totals::donations_for;
use crate::totals::lemma_count_active_prefix_step;
use crate::totals::requests_for;
use crate::totals::sum_donated_for;
use crate::totals::sum_raised;
use crate::totals::sum_settled_for;
use crate::totals::lemma_sum_donated_absent;
use crate::totals::lemma_sum_donated_push;
use crate::totals::lemma_sum_raised_element_bound;
use crate::totals::lemma_sum_raised_prefix_bound;
use crate::totals::lemma_sum_raised_prefix_step;
use crate::totals::lemma_sum_raised_push;
use crate::totals::lemma_sum_raised_update;
use crate::totals::lemma_sum_settled_absent;
use crate::totals::lemma_sum_settled_push;
use crate::totals::lemma_sum_settled_update;

verus! {

/// The donation registry's ledger: administrator, campaigns, donation
/// receipts and payment requests, all in creation order.
pub struct StreetAnimalsContract {
    /// The administrator principal; set exactly once by `initialize`.
    pub admin: Option<Address>,
    /// Animal campaigns; the campaign with id `i` is at index `i - 1`.
    pub animals: Vec<Animal>,
    /// Donation receipts; the receipt with id `i` is at index `i - 1`.
    pub donations: Vec<Donation>,
    /// Payment requests; the request with id `i` is at index `i - 1`.
    pub payment_requests: Vec<PaymentRequest>,
}

impl StreetAnimalsContract {
    /// Whether a campaign with this id exists.
    pub open spec fn has_animal(self, animal_id: u32) -> bool {
        1 <= animal_id && animal_id <= self.animals@.len()
    }

    /// The campaign with this id.
    pub open spec fn animal_at(self, animal_id: u32) -> Animal {
        self.animals@[animal_id - 1]
    }

    /// Whether a payment request with this id exists.
    pub open spec fn has_request(self, request_id: u32) -> bool {
        1 <= request_id && request_id <= self.payment_requests@.len()
    }

    /// The payment request with this id.
    pub open spec fn request_at(self, request_id: u32) -> PaymentRequest {
        self.payment_requests@[request_id - 1]
    }

    /// Whether a donation of `amount` to campaign `animal_id` passes
    /// every validation check and so mutates the ledger.
    pub open spec fn donation_applies(self, animal_id: u32, amount: i128) -> bool {
        &&& amount > 0
        &&& self.has_animal(animal_id)
        &&& self.animal_at(animal_id).is_active
    }

    /// Whether creating a payment request passes every validation check
    /// and so mutates the ledger.
    pub open spec fn request_creation_applies(
        self,
        animal_id: u32,
        requester: Address,
        amount: i128,
    ) -> bool {
        &&& self.has_animal(animal_id)
        &&& requester == self.animal_at(animal_id).beneficiary
        &&& amount <= self.animal_at(animal_id).total_raised
    }

    /// Whether settling request `request_id` passes every validation
    /// check and so mutates the ledger.
    pub open spec fn settlement_applies(self, request_id: u32) -> bool {
        &&& self.has_request(request_id)
        &&& self.request_at(request_id).is_approved
        &&& !self.request_at(request_id).is_paid
        &&& self.request_at(request_id).amount <= self.animal_at(
            self.request_at(request_id).animal_id,
        ).total_raised
    }

    /// Well-formedness of the ledger. Every operation requires and
    /// preserves it:
    /// - ids equal position plus one, so they are unique, strictly
    ///   increasing, and never reused;
    /// - every balance is non-negative, and the sum of all balances fits
    ///   the balance type;
    /// - every donation names an existing campaign and is positive;
    /// - every payment request names an existing campaign and is never
    ///   paid without being approved;
    /// - the books balance: per campaign, settled payments plus the
    ///   current balance equal the donations received.
    pub open spec fn inv(self) -> bool {
        &&& forall|i: int|
            0 <= i < self.animals@.len() ==> (#[trigger] self.animals@[i]).id == i + 1
        &&& forall|i: int|
            0 <= i < self.payment_requests@.len() ==> (#[trigger] self.payment_requests@[i]).id
                == i + 1
        &&& forall|i: int|
            0 <= i < self.animals@.len() ==> (#[trigger] self.animals@[i]).total_raised >= 0
        &&& sum_raised(self.animals@) <= i128::MAX
        &&& forall|i: int|
            0 <= i < self.donations@.len() ==> {
                let d = #[trigger] self.donations@[i];
                &&& 1 <= d.animal_id <= self.animals@.len()
                &&& d.amount > 0
            }
        &&& forall|i: int|
            0 <= i < self.payment_requests@.len() ==> {
                let r = #[trigger] self.payment_requests@[i];
                &&& 1 <= r.animal_id <= self.animals@.len()
                &&& (r.is_paid ==> r.is_approved)
            }
        &&& forall|aid: u32|
            1 <= aid <= self.animals@.len() ==> #[trigger] sum_donated_for(self.donations@, aid)
                == sum_settled_for(self.payment_requests@, aid) + self.animals@[aid
                - 1].total_raised
    }

    /// A fresh, uninitialized ledger: no administrator, no records, every
    /// next id equal to 1.
    pub fn new() -> (res: Self)
        ensures
            res.inv(),
            res.admin is None,
            res.animals@.len() == 0,
            res.donations@.len() == 0,
            res.payment_requests@.len() == 0,
    {
        StreetAnimalsContract {
            admin: None,
            animals: Vec::new(),
            donations: Vec::new(),
            payment_requests: Vec::new(),
        }
    }

    /// Sets the administrator principal. The caller must have
    /// authenticated `admin` with the host before calling.
    ///
    /// Initialization is single-shot: once an administrator is set, a
    /// second call is refused as unauthorized instead of silently
    /// replacing the administrator and restarting id assignment under
    /// the existing records.
    pub fn initialize(&mut self, admin: Address) -> (result: Result<(), Error>)
        requires
            old(self).inv(),
        ensures
            final(self).inv(),
            old(self).admin is None ==> {
                &&& result == Ok::<(), Error>(())
                &&& final(self).admin == Some(admin)
                &&& final(self).animals@ == old(self).animals@
                &&& final(self).donations@ == old(self).donations@
                &&& final(self).payment_requests@ == old(self).payment_requests@
            },
            old(self).admin is Some ==> result == Err::<(), Error>(Error::NotAuthorized)
                && *final(self) == *old(self),
    {
        if self.admin.is_some() {
            return Err(Error::NotAuthorized);
        }
        self.admin = Some(admin);
        Ok(())
    }

    /// Creates a new animal campaign with a zero balance and an active
    /// flag, and returns its id: admin-only.
    ///
    /// Fails with `NotAuthorized` when the ledger was never initialized
    /// or the caller is not the administrator. Ids are assigned
    /// sequentially and never reused, so the bound on the store's size
    /// only keeps the next id within its type.
    pub fn add_animal(
        &mut self,
        caller: Address,
        name: String,
        description: String,
        target_amount: i128,
        beneficiary: Address,
    ) -> (result: Result<u32, Error>)
        requires
            old(self).inv(),
            old(self).admin == Some(caller) ==> old(self).animals@.len() + 2 <= u32::MAX,
        ensures
            final(self).inv(),
            old(self).admin != Some(caller) ==> result == Err::<u32, Error>(Error::NotAuthorized)
                && *final(self) == *old(self),
            old(self).admin == Some(caller) ==> {
                let id = (old(self).animals@.len() + 1) as u32;
                &&& result == Ok::<u32, Error>(id)
                &&& final(self).animals@ == old(self).animals@.push(
                    (Animal {
                        id,
                        name,
                        description,
                        total_raised: 0,
                        target_amount,
                        is_active: true,
                        beneficiary,
                    }),
                )
                &&& final(self).donations@ == old(self).donations@
                &&& final(self).payment_requests@ == old(self).payment_requests@
                &&& final(self).admin == old(self).admin
            },
    {
        match self.admin {
            None => {
                return Err(Error::NotAuthorized);
            },
            Some(a) => {
                if a != caller {
                    return Err(Error::NotAuthorized);
                }
            },
        }
        let animal_id: u32 = self.animals.len() as u32 + 1;
        let animal = Animal {
            id: animal_id,
            name,
            description,
            total_raised: 0,
            target_amount,
            is_active: true,
            beneficiary,
        };
        let ghost pre = *self;
        proof {
            lemma_sum_raised_push(pre.animals@, animal);
            lemma_sum_donated_absent(pre.donations@, animal_id);
            lemma_sum_settled_absent(pre.payment_requests@, animal_id);
        }
        self.animals.push(animal);
        Ok(animal_id)
    }

    /// Returns the campaign with the given id, or `AnimalNotFound`.
    /// Pure read.
    pub fn get_animal(&self, animal_id: u32) -> (result: Result<Animal, Error>)
        ensures
            self.has_animal(animal_id) ==> result == Ok::<Animal, Error>(
                self.animal_at(animal_id),
            ),
            !self.has_animal(animal_id) ==> result == Err::<Animal, Error>(Error::AnimalNotFound),
    {
        if 1 <= animal_id && animal_id as usize <= self.animals.len() {
            Ok(self.animals[animal_id as usize - 1].clone())
        } else {
            Err(Error::AnimalNotFound)
        }
    }

    /// Flips a campaign's active flag: admin-only. A deactivated campaign
    /// rejects donations but its payment-request lifecycle goes on.
    pub fn toggle_animal_status(&mut self, caller: Address, animal_id: u32) -> (result: Result<
        (),
        Error,
    >)
        requires
            old(self).inv(),
        ensures
            final(self).inv(),
            old(self).admin != Some(caller) ==> result == Err::<(), Error>(Error::NotAuthorized)
                && *final(self) == *old(self),
            old(self).admin == Some(caller) && !old(self).has_animal(animal_id) ==> result
                == Err::<(), Error>(Error::AnimalNotFound) && *final(self) == *old(self),
            old(self).admin == Some(caller) && old(self).has_animal(animal_id) ==> {
                &&& result == Ok::<(), Error>(())
                &&& final(self).animals@ == old(self).animals@.update(
                    animal_id - 1,
                    old(self).animal_at(animal_id).with_active(
                        !old(self).animal_at(animal_id).is_active,
                    ),
                )
                &&& final(self).donations@ == old(self).donations@
                &&& final(self).payment_requests@ == old(self).payment_requests@
                &&& final(self).admin == old(self).admin
            },
    {
        match self.admin {
            None => {
                return Err(Error::NotAuthorized);
            },
            Some(a) => {
                if a != caller {
                    return Err(Error::NotAuthorized);
                }
            },
        }
        if !(1 <= animal_id && animal_id as usize <= self.animals.len()) {
            return Err(Error::AnimalNotFound);
        }
        let idx = animal_id as usize - 1;
        let ghost pre = *self;
        let was_active = self.animals[idx].is_active;
        self.animals[idx].is_active = !was_active;
        proof {
            lemma_sum_raised_update(pre.animals@, idx as int, self.animals@[idx as int]);
        }
        Ok(())
    }

    /// Records a donation of `amount` by `donor` to campaign
    /// `animal_id` at ledger time `timestamp`, and credits the
    /// campaign's balance. The caller must have authenticated `donor`
    /// with the host; moving the real funds is the host's concern.
    ///
    /// Validation order is part of the contract: a non-positive amount
    /// fails `InsufficientFunds` before the campaign is looked up, then
    /// a missing campaign fails `AnimalNotFound`, then a deactivated one
    /// fails `AnimalNotActive`. The bound on the total keeps the credited
    /// balance within its type.
    pub fn donate(
        &mut self,
        donor: Address,
        animal_id: u32,
        amount: i128,
        timestamp: u64,
    ) -> (result: Result<(), Error>)
        requires
            old(self).inv(),
            old(self).donation_applies(animal_id, amount) ==> sum_raised(old(self).animals@)
                + amount <= i128::MAX,
        ensures
            final(self).inv(),
            amount <= 0 ==> result == Err::<(), Error>(Error::InsufficientFunds) && *final(self)
                == *old(self),
            amount > 0 && !old(self).has_animal(animal_id) ==> result == Err::<(), Error>(
                Error::AnimalNotFound,
            ) && *final(self) == *old(self),
            amount > 0 && old(self).has_animal(animal_id) && !old(self).animal_at(
                animal_id,
            ).is_active ==> result == Err::<(), Error>(Error::AnimalNotActive) && *final(self)
                == *old(self),
            old(self).donation_applies(animal_id, amount) ==> {
                &&& result == Ok::<(), Error>(())
                &&& final(self).donations@ == old(self).donations@.push(
                    (Donation { donor, animal_id, amount, timestamp }),
                )
                &&& final(self).animals@ == old(self).animals@.update(
                    animal_id - 1,
                    old(self).animal_at(animal_id).with_total_raised(
                        old(self).animal_at(animal_id).total_raised + amount,
                    ),
                )
                &&& final(self).payment_requests@ == old(self).payment_requests@
                &&& final(self).admin == old(self).admin
            },
    {
        if amount <= 0 {
            return Err(Error::InsufficientFunds);
        }
        if !(1 <= animal_id && animal_id as usize <= self.animals.len()) {
            return Err(Error::AnimalNotFound);
        }
        let idx = animal_id as usize - 1;
        if !self.animals[idx].is_active {
            return Err(Error::AnimalNotActive);
        }
        let ghost pre = *self;
        proof {
            lemma_sum_raised_element_bound(pre.animals@, idx as int);
        }
        let donation = Donation { donor, animal_id, amount, timestamp };
        let current = self.animals[idx].total_raised;
        self.animals[idx].total_raised = current + amount;
        self.donations.push(donation);
        proof {
            lemma_sum_raised_update(pre.animals@, idx as int, self.animals@[idx as int]);
            assert forall|aid: u32| 1 <= aid <= self.animals@.len() implies
                #[trigger] sum_donated_for(self.donations@, aid) == sum_settled_for(
                self.payment_requests@,
                aid,
            ) + self.animals@[aid - 1].total_raised by {
                lemma_sum_donated_push(pre.donations@, donation, aid);
            }
        }
        Ok(())
    }

    /// Creates a payment request in the pending state against campaign
    /// `animal_id` and returns its id. The caller must have
    /// authenticated `requester` with the host.
    ///
    /// Only the campaign's beneficiary may request, and only up to the
    /// balance held at creation time; the balance check here is
    /// advisory, since the balance may change before settlement, where
    /// it is checked again.
    pub fn create_payment_request(
        &mut self,
        animal_id: u32,
        requester: Address,
        amount: i128,
        description: String,
        timestamp: u64,
    ) -> (result: Result<u32, Error>)
        requires
            old(self).inv(),
            old(self).request_creation_applies(animal_id, requester, amount) ==> old(self).payment_requests@.len() + 2 <= u32::MAX,
        ensures
            final(self).inv(),
            !old(self).has_animal(animal_id) ==> result == Err::<u32, Error>(
                Error::AnimalNotFound,
            ) && *final(self) == *old(self),
            old(self).has_animal(animal_id) && requester != old(self).animal_at(
                animal_id,
            ).beneficiary ==> result == Err::<u32, Error>(Error::NotAuthorized) && *final(self)
                == *old(self),
            old(self).has_animal(animal_id) && requester == old(self).animal_at(
                animal_id,
            ).beneficiary && amount > old(self).animal_at(animal_id).total_raised ==> result
                == Err::<u32, Error>(Error::InsufficientFunds) && *final(self) == *old(self),
            old(self).request_creation_applies(animal_id, requester, amount) ==> {
                let id = (old(self).payment_requests@.len() + 1) as u32;
                &&& result == Ok::<u32, Error>(id)
                &&& final(self).payment_requests@ == old(self).payment_requests@.push(
                    (PaymentRequest {
                        id,
                        animal_id,
                        requester,
                        amount,
                        description,
                        is_approved: false,
                        is_paid: false,
                        timestamp,
                    }),
                )
                &&& final(self).animals@ == old(self).animals@
                &&& final(self).donations@ == old(self).donations@
                &&& final(self).admin == old(self).admin
            },
    {
        if !(1 <= animal_id && animal_id as usize <= self.animals.len()) {
            return Err(Error::AnimalNotFound);
        }
        let idx = animal_id as usize - 1;
        if requester != self.animals[idx].beneficiary {
            return Err(Error::NotAuthorized);
        }
        if amount > self.animals[idx].total_raised {
            return Err(Error::InsufficientFunds);
        }
        let request_id: u32 = self.payment_requests.len() as u32 + 1;
        let request = PaymentRequest {
            id: request_id,
            animal_id,
            requester,
            amount,
            description,
            is_approved: false,
            is_paid: false,
            timestamp,
        };
        let ghost pre = *self;
        let ghost pushed = request;
        self.payment_requests.push(request);
        proof {
            assert forall|aid: u32| 1 <= aid <= self.animals@.len() implies
                #[trigger] sum_donated_for(self.donations@, aid) == sum_settled_for(
                self.payment_requests@,
                aid,
            ) + self.animals@[aid - 1].total_raised by {
                lemma_sum_settled_push(pre.payment_requests@, pushed, aid);
            }
        }
        Ok(request_id)
    }

    /// Approves a pending payment request: admin-only. Approval is a
    /// one-way latch: a request already approved or already paid fails
    /// `PaymentRequestAlreadyProcessed`. No balance changes.
    pub fn approve_payment_request(&mut self, caller: Address, request_id: u32) -> (result:
        Result<(), Error>)
        requires
            old(self).inv(),
        ensures
            final(self).inv(),
            old(self).admin != Some(caller) ==> result == Err::<(), Error>(Error::NotAuthorized)
                && *final(self) == *old(self),
            old(self).admin == Some(caller) && !old(self).has_request(request_id) ==> result
                == Err::<(), Error>(Error::PaymentRequestNotFound) && *final(self) == *old(self),
            old(self).admin == Some(caller) && old(self).has_request(request_id) && (old(self).request_at(request_id).is_approved || old(self).request_at(request_id).is_paid)
                ==> result == Err::<(), Error>(Error::PaymentRequestAlreadyProcessed) && *final(self) == *old(self),
            old(self).admin == Some(caller) && old(self).has_request(request_id) && !old(self).request_at(request_id).is_approved && !old(self).request_at(request_id).is_paid
                ==> {
                &&& result == Ok::<(), Error>(())
                &&& final(self).payment_requests@ == old(self).payment_requests@.update(
                    request_id - 1,
                    old(self).request_at(request_id).approved(),
                )
                &&& final(self).animals@ == old(self).animals@
                &&& final(self).donations@ == old(self).donations@
                &&& final(self).admin == old(self).admin
            },
    {
        match self.admin {
            None => {
                return Err(Error::NotAuthorized);
            },
            Some(a) => {
                if a != caller {
                    return Err(Error::NotAuthorized);
                }
            },
        }
        if !(1 <= request_id && request_id as usize <= self.payment_requests.len()) {
            return Err(Error::PaymentRequestNotFound);
        }
        let idx = request_id as usize - 1;
        if self.payment_requests[idx].is_approved || self.payment_requests[idx].is_paid {
            return Err(Error::PaymentRequestAlreadyProcessed);
        }
        let ghost pre = *self;
        self.payment_requests[idx].is_approved = true;
        proof {
            assert forall|aid: u32| 1 <= aid <= self.animals@.len() implies
                #[trigger] sum_donated_for(self.donations@, aid) == sum_settled_for(
                self.payment_requests@,
                aid,
            ) + self.animals@[aid - 1].total_raised by {
                lemma_sum_settled_update(
                    pre.payment_requests@,
                    idx as int,
                    self.payment_requests@[idx as int],
                    aid,
                );
            }
        }
        Ok(())
    }

    /// Settles an approved payment request: debits the campaign's
    /// balance and marks the request paid. Moving the real funds to the
    /// beneficiary is the host's concern.
    ///
    /// Settlement itself carries no authorization check: anyone may
    /// settle a request the administrator has approved — approval is
    /// the only gate. A request not yet approved, or
    /// already paid, fails `PaymentRequestAlreadyProcessed`, so a
    /// request settles at most once. The balance is re-checked here
    /// against the current balance — the double-spend guard, since other
    /// requests may have settled since approval.
    pub fn process_payment(&mut self, request_id: u32) -> (result: Result<(), Error>)
        requires
            old(self).inv(),
            old(self).settlement_applies(request_id) && old(self).request_at(request_id).amount
                < 0 ==> sum_raised(old(self).animals@) - old(self).request_at(request_id).amount
                <= i128::MAX,
        ensures
            final(self).inv(),
            !old(self).has_request(request_id) ==> result == Err::<(), Error>(
                Error::PaymentRequestNotFound,
            ) && *final(self) == *old(self),
            old(self).has_request(request_id) && (!old(self).request_at(request_id).is_approved
                || old(self).request_at(request_id).is_paid) ==> result == Err::<(), Error>(
                Error::PaymentRequestAlreadyProcessed,
            ) && *final(self) == *old(self),
            old(self).has_request(request_id) && old(self).request_at(request_id).is_approved
                && !old(self).request_at(request_id).is_paid && old(self).request_at(
                request_id,
            ).amount > old(self).animal_at(old(self).request_at(request_id).animal_id).total_raised
                ==> result == Err::<(), Error>(Error::InsufficientFunds) && *final(self) == *old(self),
            old(self).settlement_applies(request_id) ==> {
                let r = old(self).request_at(request_id);
                &&& result == Ok::<(), Error>(())
                &&& final(self).payment_requests@ == old(self).payment_requests@.update(
                    request_id - 1,
                    r.paid(),
                )
                &&& final(self).animals@ == old(self).animals@.update(
                    r.animal_id - 1,
                    old(self).animal_at(r.animal_id).with_total_raised(
                        old(self).animal_at(r.animal_id).total_raised - r.amount,
                    ),
                )
                &&& final(self).donations@ == old(self).donations@
                &&& final(self).admin == old(self).admin
            },
    {
        if !(1 <= request_id && request_id as usize <= self.payment_requests.len()) {
            return Err(Error::PaymentRequestNotFound);
        }
        let ridx = request_id as usize - 1;
        if !self.payment_requests[ridx].is_approved || self.payment_requests[ridx].is_paid {
            return Err(Error::PaymentRequestAlreadyProcessed);
        }
        let animal_id = self.payment_requests[ridx].animal_id;
        let pay_amount = self.payment_requests[ridx].amount;
        let aidx = animal_id as usize - 1;
        if pay_amount > self.animals[aidx].total_raised {
            return Err(Error::InsufficientFunds);
        }
        let ghost pre = *self;
        proof {
            lemma_sum_raised_element_bound(pre.animals@, aidx as int);
        }
        let current = self.animals[aidx].total_raised;
        self.animals[aidx].total_raised = current - pay_amount;
        self.payment_requests[ridx].is_paid = true;
        proof {
            lemma_sum_raised_update(pre.animals@, aidx as int, self.animals@[aidx as int]);
            assert forall|aid: u32| 1 <= aid <= self.animals@.len() implies
                #[trigger] sum_donated_for(self.donations@, aid) == sum_settled_for(
                self.payment_requests@,
                aid,
            ) + self.animals@[aid - 1].total_raised by {
                lemma_sum_settled_update(
                    pre.payment_requests@,
                    ridx as int,
                    self.payment_requests@[ridx as int],
                    aid,
                );
            }
        }
        Ok(())
    }

    /// Returns every campaign, in ascending id order (equal to creation
    /// order). Pure read.
    pub fn get_all_animals(&self) -> (result: Vec<Animal>)
        ensures
            result@ == self.animals@,
    {
        let mut out: Vec<Animal> = Vec::new();
        let mut i: usize = 0;
        while i < self.animals.len()
            invariant
                i <= self.animals@.len(),
                out@ == self.animals@.subrange(0, i as int),
            decreases self.animals@.len() - i,
        {
            out.push(self.animals[i].clone());
            proof {
                assert(out@ =~= self.animals@.subrange(0, i + 1));
            }
            i = i + 1;
        }
        proof {
            assert(self.animals@.subrange(0, self.animals@.len() as int) =~= self.animals@);
        }
        out
    }

    /// Returns the donations credited to campaign `animal_id`, in
    /// recording order. Pure read; no authorization required.
    pub fn get_donations_for_animal(&self, animal_id: u32) -> (result: Vec<Donation>)
        ensures
            result@ == donations_for(self.donations@, animal_id),
    {
        let mut out: Vec<Donation> = Vec::new();
        let mut i: usize = 0;
        while i < self.donations.len()
            invariant
                i <= self.donations@.len(),
                out@ == donations_for(self.donations@.subrange(0, i as int), animal_id),
            decreases self.donations@.len() - i,
        {
            proof {
                assert(self.donations@.subrange(0, i + 1).drop_last() =~= self.donations@.subrange(
                    0,
                    i as int,
                ));
                assert(self.donations@.subrange(0, i + 1).last() == self.donations@[i as int]);
            }
            let d = self.donations[i];
            if d.animal_id == animal_id {
                out.push(d);
            }
            i = i + 1;
        }
        proof {
            assert(self.donations@.subrange(0, self.donations@.len() as int) =~= self.donations@);
        }
        out
    }

    /// Returns the payment requests drawn against campaign `animal_id`,
    /// in creation order. Pure read; no authorization required.
    pub fn get_payment_requests_for_animal(&self, animal_id: u32) -> (result: Vec<PaymentRequest>)
        ensures
            result@ == requests_for(self.payment_requests@, animal_id),
    {
        let mut out: Vec<PaymentRequest> = Vec::new();
        let mut i: usize = 0;
        while i < self.payment_requests.len()
            invariant
                i <= self.payment_requests@.len(),
                out@ == requests_for(self.payment_requests@.subrange(0, i as int), animal_id),
            decreases self.payment_requests@.len() - i,
        {
            proof {
                assert(self.payment_requests@.subrange(0, i + 1).drop_last()
                    =~= self.payment_requests@.subrange(0, i as int));
                assert(self.payment_requests@.subrange(0, i + 1).last()
                    == self.payment_requests@[i as int]);
            }
            let r = &self.payment_requests[i];
            if r.animal_id == animal_id {
                out.push(r.clone());
            }
            i = i + 1;
        }
        proof {
            assert(self.payment_requests@.subrange(0, self.payment_requests@.len() as int)
                =~= self.payment_requests@);
        }
        out
    }

    /// Recomputes the aggregate statistics: how many campaigns exist,
    /// how many are active, and the sum of all balances. Pure read.
    pub fn get_stats(&self) -> (result: Stats)
        requires
            self.inv(),
        ensures
            result.total_animals == self.animals@.len(),
            result.active_animals == count_active(self.animals@),
            result.total_raised == sum_raised(self.animals@),
    {
        let mut raised: i128 = 0;
        let mut active: i128 = 0;
        let mut i: usize = 0;
        while i < self.animals.len()
            invariant
                self.inv(),
                i <= self.animals@.len(),
                raised == sum_raised(self.animals@.subrange(0, i as int)),
                active == count_active(self.animals@.subrange(0, i as int)),
                0 <= active <= i,
            decreases self.animals@.len() - i,
        {
            proof {
                lemma_sum_raised_prefix_step(self.animals@, i as int);
                lemma_sum_raised_prefix_bound(self.animals@, i + 1);
                lemma_count_active_prefix_step(self.animals@, i as int);
            }
            raised = raised + self.animals[i].total_raised;
            if self.animals[i].is_active {
                active = active + 1;
            }
            i = i + 1;
        }
        proof {
            assert(self.animals@.subrange(0, self.animals@.len() as int) =~= self.animals@);
        }
        Stats { total_animals: self.animals.len() as i128, active_animals: active, total_raised: raised }
    }

    /// Law: every campaign's balance is non-negative at every point in
    /// the ledger's life.
    pub proof fn lemma_balance_nonnegative(self, animal_id: u32)
        requires
            self.inv(),
            self.has_animal(animal_id),
        ensures
            self.animal_at(animal_id).total_raised >= 0,
    {
    }

    /// Law: a payment request is paid only if it is approved; nothing is
    /// ever settled without prior approval.
    pub proof fn lemma_paid_implies_approved(self, request_id: u32)
        requires
            self.inv(),
            self.has_request(request_id),
        ensures
            self.request_at(request_id).is_paid ==> self.request_at(request_id).is_approved,
    {
    }

    /// Law: ids are strictly increasing in creation order and never
    /// reused — each record's id is its position plus one, for campaigns
    /// and payment requests alike.
    pub proof fn lemma_ids_strictly_increasing(self)
        requires
            self.inv(),
        ensures
            forall|i: int, j: int|
                0 <= i < j < self.animals@.len() ==> (#[trigger] self.animals@[i]).id < (
                #[trigger] self.animals@[j]).id,
            forall|i: int, j: int|
                0 <= i < j < self.payment_requests@.len() ==> (
                #[trigger] self.payment_requests@[i]).id < (
                #[trigger] self.payment_requests@[j]).id,
    {
    }

    /// Law of conservation: for every campaign, the settled payment
    /// amounts plus the current balance equal the donation amounts
    /// received — funds are neither created nor lost by the bookkeeping.
    pub proof fn lemma_conservation(self, animal_id: u32)
        requires
            self.inv(),
            self.has_animal(animal_id),
        ensures
            sum_settled_for(self.payment_requests@, animal_id) + self.animal_at(
                animal_id,
            ).total_raised == sum_donated_for(self.donations@, animal_id),
    {
        assert(sum_donated_for(self.donations@, animal_id) == sum_settled_for(
            self.payment_requests@,
            animal_id,
        ) + self.animals@[animal_id - 1].total_raised);
    }

    /// Law: settlement is one-shot. In the state a successful settlement
    /// of `request_id` leaves behind, that request still exists and is
    /// paid, and settlement no longer applies to it — so by the contract
    /// of `process_payment`, a second settlement fails with
    /// `PaymentRequestAlreadyProcessed` and leaves the ledger unchanged,
    /// with no second debit.
    pub proof fn lemma_settlement_is_one_shot(pre: Self, post: Self, request_id: u32)
        requires
            pre.has_request(request_id),
            post.payment_requests@ == pre.payment_requests@.update(
                request_id - 1,
                pre.request_at(request_id).paid(),
            ),
        ensures
            post.has_request(request_id),
            post.request_at(request_id).is_paid,
            !post.settlement_applies(request_id),
    {
    }
}

} // verus!
