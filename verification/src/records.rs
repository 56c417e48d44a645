//! The record families kept by the ledger: animal campaigns, donation
//! receipts, payment requests, the closed error taxonomy, and aggregate
//! statistics.

use vstd::prelude::*;

verus! {

/// A principal: an externally verifiable identity, such as an account the
/// host environment has authenticated. The ledger only compares principals
/// for equality; what proves control of one is the host's concern.
#[derive(Clone, Copy, Debug, PartialEq, Eq, Structural)]
pub struct Address {
    /// Stable identifier of the principal.
    pub id: u64,
}

/// An animal campaign accumulating donations.
#[derive(Debug)]
pub struct Animal {
    /// Unique id, assigned sequentially starting at 1, never reused.
    pub id: u32,
    /// Display name.
    pub name: String,
    /// Free-text description.
    pub description: String,
    /// Current balance: donations received minus payments settled.
    /// Never negative.
    pub total_raised: i128,
    /// Informational fundraising goal; never enforced as a cap.
    pub target_amount: i128,
    /// Whether the campaign accepts donations. Does not block the
    /// payment-request lifecycle.
    pub is_active: bool,
    /// The principal authorized to request payments against this campaign.
    /// Immutable after creation.
    pub beneficiary: Address,
}

impl Animal {
    /// The same campaign with its balance replaced.
    pub open spec fn with_total_raised(self, total: int) -> Animal {
        Animal {
            id: self.id,
            name: self.name,
            description: self.description,
            total_raised: total as i128,
            target_amount: self.target_amount,
            is_active: self.is_active,
            beneficiary: self.beneficiary,
        }
    }

    /// The same campaign with its active flag replaced.
    pub open spec fn with_active(self, active: bool) -> Animal {
        Animal {
            id: self.id,
            name: self.name,
            description: self.description,
            total_raised: self.total_raised,
            target_amount: self.target_amount,
            is_active: active,
            beneficiary: self.beneficiary,
        }
    }
}

impl Clone for Animal {
    fn clone(&self) -> (res: Self)
        ensures
            res == *self,
    {
        Animal {
            id: self.id,
            name: self.name.clone(),
            description: self.description.clone(),
            total_raised: self.total_raised,
            target_amount: self.target_amount,
            is_active: self.is_active,
            beneficiary: self.beneficiary,
        }
    }
}

/// An immutable receipt of funds committed to an animal campaign.
/// Created once, never mutated or deleted.
#[derive(Clone, Copy, Debug)]
pub struct Donation {
    /// The contributing principal.
    pub donor: Address,
    /// The campaign credited.
    pub animal_id: u32,
    /// Amount contributed; always positive.
    pub amount: i128,
    /// Ledger time at recording.
    pub timestamp: u64,
}

/// A beneficiary's claim against a campaign's accumulated balance.
///
/// States move one way only:
/// pending (`!is_approved && !is_paid`), then approved
/// (`is_approved && !is_paid`), then settled (`is_approved && is_paid`).
/// A request is never paid without approval, and never mutated once settled.
#[derive(Debug)]
pub struct PaymentRequest {
    /// Unique id, assigned sequentially starting at 1, never reused.
    pub id: u32,
    /// The campaign the claim is drawn against.
    pub animal_id: u32,
    /// The principal that created the claim; equals the campaign's
    /// beneficiary at creation time.
    pub requester: Address,
    /// Amount claimed.
    pub amount: i128,
    /// Free-text purpose of the claim.
    pub description: String,
    /// Set once by administrator approval.
    pub is_approved: bool,
    /// Set once by settlement; implies `is_approved`.
    pub is_paid: bool,
    /// Ledger time at creation.
    pub timestamp: u64,
}

impl PaymentRequest {
    /// The same request marked approved.
    pub open spec fn approved(self) -> PaymentRequest {
        PaymentRequest {
            id: self.id,
            animal_id: self.animal_id,
            requester: self.requester,
            amount: self.amount,
            description: self.description,
            is_approved: true,
            is_paid: self.is_paid,
            timestamp: self.timestamp,
        }
    }

    /// The same request marked paid.
    pub open spec fn paid(self) -> PaymentRequest {
        PaymentRequest {
            id: self.id,
            animal_id: self.animal_id,
            requester: self.requester,
            amount: self.amount,
            description: self.description,
            is_approved: self.is_approved,
            is_paid: true,
            timestamp: self.timestamp,
        }
    }
}

impl Clone for PaymentRequest {
    fn clone(&self) -> (res: Self)
        ensures
            res == *self,
    {
        PaymentRequest {
            id: self.id,
            animal_id: self.animal_id,
            requester: self.requester,
            amount: self.amount,
            description: self.description.clone(),
            is_approved: self.is_approved,
            is_paid: self.is_paid,
            timestamp: self.timestamp,
        }
    }
}

/// The closed error taxonomy. Every failure is returned to the caller with
/// the ledger unchanged; no operation mutates state after a failed check.
#[derive(Clone, Copy, Debug, PartialEq, Eq, Structural)]
pub enum Error {
    /// The caller failed an authorization check or acted outside its role.
    NotAuthorized,
    /// The referenced animal campaign does not exist.
    AnimalNotFound,
    /// A donation was attempted against a deactivated campaign.
    AnimalNotActive,
    /// A non-positive donation, or a payment amount exceeding the current
    /// balance.
    InsufficientFunds,
    /// The referenced payment request does not exist.
    PaymentRequestNotFound,
    /// Re-approval of an approved or paid request, or settlement of an
    /// unapproved or already-paid request.
    PaymentRequestAlreadyProcessed,
}

/// Aggregate statistics over all campaigns, recomputed on demand.
#[derive(Clone, Copy, Debug, PartialEq, Eq, Structural)]
pub struct Stats {
    /// Number of campaigns ever created.
    pub total_animals: i128,
    /// Number of campaigns currently accepting donations.
    pub active_animals: i128,
    /// Sum of the current balances of all campaigns.
    pub total_raised: i128,
}

} // verus!
