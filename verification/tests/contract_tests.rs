use street_animals::contract::StreetAnimalsContract;
use street_animals::records::Address;
use street_animals::records::Error;

fn admin() -> Address {
    Address { id: 1 }
}

fn beneficiary() -> Address {
    Address { id: 2 }
}

fn donor() -> Address {
    Address { id: 3 }
}

/// A ledger with one campaign ("Dog", goal 1000) holding a 500 balance.
fn funded_ledger() -> StreetAnimalsContract {
    let mut c = StreetAnimalsContract::new();
    c.initialize(admin()).unwrap();
    let id = c
        .add_animal(
            admin(),
            "Dog".to_string(),
            "desc".to_string(),
            1000,
            beneficiary(),
        )
        .unwrap();
    assert_eq!(id, 1);
    c.donate(donor(), 1, 500, 10).unwrap();
    c
}

#[test]
fn donation_is_credited() {
    let c = funded_ledger();
    let animal = c.get_animal(1).unwrap();
    assert_eq!(animal.id, 1);
    assert_eq!(animal.name, "Dog");
    assert_eq!(animal.total_raised, 500);
    assert_eq!(animal.target_amount, 1000);
    assert!(animal.is_active);
    assert_eq!(animal.beneficiary, beneficiary());
}

#[test]
fn zero_donation_is_rejected_and_state_unchanged() {
    let mut c = funded_ledger();
    assert_eq!(c.donate(donor(), 1, 0, 11), Err(Error::InsufficientFunds));
    assert_eq!(c.get_animal(1).unwrap().total_raised, 500);
    assert_eq!(c.get_donations_for_animal(1).len(), 1);
}

#[test]
fn negative_donation_is_rejected() {
    let mut c = funded_ledger();
    assert_eq!(c.donate(donor(), 1, -5, 11), Err(Error::InsufficientFunds));
    assert_eq!(c.get_animal(1).unwrap().total_raised, 500);
}

#[test]
fn request_beyond_balance_is_rejected() {
    let mut c = funded_ledger();
    assert_eq!(
        c.create_payment_request(1, beneficiary(), 600, "vet".to_string(), 12),
        Err(Error::InsufficientFunds)
    );
    assert_eq!(c.get_payment_requests_for_animal(1).len(), 0);
    assert_eq!(c.get_animal(1).unwrap().total_raised, 500);
}

#[test]
fn request_lifecycle_settles_and_debits() {
    let mut c = funded_ledger();
    let rid = c
        .create_payment_request(1, beneficiary(), 300, "vet".to_string(), 12)
        .unwrap();
    assert_eq!(rid, 1);
    let pending = &c.get_payment_requests_for_animal(1)[0];
    assert!(!pending.is_approved && !pending.is_paid);

    c.approve_payment_request(admin(), 1).unwrap();
    let approved = &c.get_payment_requests_for_animal(1)[0];
    assert!(approved.is_approved && !approved.is_paid);

    c.process_payment(1).unwrap();
    let paid = &c.get_payment_requests_for_animal(1)[0];
    assert!(paid.is_approved && paid.is_paid);
    assert_eq!(c.get_animal(1).unwrap().total_raised, 200);
}

#[test]
fn settling_twice_fails_without_double_debit() {
    let mut c = funded_ledger();
    c.create_payment_request(1, beneficiary(), 300, "vet".to_string(), 12)
        .unwrap();
    c.approve_payment_request(admin(), 1).unwrap();
    c.process_payment(1).unwrap();
    assert_eq!(c.get_animal(1).unwrap().total_raised, 200);
    assert_eq!(
        c.process_payment(1),
        Err(Error::PaymentRequestAlreadyProcessed)
    );
    assert_eq!(c.get_animal(1).unwrap().total_raised, 200);
}

#[test]
fn toggle_by_non_admin_is_rejected() {
    let mut c = funded_ledger();
    assert_eq!(c.toggle_animal_status(donor(), 1), Err(Error::NotAuthorized));
    assert!(c.get_animal(1).unwrap().is_active);
}

#[test]
fn toggle_flips_and_blocks_donations_only() {
    let mut c = funded_ledger();
    c.create_payment_request(1, beneficiary(), 100, "food".to_string(), 13)
        .unwrap();
    c.toggle_animal_status(admin(), 1).unwrap();
    assert!(!c.get_animal(1).unwrap().is_active);
    assert_eq!(c.donate(donor(), 1, 50, 14), Err(Error::AnimalNotActive));
    // the payment-request lifecycle goes on while deactivated
    c.approve_payment_request(admin(), 1).unwrap();
    c.process_payment(1).unwrap();
    assert_eq!(c.get_animal(1).unwrap().total_raised, 400);
    c.toggle_animal_status(admin(), 1).unwrap();
    assert!(c.get_animal(1).unwrap().is_active);
}

#[test]
fn missing_records_are_reported() {
    let mut c = funded_ledger();
    assert_eq!(c.get_animal(2).unwrap_err(), Error::AnimalNotFound);
    assert_eq!(c.donate(donor(), 2, 10, 15), Err(Error::AnimalNotFound));
    assert_eq!(
        c.create_payment_request(2, beneficiary(), 10, "vet".to_string(), 15),
        Err(Error::AnimalNotFound)
    );
    assert_eq!(
        c.approve_payment_request(admin(), 9),
        Err(Error::PaymentRequestNotFound)
    );
    assert_eq!(c.process_payment(9), Err(Error::PaymentRequestNotFound));
}

#[test]
fn only_the_beneficiary_may_request() {
    let mut c = funded_ledger();
    assert_eq!(
        c.create_payment_request(1, donor(), 100, "vet".to_string(), 16),
        Err(Error::NotAuthorized)
    );
}

#[test]
fn admin_gates_hold_before_and_after_initialization() {
    let mut c = StreetAnimalsContract::new();
    assert_eq!(
        c.add_animal(admin(), "Cat".to_string(), "d".to_string(), 10, beneficiary()),
        Err(Error::NotAuthorized)
    );
    c.initialize(admin()).unwrap();
    assert_eq!(
        c.add_animal(donor(), "Cat".to_string(), "d".to_string(), 10, beneficiary()),
        Err(Error::NotAuthorized)
    );
    assert_eq!(c.initialize(donor()), Err(Error::NotAuthorized));
    // the first administrator still stands
    assert_eq!(
        c.add_animal(admin(), "Cat".to_string(), "d".to_string(), 10, beneficiary()),
        Ok(1)
    );
}

#[test]
fn approval_is_a_one_way_latch() {
    let mut c = funded_ledger();
    c.create_payment_request(1, beneficiary(), 100, "vet".to_string(), 17)
        .unwrap();
    c.approve_payment_request(admin(), 1).unwrap();
    assert_eq!(
        c.approve_payment_request(admin(), 1),
        Err(Error::PaymentRequestAlreadyProcessed)
    );
    c.process_payment(1).unwrap();
    assert_eq!(
        c.approve_payment_request(admin(), 1),
        Err(Error::PaymentRequestAlreadyProcessed)
    );
    assert_eq!(
        c.approve_payment_request(donor(), 1),
        Err(Error::NotAuthorized)
    );
}

#[test]
fn pending_request_cannot_be_settled() {
    let mut c = funded_ledger();
    c.create_payment_request(1, beneficiary(), 100, "vet".to_string(), 18)
        .unwrap();
    assert_eq!(
        c.process_payment(1),
        Err(Error::PaymentRequestAlreadyProcessed)
    );
    assert_eq!(c.get_animal(1).unwrap().total_raised, 500);
}

#[test]
fn settlement_rechecks_the_current_balance() {
    let mut c = funded_ledger();
    c.create_payment_request(1, beneficiary(), 300, "vet".to_string(), 19)
        .unwrap();
    c.create_payment_request(1, beneficiary(), 300, "food".to_string(), 20)
        .unwrap();
    c.approve_payment_request(admin(), 1).unwrap();
    c.approve_payment_request(admin(), 2).unwrap();
    c.process_payment(1).unwrap();
    assert_eq!(c.get_animal(1).unwrap().total_raised, 200);
    // the second request passed the advisory check at creation, but the
    // balance has moved since
    assert_eq!(c.process_payment(2), Err(Error::InsufficientFunds));
    assert_eq!(c.get_animal(1).unwrap().total_raised, 200);
}

#[test]
fn ids_grow_by_one_and_are_never_reused() {
    let mut c = funded_ledger();
    assert_eq!(
        c.add_animal(admin(), "Cat".to_string(), "d".to_string(), 10, beneficiary()),
        Ok(2)
    );
    // a failed creation advances nothing
    assert_eq!(
        c.add_animal(donor(), "Bird".to_string(), "d".to_string(), 10, beneficiary()),
        Err(Error::NotAuthorized)
    );
    assert_eq!(
        c.add_animal(admin(), "Bird".to_string(), "d".to_string(), 10, beneficiary()),
        Ok(3)
    );
    let all = c.get_all_animals();
    assert_eq!(all.len(), 3);
    for (i, a) in all.iter().enumerate() {
        assert_eq!(a.id as usize, i + 1);
    }
    assert_eq!(
        c.create_payment_request(1, beneficiary(), 1, "vet".to_string(), 21),
        Ok(1)
    );
    assert_eq!(
        c.create_payment_request(1, beneficiary(), 9999, "vet".to_string(), 21),
        Err(Error::InsufficientFunds)
    );
    assert_eq!(
        c.create_payment_request(1, beneficiary(), 2, "vet".to_string(), 21),
        Ok(2)
    );
}

#[test]
fn queries_filter_by_campaign_in_order() {
    let mut c = funded_ledger();
    c.add_animal(admin(), "Cat".to_string(), "d".to_string(), 10, beneficiary())
        .unwrap();
    c.donate(donor(), 2, 40, 22).unwrap();
    c.donate(Address { id: 9 }, 1, 60, 23).unwrap();
    let first = c.get_donations_for_animal(1);
    assert_eq!(first.len(), 2);
    assert_eq!(first[0].amount, 500);
    assert_eq!(first[0].donor, donor());
    assert_eq!(first[0].timestamp, 10);
    assert_eq!(first[1].amount, 60);
    assert_eq!(first[1].donor, Address { id: 9 });
    let second = c.get_donations_for_animal(2);
    assert_eq!(second.len(), 1);
    assert_eq!(second[0].amount, 40);
    assert_eq!(c.get_donations_for_animal(3).len(), 0);

    c.create_payment_request(2, beneficiary(), 30, "vet".to_string(), 24)
        .unwrap();
    c.create_payment_request(1, beneficiary(), 100, "food".to_string(), 25)
        .unwrap();
    let reqs = c.get_payment_requests_for_animal(1);
    assert_eq!(reqs.len(), 1);
    assert_eq!(reqs[0].id, 2);
    assert_eq!(reqs[0].amount, 100);
    assert_eq!(reqs[0].description, "food");
}

#[test]
fn stats_aggregate_all_campaigns() {
    let mut c = funded_ledger();
    c.add_animal(admin(), "Cat".to_string(), "d".to_string(), 10, beneficiary())
        .unwrap();
    c.donate(donor(), 2, 40, 26).unwrap();
    c.toggle_animal_status(admin(), 2).unwrap();
    let stats = c.get_stats();
    assert_eq!(stats.total_animals, 2);
    assert_eq!(stats.active_animals, 1);
    assert_eq!(stats.total_raised, 540);
    let empty = StreetAnimalsContract::new().get_stats();
    assert_eq!(empty.total_animals, 0);
    assert_eq!(empty.active_animals, 0);
    assert_eq!(empty.total_raised, 0);
}

#[test]
fn books_balance_across_a_busy_history() {
    let mut c = funded_ledger();
    c.donate(donor(), 1, 250, 30).unwrap();
    c.create_payment_request(1, beneficiary(), 300, "vet".to_string(), 31)
        .unwrap();
    c.create_payment_request(1, beneficiary(), 150, "food".to_string(), 32)
        .unwrap();
    c.approve_payment_request(admin(), 1).unwrap();
    c.approve_payment_request(admin(), 2).unwrap();
    c.process_payment(1).unwrap();
    c.process_payment(2).unwrap();
    let donated: i128 = c.get_donations_for_animal(1).iter().map(|d| d.amount).sum();
    let settled: i128 = c
        .get_payment_requests_for_animal(1)
        .iter()
        .filter(|r| r.is_paid)
        .map(|r| r.amount)
        .sum();
    let held = c.get_animal(1).unwrap().total_raised;
    assert_eq!(donated, 750);
    assert_eq!(settled, 450);
    assert_eq!(held, 300);
    assert_eq!(settled + held, donated);
}
