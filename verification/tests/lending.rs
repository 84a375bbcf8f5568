use book_lending::CheckouRepositoryImpl;
use book_lending::CheckoutError;
use book_lending::CheckoutStateRow;
use book_lending::CreateCheckout;
use book_lending::LendingStore;
use book_lending::LoanState;
use book_lending::UpdateReturned;

fn store_with_books(books: &[u128]) -> CheckouRepositoryImpl {
    let mut db = LendingStore::new();
    for &b in books {
        db.add_book(b);
    }
    CheckouRepositoryImpl::new(db)
}

fn create_event(book_id: u128, borrower: u128, at: u64) -> CreateCheckout {
    CreateCheckout { book_id, checked_out_by: borrower, checked_out_at: at }
}

#[test]
fn create_on_unknown_book_is_entity_not_found() {
    let mut repo = store_with_books(&[7]);
    let r = repo.create(create_event(99, 1, 10));
    assert_eq!(r, Err(CheckoutError::EntityNotFound));
    assert_eq!(repo.find_unreturned_all().len(), 0);
}

#[test]
fn second_create_for_same_book_is_rejected() {
    let mut repo = store_with_books(&[7]);
    let first = repo.create(create_event(7, 1, 10));
    assert!(first.is_ok());
    let second = repo.create(create_event(7, 2, 11));
    assert_eq!(second, Err(CheckoutError::AlreadyCheckedOut));
    // No second row was created.
    assert_eq!(repo.find_unreturned_all().len(), 1);
}

#[test]
fn concurrent_creates_serialize_to_one_winner() {
    // Two workers race to check out book 5; the store serializes them.
    // Whichever commits first wins; the other is denied and no second row
    // appears, in either order.
    let mut repo = store_with_books(&[5]);
    let from_worker_a = repo.create(create_event(5, 101, 50));
    let from_worker_b = repo.create(create_event(5, 102, 50));
    assert!(from_worker_a.is_ok());
    assert_eq!(from_worker_b, Err(CheckoutError::AlreadyCheckedOut));
    let active = repo.find_unreturned_all();
    assert_eq!(active.len(), 1);
    assert_eq!(active[0].checked_out_by, 101);
}

#[test]
fn return_with_wrong_borrower_is_mismatch() {
    let mut repo = store_with_books(&[7]);
    let id = repo.create(create_event(7, 10, 100)).unwrap();
    let r = repo.update_returned(UpdateReturned {
        checkout_id: id,
        book_id: 7,
        returned_by: 11,
        returned_at: 200,
    });
    assert_eq!(r, Err(CheckoutError::ReturnMismatch));
    // The active row is untouched.
    let active = repo.find_unreturned_all();
    assert_eq!(active.len(), 1);
    assert_eq!(active[0].checkout_id, id);
    assert_eq!(active[0].checked_out_by, 10);
    assert_eq!(active[0].checked_out_at, 100);
}

#[test]
fn return_with_wrong_checkout_id_is_mismatch() {
    let mut repo = store_with_books(&[7]);
    let id = repo.create(create_event(7, 10, 100)).unwrap();
    let r = repo.update_returned(UpdateReturned {
        checkout_id: id.wrapping_add(1),
        book_id: 7,
        returned_by: 10,
        returned_at: 200,
    });
    assert_eq!(r, Err(CheckoutError::ReturnMismatch));
    assert_eq!(repo.find_unreturned_all().len(), 1);
}

#[test]
fn round_trip_moves_the_row_into_history() {
    let mut repo = store_with_books(&[5]);
    let id = repo.create(create_event(5, 9, 100)).unwrap();
    let r = repo.update_returned(UpdateReturned {
        checkout_id: id,
        book_id: 5,
        returned_by: 9,
        returned_at: 200,
    });
    assert_eq!(r, Ok(()));
    assert_eq!(repo.find_unreturned_all().len(), 0);
    let history = repo.find_history_by_book_id(5);
    assert_eq!(history.len(), 1);
    assert_eq!(history[0].checkout_id, id);
    assert_eq!(history[0].book_id, 5);
    assert_eq!(history[0].checked_out_by, 9);
    assert_eq!(history[0].checked_out_at, 100);
    assert_eq!(history[0].returned_at, 200);
}

#[test]
fn return_on_book_without_loan_is_not_checked_out() {
    let mut repo = store_with_books(&[7]);
    let r = repo.update_returned(UpdateReturned {
        checkout_id: 1,
        book_id: 7,
        returned_by: 1,
        returned_at: 10,
    });
    assert_eq!(r, Err(CheckoutError::NotCheckedOut));
}

#[test]
fn return_on_unknown_book_is_entity_not_found() {
    let mut repo = store_with_books(&[7]);
    let r = repo.update_returned(UpdateReturned {
        checkout_id: 1,
        book_id: 99,
        returned_by: 1,
        returned_at: 10,
    });
    assert_eq!(r, Err(CheckoutError::EntityNotFound));
}

#[test]
fn duplicate_checkout_id_is_a_write_anomaly() {
    let mut repo = store_with_books(&[1, 2]);
    assert_eq!(repo.create_with_id(create_event(1, 10, 5), 42), Ok(42));
    let r = repo.create_with_id(create_event(2, 11, 6), 42);
    assert_eq!(r, Err(CheckoutError::WriteAnomaly));
    assert_eq!(repo.find_unreturned_all().len(), 1);
}

#[test]
fn returned_checkout_id_stays_reserved() {
    // Once an id sits in the history it may never come back as a fresh one.
    let mut repo = store_with_books(&[1]);
    assert_eq!(repo.create_with_id(create_event(1, 10, 5), 42), Ok(42));
    let r = repo.update_returned(UpdateReturned {
        checkout_id: 42,
        book_id: 1,
        returned_by: 10,
        returned_at: 6,
    });
    assert_eq!(r, Ok(()));
    let again = repo.create_with_id(create_event(1, 11, 7), 42);
    assert_eq!(again, Err(CheckoutError::WriteAnomaly));
}

#[test]
fn book_is_available_again_after_return() {
    let mut repo = store_with_books(&[3]);
    let id = repo.create(create_event(3, 1, 10)).unwrap();
    repo.update_returned(UpdateReturned {
        checkout_id: id,
        book_id: 3,
        returned_by: 1,
        returned_at: 20,
    })
    .unwrap();
    let second = repo.create(create_event(3, 2, 30)).unwrap();
    assert_ne!(second, id);
    let active = repo.find_unreturned_all();
    assert_eq!(active.len(), 1);
    assert_eq!(active[0].checked_out_by, 2);
}

#[test]
fn classify_reports_the_three_states() {
    let mut repo = store_with_books(&[4]);
    assert_eq!(repo.classify(9), LoanState::BookNotFound);
    assert_eq!(repo.classify(4), LoanState::Available);
    let id = repo.create(create_event(4, 77, 1)).unwrap();
    assert_eq!(repo.classify(4), LoanState::OnLoan { checkout_id: id, borrower_id: 77 });
}

#[test]
fn listings_filter_and_order() {
    let mut repo = store_with_books(&[1, 2, 3]);
    let a = repo.create(create_event(1, 10, 100)).unwrap();
    let b = repo.create(create_event(2, 20, 200)).unwrap();
    let c = repo.create(create_event(3, 10, 300)).unwrap();

    // All active loans, newest first.
    let all = repo.find_unreturned_all();
    assert_eq!(all.len(), 3);
    assert_eq!(all[0].checkout_id, c);
    assert_eq!(all[1].checkout_id, b);
    assert_eq!(all[2].checkout_id, a);

    // Only borrower 10's loans, in table order.
    let of_ten = repo.find_unreturned_by_user_id(10);
    assert_eq!(of_ten.len(), 2);
    assert_eq!(of_ten[0].checkout_id, a);
    assert_eq!(of_ten[1].checkout_id, c);
    assert_eq!(repo.find_unreturned_by_user_id(99).len(), 0);
}

#[test]
fn history_accumulates_per_book() {
    let mut repo = store_with_books(&[1]);
    for round in 0..3u64 {
        let id = repo.create(create_event(1, 10 + round as u128, round * 10)).unwrap();
        repo.update_returned(UpdateReturned {
            checkout_id: id,
            book_id: 1,
            returned_by: 10 + round as u128,
            returned_at: round * 10 + 5,
        })
        .unwrap();
    }
    let history = repo.find_history_by_book_id(1);
    assert_eq!(history.len(), 3);
    assert_eq!(history[0].returned_at, 5);
    assert_eq!(history[1].returned_at, 15);
    assert_eq!(history[2].returned_at, 25);
    assert_eq!(repo.find_history_by_book_id(2).len(), 0);
}

#[test]
fn create_precheck_follows_the_row() {
    assert_eq!(
        book_lending::create_precheck(None),
        Err(CheckoutError::EntityNotFound)
    );
    let on_loan = CheckoutStateRow { book_id: 1, checkout_id: Some(5), user_id: None };
    assert_eq!(
        book_lending::create_precheck(Some(on_loan)),
        Err(CheckoutError::AlreadyCheckedOut)
    );
    let free = CheckoutStateRow { book_id: 1, checkout_id: None, user_id: None };
    assert_eq!(book_lending::create_precheck(Some(free)), Ok(()));
}

#[test]
fn return_precheck_follows_the_row_and_request() {
    let event = UpdateReturned { checkout_id: 5, book_id: 1, returned_by: 9, returned_at: 10 };
    assert_eq!(
        book_lending::return_precheck(None, &event),
        Err(CheckoutError::EntityNotFound)
    );
    let free = CheckoutStateRow { book_id: 1, checkout_id: None, user_id: None };
    assert_eq!(
        book_lending::return_precheck(Some(free), &event),
        Err(CheckoutError::NotCheckedOut)
    );
    let wrong_user = CheckoutStateRow { book_id: 1, checkout_id: Some(5), user_id: Some(8) };
    assert_eq!(
        book_lending::return_precheck(Some(wrong_user), &event),
        Err(CheckoutError::ReturnMismatch)
    );
    let wrong_id = CheckoutStateRow { book_id: 1, checkout_id: Some(6), user_id: Some(9) };
    assert_eq!(
        book_lending::return_precheck(Some(wrong_id), &event),
        Err(CheckoutError::ReturnMismatch)
    );
    let no_user = CheckoutStateRow { book_id: 1, checkout_id: Some(5), user_id: None };
    assert_eq!(
        book_lending::return_precheck(Some(no_user), &event),
        Err(CheckoutError::ReturnMismatch)
    );
    let matching = CheckoutStateRow { book_id: 1, checkout_id: Some(5), user_id: Some(9) };
    assert_eq!(book_lending::return_precheck(Some(matching), &event), Ok(()));
}
