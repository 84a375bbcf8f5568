use vstd::prelude::*;

use crate::checkout::active_index_for_book;
use crate::checkout::active_row_for_book;
use crate::checkout::book_known;
use crate::checkout::classify_spec;
use crate::checkout::close_denial;
use crate::checkout::close_effect;
use crate::checkout::create_denial;
use crate::checkout::create_effect;
use crate::checkout::id_active;
use crate::checkout::id_returned;
use crate::checkout::id_used;
use crate::checkout::is_active_for_book;
use crate::checkout::returned_row;
use crate::checkout::wf;
use crate::checkout::CreateCheckout;
use crate::checkout::LendingView;
use crate::checkout::LoanState;
use crate::checkout::ReturnedCheckout;
use crate::checkout::UpdateReturned;
use crate::errors::CheckoutError;

verus! {

/// One requested transaction against the store: a checkout under the id it
/// drew, or a return.
pub ghost enum StoreOp {
    Checkout { event: CreateCheckout, checkout_id: u128 },
    Close { request: UpdateReturned },
}

/// What one transaction commits: the permitted effect, or — when the
/// request is denied — nothing at all (a full rollback).
pub open spec fn step(s: LendingView, op: StoreOp) -> LendingView {
    match op {
        StoreOp::Checkout { event, checkout_id } => if create_denial(
            s,
            event.book_id,
            checkout_id,
        ) is None {
            create_effect(s, event, checkout_id)
        } else {
            s
        },
        StoreOp::Close { request } => if close_denial(s, request) is None {
            close_effect(s, request)
        } else {
            s
        },
    }
}

/// The state after a whole sequence of transactions, committed in the
/// store's serialization order.
pub open spec fn run(s: LendingView, ops: Seq<StoreOp>) -> LendingView
    decreases ops.len(),
{
    if ops.len() == 0 {
        s
    } else {
        run(step(s, ops[0]), ops.subrange(1, ops.len() as int))
    }
}

/// After any sequence of checkout and return transactions settles, the
/// state is still well-formed: every book keeps at most one active
/// checkout, and every checkout id sits in at most one of the two tables.
pub proof fn lemma_wf_after_any_run(s: LendingView, ops: Seq<StoreOp>)
    requires
        wf(s),
    ensures
        wf(run(s, ops)),
    decreases ops.len(),
{
    if ops.len() > 0 {
        let s1 = step(s, ops[0]);
        match ops[0] {
            StoreOp::Checkout { event, checkout_id } => {
                if create_denial(s, event.book_id, checkout_id) is None {
                    crate::checkout::lemma_create_preserves_wf(s, event, checkout_id);
                }
            },
            StoreOp::Close { request } => {
                if close_denial(s, request) is None {
                    crate::checkout::lemma_close_preserves_wf(s, request);
                }
            },
        }
        lemma_wf_after_any_run(s1, ops.subrange(1, ops.len() as int));
    }
}

/// Once a checkout id is in use it stays in use through any sequence of
/// transactions: together with well-formedness (never in both tables), a
/// created checkout id sits in exactly one of the two tables ever after.
pub proof fn lemma_ids_survive_any_run(s: LendingView, ops: Seq<StoreOp>)
    requires
        wf(s),
    ensures
        forall|id: u128| id_used(s, id) ==> id_used(run(s, ops), id),
    decreases ops.len(),
{
    if ops.len() > 0 {
        let s1 = step(s, ops[0]);
        match ops[0] {
            StoreOp::Checkout { event, checkout_id } => {
                if create_denial(s, event.book_id, checkout_id) is None {
                    lemma_create_registers_id(s, event, checkout_id);
                    crate::checkout::lemma_create_preserves_wf(s, event, checkout_id);
                }
            },
            StoreOp::Close { request } => {
                if close_denial(s, request) is None {
                    lemma_close_moves_id(s, request);
                    crate::checkout::lemma_close_preserves_wf(s, request);
                }
            },
        }
        lemma_ids_survive_any_run(s1, ops.subrange(1, ops.len() as int));
    }
}

/// The return request that matches a checkout exactly: same checkout id,
/// same book, same borrower.
pub open spec fn matching_return(
    event: CreateCheckout,
    checkout_id: u128,
    returned_at: u64,
) -> UpdateReturned {
    UpdateReturned {
        checkout_id,
        book_id: event.book_id,
        returned_by: event.checked_out_by,
        returned_at,
    }
}

/// A permitted checkout registers its id, and loses no id that was in use:
/// once created, a checkout id never leaves the pair of tables.
pub proof fn lemma_create_registers_id(s: LendingView, event: CreateCheckout, checkout_id: u128)
    requires
        wf(s),
        create_denial(s, event.book_id, checkout_id) is None,
    ensures
        id_active(create_effect(s, event, checkout_id), checkout_id),
        forall|id: u128| id_used(s, id) ==> id_used(create_effect(s, event, checkout_id), id),
{
    let s2 = create_effect(s, event, checkout_id);
    let n = s.active.len() as int;
    assert(s2.active[n].checkout_id == checkout_id);
    assert forall|id: u128| id_used(s, id) implies id_used(s2, id) by {
        if id_active(s, id) {
            let i = choose|i: int| 0 <= i < s.active.len() && s.active[i].checkout_id == id;
            assert(s2.active[i].checkout_id == id);
        }
    }
}

/// A permitted return moves the named checkout id out of the active table
/// and into the history, atomically, and loses no other id.
pub proof fn lemma_close_moves_id(s: LendingView, event: UpdateReturned)
    requires
        wf(s),
        close_denial(s, event) is None,
    ensures
        !id_active(close_effect(s, event), event.checkout_id),
        id_returned(close_effect(s, event), event.checkout_id),
        forall|id: u128| id_used(s, id) ==> id_used(close_effect(s, event), id),
{
    let s2 = close_effect(s, event);
    let k = active_index_for_book(s, event.book_id);
    assert(0 <= k < s.active.len());
    assert(s.active[k].checkout_id == event.checkout_id);
    s.active.remove_ensures(k);
    let m = s.returned.len() as int;
    assert(s2.returned[m].checkout_id == event.checkout_id);
    assert forall|i: int|
        0 <= i < s2.active.len() implies s2.active[i].checkout_id != event.checkout_id by {
        let i0 = if i < k {
            i
        } else {
            i + 1
        };
        assert(s2.active[i] == s.active[i0]);
    }
    assert forall|id: u128| id_used(s, id) implies id_used(s2, id) by {
        if id_active(s, id) {
            let i = choose|i: int| 0 <= i < s.active.len() && s.active[i].checkout_id == id;
            if i == k {
                assert(s2.returned[m].checkout_id == id);
            } else if i < k {
                assert(s2.active[i].checkout_id == id);
            } else {
                assert(s2.active[i - 1].checkout_id == id);
            }
        } else {
            let j = choose|j: int| 0 <= j < s.returned.len() && s.returned[j].checkout_id == id;
            assert(s2.returned[j].checkout_id == id);
        }
    }
}

/// Checking out the same book twice in a row is rejected: whatever the
/// second request's borrower, timestamp or drawn id, it is denied with
/// `AlreadyCheckedOut`, and (by the orchestrator's contract) denial leaves
/// the state unchanged. In particular two checkouts of one book never both
/// succeed, in whichever order the store serializes them.
pub proof fn lemma_repeat_create_rejected(
    s: LendingView,
    event: CreateCheckout,
    checkout_id: u128,
    second: CreateCheckout,
    second_id: u128,
)
    requires
        wf(s),
        create_denial(s, event.book_id, checkout_id) is None,
        second.book_id == event.book_id,
    ensures
        create_denial(create_effect(s, event, checkout_id), second.book_id, second_id) == Some(
            CheckoutError::AlreadyCheckedOut,
        ),
{
    let s2 = create_effect(s, event, checkout_id);
    let n = s.active.len() as int;
    assert(s2.active[n].book_id == second.book_id);
    assert(is_active_for_book(s2, second.book_id));
}

/// A return naming the right checkout id but the wrong borrower is denied
/// with `ReturnMismatch`; by the orchestrator's contract the denial leaves
/// the active row untouched.
pub proof fn lemma_mismatched_return_rejected(s: LendingView, event: UpdateReturned)
    requires
        wf(s),
        book_known(s, event.book_id),
        is_active_for_book(s, event.book_id),
        active_row_for_book(s, event.book_id).checkout_id == event.checkout_id,
        active_row_for_book(s, event.book_id).checked_out_by != event.returned_by,
    ensures
        close_denial(s, event) == Some(CheckoutError::ReturnMismatch),
{
    assert(classify_spec(s, event.book_id) == LoanState::OnLoan {
        checkout_id: active_row_for_book(s, event.book_id).checkout_id,
        borrower_id: active_row_for_book(s, event.book_id).checked_out_by,
    });
}

/// Round trip: a permitted checkout followed by the matching return is
/// permitted, leaves no active checkout for the book, and appends to the
/// history exactly one row carrying the original checkout timestamp and the
/// supplied return timestamp.
pub proof fn lemma_round_trip(
    s: LendingView,
    event: CreateCheckout,
    checkout_id: u128,
    returned_at: u64,
)
    requires
        wf(s),
        create_denial(s, event.book_id, checkout_id) is None,
    ensures
        close_denial(
            create_effect(s, event, checkout_id),
            matching_return(event, checkout_id, returned_at),
        ) is None,
        close_effect(
            create_effect(s, event, checkout_id),
            matching_return(event, checkout_id, returned_at),
        ).active == s.active,
        close_effect(
            create_effect(s, event, checkout_id),
            matching_return(event, checkout_id, returned_at),
        ).returned == s.returned.push(
            ReturnedCheckout {
                checkout_id,
                book_id: event.book_id,
                checked_out_by: event.checked_out_by,
                checked_out_at: event.checked_out_at,
                returned_at,
            },
        ),
        !is_active_for_book(
            close_effect(
                create_effect(s, event, checkout_id),
                matching_return(event, checkout_id, returned_at),
            ),
            event.book_id,
        ),
{
    let ret = matching_return(event, checkout_id, returned_at);
    let s2 = create_effect(s, event, checkout_id);
    let n = s.active.len() as int;
    assert(s2.active[n].book_id == event.book_id);
    assert(is_active_for_book(s2, event.book_id));
    let k = active_index_for_book(s2, event.book_id);
    assert(0 <= k < s2.active.len() && s2.active[k].book_id == event.book_id);
    if k < n {
        assert(s.active[k].book_id == event.book_id);
        assert(is_active_for_book(s, event.book_id));
        assert(false);
    }
    assert(k == n);
    assert(active_row_for_book(s2, event.book_id) == s2.active[n]);
    assert(classify_spec(s2, event.book_id) == LoanState::OnLoan {
        checkout_id,
        borrower_id: event.checked_out_by,
    });
    assert(close_denial(s2, ret) is None);
    let s3 = close_effect(s2, ret);
    assert(s3.active =~= s.active);
    assert(s3.returned == s2.returned.push(returned_row(s2.active[n], returned_at)));
    assert(returned_row(s2.active[n], returned_at) == ReturnedCheckout {
        checkout_id,
        book_id: event.book_id,
        checked_out_by: event.checked_out_by,
        checked_out_at: event.checked_out_at,
        returned_at,
    });
    assert(!is_active_for_book(s, event.book_id));
}

} // verus!
