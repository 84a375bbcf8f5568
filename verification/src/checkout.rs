use vstd::prelude::*;

use crate::errors::CheckoutError;

verus! {

// ---------------------------------------------------------------------------
// Records
// ---------------------------------------------------------------------------

/// A book currently on loan: one row of the active-checkouts table.
#[derive(Clone, Copy, Debug, PartialEq, Eq, Structural)]
pub struct Checkout {
    pub checkout_id: u128,
    pub book_id: u128,
    pub checked_out_by: u128,
    pub checked_out_at: u64,
}

/// An immutable historical record of a closed loan: one row of the
/// append-only returned-checkouts table.
#[derive(Clone, Copy, Debug, PartialEq, Eq, Structural)]
pub struct ReturnedCheckout {
    pub checkout_id: u128,
    pub book_id: u128,
    pub checked_out_by: u128,
    pub checked_out_at: u64,
    pub returned_at: u64,
}

/// A request to open a loan. The caller supplies the timestamp, so the
/// orchestrator stays deterministic and testable.
#[derive(Clone, Copy, Debug, PartialEq, Eq, Structural)]
pub struct CreateCheckout {
    pub book_id: u128,
    pub checked_out_by: u128,
    pub checked_out_at: u64,
}

/// A request to close a loan. It must name the recorded checkout id and
/// borrower; a mismatch on either is rejected.
#[derive(Clone, Copy, Debug, PartialEq, Eq, Structural)]
pub struct UpdateReturned {
    pub checkout_id: u128,
    pub book_id: u128,
    pub returned_by: u128,
    pub returned_at: u64,
}

// ---------------------------------------------------------------------------
// The lending state and its mathematical view
// ---------------------------------------------------------------------------

/// The lending state: the set of known book ids (what the catalog join sees),
/// the active checkouts, and the return history.
///
/// This is the reference implementation of the store: in-memory, with every
/// transition verified. A database-backed implementation sits outside the
/// library and reuses the same verified decision functions.
pub struct LendingStore {
    books: Vec<u128>,
    checkouts: Vec<Checkout>,
    returned_checkouts: Vec<ReturnedCheckout>,
}

/// The mathematical value of a `LendingStore`: three sequences of rows.
#[verifier::ext_equal]
pub ghost struct LendingView {
    pub books: Seq<u128>,
    pub active: Seq<Checkout>,
    pub returned: Seq<ReturnedCheckout>,
}

impl View for LendingStore {
    type V = LendingView;

    closed spec fn view(&self) -> LendingView {
        LendingView {
            books: self.books@,
            active: self.checkouts@,
            returned: self.returned_checkouts@,
        }
    }
}

/// Some row of `rows` references this book.
pub open spec fn has_book(rows: Seq<Checkout>, book_id: u128) -> bool {
    exists|i: int| 0 <= i < rows.len() && rows[i].book_id == book_id
}

/// Some row of `rows` carries this checkout id.
pub open spec fn has_checkout_id(rows: Seq<Checkout>, checkout_id: u128) -> bool {
    exists|i: int| 0 <= i < rows.len() && rows[i].checkout_id == checkout_id
}

/// Some historical row of `rows` carries this checkout id.
pub open spec fn has_returned_id(rows: Seq<ReturnedCheckout>, checkout_id: u128) -> bool {
    exists|i: int| 0 <= i < rows.len() && rows[i].checkout_id == checkout_id
}

/// The referenced book exists in the catalog.
pub open spec fn book_known(s: LendingView, book_id: u128) -> bool {
    s.books.contains(book_id)
}

/// Some active checkout references this book.
pub open spec fn is_active_for_book(s: LendingView, book_id: u128) -> bool {
    has_book(s.active, book_id)
}

/// The index of the active checkout for this book (meaningful only when one
/// exists; under `wf` it is unique).
pub open spec fn active_index_for_book(s: LendingView, book_id: u128) -> int {
    choose|i: int| 0 <= i < s.active.len() && s.active[i].book_id == book_id
}

/// The active checkout row for this book.
pub open spec fn active_row_for_book(s: LendingView, book_id: u128) -> Checkout {
    s.active[active_index_for_book(s, book_id)]
}

/// The checkout id is carried by some active checkout.
pub open spec fn id_active(s: LendingView, checkout_id: u128) -> bool {
    has_checkout_id(s.active, checkout_id)
}

/// The checkout id is carried by some returned checkout.
pub open spec fn id_returned(s: LendingView, checkout_id: u128) -> bool {
    has_returned_id(s.returned, checkout_id)
}

/// The checkout id is in use, active or historical.
pub open spec fn id_used(s: LendingView, checkout_id: u128) -> bool {
    id_active(s, checkout_id) || id_returned(s, checkout_id)
}

/// Well-formedness of the lending state; every committed state satisfies it.
///
/// - checkout ids are unique among active checkouts;
/// - every book has at most one active checkout;
/// - checkout ids are unique among returned checkouts;
/// - a checkout id is never active and returned at once.
pub open spec fn wf(s: LendingView) -> bool {
    &&& (forall|i: int, j: int|
        0 <= i < s.active.len() && 0 <= j < s.active.len() && i != j ==> #[trigger] s.active[i].checkout_id
            != #[trigger] s.active[j].checkout_id)
    &&& (forall|i: int, j: int|
        0 <= i < s.active.len() && 0 <= j < s.active.len() && i != j ==> #[trigger] s.active[i].book_id
            != #[trigger] s.active[j].book_id)
    &&& (forall|i: int, j: int|
        0 <= i < s.returned.len() && 0 <= j < s.returned.len() && i != j
            ==> #[trigger] s.returned[i].checkout_id != #[trigger] s.returned[j].checkout_id)
    &&& (forall|i: int, j: int|
        0 <= i < s.active.len() && 0 <= j < s.returned.len() ==> #[trigger] s.active[i].checkout_id
            != #[trigger] s.returned[j].checkout_id)
}

/// In a well-formed state two active rows for the same book are the same row.
pub proof fn lemma_active_book_unique(s: LendingView, i: int, j: int)
    requires
        wf(s),
        0 <= i < s.active.len(),
        0 <= j < s.active.len(),
        s.active[i].book_id == s.active[j].book_id,
    ensures
        i == j,
{
}

// ---------------------------------------------------------------------------
// Classification (the precondition verifier)
// ---------------------------------------------------------------------------

/// What a read of the lending state says about one book.
#[derive(Clone, Copy, Debug, PartialEq, Eq, Structural)]
pub enum LoanState {
    /// No book with that id exists.
    BookNotFound,
    /// The book exists and no active checkout references it.
    Available,
    /// The book exists and has exactly one active checkout.
    OnLoan { checkout_id: u128, borrower_id: u128 },
}

/// The classification of a book in a given state.
pub open spec fn classify_spec(s: LendingView, book_id: u128) -> LoanState {
    if !book_known(s, book_id) {
        LoanState::BookNotFound
    } else if !is_active_for_book(s, book_id) {
        LoanState::Available
    } else {
        LoanState::OnLoan {
            checkout_id: active_row_for_book(s, book_id).checkout_id,
            borrower_id: active_row_for_book(s, book_id).checked_out_by,
        }
    }
}

// ---------------------------------------------------------------------------
// The two transitions, as mathematical functions
// ---------------------------------------------------------------------------

/// Why a checkout request is denied, or `None` when it must succeed.
///
/// The order of the tests mirrors the transaction: the book is looked up
/// first, then its loan state, and only then is the insert attempted, whose
/// only failure left is a duplicate checkout id (a write anomaly).
pub open spec fn create_denial(s: LendingView, book_id: u128, checkout_id: u128) -> Option<
    CheckoutError,
> {
    if !book_known(s, book_id) {
        Some(CheckoutError::EntityNotFound)
    } else if is_active_for_book(s, book_id) {
        Some(CheckoutError::AlreadyCheckedOut)
    } else if id_used(s, checkout_id) {
        Some(CheckoutError::WriteAnomaly)
    } else {
        None
    }
}

/// The active row a successful checkout inserts.
pub open spec fn created_row(event: CreateCheckout, checkout_id: u128) -> Checkout {
    Checkout {
        checkout_id,
        book_id: event.book_id,
        checked_out_by: event.checked_out_by,
        checked_out_at: event.checked_out_at,
    }
}

/// The state after a successful checkout: exactly one active row added,
/// nothing else touched.
pub open spec fn create_effect(s: LendingView, event: CreateCheckout, checkout_id: u128) -> LendingView {
    LendingView {
        books: s.books,
        active: s.active.push(created_row(event, checkout_id)),
        returned: s.returned,
    }
}

/// Why a return request is denied, or `None` when it must succeed.
pub open spec fn close_denial(s: LendingView, event: UpdateReturned) -> Option<CheckoutError> {
    match classify_spec(s, event.book_id) {
        LoanState::BookNotFound => Some(CheckoutError::EntityNotFound),
        LoanState::Available => Some(CheckoutError::NotCheckedOut),
        LoanState::OnLoan { checkout_id, borrower_id } => if checkout_id != event.checkout_id
            || borrower_id != event.returned_by {
            Some(CheckoutError::ReturnMismatch)
        } else {
            None
        },
    }
}

/// The historical row a return writes: the active row's fields plus the
/// supplied return timestamp.
pub open spec fn returned_row(row: Checkout, returned_at: u64) -> ReturnedCheckout {
    ReturnedCheckout {
        checkout_id: row.checkout_id,
        book_id: row.book_id,
        checked_out_by: row.checked_out_by,
        checked_out_at: row.checked_out_at,
        returned_at,
    }
}

/// The state after a successful return: the book's one active row moves,
/// atomically, into exactly one new historical row.
pub open spec fn close_effect(s: LendingView, event: UpdateReturned) -> LendingView {
    let i = active_index_for_book(s, event.book_id);
    LendingView {
        books: s.books,
        active: s.active.remove(i),
        returned: s.returned.push(returned_row(s.active[i], event.returned_at)),
    }
}

// ---------------------------------------------------------------------------
// The invariant is preserved by both transitions
// ---------------------------------------------------------------------------

/// A permitted checkout keeps the state well-formed: the new row's book had
/// no active loan and its checkout id was never used.
pub proof fn lemma_create_preserves_wf(s: LendingView, event: CreateCheckout, checkout_id: u128)
    requires
        wf(s),
        create_denial(s, event.book_id, checkout_id) is None,
    ensures
        wf(create_effect(s, event, checkout_id)),
{
    let s2 = create_effect(s, event, checkout_id);
    let n = s.active.len() as int;
    assert forall|i: int, j: int|
        0 <= i < s2.active.len() && 0 <= j < s2.active.len() && i != j implies s2.active[i].checkout_id
        != s2.active[j].checkout_id && s2.active[i].book_id != s2.active[j].book_id by {
        if i < n && j < n {
            assert(s2.active[i] == s.active[i]);
            assert(s2.active[j] == s.active[j]);
        } else if i == n {
            assert(s2.active[j] == s.active[j]);
            assert(!id_active(s, checkout_id));
            assert(!is_active_for_book(s, event.book_id));
        } else {
            assert(s2.active[i] == s.active[i]);
            assert(!id_active(s, checkout_id));
            assert(!is_active_for_book(s, event.book_id));
        }
    }
    assert forall|i: int, j: int|
        0 <= i < s2.active.len() && 0 <= j < s2.returned.len() implies s2.active[i].checkout_id
        != s2.returned[j].checkout_id by {
        if i < n {
            assert(s2.active[i] == s.active[i]);
        } else {
            assert(!id_returned(s, checkout_id));
        }
    }
}

/// A permitted return keeps the state well-formed: the moved row's checkout
/// id leaves the active table as it enters the history.
pub proof fn lemma_close_preserves_wf(s: LendingView, event: UpdateReturned)
    requires
        wf(s),
        close_denial(s, event) is None,
    ensures
        wf(close_effect(s, event)),
{
    let k = active_index_for_book(s, event.book_id);
    assert(is_active_for_book(s, event.book_id));
    assert(0 <= k < s.active.len());
    let s2 = close_effect(s, event);
    s.active.remove_ensures(k);
    let m = s.returned.len() as int;
    assert forall|i: int, j: int|
        0 <= i < s2.active.len() && 0 <= j < s2.active.len() && i != j implies s2.active[i].checkout_id
        != s2.active[j].checkout_id && s2.active[i].book_id != s2.active[j].book_id by {
        let i0 = if i < k { i } else { i + 1 };
        let j0 = if j < k { j } else { j + 1 };
        assert(s2.active[i] == s.active[i0]);
        assert(s2.active[j] == s.active[j0]);
    }
    assert forall|i: int, j: int|
        0 <= i < s2.returned.len() && 0 <= j < s2.returned.len() && i != j
        implies s2.returned[i].checkout_id != s2.returned[j].checkout_id by {
        if i == m {
            assert(s2.returned[j] == s.returned[j]);
            assert(s2.returned[i].checkout_id == s.active[k].checkout_id);
        } else if j == m {
            assert(s2.returned[i] == s.returned[i]);
            assert(s2.returned[j].checkout_id == s.active[k].checkout_id);
        } else {
            assert(s2.returned[i] == s.returned[i]);
            assert(s2.returned[j] == s.returned[j]);
        }
    }
    assert forall|i: int, j: int|
        0 <= i < s2.active.len() && 0 <= j < s2.returned.len() implies s2.active[i].checkout_id
        != s2.returned[j].checkout_id by {
        let i0 = if i < k { i } else { i + 1 };
        assert(s2.active[i] == s.active[i0]);
        if j == m {
            assert(s2.returned[j].checkout_id == s.active[k].checkout_id);
            assert(i0 != k);
        } else {
            assert(s2.returned[j] == s.returned[j]);
        }
    }
}

// ---------------------------------------------------------------------------
// Executable helpers over the tables
// ---------------------------------------------------------------------------

/// Linear scan for an id among plain values.
fn ids_contain(ids: &Vec<u128>, x: u128) -> (r: bool)
    ensures
        r == ids@.contains(x),
{
    let n = ids.len();
    let mut i: usize = 0;
    while i < n
        invariant
            n == ids@.len(),
            0 <= i <= n,
            forall|k: int| 0 <= k < i ==> ids@[k] != x,
        decreases n - i,
    {
        if ids[i] == x {
            assert(ids@.contains(x)) by {
                assert(ids@[i as int] == x);
            }
            return true;
        }
        i += 1;
    }
    false
}

/// First index of an active checkout for the book, if any.
fn find_active_for_book(rows: &Vec<Checkout>, book_id: u128) -> (r: Option<usize>)
    ensures
        match r {
            Some(i) => i < rows@.len() && rows@[i as int].book_id == book_id,
            None => !has_book(rows@, book_id),
        },
{
    let n = rows.len();
    let mut i: usize = 0;
    while i < n
        invariant
            n == rows@.len(),
            0 <= i <= n,
            forall|k: int| 0 <= k < i ==> rows@[k].book_id != book_id,
        decreases n - i,
    {
        if rows[i].book_id == book_id {
            return Some(i);
        }
        i += 1;
    }
    None
}

/// Whether any active checkout carries this checkout id.
fn active_id_present(rows: &Vec<Checkout>, checkout_id: u128) -> (r: bool)
    ensures
        r == has_checkout_id(rows@, checkout_id),
{
    let n = rows.len();
    let mut i: usize = 0;
    while i < n
        invariant
            n == rows@.len(),
            0 <= i <= n,
            forall|k: int| 0 <= k < i ==> rows@[k].checkout_id != checkout_id,
        decreases n - i,
    {
        if rows[i].checkout_id == checkout_id {
            return true;
        }
        i += 1;
    }
    false
}

/// Whether any returned checkout carries this checkout id.
fn returned_id_present(rows: &Vec<ReturnedCheckout>, checkout_id: u128) -> (r: bool)
    ensures
        r == has_returned_id(rows@, checkout_id),
{
    let n = rows.len();
    let mut i: usize = 0;
    while i < n
        invariant
            n == rows@.len(),
            0 <= i <= n,
            forall|k: int| 0 <= k < i ==> rows@[k].checkout_id != checkout_id,
        decreases n - i,
    {
        if rows[i].checkout_id == checkout_id {
            return true;
        }
        i += 1;
    }
    false
}

// ---------------------------------------------------------------------------
// The store itself
// ---------------------------------------------------------------------------

impl LendingStore {
    /// An empty lending state: no books, no loans, no history.
    pub fn new() -> (r: Self)
        ensures
            r@.books == Seq::<u128>::empty(),
            r@.active == Seq::<Checkout>::empty(),
            r@.returned == Seq::<ReturnedCheckout>::empty(),
            wf(r@),
    {
        LendingStore { books: Vec::new(), checkouts: Vec::new(), returned_checkouts: Vec::new() }
    }

    /// Register a book id with the catalog view. Lending rows are untouched,
    /// so the invariant is preserved.
    pub fn add_book(&mut self, book_id: u128)
        ensures
            final(self)@.books == old(self)@.books.push(book_id),
            final(self)@.active == old(self)@.active,
            final(self)@.returned == old(self)@.returned,
            wf(old(self)@) ==> wf(final(self)@),
    {
        self.books.push(book_id);
        proof {
            assert(self@.active == old(self)@.active);
            assert(self@.returned == old(self)@.returned);
            if wf(old(self)@) {
                assert(wf(self@));
            }
        }
    }
}

// ---------------------------------------------------------------------------
// The verifier over a fetched row
// ---------------------------------------------------------------------------

/// What one read of the store reports about a book: the row of a catalog
/// join against the active checkouts. `checkout_id` is the active loan's id,
/// if one exists; `user_id` its borrower, where the read selected one.
///
/// A database-backed store fetches this row inside its open transaction and
/// hands it to the prechecks below, so the decisions stay verified wherever
/// the rows live.
#[derive(Clone, Copy, Debug)]
pub struct CheckoutStateRow {
    pub book_id: u128,
    pub checkout_id: Option<u128>,
    pub user_id: Option<u128>,
}

/// The checkout verdict a fetched row dictates.
pub open spec fn create_verdict_of_row(row: Option<CheckoutStateRow>) -> Result<
    (),
    CheckoutError,
> {
    match row {
        None => Err(CheckoutError::EntityNotFound),
        Some(st) => match st.checkout_id {
            Some(_) => Err(CheckoutError::AlreadyCheckedOut),
            None => Ok(()),
        },
    }
}

/// The return verdict a fetched row dictates for a request: the recorded
/// checkout id and borrower must both match. A loan row that carries no
/// borrower cannot match any request.
pub open spec fn return_verdict_of_row(
    row: Option<CheckoutStateRow>,
    event: UpdateReturned,
) -> Result<(), CheckoutError> {
    match row {
        None => Err(CheckoutError::EntityNotFound),
        Some(st) => match st.checkout_id {
            None => Err(CheckoutError::NotCheckedOut),
            Some(c) => match st.user_id {
                Some(u) => if c != event.checkout_id || u != event.returned_by {
                    Err(CheckoutError::ReturnMismatch)
                } else {
                    Ok(())
                },
                None => Err(CheckoutError::ReturnMismatch),
            },
        },
    }
}

/// Decide whether a checkout may proceed, from the row its transaction read.
pub fn create_precheck(row: Option<CheckoutStateRow>) -> (r: Result<(), CheckoutError>)
    ensures
        r == create_verdict_of_row(row),
{
    match row {
        None => Err(CheckoutError::EntityNotFound),
        Some(st) => match st.checkout_id {
            Some(_) => Err(CheckoutError::AlreadyCheckedOut),
            None => Ok(()),
        },
    }
}

/// Decide whether a return may proceed, from the row its transaction read.
pub fn return_precheck(row: Option<CheckoutStateRow>, event: &UpdateReturned) -> (r: Result<
    (),
    CheckoutError,
>)
    ensures
        r == return_verdict_of_row(row, *event),
{
    match row {
        None => Err(CheckoutError::EntityNotFound),
        Some(st) => match st.checkout_id {
            None => Err(CheckoutError::NotCheckedOut),
            Some(c) => match st.user_id {
                Some(u) => if c != event.checkout_id || u != event.returned_by {
                    Err(CheckoutError::ReturnMismatch)
                } else {
                    Ok(())
                },
                None => Err(CheckoutError::ReturnMismatch),
            },
        },
    }
}

// ---------------------------------------------------------------------------
// Query projections, as mathematical functions
// ---------------------------------------------------------------------------

/// The active checkouts of one borrower, in table order.
pub open spec fn rows_of_borrower(rows: Seq<Checkout>, user_id: u128) -> Seq<Checkout> {
    rows.filter(|c: Checkout| c.checked_out_by == user_id)
}

/// The return history of one book, in table order.
pub open spec fn history_of_book(rows: Seq<ReturnedCheckout>, book_id: u128) -> Seq<
    ReturnedCheckout,
> {
    rows.filter(|c: ReturnedCheckout| c.book_id == book_id)
}

// ---------------------------------------------------------------------------
// The checkout repository: the transaction orchestrator over the store
// ---------------------------------------------------------------------------

/// The checkout/return transaction orchestrator, backed by the verified
/// in-memory store.
///
/// Each mutating method is one transaction: it classifies the current state,
/// then mutates, and either both effects of a return happen or neither.
/// Concurrent callers are serialized by `&mut` exclusivity, which plays the
/// role of the store's serializable isolation: the effective order of
/// conflicting operations is the order of the calls.
pub struct CheckouRepositoryImpl {
    db: LendingStore,
}

impl View for CheckouRepositoryImpl {
    type V = LendingView;

    closed spec fn view(&self) -> LendingView {
        self.db@
    }
}

impl CheckouRepositoryImpl {
    /// Hand the orchestrator its store.
    pub fn new(db: LendingStore) -> (r: Self)
        ensures
            r@ == db@,
    {
        CheckouRepositoryImpl { db }
    }

    /// The precondition verifier: a pure read that classifies one book.
    pub fn classify(&self, book_id: u128) -> (r: LoanState)
        requires
            wf(self@),
        ensures
            r == classify_spec(self@, book_id),
    {
        if !ids_contain(&self.db.books, book_id) {
            return LoanState::BookNotFound;
        }
        match find_active_for_book(&self.db.checkouts, book_id) {
            None => LoanState::Available,
            Some(i) => {
                let row = self.db.checkouts[i];
                proof {
                    assert(is_active_for_book(self@, book_id));
                    lemma_active_book_unique(
                        self@,
                        i as int,
                        active_index_for_book(self@, book_id),
                    );
                }
                LoanState::OnLoan { checkout_id: row.checkout_id, borrower_id: row.checked_out_by }
            },
        }
    }

    /// Open a loan under a caller-supplied checkout id.
    ///
    /// Deterministic in all its inputs: the contract says exactly which
    /// error comes back on which state, and what the state becomes on
    /// success.
    pub fn create_with_id(&mut self, event: CreateCheckout, checkout_id: u128) -> (r: Result<
        u128,
        CheckoutError,
    >)
        requires
            wf(old(self)@),
        ensures
            wf(final(self)@),
            (match create_denial(old(self)@, event.book_id, checkout_id) {
                Some(e) => r == Result::<u128, CheckoutError>::Err(e) && final(self)@ == old(self)@,
                None => r == Result::<u128, CheckoutError>::Ok(checkout_id) && final(self)@
                    == create_effect(old(self)@, event, checkout_id),
            }),
    {
        if !ids_contain(&self.db.books, event.book_id) {
            return Err(CheckoutError::EntityNotFound);
        }
        if let Some(i) = find_active_for_book(&self.db.checkouts, event.book_id) {
            proof {
                assert(self@.active[i as int].book_id == event.book_id);
            }
            return Err(CheckoutError::AlreadyCheckedOut);
        }
        if active_id_present(&self.db.checkouts, checkout_id) {
            proof {
                assert(id_active(self@, checkout_id));
            }
            return Err(CheckoutError::WriteAnomaly);
        }
        if returned_id_present(&self.db.returned_checkouts, checkout_id) {
            proof {
                assert(id_returned(self@, checkout_id));
            }
            return Err(CheckoutError::WriteAnomaly);
        }
        let ghost s0 = self@;
        self.db.checkouts.push(
            Checkout {
                checkout_id,
                book_id: event.book_id,
                checked_out_by: event.checked_out_by,
                checked_out_at: event.checked_out_at,
            },
        );
        proof {
            lemma_create_preserves_wf(s0, event, checkout_id);
            assert(self@ == create_effect(s0, event, checkout_id));
        }
        Ok(checkout_id)
    }

    /// Open a loan: generate a fresh checkout id, verify, insert, all as one
    /// transaction.
    ///
    /// The id is drawn at random, so success cannot be promised outright:
    /// if the drawn id is already in use the insert would touch no row, and
    /// the transaction aborts with `WriteAnomaly` (treated as having
    /// probability zero). Every other outcome is pinned down exactly.
    pub fn create(&mut self, event: CreateCheckout) -> (r: Result<u128, CheckoutError>)
        requires
            wf(old(self)@),
        ensures
            wf(final(self)@),
            !book_known(old(self)@, event.book_id) ==> r == Result::<u128, CheckoutError>::Err(
                CheckoutError::EntityNotFound,
            ) && final(self)@ == old(self)@,
            book_known(old(self)@, event.book_id) && is_active_for_book(old(self)@, event.book_id)
                ==> r == Result::<u128, CheckoutError>::Err(CheckoutError::AlreadyCheckedOut)
                && final(self)@ == old(self)@,
            book_known(old(self)@, event.book_id) && !is_active_for_book(old(self)@, event.book_id)
                ==> (match r {
                Ok(id) => !id_used(old(self)@, id) && final(self)@ == create_effect(
                    old(self)@,
                    event,
                    id,
                ),
                Err(e) => e == CheckoutError::WriteAnomaly && final(self)@ == old(self)@,
            }),
    {
        let checkout_id = crate::ids::fresh_id();
        self.create_with_id(event, checkout_id)
    }

    /// Close a loan: verify that the book's active checkout matches the
    /// request, then move its row into the history, all as one transaction.
    ///
    /// Deterministic: the contract says exactly which error comes back on
    /// which state, and that on success exactly one active row is removed
    /// and exactly one historical row is added.
    pub fn update_returned(&mut self, event: UpdateReturned) -> (r: Result<(), CheckoutError>)
        requires
            wf(old(self)@),
        ensures
            wf(final(self)@),
            (match close_denial(old(self)@, event) {
                Some(e) => r == Result::<(), CheckoutError>::Err(e) && final(self)@ == old(self)@,
                None => r == Result::<(), CheckoutError>::Ok(()) && final(self)@ == close_effect(
                    old(self)@,
                    event,
                ),
            }),
    {
        if !ids_contain(&self.db.books, event.book_id) {
            return Err(CheckoutError::EntityNotFound);
        }
        match find_active_for_book(&self.db.checkouts, event.book_id) {
            None => Err(CheckoutError::NotCheckedOut),
            Some(i) => {
                let row = self.db.checkouts[i];
                proof {
                    assert(is_active_for_book(self@, event.book_id));
                    lemma_active_book_unique(
                        self@,
                        i as int,
                        active_index_for_book(self@, event.book_id),
                    );
                }
                if row.checkout_id != event.checkout_id || row.checked_out_by != event.returned_by {
                    return Err(CheckoutError::ReturnMismatch);
                }
                let ghost s0 = self@;
                self.db.returned_checkouts.push(
                    ReturnedCheckout {
                        checkout_id: row.checkout_id,
                        book_id: row.book_id,
                        checked_out_by: row.checked_out_by,
                        checked_out_at: row.checked_out_at,
                        returned_at: event.returned_at,
                    },
                );
                self.db.checkouts.remove(i);
                proof {
                    lemma_close_preserves_wf(s0, event);
                    assert(self@ == close_effect(s0, event));
                }
                Ok(())
            },
        }
    }

    /// All active checkouts, newest first.
    pub fn find_unreturned_all(&self) -> (r: Vec<Checkout>)
        ensures
            r@.len() == self@.active.len(),
            forall|i: int|
                0 <= i < r@.len() ==> r@[i] == self@.active[self@.active.len() - 1 - i],
    {
        let rows = &self.db.checkouts;
        let mut out: Vec<Checkout> = Vec::new();
        let mut i: usize = rows.len();
        while i > 0
            invariant
                i <= rows@.len(),
                out@.len() == rows@.len() - i,
                forall|k: int| 0 <= k < out@.len() ==> out@[k] == rows@[rows@.len() - 1 - k],
            decreases i,
        {
            i -= 1;
            out.push(rows[i]);
        }
        out
    }

    /// The active checkouts of one borrower, in table order.
    pub fn find_unreturned_by_user_id(&self, user_id: u128) -> (r: Vec<Checkout>)
        ensures
            r@ == rows_of_borrower(self@.active, user_id),
    {
        let rows = &self.db.checkouts;
        let n = rows.len();
        let mut out: Vec<Checkout> = Vec::new();
        let mut i: usize = 0;
        while i < n
            invariant
                n == rows@.len(),
                0 <= i <= n,
                out@ == rows_of_borrower(rows@.subrange(0, i as int), user_id),
            decreases n - i,
        {
            proof {
                rows@.subrange(0, i as int).lemma_filter_push(
                    rows@[i as int],
                    (|c: Checkout| c.checked_out_by == user_id),
                );
                assert(rows@.subrange(0, i as int + 1) =~= rows@.subrange(0, i as int).push(
                    rows@[i as int],
                ));
            }
            if rows[i].checked_out_by == user_id {
                out.push(rows[i]);
            }
            i += 1;
        }
        proof {
            assert(rows@.subrange(0, n as int) =~= rows@);
        }
        out
    }

    /// The return history of one book, in table order.
    pub fn find_history_by_book_id(&self, book_id: u128) -> (r: Vec<ReturnedCheckout>)
        ensures
            r@ == history_of_book(self@.returned, book_id),
    {
        let rows = &self.db.returned_checkouts;
        let n = rows.len();
        let mut out: Vec<ReturnedCheckout> = Vec::new();
        let mut i: usize = 0;
        while i < n
            invariant
                n == rows@.len(),
                0 <= i <= n,
                out@ == history_of_book(rows@.subrange(0, i as int), book_id),
            decreases n - i,
        {
            proof {
                rows@.subrange(0, i as int).lemma_filter_push(
                    rows@[i as int],
                    (|c: ReturnedCheckout| c.book_id == book_id),
                );
                assert(rows@.subrange(0, i as int + 1) =~= rows@.subrange(0, i as int).push(
                    rows@[i as int],
                ));
            }
            if rows[i].book_id == book_id {
                out.push(rows[i]);
            }
            i += 1;
        }
        proof {
            assert(rows@.subrange(0, n as int) =~= rows@);
        }
        out
    }
}

} // verus!
