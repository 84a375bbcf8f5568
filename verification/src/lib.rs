//! Verified core of a book-lending service.
//!
//! A book may be on loan to at most one borrower at a time; a loan may only
//! be closed by a request that names the recorded checkout and borrower.
//! The lending state and the transactional checkout/return decisions are
//! modelled and proved here; database and HTTP plumbing live outside the
//! library and call into it with plain values.

mod auth;
mod book;
mod checkout;
mod doubles;
mod env;
mod errors;
mod ids;
pub mod laws;
mod retry;

pub use auth::AccessToken;
pub use auth::AuthrizedUser;
pub use auth::Role;
pub use auth::User;
pub use book::Book;
pub use book::BookOwner;
pub use book::BookRespositoryImpl;
pub use book::BookRow;
pub use book::CreateBook;
pub use book::PaginatedBookRow;
pub use checkout::Checkout;
pub use checkout::CheckouRepositoryImpl;
pub use checkout::create_precheck;
pub use checkout::return_precheck;
pub use checkout::CheckoutStateRow;
pub use checkout::LendingStore;
pub use doubles::example_func;
pub use doubles::example_trait;
pub use env::which;
pub use env::Environment;
pub use retry::RetryPolicy;
pub use retry::DEFAULT_RETRY_BUDGET;
pub use checkout::CreateCheckout;
pub use checkout::LoanState;
pub use checkout::ReturnedCheckout;
pub use checkout::UpdateReturned;
pub use errors::CheckoutError;
