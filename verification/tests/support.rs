use book_lending::example_func;
use book_lending::example_trait;
use book_lending::AccessToken;
use book_lending::AuthrizedUser;
use book_lending::Book;
use book_lending::BookRespositoryImpl;
use book_lending::BookRow;
use book_lending::CreateBook;
use book_lending::Environment;
use book_lending::RetryPolicy;
use book_lending::Role;
use book_lending::User;
use book_lending::DEFAULT_RETRY_BUDGET;

fn sample_row(book_id: u128) -> BookRow {
    BookRow {
        book_id,
        title: "Test Book 1".to_string(),
        author: "Test Author 1".to_string(),
        isbn: "978-0000000000".to_string(),
        description: "A sample".to_string(),
        owned_by: 3,
        owner_name: "Owner".to_string(),
    }
}

#[test]
fn book_from_row_maps_every_field() {
    let book = Book::from(sample_row(12));
    assert_eq!(book.id, 12);
    assert_eq!(book.title, "Test Book 1");
    assert_eq!(book.author, "Test Author 1");
    assert_eq!(book.isbn, "978-0000000000");
    assert_eq!(book.description, "A sample");
    assert_eq!(book.owner.id, 3);
    assert_eq!(book.owner.name, "Owner");
}

#[test]
fn catalog_create_then_find_by_id() {
    let mut repo = BookRespositoryImpl::new(Vec::new());
    let id = repo.create(CreateBook {
        title: "T".to_string(),
        author: "A".to_string(),
        isbn: "I".to_string(),
        description: "D".to_string(),
    });
    let found = repo.find_by_id(id).expect("the created book is found");
    assert_eq!(found.id, id);
    assert_eq!(found.title, "T");
    assert_eq!(found.author, "A");
    assert_eq!(found.isbn, "I");
    assert_eq!(found.description, "D");
    assert_eq!(found.owner.id, 0);
    assert_eq!(found.owner.name, "");
    assert!(repo.find_by_id(id.wrapping_add(1)).is_none());
}

#[test]
fn catalog_find_all_is_newest_first() {
    let rows = vec![sample_row(1), sample_row(2), sample_row(3)];
    let repo = BookRespositoryImpl::new(rows);
    let all = repo.find_all();
    assert_eq!(all.len(), 3);
    assert_eq!(all[0].id, 3);
    assert_eq!(all[1].id, 2);
    assert_eq!(all[2].id, 1);
}

#[test]
fn environment_parses_exact_variant_names() {
    assert_eq!(
        Environment::from_text(&"Development".to_string()),
        Some(Environment::Development)
    );
    assert_eq!(
        Environment::from_text(&"Production".to_string()),
        Some(Environment::Production)
    );
    assert_eq!(Environment::from_text(&"production".to_string()), None);
    assert_eq!(Environment::from_text(&"".to_string()), None);
}

#[test]
fn which_prefers_the_setting_and_falls_back() {
    assert_eq!(
        book_lending::which(None, Environment::Development),
        Environment::Development
    );
    assert_eq!(
        book_lending::which(None, Environment::Production),
        Environment::Production
    );
    assert_eq!(
        book_lending::which(Some("Production".to_string()), Environment::Development),
        Environment::Production
    );
    assert_eq!(
        book_lending::which(Some("nonsense".to_string()), Environment::Production),
        Environment::Production
    );
    assert_eq!(Environment::default(), Environment::Development);
}

#[test]
fn authorized_user_reports_id_and_role() {
    let admin = AuthrizedUser {
        access_token: AccessToken("sample-token".to_string()),
        user: User { id: 7, role: Role::Admin },
    };
    assert_eq!(admin.id(), 7);
    assert!(admin.is_admin());
    let plain = AuthrizedUser {
        access_token: AccessToken("sample-token".to_string()),
        user: User { id: 8, role: Role::User },
    };
    assert_eq!(plain.id(), 8);
    assert!(!plain.is_admin());
}

#[test]
fn retry_policy_retries_conflicts_within_budget() {
    let policy = RetryPolicy::new(DEFAULT_RETRY_BUDGET);
    assert_eq!(DEFAULT_RETRY_BUDGET, 3);
    assert!(policy.should_retry(0, true));
    assert!(policy.should_retry(2, true));
    assert!(!policy.should_retry(3, true));
    assert!(!policy.should_retry(0, false));
    let none = RetryPolicy::new(0);
    assert!(!none.should_retry(0, true));
}

struct PlusOne;

impl example_trait for PlusOne {
    fn example_method(&self, x: u32) -> u32 {
        x + 1
    }
}

#[test]
fn substituted_collaborator_is_called_through() {
    assert_eq!(10, example_func(&PlusOne, 9));
}
