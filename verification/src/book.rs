use vstd::prelude::*;

verus! {

// ---------------------------------------------------------------------------
// Catalog records
// ---------------------------------------------------------------------------

/// One stored row of the book catalog.
///
/// The lending core itself only reads a book's id; the remaining columns are
/// carried for the read-only catalog queries.
pub struct BookRow {
    pub book_id: u128,
    pub title: String,
    pub author: String,
    pub isbn: String,
    pub description: String,
    pub owned_by: u128,
    pub owner_name: String,
}

impl Clone for BookRow {
    /// A field-for-field copy of the row.
    fn clone(&self) -> (r: Self)
        ensures
            r == *self,
    {
        BookRow {
            book_id: self.book_id,
            title: self.title.clone(),
            author: self.author.clone(),
            isbn: self.isbn.clone(),
            description: self.description.clone(),
            owned_by: self.owned_by,
            owner_name: self.owner_name.clone(),
        }
    }
}

/// The registered owner of a book, as the catalog reports it.
pub struct BookOwner {
    pub id: u128,
    pub name: String,
}

/// A catalog entry as handed to callers.
pub struct Book {
    pub id: u128,
    pub title: String,
    pub author: String,
    pub isbn: String,
    pub description: String,
    pub owner: BookOwner,
}

/// A page of a book listing: the total count beside one listed id.
#[derive(Clone, Copy, Debug, PartialEq, Eq, Structural)]
pub struct PaginatedBookRow {
    pub total: i64,
    pub id: u128,
}

/// A request to register a book with the catalog.
pub struct CreateBook {
    pub title: String,
    pub author: String,
    pub isbn: String,
    pub description: String,
}

/// The catalog entry a stored row denotes.
pub open spec fn book_of_row(row: BookRow) -> Book {
    Book {
        id: row.book_id,
        title: row.title,
        author: row.author,
        isbn: row.isbn,
        description: row.description,
        owner: BookOwner { id: row.owned_by, name: row.owner_name },
    }
}

impl From<BookRow> for Book {
    /// Repack a stored row as a catalog entry.
    fn from(value: BookRow) -> (r: Self) {
        let BookRow { book_id, title, author, isbn, description, owned_by, owner_name } = value;
        Book {
            id: book_id,
            title,
            author,
            isbn,
            description,
            owner: BookOwner { id: owned_by, name: owner_name },
        }
    }
}

impl vstd::std_specs::convert::FromSpecImpl<BookRow> for Book {
    open spec fn obeys_from_spec() -> bool {
        true
    }

    open spec fn from_spec(v: BookRow) -> Self {
        book_of_row(v)
    }
}

/// Some row of the catalog carries this book id.
pub open spec fn catalog_has_book(rows: Seq<BookRow>, book_id: u128) -> bool {
    exists|i: int| 0 <= i < rows.len() && rows[i].book_id == book_id
}

// ---------------------------------------------------------------------------
// The catalog repository
// ---------------------------------------------------------------------------

/// The book catalog: simple create/read storage with no concurrency hazards
/// of its own. Backed here by the verified in-memory table.
pub struct BookRespositoryImpl {
    db: Vec<BookRow>,
}

impl View for BookRespositoryImpl {
    type V = Seq<BookRow>;

    closed spec fn view(&self) -> Seq<BookRow> {
        self.db@
    }
}

impl BookRespositoryImpl {
    /// Hand the catalog its table of rows.
    pub fn new(db: Vec<BookRow>) -> (r: Self)
        ensures
            r@ == db@,
    {
        BookRespositoryImpl { db }
    }

    /// Register a book: append one row under a freshly drawn id, which is
    /// returned. This catalog does not record an owner; the owner columns
    /// keep their empty values.
    pub fn create(&mut self, event: CreateBook) -> (r: u128)
        ensures
            final(self)@ == old(self)@.push(final(self)@.last()),
            final(self)@.last().book_id == r,
            final(self)@.last().title == event.title,
            final(self)@.last().author == event.author,
            final(self)@.last().isbn == event.isbn,
            final(self)@.last().description == event.description,
            final(self)@.last().owned_by == 0,
            final(self)@.last().owner_name@ == Seq::<char>::empty(),
    {
        let book_id = crate::ids::fresh_id();
        let CreateBook { title, author, isbn, description } = event;
        self.db.push(
            BookRow {
                book_id,
                title,
                author,
                isbn,
                description,
                owned_by: 0,
                owner_name: String::new(),
            },
        );
        book_id
    }

    /// Every catalog entry, newest first.
    pub fn find_all(&self) -> (r: Vec<Book>)
        ensures
            r@.len() == self@.len(),
            forall|i: int| 0 <= i < r@.len() ==> r@[i] == book_of_row(self@[self@.len() - 1 - i]),
    {
        let mut out: Vec<Book> = Vec::new();
        let mut i: usize = self.db.len();
        while i > 0
            invariant
                i <= self@.len(),
                out@.len() == self@.len() - i,
                forall|k: int|
                    0 <= k < out@.len() ==> out@[k] == book_of_row(self@[self@.len() - 1 - k]),
            decreases i,
        {
            i -= 1;
            out.push(Book::from(self.db[i].clone()));
        }
        out
    }

    /// The entry of the first row carrying the id, if the book exists.
    pub fn find_by_id(&self, book_id: u128) -> (r: Option<Book>)
        ensures
            r is Some <==> catalog_has_book(self@, book_id),
            (match r {
                Some(b) => exists|i: int|
                    0 <= i < self@.len() && (#[trigger] self@[i]).book_id == book_id && (forall|
                        j: int,
                    | 0 <= j < i ==> self@[j].book_id != book_id) && b == book_of_row(self@[i]),
                None => true,
            }),
    {
        let n = self.db.len();
        let mut i: usize = 0;
        while i < n
            invariant
                n == self@.len(),
                0 <= i <= n,
                forall|k: int| 0 <= k < i ==> self@[k].book_id != book_id,
            decreases n - i,
        {
            if self.db[i].book_id == book_id {
                let b = Book::from(self.db[i].clone());
                proof {
                    assert(self@[i as int].book_id == book_id);
                }
                return Some(b);
            }
            i += 1;
        }
        None
    }
}

} // verus!
