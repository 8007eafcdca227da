use vstd::prelude::*;
use crate::errors::{AppError, StoreFailure};
use crate::model::{Book, Comment, CreateBook, CreateComment, IndexTemplate};
use crate::search::{blank, contains_folded, filter_of, lemma_contains_pattern, like_match, search_filter};

verus! {

/// A value bound to a placeholder of a statement.
#[derive(Clone, Debug, PartialEq, Eq)]
pub enum SqlValue {
    Id(u128),
    Text(String),
    Int(i32),
}

/// One SQL statement and the values for its placeholders, in order.
#[derive(Clone, Debug, PartialEq, Eq)]
pub struct Statement {
    pub sql: &'static str,
    pub params: Vec<SqlValue>,
}

pub const SELECT_BOOKS: &'static str =
    "SELECT id, title, author, published_date, image_path FROM books";

pub const SEARCH_BOOKS: &'static str =
    "SELECT id, title, author, published_date, image_path FROM books WHERE title ILIKE $1 OR author ILIKE $1";

pub const INSERT_BOOK: &'static str =
    "INSERT INTO books (id, title, author, published_date, image_path) VALUES ($1, $2, $3, $4, $5) RETURNING id, title, author, published_date, image_path";

pub const SELECT_BOOK: &'static str =
    "SELECT id, title, author, published_date, image_path FROM books WHERE id = $1";

pub const UPDATE_BOOK: &'static str =
    "UPDATE books SET title = $1, author = $2, published_date = $3 WHERE id = $4 RETURNING id, title, author, published_date, image_path";

pub const DELETE_BOOK: &'static str = "DELETE FROM books WHERE id = $1";

pub const COUNT_BOOKS: &'static str = "SELECT COUNT(*)::BIGINT FROM books";

pub const INSERT_COMMENT: &'static str =
    "INSERT INTO comments (id, book_id, text) VALUES ($1, $2, $3) RETURNING id, book_id, text, created_at";

/// The statement that lists the books: all of them where the search is
/// absent or blank, else those whose title or author holds it, ignoring case.
pub fn list_books(search: &Option<String>) -> (r: Statement)
    ensures
        filter_of(*search) is None ==> r.sql == SELECT_BOOKS && r.params@.len() == 0,
        search matches Some(q) && q@.len() == 0 ==> r.sql == SELECT_BOOKS,
        filter_of(*search) matches Some(p) ==> (r.sql == SEARCH_BOOKS && r.params@.len() == 1
            && (r.params@[0] matches SqlValue::Text(t) && t@ == p)),
{
    match search_filter(search) {
        Some(p) => Statement { sql: SEARCH_BOOKS, params: vec![SqlValue::Text(p)] },
        None => Statement { sql: SELECT_BOOKS, params: Vec::new() },
    }
}

/// The statement that stores a new book under `id` and returns its row.
pub fn create_book(id: u128, input: &CreateBook) -> (r: Statement)
    ensures
        r.sql == INSERT_BOOK,
        r.params@ == seq![
            SqlValue::Id(id),
            SqlValue::Text(input.title),
            SqlValue::Text(input.author),
            SqlValue::Int(input.published_date),
            SqlValue::Text(input.image_path),
        ],
{
    let params = vec![
        SqlValue::Id(id),
        SqlValue::Text(input.title.clone()),
        SqlValue::Text(input.author.clone()),
        SqlValue::Int(input.published_date),
        SqlValue::Text(input.image_path.clone()),
    ];
    Statement { sql: INSERT_BOOK, params }
}

/// The statement that fetches the book `id`.
pub fn get_book(id: u128) -> (r: Statement)
    ensures
        r.sql == SELECT_BOOK,
        r.params@ == seq![SqlValue::Id(id)],
{
    Statement { sql: SELECT_BOOK, params: vec![SqlValue::Id(id)] }
}

/// The statement that overwrites the title, author and year of the book
/// `id` and returns its row; the image path is left as it is.
pub fn update_book(id: u128, input: &CreateBook) -> (r: Statement)
    ensures
        r.sql == UPDATE_BOOK,
        r.params@ == seq![
            SqlValue::Text(input.title),
            SqlValue::Text(input.author),
            SqlValue::Int(input.published_date),
            SqlValue::Id(id),
        ],
{
    let params = vec![
        SqlValue::Text(input.title.clone()),
        SqlValue::Text(input.author.clone()),
        SqlValue::Int(input.published_date),
        SqlValue::Id(id),
    ];
    Statement { sql: UPDATE_BOOK, params }
}

/// The statement that removes the book `id`.
pub fn delete_book(id: u128) -> (r: Statement)
    ensures
        r.sql == DELETE_BOOK,
        r.params@ == seq![SqlValue::Id(id)],
{
    Statement { sql: DELETE_BOOK, params: vec![SqlValue::Id(id)] }
}

/// The statement that counts the books.
pub fn count_books() -> (r: Statement)
    ensures
        r.sql == COUNT_BOOKS,
        r.params@.len() == 0,
{
    Statement { sql: COUNT_BOOKS, params: Vec::new() }
}

/// The statement that stores a new comment `id` on the book `book_id`; the
/// database assigns its creation time.
pub fn create_comment(id: u128, book_id: u128, input: &CreateComment) -> (r: Statement)
    ensures
        r.sql == INSERT_COMMENT,
        r.params@ == seq![SqlValue::Id(id), SqlValue::Id(book_id), SqlValue::Text(input.text)],
{
    let params = vec![SqlValue::Id(id), SqlValue::Id(book_id), SqlValue::Text(input.text.clone())];
    Statement { sql: INSERT_COMMENT, params }
}

/// A failed statement as the caller sees it: a storage error with the
/// database's message.
pub open spec fn storage_error(f: StoreFailure) -> AppError {
    match f {
        StoreFailure::ForeignKeyViolation(m) => AppError::Storage(m),
        StoreFailure::Other(m) => AppError::Storage(m),
    }
}

/// What a statement that returns rows, or one row, answers.
pub open spec fn rows_result<T>(out: Result<T, StoreFailure>) -> Result<T, AppError> {
    match out {
        Ok(v) => Ok(v),
        Err(f) => Err(storage_error(f)),
    }
}

/// What a by-id statement that returns at most one row answers: the row, or
/// `NotFound` where no row matched.
pub open spec fn one_row_result(out: Result<Option<Book>, StoreFailure>) -> Result<Book, AppError> {
    match out {
        Ok(Some(b)) => Ok(b),
        Ok(None) => Err(AppError::NotFound),
        Err(f) => Err(storage_error(f)),
    }
}

/// What a delete answers: `NotFound` where no row was affected.
pub open spec fn delete_result(out: Result<u64, StoreFailure>) -> Result<(), AppError> {
    match out {
        Ok(n) => if n == 0 {
            Err(AppError::NotFound)
        } else {
            Ok(())
        },
        Err(f) => Err(storage_error(f)),
    }
}

/// What a comment insertion answers: a comment on a book that does not
/// exist is `NotFound`.
pub open spec fn comment_result(out: Result<Comment, StoreFailure>) -> Result<Comment, AppError> {
    match out {
        Ok(c) => Ok(c),
        Err(StoreFailure::ForeignKeyViolation(_)) => Err(AppError::NotFound),
        Err(StoreFailure::Other(m)) => Err(AppError::Storage(m)),
    }
}

/// The answer to the statement of `list_books`.
pub fn books_listed(out: Result<Vec<Book>, StoreFailure>) -> (r: Result<Vec<Book>, AppError>)
    ensures
        r == rows_result(out),
{
    match out {
        Ok(v) => Ok(v),
        Err(f) => Err(f.into_storage()),
    }
}

/// The answer to the statement of `create_book`: the stored row.
pub fn book_created(out: Result<Book, StoreFailure>) -> (r: Result<Book, AppError>)
    ensures
        r == rows_result(out),
{
    match out {
        Ok(b) => Ok(b),
        Err(f) => Err(f.into_storage()),
    }
}

/// The answer to the statement of `get_book` or `update_book`, run so that
/// it yields at most one row.
pub fn book_found(out: Result<Option<Book>, StoreFailure>) -> (r: Result<Book, AppError>)
    ensures
        r == one_row_result(out),
{
    match out {
        Ok(Some(b)) => Ok(b),
        Ok(None) => Err(AppError::NotFound),
        Err(f) => Err(f.into_storage()),
    }
}

/// The answer to the statement of `delete_book`, from the number of rows
/// it affected.
pub fn book_deleted(out: Result<u64, StoreFailure>) -> (r: Result<(), AppError>)
    ensures
        r == delete_result(out),
{
    match out {
        Ok(n) => if n == 0 {
            Err(AppError::NotFound)
        } else {
            Ok(())
        },
        Err(f) => Err(f.into_storage()),
    }
}

/// The answer to the statement of `count_books`: the landing page.
pub fn books_counted(out: Result<i64, StoreFailure>) -> (r: Result<IndexTemplate, AppError>)
    ensures
        out matches Ok(n) ==> r == Ok::<IndexTemplate, AppError>(IndexTemplate { count: n }),
        out matches Err(f) ==> r == Err::<IndexTemplate, AppError>(storage_error(f)),
{
    match out {
        Ok(n) => Ok(IndexTemplate { count: n }),
        Err(f) => Err(f.into_storage()),
    }
}

/// The answer to the statement of `create_comment`.
pub fn comment_created(out: Result<Comment, StoreFailure>) -> (r: Result<Comment, AppError>)
    ensures
        r == comment_result(out),
{
    match out {
        Ok(c) => Ok(c),
        Err(StoreFailure::ForeignKeyViolation(_)) => Err(AppError::NotFound),
        Err(StoreFailure::Other(m)) => Err(AppError::Storage(m)),
    }
}


/// What `INSERT_BOOK` does to the books table, whose key is the id: a new
/// row where the id is free; where it is taken, the key constraint fails
/// the statement and the table stays as it was.
pub open spec fn insert_effect(books: Map<u128, Book>, id: u128, input: CreateBook) -> (Map<
    u128,
    Book,
>, Option<Book>) {
    if books.contains_key(id) {
        (books, None)
    } else {
        let b = Book {
            id,
            title: input.title,
            author: input.author,
            published_date: input.published_date,
            image_path: input.image_path,
        };
        (books.insert(id, b), Some(b))
    }
}

/// What `UPDATE_BOOK` does: it overwrites the title, author and year of the
/// row `id`, if there is one, and returns that row.
pub open spec fn update_effect(books: Map<u128, Book>, id: u128, input: CreateBook) -> (Map<
    u128,
    Book,
>, Option<Book>) {
    if books.contains_key(id) {
        let b = Book {
            title: input.title,
            author: input.author,
            published_date: input.published_date,
            ..books[id]
        };
        (books.insert(id, b), Some(b))
    } else {
        (books, None)
    }
}

/// What `DELETE_BOOK` does: it removes the row `id`, if there is one, and
/// reports the number of rows removed.
pub open spec fn delete_effect(books: Map<u128, Book>, id: u128) -> (Map<u128, Book>, u64) {
    if books.contains_key(id) {
        (books.remove(id), 1)
    } else {
        (books, 0)
    }
}

/// Whether `INSERT_COMMENT` on `book_id` passes the foreign key of the
/// comments table; where it does not, the statement fails with a foreign
/// key violation.
pub open spec fn comment_allowed(books: Map<u128, Book>, book_id: u128) -> bool {
    books.contains_key(book_id)
}

/// A new book stored under an id that no book has is answered with a
/// record that carries that id and echoes the fields sent, and it is added
/// beside the earlier books; an id already taken never overwrites a book.
pub proof fn lemma_create_book_fresh(books: Map<u128, Book>, id: u128, input: CreateBook)
    ensures
        !books.contains_key(id) ==> ({
            let (after, row) = insert_effect(books, id, input);
            &&& row matches Some(b)
            &&& rows_result(Ok::<Book, StoreFailure>(row->0)) == Ok::<Book, AppError>(row->0)
            &&& row->0.id == id
            &&& !books.contains_key(row->0.id)
            &&& row->0.title == input.title
            &&& row->0.author == input.author
            &&& row->0.published_date == input.published_date
            &&& row->0.image_path == input.image_path
            &&& after.dom() == books.dom().insert(id)
            &&& forall|k: u128| books.contains_key(k) ==> after[k] == books[k]
        }),
        books.contains_key(id) ==> insert_effect(books, id, input) == (books, None::<Book>),
{
}

/// Deleting an id that no book has is answered with `NotFound` (404) and
/// leaves the table as it was.
pub proof fn lemma_delete_missing(books: Map<u128, Book>, id: u128)
    requires
        !books.contains_key(id),
    ensures
        delete_effect(books, id) == (books, 0u64),
        delete_result(Ok(delete_effect(books, id).1)) == Err::<(), AppError>(AppError::NotFound),
        AppError::NotFound.spec_status() == 404,
{
}

/// Updating an id that no book has is answered with `NotFound` (404) and
/// leaves the table as it was.
pub proof fn lemma_update_missing(books: Map<u128, Book>, id: u128, input: CreateBook)
    requires
        !books.contains_key(id),
    ensures
        update_effect(books, id, input) == (books, None::<Book>),
        one_row_result(Ok(update_effect(books, id, input).1)) == Err::<Book, AppError>(
            AppError::NotFound,
        ),
        AppError::NotFound.spec_status() == 404,
{
}

/// A comment on a book that does not exist is refused by the foreign key,
/// and that refusal, whatever its message, is answered with `NotFound` (404).
pub proof fn lemma_comment_on_missing_book(books: Map<u128, Book>, book_id: u128, message: String)
    requires
        !books.contains_key(book_id),
    ensures
        !comment_allowed(books, book_id),
        comment_result(Err(StoreFailure::ForeignKeyViolation(message))) == Err::<Comment, AppError>(
            AppError::NotFound,
        ),
        AppError::NotFound.spec_status() == 404,
{
}

/// The ids of the books that the statement of `list_books` returns: all of
/// them without a filter, else those whose title or author matches the
/// pattern under ILIKE, with `fold` as the database's case folding.
pub open spec fn listed(books: Map<u128, Book>, filter: Option<Seq<char>>, fold: spec_fn(char) -> char) -> Set<u128> {
    match filter {
        None => books.dom(),
        Some(p) => books.dom().filter(
            |id: u128|
                like_match(books[id].title@, p, fold) || like_match(books[id].author@, p, fold),
        ),
    }
}

/// Without a search, or with a blank one, the book list is every book; with
/// any other search it is exactly the books whose title or author holds the
/// search string, ignoring case.
pub proof fn lemma_list_books_search(books: Map<u128, Book>, search: Option<String>, fold: spec_fn(char) -> char)
    ensures
        search is None ==> listed(books, filter_of(search), fold) == books.dom(),
        search matches Some(q) && blank(q@) ==> listed(books, filter_of(search), fold)
            == books.dom(),
        search is Some && !blank(search->0@) ==> forall|id: u128|
            #[trigger] listed(books, filter_of(search), fold).contains(id) == (books.contains_key(id)
                && (contains_folded(books[id].title@, search->0@, fold) || contains_folded(
                books[id].author@,
                search->0@,
                fold,
            ))),
{
    if let Some(q) = search {
        if !blank(q@) {
            assert forall|id: u128| #[trigger]
                listed(books, filter_of(search), fold).contains(id) == (books.contains_key(id) && (
                contains_folded(books[id].title@, q@, fold) || contains_folded(
                    books[id].author@,
                    q@,
                    fold,
                ))) by {
                lemma_contains_pattern(books[id].title@, q@, fold);
                lemma_contains_pattern(books[id].author@, q@, fold);
            }
        }
    }
}

/// A book created under a free id is in the unfiltered list; deleting it is
/// answered with success and takes it out of the list again, leaving the
/// books as they were before it was created.
pub proof fn lemma_create_list_delete(books: Map<u128, Book>, id: u128, input: CreateBook, fold: spec_fn(char) -> char)
    requires
        !books.contains_key(id),
    ensures
        ({
            let (created, row) = insert_effect(books, id, input);
            let (removed, n) = delete_effect(created, id);
            &&& row is Some
            &&& listed(created, None, fold).contains(id)
            &&& delete_result(Ok(n)) == Ok::<(), AppError>(())
            &&& !listed(removed, None, fold).contains(id)
            &&& removed == books
        }),
{
    let (created, row) = insert_effect(books, id, input);
    assert(created.remove(id) =~= books);
}

} // verus!
