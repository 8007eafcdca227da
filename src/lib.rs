//! A book catalogue with comments: the records, the statements that the
//! repository sends to the database, the rules that turn their outcomes into
//! HTTP answers, and the validation of the book creation form.
pub mod cover;
pub mod errors;
pub mod form;
pub mod model;
pub mod repository;
pub mod search;

pub use cover::{
    check_cover, cover_file_path, is_image_content_type, CoverPlan, DEFAULT_IMAGE_PATH,
    IMAGE_TOO_LARGE_MESSAGE, MAX_IMAGE_SIZE, NOT_AN_IMAGE_MESSAGE,
};
pub use errors::{
    answer_status, AppError, StoreFailure, NOT_FOUND_MESSAGE, STATUS_BAD_REQUEST, STATUS_CREATED,
    STATUS_INTERNAL_ERROR, STATUS_NOT_FOUND, STATUS_NO_CONTENT, STATUS_OK,
};
pub use form::{
    parse_published_date, BookForm, BAD_DATE_MESSAGE, MISSING_AUTHOR_MESSAGE, MISSING_DATE_MESSAGE,
    MISSING_TITLE_MESSAGE,
};
pub use model::{
    Book, BookCreateTemplate, BookEditTemplate, BookListTemplate, Comment, CreateBook,
    CreateComment, IndexTemplate, SearchParams, Timestamp,
};
pub use repository::{
    book_created, book_deleted, book_found, books_counted, books_listed, comment_created,
    count_books, create_book, create_comment, delete_book, get_book, list_books, update_book,
    SqlValue, Statement, COUNT_BOOKS, DELETE_BOOK, INSERT_BOOK, INSERT_COMMENT, SEARCH_BOOKS,
    SELECT_BOOK, SELECT_BOOKS, UPDATE_BOOK,
};
pub use search::{escape_like, is_blank, like_pattern, search_filter};
