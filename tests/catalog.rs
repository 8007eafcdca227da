use book_catalog::{
    answer_status, book_created, book_deleted, book_found, books_counted, books_listed,
    check_cover, comment_created, count_books, cover_file_path, create_book, create_comment,
    delete_book, escape_like, get_book, is_blank, is_image_content_type, like_pattern, list_books,
    parse_published_date, search_filter, update_book, AppError, Book, BookForm, Comment,
    CoverPlan, CreateBook, CreateComment, SqlValue, StoreFailure, Timestamp, COUNT_BOOKS,
    DEFAULT_IMAGE_PATH, DELETE_BOOK, IMAGE_TOO_LARGE_MESSAGE, INSERT_BOOK, INSERT_COMMENT,
    MAX_IMAGE_SIZE, NOT_AN_IMAGE_MESSAGE, SEARCH_BOOKS, SELECT_BOOK, SELECT_BOOKS,
    STATUS_BAD_REQUEST, STATUS_CREATED, STATUS_INTERNAL_ERROR, STATUS_NOT_FOUND,
    STATUS_NO_CONTENT, STATUS_OK, UPDATE_BOOK,
};

fn dune_input() -> CreateBook {
    CreateBook {
        title: "Dune".to_string(),
        author: "Herbert".to_string(),
        published_date: 1965,
        image_path: DEFAULT_IMAGE_PATH.to_string(),
    }
}

fn book_from(id: u128, input: &CreateBook) -> Book {
    Book {
        id,
        title: input.title.clone(),
        author: input.author.clone(),
        published_date: input.published_date,
        image_path: input.image_path.clone(),
    }
}

fn text(s: &str) -> SqlValue {
    SqlValue::Text(s.to_string())
}

#[test]
fn create_book_answers_created_with_the_stored_record() {
    let input = dune_input();
    let st = create_book(7, &input);
    assert_eq!(st.sql, INSERT_BOOK);
    assert_eq!(
        st.params,
        vec![
            SqlValue::Id(7),
            text("Dune"),
            text("Herbert"),
            SqlValue::Int(1965),
            text(DEFAULT_IMAGE_PATH)
        ]
    );
    let answer = book_created(Ok(book_from(7, &input)));
    assert_eq!(answer_status(&answer, STATUS_CREATED), 201);
    let book = answer.unwrap();
    assert_eq!(book.id, 7);
    assert_eq!(book.title, "Dune");
}

#[test]
fn create_book_with_taken_id_is_a_storage_error() {
    let answer = book_created(Err(StoreFailure::Other("duplicate key".to_string())));
    assert_eq!(answer, Err(AppError::Storage("duplicate key".to_string())));
    assert_eq!(answer_status(&answer, STATUS_CREATED), 500);
}

#[test]
fn delete_of_missing_book_is_not_found() {
    let st = delete_book(42);
    assert_eq!(st.sql, DELETE_BOOK);
    assert_eq!(st.params, vec![SqlValue::Id(42)]);
    let answer = book_deleted(Ok(0));
    assert_eq!(answer, Err(AppError::NotFound));
    assert_eq!(answer_status(&answer, STATUS_NO_CONTENT), 404);
    assert_eq!(AppError::NotFound.message(), "Book not found");
}

#[test]
fn delete_of_existing_book_is_no_content() {
    let answer = book_deleted(Ok(1));
    assert_eq!(answer, Ok(()));
    assert_eq!(answer_status(&answer, STATUS_NO_CONTENT), 204);
}

#[test]
fn update_of_missing_book_is_not_found() {
    let st = update_book(9, &dune_input());
    assert_eq!(st.sql, UPDATE_BOOK);
    assert_eq!(
        st.params,
        vec![text("Dune"), text("Herbert"), SqlValue::Int(1965), SqlValue::Id(9)]
    );
    let answer = book_found(Ok(None));
    assert_eq!(answer, Err(AppError::NotFound));
    assert_eq!(answer_status(&answer, STATUS_OK), 404);
}

#[test]
fn update_of_existing_book_answers_the_row() {
    let b = book_from(9, &dune_input());
    let answer = book_found(Ok(Some(b.clone())));
    assert_eq!(answer_status(&answer, STATUS_OK), 200);
    assert_eq!(answer, Ok(b));
}

#[test]
fn get_book_statement_binds_the_id() {
    let st = get_book(3);
    assert_eq!(st.sql, SELECT_BOOK);
    assert_eq!(st.params, vec![SqlValue::Id(3)]);
}

#[test]
fn empty_and_absent_search_list_every_book() {
    let none = list_books(&None);
    assert_eq!(none.sql, SELECT_BOOKS);
    assert!(none.params.is_empty());
    let empty = list_books(&Some(String::new()));
    assert_eq!(empty.sql, SELECT_BOOKS);
    assert!(empty.params.is_empty());
    let spaces = list_books(&Some("  \t ".to_string()));
    assert_eq!(spaces.sql, SELECT_BOOKS);
    assert!(spaces.params.is_empty());
}

#[test]
fn search_filters_title_or_author_by_substring() {
    let st = list_books(&Some("tolkien".to_string()));
    assert_eq!(st.sql, SEARCH_BOOKS);
    assert_eq!(st.params, vec![text("%tolkien%")]);
    assert_eq!(search_filter(&Some("tolkien".to_string())), Some("%tolkien%".to_string()));
    assert_eq!(search_filter(&None), None);
}

#[test]
fn search_escapes_like_wildcards() {
    assert_eq!(escape_like("50%_off\\"), "50\\%\\_off\\\\");
    assert_eq!(like_pattern("a_b"), "%a\\_b%");
    assert_eq!(like_pattern(""), "%%");
    assert_eq!(like_pattern("Tolkién"), "%Tolkién%");
}

#[test]
fn blank_means_only_whitespace() {
    assert!(is_blank(""));
    assert!(is_blank(" \n\t"));
    assert!(!is_blank(" x "));
}

#[test]
fn text_plain_cover_is_rejected_and_no_row_is_made() {
    let r = check_cover(&Some("text/plain".to_string()), 10);
    assert_eq!(r, Err(AppError::Validation(NOT_AN_IMAGE_MESSAGE.to_string())));
    assert_eq!(answer_status(&r, STATUS_CREATED), STATUS_BAD_REQUEST);
    let mut form = BookForm::new();
    form.accept_text("title", "Dune".to_string());
    form.accept_text("author", "Herbert".to_string());
    form.accept_text("published_date", "1965".to_string());
    let c = form.accept_cover(&Some("text/plain".to_string()), 10);
    assert_eq!(c, Err(AppError::Validation("File must be an image".to_string())));
    assert_eq!(
        form.insert_statement(1),
        Err(AppError::Validation("File must be an image".to_string()))
    );
}

#[test]
fn cover_without_content_type_is_rejected() {
    let r = check_cover(&None, 10);
    assert_eq!(r, Err(AppError::Validation(NOT_AN_IMAGE_MESSAGE.to_string())));
}

#[test]
fn oversized_cover_is_rejected() {
    let r = check_cover(&Some("image/png".to_string()), MAX_IMAGE_SIZE + 1);
    assert_eq!(r, Err(AppError::Validation(IMAGE_TOO_LARGE_MESSAGE.to_string())));
    assert_eq!(answer_status(&r, STATUS_CREATED), 400);
    assert_eq!(MAX_IMAGE_SIZE, 2 * 1024 * 1024);
    assert_eq!(check_cover(&Some("image/png".to_string()), MAX_IMAGE_SIZE), Ok(CoverPlan::Store));
}

#[test]
fn form_without_cover_uses_default_image() {
    let mut form = BookForm::new();
    form.accept_text("title", "Dune".to_string());
    form.accept_text("author", "Herbert".to_string());
    form.accept_text("published_date", "1965".to_string());
    assert_eq!(form.accept_cover(&Some("application/octet-stream".to_string()), 0), Ok(None));
    let book = form.finish().unwrap();
    assert_eq!(book.image_path, DEFAULT_IMAGE_PATH);
    assert_eq!(DEFAULT_IMAGE_PATH, "uploads/portada_generica.jpg");
    assert_eq!(book.published_date, 1965);
}

#[test]
fn accepted_cover_gets_a_fresh_path() {
    let mut form = BookForm::new();
    let p = form.accept_cover(&Some("image/jpeg".to_string()), 1000).unwrap().unwrap();
    assert!(p.starts_with("uploads/"));
    assert!(p.ends_with(".jpg"));
    assert_eq!(p.len(), "uploads/".len() + 36 + ".jpg".len());
    assert_eq!(form.image_path, p);
}

#[test]
fn cover_path_writes_the_id_hyphenated() {
    assert_eq!(cover_file_path(0), "uploads/00000000-0000-0000-0000-000000000000.jpg");
    assert_eq!(
        cover_file_path(0x0123456789abcdef0123456789abcdef),
        "uploads/01234567-89ab-cdef-0123-456789abcdef.jpg"
    );
}

#[test]
fn image_content_type_needs_the_prefix() {
    assert!(is_image_content_type("image/png"));
    assert!(is_image_content_type("image/"));
    assert!(!is_image_content_type("image"));
    assert!(!is_image_content_type("text/plain"));
    assert!(!is_image_content_type("IMAGE/png"));
}

#[test]
fn form_reports_missing_and_malformed_fields() {
    let mut form = BookForm::new();
    assert_eq!(
        form.finish(),
        Err(AppError::Validation("Missing field: title".to_string()))
    );
    form.accept_text("title", "Dune".to_string());
    form.accept_text("subtitle", "ignored".to_string());
    assert_eq!(
        form.finish(),
        Err(AppError::Validation("Missing field: author".to_string()))
    );
    form.accept_text("author", "Herbert".to_string());
    assert_eq!(
        form.finish(),
        Err(AppError::Validation("Missing field: published_date".to_string()))
    );
    form.accept_text("published_date", "nineteen".to_string());
    assert_eq!(
        form.finish(),
        Err(AppError::Validation("published_date must be an integer".to_string()))
    );
    form.accept_text("published_date", "1965".to_string());
    let st = form.insert_statement(5).unwrap();
    assert_eq!(st.sql, INSERT_BOOK);
    assert_eq!(st.params[0], SqlValue::Id(5));
    assert_eq!(st.params[3], SqlValue::Int(1965));
}

#[test]
fn published_date_parses_decimal_integers() {
    assert_eq!(parse_published_date("1965"), Ok(1965));
    assert_eq!(parse_published_date("-12"), Ok(-12));
    assert_eq!(parse_published_date("+7"), Ok(7));
    assert_eq!(parse_published_date("2147483647"), Ok(i32::MAX));
    assert!(parse_published_date("2147483648").is_err());
    assert!(parse_published_date("").is_err());
    assert!(parse_published_date(" 1965").is_err());
    assert!(parse_published_date("-").is_err());
    assert_eq!(
        parse_published_date("12a"),
        Err(AppError::Validation("published_date must be an integer".to_string()))
    );
}

#[test]
fn comment_on_missing_book_is_not_found() {
    let st = create_comment(1, 2, &CreateComment { text: "Great".to_string() });
    assert_eq!(st.sql, INSERT_COMMENT);
    assert_eq!(st.params, vec![SqlValue::Id(1), SqlValue::Id(2), text("Great")]);
    let answer = comment_created(Err(StoreFailure::ForeignKeyViolation("fk".to_string())));
    assert_eq!(answer, Err(AppError::NotFound));
    assert_eq!(answer_status(&answer, STATUS_CREATED), STATUS_NOT_FOUND);
    let other = comment_created(Err(StoreFailure::Other("down".to_string())));
    assert_eq!(other, Err(AppError::Storage("down".to_string())));
    assert_eq!(answer_status(&other, STATUS_CREATED), STATUS_INTERNAL_ERROR);
}

#[test]
fn comment_created_answers_the_row() {
    let c = Comment {
        id: 1,
        book_id: 2,
        text: "Great".to_string(),
        created_at: Timestamp::new(1_700_000_000, 5).unwrap(),
    };
    assert_eq!(comment_created(Ok(c.clone())), Ok(c));
}

#[test]
fn timestamp_needs_nanos_below_a_second() {
    assert!(Timestamp::new(0, 999_999_999).is_some());
    assert!(Timestamp::new(0, 1_000_000_000).is_none());
}

#[test]
fn count_renders_the_landing_page() {
    let st = count_books();
    assert_eq!(st.sql, COUNT_BOOKS);
    assert!(st.params.is_empty());
    assert_eq!(books_counted(Ok(3)).unwrap().count, 3);
    assert_eq!(
        books_counted(Err(StoreFailure::Other("timeout".to_string()))),
        Err(AppError::Storage("timeout".to_string()))
    );
}

#[test]
fn error_statuses_and_messages() {
    assert_eq!(AppError::NotFound.status(), 404);
    assert_eq!(AppError::Validation("v".to_string()).status(), 400);
    assert_eq!(AppError::Storage("s".to_string()).status(), 500);
    assert_eq!(AppError::Render("r".to_string()).status(), 500);
    assert_eq!(AppError::Storage("connection refused".to_string()).message(), "connection refused");
}

#[test]
fn create_list_delete_scenario() {
    let input = dune_input();
    let id: u128 = 0x1234;
    let st = create_book(id, &input);
    assert_eq!(st.sql, INSERT_BOOK);
    let created = book_created(Ok(book_from(id, &input)));
    assert_eq!(answer_status(&created, STATUS_CREATED), 201);
    let dune = created.unwrap();
    assert_eq!(dune.id, id);
    assert_eq!(dune.title, "Dune");
    assert_eq!(dune.author, "Herbert");
    assert_eq!(dune.published_date, 1965);

    assert_eq!(list_books(&None).sql, SELECT_BOOKS);
    let listed = books_listed(Ok(vec![dune.clone()])).unwrap();
    assert!(listed.iter().any(|b| b.id == id));

    let del = delete_book(id);
    assert_eq!(del.params, vec![SqlValue::Id(id)]);
    let deleted = book_deleted(Ok(1));
    assert_eq!(answer_status(&deleted, STATUS_NO_CONTENT), 204);

    let after = books_listed(Ok(vec![])).unwrap();
    assert!(!after.iter().any(|b| b.id == id));
}

#[test]
fn create_book_input_falls_back_to_default_cover() {
    let a = CreateBook::new("Dune".to_string(), "Herbert".to_string(), 1965, None);
    assert_eq!(a.image_path, DEFAULT_IMAGE_PATH);
    let b = CreateBook::new("Dune".to_string(), "Herbert".to_string(), 1965, Some(String::new()));
    assert_eq!(b.image_path, DEFAULT_IMAGE_PATH);
    let c = CreateBook::new(
        "Dune".to_string(),
        "Herbert".to_string(),
        1965,
        Some("uploads/x.jpg".to_string()),
    );
    assert_eq!(c.image_path, "uploads/x.jpg");
    assert_eq!(c.title, "Dune");
}
