use vstd::prelude::*;
use crate::cover::{
    answers, check_cover, cover_decision, cover_file_path, cover_path, is_image_type, new_id,
    CoverPlan, DEFAULT_IMAGE_PATH, IMAGE_TOO_LARGE_MESSAGE, MAX_IMAGE_SIZE, NOT_AN_IMAGE_MESSAGE,
};
use crate::errors::AppError;
use crate::model::CreateBook;
use crate::repository::{create_book, SqlValue, Statement, INSERT_BOOK};

verus! {

pub const TITLE_FIELD: &'static str = "title";

pub const AUTHOR_FIELD: &'static str = "author";

pub const PUBLISHED_DATE_FIELD: &'static str = "published_date";

pub const MISSING_TITLE_MESSAGE: &'static str = "Missing field: title";

pub const MISSING_AUTHOR_MESSAGE: &'static str = "Missing field: author";

pub const MISSING_DATE_MESSAGE: &'static str = "Missing field: published_date";

pub const BAD_DATE_MESSAGE: &'static str = "published_date must be an integer";

pub open spec fn is_digit(c: char) -> bool {
    '0' <= c <= '9'
}

/// The number that a string of decimal digits writes.
pub open spec fn digits_value(d: Seq<char>) -> int
    decreases d.len(),
{
    if d.len() == 0 {
        0
    } else {
        digits_value(d.drop_last()) * 10 + (d.last() as int - '0' as int)
    }
}

pub open spec fn all_digits(d: Seq<char>) -> bool {
    d.len() > 0 && forall|i: int| 0 <= i < d.len() ==> is_digit(#[trigger] d[i])
}

/// The integer that `s` writes in decimal: an optional `+` or `-` followed
/// by one or more digits, and nothing else.
pub open spec fn decimal_value(s: Seq<char>) -> Option<int> {
    if s.len() > 0 && (s[0] == '+' || s[0] == '-') {
        let d = s.drop_first();
        if all_digits(d) {
            Some(
                if s[0] == '-' {
                    -digits_value(d)
                } else {
                    digits_value(d)
                },
            )
        } else {
            None
        }
    } else if all_digits(s) {
        Some(digits_value(s))
    } else {
        None
    }
}

/// The `i32` that `s` writes, where it writes one in range.
pub open spec fn parsed_i32(s: Seq<char>) -> Option<i32> {
    match decimal_value(s) {
        Some(v) => if i32::MIN <= v <= i32::MAX {
            Some(v as i32)
        } else {
            None
        },
        None => None,
    }
}

/// Relies on `<i32 as FromStr>::from_str`: it accepts an optional sign and
/// then decimal digits only, and fails where the value does not fit.
#[verifier::external_body]
fn parse_i32(s: &str) -> (r: Option<i32>)
    ensures
        r == parsed_i32(s@),
{
    s.parse::<i32>().ok()
}

/// Reads the publication year of a form field.
pub fn parse_published_date(s: &str) -> (r: Result<i32, AppError>)
    ensures
        parsed_i32(s@) matches Some(v) ==> r == Ok::<i32, AppError>(v),
        parsed_i32(s@) is None ==> (r matches Err(AppError::Validation(m)) && m@
            == BAD_DATE_MESSAGE@),
{
    match parse_i32(s) {
        Some(v) => Ok(v),
        None => Err(AppError::Validation(String::from_str(BAD_DATE_MESSAGE))),
    }
}

fn same_text(a: &str, b: &str) -> (r: bool)
    ensures
        r == (a@ == b@),
{
    String::from_str(a) == String::from_str(b)
}

/// The book creation form while its parts arrive: the text fields seen so
/// far, the cover path, and the first rejection of a cover part.
#[derive(Clone, Debug, PartialEq, Eq)]
pub struct BookForm {
    pub title: Option<String>,
    pub author: Option<String>,
    pub published_date: Option<String>,
    pub image_path: String,
    pub rejected: Option<String>,
}

impl BookForm {
    /// What the form gives once all parts are in: the first rejection of a
    /// cover part, else the first missing field, else a year that does not
    /// parse, else the new book. An error is given as its message.
    pub open spec fn outcome(self) -> Result<CreateBook, Seq<char>> {
        if self.rejected is Some {
            Err(self.rejected->0@)
        } else if self.title is None {
            Err(MISSING_TITLE_MESSAGE@)
        } else if self.author is None {
            Err(MISSING_AUTHOR_MESSAGE@)
        } else if self.published_date is None {
            Err(MISSING_DATE_MESSAGE@)
        } else if parsed_i32(self.published_date->0@) is None {
            Err(BAD_DATE_MESSAGE@)
        } else {
            Ok(
                CreateBook {
                    title: self.title->0,
                    author: self.author->0,
                    published_date: parsed_i32(self.published_date->0@)->0,
                    image_path: self.image_path,
                },
            )
        }
    }

    /// An empty form, whose book has the default cover.
    pub fn new() -> (r: BookForm)
        ensures
            r.title is None,
            r.author is None,
            r.published_date is None,
            r.image_path@ == DEFAULT_IMAGE_PATH@,
            r.rejected is None,
    {
        BookForm {
            title: None,
            author: None,
            published_date: None,
            image_path: String::from_str(DEFAULT_IMAGE_PATH),
            rejected: None,
        }
    }

    /// Takes a text part: `title`, `author` and `published_date` are kept
    /// (a later part replaces an earlier one), any other name is ignored.
    pub fn accept_text(&mut self, name: &str, value: String)
        ensures
            name@ == TITLE_FIELD@ ==> *final(self) == (BookForm { title: Some(value), ..*old(self) }),
            name@ == AUTHOR_FIELD@ ==> *final(self) == (BookForm { author: Some(value), ..*old(self) }),
            name@ == PUBLISHED_DATE_FIELD@ ==> *final(self) == (BookForm {
                published_date: Some(value),
                ..*old(self)
            }),
            name@ != TITLE_FIELD@ && name@ != AUTHOR_FIELD@ && name@ != PUBLISHED_DATE_FIELD@
                ==> *final(self) == *old(self),
    {
        proof {
            reveal_strlit("title");
            reveal_strlit("author");
            reveal_strlit("published_date");
            assert(TITLE_FIELD@[0] != AUTHOR_FIELD@[0]);
            assert(TITLE_FIELD@[0] != PUBLISHED_DATE_FIELD@[0]);
        }
        if same_text(name, TITLE_FIELD) {
            self.title = Some(value);
        } else if same_text(name, AUTHOR_FIELD) {
            self.author = Some(value);
        } else if same_text(name, PUBLISHED_DATE_FIELD) {
            self.published_date = Some(value);
        }
    }

    /// Takes the cover part, given by its declared content type and its size.
    /// An empty part leaves the default cover. A rejected part is recorded,
    /// so that the form fails. An accepted one gets a fresh file path, which
    /// becomes the book's cover and is returned, for the caller to store the
    /// bytes there.
    pub fn accept_cover(&mut self, content_type: &Option<String>, size: usize) -> (r: Result<
        Option<String>,
        AppError,
    >)
        ensures
            cover_decision(*content_type, size as nat) == Ok::<CoverPlan, Seq<char>>(
                CoverPlan::UseDefault,
            ) ==> r == Ok::<Option<String>, AppError>(None) && *final(self) == *old(self),
            cover_decision(*content_type, size as nat) == Ok::<CoverPlan, Seq<char>>(
                CoverPlan::Store,
            ) ==> (r matches Ok(Some(p)) && (exists|id: u128| p@ == cover_path(id))
                && *final(self) == (BookForm { image_path: p, ..*old(self) })),
            cover_decision(*content_type, size as nat) matches Err(m) ==> (r matches Err(
                AppError::Validation(e),
            ) && e@ == m && final(self).rejected is Some && (old(self).rejected is None
                ==> final(self).rejected->0@ == m) && *final(self) == (BookForm {
                rejected: final(self).rejected,
                ..*old(self)
            })),
    {
        let decision = check_cover(content_type, size);
        match decision {
            Ok(CoverPlan::UseDefault) => Ok(None),
            Ok(CoverPlan::Store) => {
                let id = new_id();
                let p = cover_file_path(id);
                self.image_path = p.clone();
                Ok(Some(p))
            },
            Err(e) => {
                if self.rejected.is_none() {
                    match &e {
                        AppError::Validation(m) => {
                            self.rejected = Some(m.clone());
                        },
                        _ => {},
                    }
                }
                Err(e)
            },
        }
    }

    /// The book that the form describes, or the validation error that
    /// stops it.
    pub fn finish(&self) -> (r: Result<CreateBook, AppError>)
        ensures
            answers(r, self.outcome()),
    {
        proof {
            reveal_strlit("Missing field: title");
            reveal_strlit("Missing field: author");
            reveal_strlit("Missing field: published_date");
        }
        if let Some(m) = &self.rejected {
            return Err(AppError::Validation(m.clone()));
        }
        let title = match &self.title {
            Some(t) => t.clone(),
            None => {
                return Err(AppError::Validation(String::from_str(MISSING_TITLE_MESSAGE)));
            },
        };
        let author = match &self.author {
            Some(a) => a.clone(),
            None => {
                return Err(AppError::Validation(String::from_str(MISSING_AUTHOR_MESSAGE)));
            },
        };
        let published_date = match &self.published_date {
            Some(d) => parse_published_date(d.as_str())?,
            None => {
                return Err(AppError::Validation(String::from_str(MISSING_DATE_MESSAGE)));
            },
        };
        Ok(CreateBook { title, author, published_date, image_path: self.image_path.clone() })
    }
}

impl BookForm {
    /// The statement that stores the book of a complete form under `id`;
    /// where the form fails, no statement is made.
    pub fn insert_statement(&self, id: u128) -> (r: Result<Statement, AppError>)
        ensures
            self.outcome() matches Err(m) ==> (r matches Err(AppError::Validation(e)) && e@ == m),
            self.outcome() matches Ok(b) ==> (r matches Ok(st) && st.sql == INSERT_BOOK
                && st.params@ == seq![
                SqlValue::Id(id),
                SqlValue::Text(b.title),
                SqlValue::Text(b.author),
                SqlValue::Int(b.published_date),
                SqlValue::Text(b.image_path),
            ]),
    {
        let book = self.finish()?;
        Ok(create_book(id, &book))
    }
}

/// A non-empty cover part that is not declared an image is refused with a
/// validation error (400), and a form that holds such a refusal makes no
/// statement, so no row is written.
pub proof fn lemma_non_image_cover_rejected(form: BookForm, content_type: Option<String>, size: nat)
    requires
        size > 0,
        !is_image_type(content_type),
    ensures
        cover_decision(content_type, size) == Err::<CoverPlan, Seq<char>>(NOT_AN_IMAGE_MESSAGE@),
        forall|m: String| #[trigger] AppError::Validation(m).spec_status() == 400,
        form.rejected is Some ==> form.outcome() is Err,
{
}

/// A non-empty cover part larger than `MAX_IMAGE_SIZE` is refused with a
/// validation error (400).
pub proof fn lemma_oversized_cover_rejected(content_type: Option<String>, size: nat)
    requires
        size > MAX_IMAGE_SIZE,
    ensures
        cover_decision(content_type, size) is Err,
        is_image_type(content_type) ==> cover_decision(content_type, size) == Err::<
            CoverPlan,
            Seq<char>,
        >(IMAGE_TOO_LARGE_MESSAGE@),
{
}

/// An empty cover part changes nothing, and a form whose cover was never
/// set gives a book with the default cover.
pub proof fn lemma_no_cover_uses_default(form: BookForm, content_type: Option<String>)
    requires
        form.image_path@ == DEFAULT_IMAGE_PATH@,
    ensures
        cover_decision(content_type, 0) == Ok::<CoverPlan, Seq<char>>(CoverPlan::UseDefault),
        form.outcome() matches Ok(b) ==> b.image_path@ == DEFAULT_IMAGE_PATH@,
{
}

} // verus!
