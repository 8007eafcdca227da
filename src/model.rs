use vstd::prelude::*;
use crate::cover::DEFAULT_IMAGE_PATH;

verus! {

/// A book as the database holds it.
#[derive(Clone, Debug, PartialEq, Eq)]
pub struct Book {
    pub id: u128,
    pub title: String,
    pub author: String,
    pub published_date: i32,
    pub image_path: String,
}

/// The fields a client supplies to create or update a book.
#[derive(Clone, Debug, PartialEq, Eq)]
pub struct CreateBook {
    pub title: String,
    pub author: String,
    pub published_date: i32,
    pub image_path: String,
}

impl CreateBook {
    /// The fields of a book to create. Without an image path, or with an
    /// empty one, the book gets the default cover, so its path is never empty.
    pub fn new(title: String, author: String, published_date: i32, image_path: Option<String>) -> (r: CreateBook)
        ensures
            r.title == title,
            r.author == author,
            r.published_date == published_date,
            image_path is Some && image_path->0@.len() > 0 ==> r.image_path == image_path->0,
            !(image_path is Some && image_path->0@.len() > 0) ==> r.image_path@
                == DEFAULT_IMAGE_PATH@,
            r.image_path@.len() > 0,
    {
        proof {
            reveal_strlit("uploads/portada_generica.jpg");
        }
        let image_path = match image_path {
            Some(p) => if p.as_str().unicode_len() > 0 {
                p
            } else {
                String::from_str(DEFAULT_IMAGE_PATH)
            },
            None => String::from_str(DEFAULT_IMAGE_PATH),
        };
        CreateBook { title, author, published_date, image_path }
    }
}

/// A point in time in UTC: whole seconds since the Unix epoch and the
/// nanoseconds past that second.
#[derive(Clone, Copy, Debug, PartialEq, Eq, Structural)]
pub struct Timestamp {
    pub secs: i64,
    pub nanos: u32,
}

impl Timestamp {
    pub open spec fn wf(self) -> bool {
        self.nanos < 1_000_000_000
    }

    /// Builds a timestamp, or `None` when `nanos` is a whole second or more.
    pub fn new(secs: i64, nanos: u32) -> (r: Option<Timestamp>)
        ensures
            r is Some <==> nanos < 1_000_000_000,
            r matches Some(t) ==> t.wf() && t.secs == secs && t.nanos == nanos,
    {
        if nanos < 1_000_000_000 {
            Some(Timestamp { secs, nanos })
        } else {
            None
        }
    }
}

/// A comment on a book; `created_at` is assigned by the database.
#[derive(Clone, Debug, PartialEq, Eq)]
pub struct Comment {
    pub id: u128,
    pub book_id: u128,
    pub text: String,
    pub created_at: Timestamp,
}

/// The body of a comment creation request.
#[derive(Clone, Debug, PartialEq, Eq)]
pub struct CreateComment {
    pub text: String,
}

/// The query string of the book list page.
#[derive(Clone, Debug, PartialEq, Eq)]
pub struct SearchParams {
    pub search: Option<String>,
}

/// What the landing page shows: the number of books.
#[derive(Clone, Copy, Debug, PartialEq, Eq, Structural)]
pub struct IndexTemplate {
    pub count: i64,
}

/// What the book list page shows.
#[derive(Clone, Debug, PartialEq, Eq)]
pub struct BookListTemplate {
    pub books: Vec<Book>,
}

/// The book creation page, which shows an empty form.
#[derive(Clone, Copy, Debug, PartialEq, Eq, Structural)]
pub struct BookCreateTemplate;

/// What the edit page shows: the book being edited.
#[derive(Clone, Debug, PartialEq, Eq)]
pub struct BookEditTemplate {
    pub book: Book,
}

} // verus!
