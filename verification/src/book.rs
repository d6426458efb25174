//! Book records and the table rows that show them.

use vstd::prelude::*;
use crate::date::{iso_date_text, Date, Ymd};
use crate::text::{debug_list, debug_text, decimal, int_text};

verus! {

/// A book as the books endpoint reports it.
#[derive(Clone, Debug, PartialEq, Eq)]
pub struct Book {
    pub id: i32,
    pub title: String,
    pub authors: Vec<String>,
    pub publication_date: Date,
}

/// What a book holds, as mathematical values.
pub ghost struct BookView {
    pub id: int,
    pub title: Seq<char>,
    pub authors: Seq<Seq<char>>,
    pub publication_date: Ymd,
}

impl View for Book {
    type V = BookView;

    open spec fn view(&self) -> BookView {
        BookView {
            id: self.id as int,
            title: self.title@,
            authors: self.authors.deep_view(),
            publication_date: self.publication_date@,
        }
    }
}

/// The four cells of one row of the books table, in column order.
#[derive(Clone, Debug, PartialEq, Eq)]
pub struct Row {
    pub id: String,
    pub title: String,
    pub authors: String,
    pub publication_date: String,
}

/// The texts of a row's cells.
pub ghost struct RowView {
    pub id: Seq<char>,
    pub title: Seq<char>,
    pub authors: Seq<char>,
    pub publication_date: Seq<char>,
}

impl DeepView for Book {
    type V = BookView;

    open spec fn deep_view(&self) -> BookView {
        self@
    }
}

impl View for Row {
    type V = RowView;

    open spec fn view(&self) -> RowView {
        RowView {
            id: self.id@,
            title: self.title@,
            authors: self.authors@,
            publication_date: self.publication_date@,
        }
    }
}

impl DeepView for Row {
    type V = RowView;

    open spec fn deep_view(&self) -> RowView {
        self@
    }
}

/// The row that shows a book: its id in decimal, its title as it is, its
/// authors as `{:?}` prints the list, and its publication date in ISO 8601
/// form.
pub open spec fn row_of(book: BookView) -> RowView {
    RowView {
        id: int_text(book.id),
        title: book.title,
        authors: debug_text(book.authors),
        publication_date: iso_date_text(
            book.publication_date.year,
            book.publication_date.month,
            book.publication_date.day,
        ),
    }
}

/// The rows that show a list of books, one per book and in the same order.
pub open spec fn rows_of(books: Seq<BookView>) -> Seq<RowView> {
    books.map_values(|book: BookView| row_of(book))
}

impl Row {
    /// The row for a book with the given id, title and publication date,
    /// whose authors are shown by the text `authors`.
    pub fn new(id: i32, title: &str, authors: String, publication_date: Date) -> (row: Row)
        ensures
            row@ == (RowView {
                id: int_text(id as int),
                title: title@,
                authors: authors@,
                publication_date: iso_date_text(
                    publication_date@.year,
                    publication_date@.month,
                    publication_date@.day,
                ),
            }),
    {
        Row {
            id: decimal(id as i64),
            title: title.to_owned(),
            authors,
            publication_date: publication_date.text(),
        }
    }
}

impl Book {
    /// The row of the books table that shows this book.
    pub fn row(&self) -> (row: Row)
        ensures
            row@ == row_of(self@),
    {
        Row::new(self.id, self.title.as_str(), debug_list(&self.authors), self.publication_date)
    }
}

} // verus!
