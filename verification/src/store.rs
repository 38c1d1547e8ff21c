//! The library as a run of imports sees it: five tables of rows, looked up
//! by name, by outside identifier or by content, and only ever appended to.

use crate::datetime::Timestamp;
use crate::models::{Author, Book, Chapter, Note, Quote};
use vstd::prelude::*;

verus! {

/// The tables that an import reads and fills. Rows stand in the order in
/// which they were added; where several rows answer a lookup, the oldest
/// is the answer.
#[derive(Debug, Clone, PartialEq, Eq)]
pub struct Store {
    pub authors: Vec<Author>,
    pub books: Vec<Book>,
    pub chapters: Vec<Chapter>,
    pub quotes: Vec<Quote>,
    pub notes: Vec<Note>,
}

/// The tables of a `Store` as sequences of rows.
pub ghost struct StoreView {
    pub authors: Seq<Author>,
    pub books: Seq<Book>,
    pub chapters: Seq<Chapter>,
    pub quotes: Seq<Quote>,
    pub notes: Seq<Note>,
}

impl View for Store {
    type V = StoreView;

    open spec fn view(&self) -> StoreView {
        StoreView {
            authors: self.authors@,
            books: self.books@,
            chapters: self.chapters@,
            quotes: self.quotes@,
            notes: self.notes@,
        }
    }
}

/// Why the store refused a row.
#[derive(Debug, Clone, Copy, PartialEq, Eq)]
pub enum StoreError {
    /// The table holds a row with the same identifier already.
    DuplicateId,
}

/// The lengths of the five tables at one moment, to which `rollback` cuts
/// them back.
#[derive(Debug, Clone, Copy, PartialEq, Eq)]
pub struct Savepoint {
    pub authors: usize,
    pub books: usize,
    pub chapters: usize,
    pub quotes: usize,
    pub notes: usize,
}

/// The position of the first row at or after `start` that is `wanted`.
pub open spec fn first_from<T>(rows: Seq<T>, wanted: spec_fn(T) -> bool, start: int) -> Option<int>
    decreases rows.len() - start,
{
    if start < 0 || start >= rows.len() {
        None
    } else if wanted(rows[start]) {
        Some(start)
    } else {
        first_from(rows, wanted, start + 1)
    }
}

/// The first row that is `wanted`.
pub open spec fn first_match<T>(rows: Seq<T>, wanted: spec_fn(T) -> bool) -> Option<T> {
    match first_from(rows, wanted, 0) {
        Some(i) => Some(rows[i]),
        None => None,
    }
}

/// Authors called `name`, letter for letter.
pub open spec fn author_named(name: Seq<char>) -> spec_fn(Author) -> bool {
    |a: Author| a.name@ == name
}

/// Authors whose identifier is `id`.
pub open spec fn author_with_id(id: Seq<char>) -> spec_fn(Author) -> bool {
    |a: Author| a.id@ == id
}

/// Books that a source knows as `origin`.
pub open spec fn book_from(origin: Seq<char>) -> spec_fn(Book) -> bool {
    |b: Book| b.original_id is Some && b.original_id->0@ == origin
}

/// Books whose identifier is `id`.
pub open spec fn book_with_id(id: Seq<char>) -> spec_fn(Book) -> bool {
    |b: Book| b.id@ == id
}

/// Chapters that a source knows as `origin`.
pub open spec fn chapter_from(origin: Seq<char>) -> spec_fn(Chapter) -> bool {
    |c: Chapter| c.original_id is Some && c.original_id->0@ == origin
}

/// Chapters whose identifier is `id`.
pub open spec fn chapter_with_id(id: Seq<char>) -> spec_fn(Chapter) -> bool {
    |c: Chapter| c.id@ == id
}

/// Quotes that a source knows as `origin`.
pub open spec fn quote_from(origin: Seq<char>) -> spec_fn(Quote) -> bool {
    |q: Quote| q.original_id is Some && q.original_id->0@ == origin
}

/// Quotes of the book `book_id` whose text is exactly `content`.
pub open spec fn quote_saying(book_id: Seq<char>, content: Seq<char>) -> spec_fn(Quote) -> bool {
    |q: Quote|
        q.book_id is Some && q.book_id->0@ == book_id && q.content is Some && q.content->0@
            == content
}

/// Quotes whose identifier is `id`.
pub open spec fn quote_with_id(id: Seq<char>) -> spec_fn(Quote) -> bool {
    |q: Quote| q.id@ == id
}

/// Notes whose identifier is `id`.
pub open spec fn note_with_id(id: Seq<char>) -> spec_fn(Note) -> bool {
    |n: Note| n.id@ == id
}

/// The author row that a store with defaults makes of a name.
pub open spec fn new_author(id: String, name: String, now: Timestamp) -> Author {
    Author { id, name, created_at: now, updated_at: now, deleted_at: None, original_id: None }
}

/// The book row that a store with defaults makes of a title, an author and
/// an outside identifier.
pub open spec fn new_book(
    id: String,
    title: String,
    author_id: Option<String>,
    original_id: Option<String>,
    now: Timestamp,
) -> Book {
    Book {
        id,
        author_id,
        title,
        publication_year: None,
        created_at: now,
        updated_at: now,
        deleted_at: None,
        original_id,
    }
}

impl StoreView {
    /// Whether the identifier of `row` is free among the authors.
    pub open spec fn admits_author(self, row: Author) -> bool {
        first_from(self.authors, author_with_id(row.id@), 0) is None
    }

    /// Whether the identifier of `row` is free among the books.
    pub open spec fn admits_book(self, row: Book) -> bool {
        first_from(self.books, book_with_id(row.id@), 0) is None
    }

    /// Whether the identifier of `row` is free among the chapters.
    pub open spec fn admits_chapter(self, row: Chapter) -> bool {
        first_from(self.chapters, chapter_with_id(row.id@), 0) is None
    }

    /// Whether the identifier of `row` is free among the quotes.
    pub open spec fn admits_quote(self, row: Quote) -> bool {
        first_from(self.quotes, quote_with_id(row.id@), 0) is None
    }

    /// Whether the identifier of `row` is free among the notes.
    pub open spec fn admits_note(self, row: Note) -> bool {
        first_from(self.notes, note_with_id(row.id@), 0) is None
    }

    /// The tables after an attempt to add an author.
    pub open spec fn with_author(self, row: Author) -> StoreView {
        if self.admits_author(row) {
            StoreView { authors: self.authors.push(row), ..self }
        } else {
            self
        }
    }

    /// The tables after an attempt to add a book.
    pub open spec fn with_book(self, row: Book) -> StoreView {
        if self.admits_book(row) {
            StoreView { books: self.books.push(row), ..self }
        } else {
            self
        }
    }

    /// The tables after an attempt to add a chapter.
    pub open spec fn with_chapter(self, row: Chapter) -> StoreView {
        if self.admits_chapter(row) {
            StoreView { chapters: self.chapters.push(row), ..self }
        } else {
            self
        }
    }

    /// The tables after an attempt to add a quote.
    pub open spec fn with_quote(self, row: Quote) -> StoreView {
        if self.admits_quote(row) {
            StoreView { quotes: self.quotes.push(row), ..self }
        } else {
            self
        }
    }

    /// The tables after an attempt to add a note.
    pub open spec fn with_note(self, row: Note) -> StoreView {
        if self.admits_note(row) {
            StoreView { notes: self.notes.push(row), ..self }
        } else {
            self
        }
    }

    /// Whether each table of `self` begins with the rows of the same table
    /// of `earlier`, in their order.
    pub open spec fn extends(self, earlier: StoreView) -> bool {
        &&& earlier.authors.is_prefix_of(self.authors)
        &&& earlier.books.is_prefix_of(self.books)
        &&& earlier.chapters.is_prefix_of(self.chapters)
        &&& earlier.quotes.is_prefix_of(self.quotes)
        &&& earlier.notes.is_prefix_of(self.notes)
    }

    /// The lengths of the tables.
    pub open spec fn lengths(self) -> Savepoint
        recommends
            self.authors.len() <= usize::MAX,
            self.books.len() <= usize::MAX,
            self.chapters.len() <= usize::MAX,
            self.quotes.len() <= usize::MAX,
            self.notes.len() <= usize::MAX,
    {
        Savepoint {
            authors: self.authors.len() as usize,
            books: self.books.len() as usize,
            chapters: self.chapters.len() as usize,
            quotes: self.quotes.len() as usize,
            notes: self.notes.len() as usize,
        }
    }

    /// The tables cut back to the lengths of `mark`; a table that is shorter
    /// stays as it is.
    pub open spec fn cut_to(self, mark: Savepoint) -> StoreView {
        StoreView {
            authors: cut(self.authors, mark.authors),
            books: cut(self.books, mark.books),
            chapters: cut(self.chapters, mark.chapters),
            quotes: cut(self.quotes, mark.quotes),
            notes: cut(self.notes, mark.notes),
        }
    }
}

/// The first `len` rows, or all of them where there are fewer.
pub open spec fn cut<T>(rows: Seq<T>, len: usize) -> Seq<T> {
    if len <= rows.len() {
        rows.subrange(0, len as int)
    } else {
        rows
    }
}

/// A lookup that found a row found a wanted one, with no wanted row before
/// it; a lookup that found none passed no wanted row.
pub proof fn lemma_first_from_is_first<T>(rows: Seq<T>, wanted: spec_fn(T) -> bool, start: int)
    requires
        0 <= start,
    ensures
        match first_from(rows, wanted, start) {
            Some(i) => start <= i < rows.len() && wanted(rows[i]) && forall|j: int|
                start <= j < i ==> !wanted(#[trigger] rows[j]),
            None => forall|j: int| start <= j < rows.len() ==> !wanted(#[trigger] rows[j]),
        },
    decreases rows.len() - start,
{
    if start < rows.len() && !wanted(rows[start]) {
        lemma_first_from_is_first(rows, wanted, start + 1);
    }
}

/// A wanted row at `at` with none before it from `start` on is what the
/// lookup finds.
pub proof fn lemma_first_from_found<T>(
    rows: Seq<T>,
    wanted: spec_fn(T) -> bool,
    start: int,
    at: int,
)
    requires
        0 <= start <= at < rows.len(),
        wanted(rows[at]),
        forall|j: int| start <= j < at ==> !wanted(#[trigger] rows[j]),
    ensures
        first_from(rows, wanted, start) == Some(at),
    decreases at - start,
{
    if start < at {
        lemma_first_from_found(rows, wanted, start + 1, at);
    }
}

/// Rows added behind the others do not change what a lookup found.
pub proof fn lemma_found_stays<T>(earlier: Seq<T>, later: Seq<T>, wanted: spec_fn(T) -> bool)
    requires
        earlier.is_prefix_of(later),
        first_from(earlier, wanted, 0) is Some,
    ensures
        first_from(later, wanted, 0) == first_from(earlier, wanted, 0),
        first_match(later, wanted) == first_match(earlier, wanted),
{
    lemma_first_from_is_first(earlier, wanted, 0);
    let at = first_from(earlier, wanted, 0)->0;
    assert forall|j: int| 0 <= j <= at implies later[j] == earlier[j] by {
    }
    lemma_first_from_found(later, wanted, 0, at);
}

/// A lookup that found nothing finds a wanted row that is added, and still
/// nothing after another row.
pub proof fn lemma_missing_then_pushed<T>(rows: Seq<T>, row: T, wanted: spec_fn(T) -> bool)
    requires
        first_from(rows, wanted, 0) is None,
    ensures
        first_from(rows.push(row), wanted, 0) == if wanted(row) {
            Some(rows.len() as int)
        } else {
            None::<int>
        },
{
    lemma_first_from_is_first(rows, wanted, 0);
    let longer = rows.push(row);
    if wanted(row) {
        lemma_first_from_found(longer, wanted, 0, rows.len() as int);
    } else {
        lemma_first_from_is_first(longer, wanted, 0);
    }
}

/// Cutting tables that only grew back to their earlier lengths gives the
/// earlier tables: a rollback to a savepoint undoes whatever was added since.
pub proof fn law_rollback_undoes_growth(later: StoreView, earlier: StoreView)
    requires
        later.extends(earlier),
        earlier.authors.len() <= usize::MAX,
        earlier.books.len() <= usize::MAX,
        earlier.chapters.len() <= usize::MAX,
        earlier.quotes.len() <= usize::MAX,
        earlier.notes.len() <= usize::MAX,
    ensures
        later.cut_to(earlier.lengths()) == earlier,
{
}

/// Whether no two rows have the same key. Rows without a key do not count.
pub open spec fn distinct_by<T>(rows: Seq<T>, key: spec_fn(T) -> Option<Seq<char>>) -> bool {
    forall|i: int, j: int|
        #![trigger rows[i], rows[j]]
        0 <= i < j < rows.len() && key(rows[i]) is Some ==> key(rows[i]) != key(rows[j])
}

/// The identifier of an author as a key.
pub open spec fn author_key() -> spec_fn(Author) -> Option<Seq<char>> {
    |a: Author| Some(a.id@)
}

/// The identifier of a book as a key.
pub open spec fn book_key() -> spec_fn(Book) -> Option<Seq<char>> {
    |b: Book| Some(b.id@)
}

/// The identifier of a chapter as a key.
pub open spec fn chapter_key() -> spec_fn(Chapter) -> Option<Seq<char>> {
    |c: Chapter| Some(c.id@)
}

/// The identifier of a quote as a key.
pub open spec fn quote_key() -> spec_fn(Quote) -> Option<Seq<char>> {
    |q: Quote| Some(q.id@)
}

/// The identifier of a note as a key.
pub open spec fn note_key() -> spec_fn(Note) -> Option<Seq<char>> {
    |n: Note| Some(n.id@)
}

/// The identifier that a source gave a book, as a key.
pub open spec fn book_origin() -> spec_fn(Book) -> Option<Seq<char>> {
    |b: Book|
        match b.original_id {
            Some(o) => Some(o@),
            None => None,
        }
}

/// The identifier that a source gave a chapter, as a key.
pub open spec fn chapter_origin() -> spec_fn(Chapter) -> Option<Seq<char>> {
    |c: Chapter|
        match c.original_id {
            Some(o) => Some(o@),
            None => None,
        }
}

/// The identifier that a source gave a quote, as a key.
pub open spec fn quote_origin() -> spec_fn(Quote) -> Option<Seq<char>> {
    |q: Quote|
        match q.original_id {
            Some(o) => Some(o@),
            None => None,
        }
}

impl StoreView {
    /// Whether no two rows of a table share an identifier.
    pub open spec fn keys_distinct(self) -> bool {
        &&& distinct_by(self.authors, author_key())
        &&& distinct_by(self.books, book_key())
        &&& distinct_by(self.chapters, chapter_key())
        &&& distinct_by(self.quotes, quote_key())
        &&& distinct_by(self.notes, note_key())
    }

    /// Whether no two books, no two chapters and no two quotes share an
    /// identifier that a source gave.
    pub open spec fn origins_distinct(self) -> bool {
        &&& distinct_by(self.books, book_origin())
        &&& distinct_by(self.chapters, chapter_origin())
        &&& distinct_by(self.quotes, quote_origin())
    }
}

/// A row whose key no other row has keeps the keys distinct: where a lookup
/// for the rows with the key of `row` finds nothing, the rows with `row`
/// behind them have distinct keys as before.
pub proof fn lemma_push_keeps_distinct<T>(
    rows: Seq<T>,
    row: T,
    key: spec_fn(T) -> Option<Seq<char>>,
    wanted: spec_fn(T) -> bool,
)
    requires
        distinct_by(rows, key),
        key(row) is Some ==> first_from(rows, wanted, 0) is None,
        forall|other: T| key(other) is Some && key(other) == key(row) ==> #[trigger] wanted(other),
    ensures
        distinct_by(rows.push(row), key),
{
    lemma_first_from_is_first(rows, wanted, 0);
}

/// An author that the store admits keeps the identifiers distinct.
pub proof fn lemma_with_author_sound(store: StoreView, row: Author)
    requires
        store.keys_distinct(),
        store.origins_distinct(),
    ensures
        store.with_author(row).keys_distinct(),
        store.with_author(row).origins_distinct(),
{
    if store.admits_author(row) {
        lemma_push_keeps_distinct(store.authors, row, author_key(), author_with_id(row.id@));
    }
}

/// A book that the store admits, and that a source knows by no identifier
/// that another book has, keeps the identifiers distinct.
pub proof fn lemma_with_book_sound(store: StoreView, row: Book)
    requires
        store.keys_distinct(),
        store.origins_distinct(),
        row.original_id is Some ==> first_from(
            store.books,
            book_from(row.original_id->0@),
            0,
        ) is None,
    ensures
        store.with_book(row).keys_distinct(),
        store.with_book(row).origins_distinct(),
{
    if store.admits_book(row) {
        lemma_push_keeps_distinct(store.books, row, book_key(), book_with_id(row.id@));
        let origin = if row.original_id is Some {
            row.original_id->0@
        } else {
            Seq::empty()
        };
        lemma_push_keeps_distinct(store.books, row, book_origin(), book_from(origin));
    }
}

/// A chapter that the store admits, and that a source knows by no
/// identifier that another chapter has, keeps the identifiers distinct.
pub proof fn lemma_with_chapter_sound(store: StoreView, row: Chapter)
    requires
        store.keys_distinct(),
        store.origins_distinct(),
        row.original_id is Some ==> first_from(
            store.chapters,
            chapter_from(row.original_id->0@),
            0,
        ) is None,
    ensures
        store.with_chapter(row).keys_distinct(),
        store.with_chapter(row).origins_distinct(),
{
    if store.admits_chapter(row) {
        lemma_push_keeps_distinct(store.chapters, row, chapter_key(), chapter_with_id(row.id@));
        let origin = if row.original_id is Some {
            row.original_id->0@
        } else {
            Seq::empty()
        };
        lemma_push_keeps_distinct(store.chapters, row, chapter_origin(), chapter_from(origin));
    }
}

/// A quote that the store admits, and that a source knows by no identifier
/// that another quote has, keeps the identifiers distinct.
pub proof fn lemma_with_quote_sound(store: StoreView, row: Quote)
    requires
        store.keys_distinct(),
        store.origins_distinct(),
        row.original_id is Some ==> first_from(
            store.quotes,
            quote_from(row.original_id->0@),
            0,
        ) is None,
    ensures
        store.with_quote(row).keys_distinct(),
        store.with_quote(row).origins_distinct(),
{
    if store.admits_quote(row) {
        lemma_push_keeps_distinct(store.quotes, row, quote_key(), quote_with_id(row.id@));
        let origin = if row.original_id is Some {
            row.original_id->0@
        } else {
            Seq::empty()
        };
        lemma_push_keeps_distinct(store.quotes, row, quote_origin(), quote_from(origin));
    }
}

/// A note that the store admits keeps the identifiers distinct.
pub proof fn lemma_with_note_sound(store: StoreView, row: Note)
    requires
        store.keys_distinct(),
        store.origins_distinct(),
    ensures
        store.with_note(row).keys_distinct(),
        store.with_note(row).origins_distinct(),
{
    if store.admits_note(row) {
        lemma_push_keeps_distinct(store.notes, row, note_key(), note_with_id(row.id@));
    }
}

/// Looks an author up by the exact name.
pub fn get_author_by_name<'a>(author_name: &String, store: &'a Store) -> (r: Option<&'a Author>)
    ensures
        match r {
            Some(a) => first_match(store@.authors, author_named(author_name@)) == Some(*a),
            None => first_match(store@.authors, author_named(author_name@)) is None,
        },
{
    let ghost wanted = author_named(author_name@);
    let mut i: usize = 0;
    while i < store.authors.len()
        invariant
            i <= store.authors.len(),
            wanted == author_named(author_name@),
            first_from(store.authors@, wanted, 0) == first_from(store.authors@, wanted, i as int),
        decreases store.authors.len() - i,
    {
        if store.authors[i].name == *author_name {
            return Some(&store.authors[i]);
        }
        i += 1;
    }
    None
}

/// Looks a book up by the identifier that its source gave it.
pub fn get_book_by_original_id<'a>(original_id: &String, store: &'a Store) -> (r: Option<&'a Book>)
    ensures
        match r {
            Some(b) => first_match(store@.books, book_from(original_id@)) == Some(*b),
            None => first_match(store@.books, book_from(original_id@)) is None,
        },
{
    let ghost wanted = book_from(original_id@);
    let mut i: usize = 0;
    while i < store.books.len()
        invariant
            i <= store.books.len(),
            wanted == book_from(original_id@),
            first_from(store.books@, wanted, 0) == first_from(store.books@, wanted, i as int),
        decreases store.books.len() - i,
    {
        let hit = match &store.books[i].original_id {
            Some(origin) => *origin == *original_id,
            None => false,
        };
        if hit {
            return Some(&store.books[i]);
        }
        i += 1;
    }
    None
}

/// Looks a chapter up by the identifier that its source gave it.
pub fn get_chapter_by_original_id<'a>(original_id: &String, store: &'a Store) -> (r: Option<
    &'a Chapter,
>)
    ensures
        match r {
            Some(c) => first_match(store@.chapters, chapter_from(original_id@)) == Some(*c),
            None => first_match(store@.chapters, chapter_from(original_id@)) is None,
        },
{
    let ghost wanted = chapter_from(original_id@);
    let mut i: usize = 0;
    while i < store.chapters.len()
        invariant
            i <= store.chapters.len(),
            wanted == chapter_from(original_id@),
            first_from(store.chapters@, wanted, 0) == first_from(
                store.chapters@,
                wanted,
                i as int,
            ),
        decreases store.chapters.len() - i,
    {
        let hit = match &store.chapters[i].original_id {
            Some(origin) => *origin == *original_id,
            None => false,
        };
        if hit {
            return Some(&store.chapters[i]);
        }
        i += 1;
    }
    None
}

/// Looks a quote up by the identifier that its source gave it.
pub fn get_quote_by_original_id<'a>(original_id: &String, store: &'a Store) -> (r: Option<
    &'a Quote,
>)
    ensures
        match r {
            Some(q) => first_match(store@.quotes, quote_from(original_id@)) == Some(*q),
            None => first_match(store@.quotes, quote_from(original_id@)) is None,
        },
{
    let ghost wanted = quote_from(original_id@);
    let mut i: usize = 0;
    while i < store.quotes.len()
        invariant
            i <= store.quotes.len(),
            wanted == quote_from(original_id@),
            first_from(store.quotes@, wanted, 0) == first_from(store.quotes@, wanted, i as int),
        decreases store.quotes.len() - i,
    {
        let hit = match &store.quotes[i].original_id {
            Some(origin) => *origin == *original_id,
            None => false,
        };
        if hit {
            return Some(&store.quotes[i]);
        }
        i += 1;
    }
    None
}

/// Looks a quote up by its book and its exact text.
pub fn get_quote_by_book_and_content<'a>(
    book_id: &String,
    content: &String,
    store: &'a Store,
) -> (r: Option<&'a Quote>)
    ensures
        match r {
            Some(q) => first_match(store@.quotes, quote_saying(book_id@, content@)) == Some(*q),
            None => first_match(store@.quotes, quote_saying(book_id@, content@)) is None,
        },
{
    let ghost wanted = quote_saying(book_id@, content@);
    let mut i: usize = 0;
    while i < store.quotes.len()
        invariant
            i <= store.quotes.len(),
            wanted == quote_saying(book_id@, content@),
            first_from(store.quotes@, wanted, 0) == first_from(store.quotes@, wanted, i as int),
        decreases store.quotes.len() - i,
    {
        let same_book = match &store.quotes[i].book_id {
            Some(b) => *b == *book_id,
            None => false,
        };
        let same_text = match &store.quotes[i].content {
            Some(c) => *c == *content,
            None => false,
        };
        if same_book && same_text {
            return Some(&store.quotes[i]);
        }
        i += 1;
    }
    None
}

/// Whether an author has the identifier `id`.
fn author_id_taken(id: &String, store: &Store) -> (r: bool)
    ensures
        r == first_from(store@.authors, author_with_id(id@), 0) is Some,
{
    let ghost wanted = author_with_id(id@);
    let mut i: usize = 0;
    while i < store.authors.len()
        invariant
            i <= store.authors.len(),
            wanted == author_with_id(id@),
            first_from(store.authors@, wanted, 0) == first_from(store.authors@, wanted, i as int),
        decreases store.authors.len() - i,
    {
        if store.authors[i].id == *id {
            return true;
        }
        i += 1;
    }
    false
}

/// Whether a book has the identifier `id`.
fn book_id_taken(id: &String, store: &Store) -> (r: bool)
    ensures
        r == first_from(store@.books, book_with_id(id@), 0) is Some,
{
    let ghost wanted = book_with_id(id@);
    let mut i: usize = 0;
    while i < store.books.len()
        invariant
            i <= store.books.len(),
            wanted == book_with_id(id@),
            first_from(store.books@, wanted, 0) == first_from(store.books@, wanted, i as int),
        decreases store.books.len() - i,
    {
        if store.books[i].id == *id {
            return true;
        }
        i += 1;
    }
    false
}

/// Whether a chapter has the identifier `id`.
fn chapter_id_taken(id: &String, store: &Store) -> (r: bool)
    ensures
        r == first_from(store@.chapters, chapter_with_id(id@), 0) is Some,
{
    let ghost wanted = chapter_with_id(id@);
    let mut i: usize = 0;
    while i < store.chapters.len()
        invariant
            i <= store.chapters.len(),
            wanted == chapter_with_id(id@),
            first_from(store.chapters@, wanted, 0) == first_from(
                store.chapters@,
                wanted,
                i as int,
            ),
        decreases store.chapters.len() - i,
    {
        if store.chapters[i].id == *id {
            return true;
        }
        i += 1;
    }
    false
}

/// Whether a quote has the identifier `id`.
fn quote_id_taken(id: &String, store: &Store) -> (r: bool)
    ensures
        r == first_from(store@.quotes, quote_with_id(id@), 0) is Some,
{
    let ghost wanted = quote_with_id(id@);
    let mut i: usize = 0;
    while i < store.quotes.len()
        invariant
            i <= store.quotes.len(),
            wanted == quote_with_id(id@),
            first_from(store.quotes@, wanted, 0) == first_from(store.quotes@, wanted, i as int),
        decreases store.quotes.len() - i,
    {
        if store.quotes[i].id == *id {
            return true;
        }
        i += 1;
    }
    false
}

/// Whether a note has the identifier `id`.
fn note_id_taken(id: &String, store: &Store) -> (r: bool)
    ensures
        r == first_from(store@.notes, note_with_id(id@), 0) is Some,
{
    let ghost wanted = note_with_id(id@);
    let mut i: usize = 0;
    while i < store.notes.len()
        invariant
            i <= store.notes.len(),
            wanted == note_with_id(id@),
            first_from(store.notes@, wanted, 0) == first_from(store.notes@, wanted, i as int),
        decreases store.notes.len() - i,
    {
        if store.notes[i].id == *id {
            return true;
        }
        i += 1;
    }
    false
}

/// Adds an author under the identifier `id`, unless an author has it.
pub fn insert_author(author_name: String, id: String, now: Timestamp, store: &mut Store) -> (r:
    Result<(), StoreError>)
    ensures
        r is Ok <==> old(store)@.admits_author(new_author(id, author_name, now)),
        final(store)@ == old(store)@.with_author(new_author(id, author_name, now)),
{
    if author_id_taken(&id, store) {
        return Err(StoreError::DuplicateId);
    }
    store.authors.push(
        Author {
            id,
            name: author_name,
            created_at: now,
            updated_at: now,
            deleted_at: None,
            original_id: None,
        },
    );
    Ok(())
}

/// Adds a book with a title, an author and an outside identifier under the
/// identifier `id`, unless a book has it.
pub fn insert_book_with_defaults(
    book_title: String,
    author_id: Option<String>,
    original_id: Option<String>,
    id: String,
    now: Timestamp,
    store: &mut Store,
) -> (r: Result<(), StoreError>)
    ensures
        r is Ok <==> old(store)@.admits_book(
            new_book(id, book_title, author_id, original_id, now),
        ),
        final(store)@ == old(store)@.with_book(
            new_book(id, book_title, author_id, original_id, now),
        ),
{
    if book_id_taken(&id, store) {
        return Err(StoreError::DuplicateId);
    }
    store.books.push(
        Book {
            id,
            author_id,
            title: book_title,
            publication_year: None,
            created_at: now,
            updated_at: now,
            deleted_at: None,
            original_id,
        },
    );
    Ok(())
}

/// Adds a chapter, unless a chapter has its identifier.
pub fn insert_chapter(chapter: Chapter, store: &mut Store) -> (r: Result<(), StoreError>)
    ensures
        r is Ok <==> old(store)@.admits_chapter(chapter),
        final(store)@ == old(store)@.with_chapter(chapter),
{
    if chapter_id_taken(&chapter.id, store) {
        return Err(StoreError::DuplicateId);
    }
    store.chapters.push(chapter);
    Ok(())
}

/// Adds a quote, unless a quote has its identifier.
pub fn insert_quote(quote: Quote, store: &mut Store) -> (r: Result<(), StoreError>)
    ensures
        r is Ok <==> old(store)@.admits_quote(quote),
        final(store)@ == old(store)@.with_quote(quote),
{
    if quote_id_taken(&quote.id, store) {
        return Err(StoreError::DuplicateId);
    }
    store.quotes.push(quote);
    Ok(())
}

/// Adds a note, unless a note has its identifier.
pub fn insert_note(note: Note, store: &mut Store) -> (r: Result<(), StoreError>)
    ensures
        r is Ok <==> old(store)@.admits_note(note),
        final(store)@ == old(store)@.with_note(note),
{
    if note_id_taken(&note.id, store) {
        return Err(StoreError::DuplicateId);
    }
    store.notes.push(note);
    Ok(())
}

impl Store {
    /// A store without rows.
    pub fn new() -> (store: Store)
        ensures
            store@.authors.len() == 0,
            store@.books.len() == 0,
            store@.chapters.len() == 0,
            store@.quotes.len() == 0,
            store@.notes.len() == 0,
    {
        Store {
            authors: Vec::new(),
            books: Vec::new(),
            chapters: Vec::new(),
            quotes: Vec::new(),
            notes: Vec::new(),
        }
    }

    /// Marks the present end of every table.
    pub fn savepoint(&self) -> (mark: Savepoint)
        ensures
            mark == self@.lengths(),
            self@.authors.len() <= usize::MAX,
            self@.books.len() <= usize::MAX,
            self@.chapters.len() <= usize::MAX,
            self@.quotes.len() <= usize::MAX,
            self@.notes.len() <= usize::MAX,
    {
        Savepoint {
            authors: self.authors.len(),
            books: self.books.len(),
            chapters: self.chapters.len(),
            quotes: self.quotes.len(),
            notes: self.notes.len(),
        }
    }

    /// Drops every row that stands behind `mark`.
    pub fn rollback(&mut self, mark: &Savepoint)
        ensures
            final(self)@ == old(self)@.cut_to(*mark),
    {
        self.authors.truncate(mark.authors);
        self.books.truncate(mark.books);
        self.chapters.truncate(mark.chapters);
        self.quotes.truncate(mark.quotes);
        self.notes.truncate(mark.notes);
    }
}

} // verus!
