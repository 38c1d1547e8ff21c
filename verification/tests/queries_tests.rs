use litforge_notes::datetime::Timestamp;
use litforge_notes::models::{clone_text, Author, Book, Chapter, Note, Quote};
use litforge_notes::reconcile::{fresh_ids, resolve_author, take_id, Ledger};
use litforge_notes::store::{
    get_author_by_name, get_book_by_original_id, get_chapter_by_original_id,
    get_quote_by_book_and_content, get_quote_by_original_id, insert_author,
    insert_book_with_defaults, insert_chapter, insert_note, insert_quote, Savepoint, Store,
    StoreError,
};

const NOW: Timestamp = Timestamp { secs: 1_700_000_000, nanos: 0 };

fn quote(id: &str, book: Option<&str>, content: Option<&str>, origin: Option<&str>) -> Quote {
    Quote {
        id: id.to_string(),
        book_id: book.map(|b| b.to_string()),
        author_id: Some("author-1".to_string()),
        chapter_id: Some("chapter_0".to_string()),
        chapter_progress: None,
        content: content.map(|c| c.to_string()),
        starred: Some(0),
        created_at: NOW,
        updated_at: NOW,
        imported_at: Some(NOW),
        deleted_at: None,
        original_id: origin.map(|o| o.to_string()),
    }
}

fn chapter(id: &str, title: &str, index: i64, origin: &str) -> Chapter {
    Chapter {
        id: id.to_string(),
        book_id: Some("book-1".to_string()),
        title: title.to_string(),
        created_at: NOW,
        updated_at: NOW,
        deleted_at: None,
        original_id: Some(origin.to_string()),
        volume_index: index,
    }
}

fn library() -> Store {
    let mut store = Store::new();
    insert_author("George R.R. Martin".to_string(), "author-1".to_string(), NOW, &mut store).unwrap();
    insert_book_with_defaults(
        "A Dance with Dragons".to_string(),
        Some("author-1".to_string()),
        Some("origin-book".to_string()),
        "book-1".to_string(),
        NOW,
        &mut store,
    )
    .unwrap();
    for i in 0..3 {
        insert_chapter(
            chapter(&format!("chapter_{}", i), &format!("Chapter {}", i), i, &format!("origin-chapter-{}", i)),
            &mut store,
        )
        .unwrap();
    }
    insert_quote(
        quote(
            "quote-1",
            Some("book-1"),
            Some("A reader lives a thousand lives before he dies... The man who never reads lives only one."),
            Some("origin-quote"),
        ),
        &mut store,
    )
    .unwrap();
    insert_quote(quote("quote-2", Some("book-1"), Some("These are just examples."), None), &mut store)
        .unwrap();
    store
}

#[test]
fn test_get_author_by_name() {
    let store = library();
    let author = get_author_by_name(&"George R.R. Martin".to_string(), &store).unwrap();
    assert_eq!(author.name, "George R.R. Martin");
    assert_eq!(author.id, "author-1");
    assert!(get_author_by_name(&"george r.r. martin".to_string(), &store).is_none());
    assert!(get_author_by_name(&"".to_string(), &store).is_none());
}

#[test]
fn test_get_book_by_original_id() {
    let store = library();
    let book = get_book_by_original_id(&"origin-book".to_string(), &store).unwrap();
    assert_eq!(book.title, "A Dance with Dragons");
    assert!(get_book_by_original_id(&"book-1".to_string(), &store).is_none());
}

#[test]
fn test_get_chapter_by_original_id() {
    let store = library();
    let chapter = get_chapter_by_original_id(&"origin-chapter-0".to_string(), &store).unwrap();
    assert_eq!(chapter.title, "Chapter 0");
    assert!(get_chapter_by_original_id(&"origin-chapter-3".to_string(), &store).is_none());
}

#[test]
fn test_get_quote_by_original_id() {
    let store = library();
    let found = get_quote_by_original_id(&"origin-quote".to_string(), &store).unwrap();
    assert_eq!(found.id, "quote-1");
    assert!(get_quote_by_original_id(&"quote-1".to_string(), &store).is_none());
}

#[test]
fn test_get_quote_by_book_and_content() {
    let store = library();
    let found = get_quote_by_book_and_content(
        &"book-1".to_string(),
        &"These are just examples.".to_string(),
        &store,
    )
    .unwrap();
    assert_eq!(found.id, "quote-2");
    assert!(get_quote_by_book_and_content(&"book-2".to_string(), &"These are just examples.".to_string(), &store).is_none());
    assert!(get_quote_by_book_and_content(&"book-1".to_string(), &"These are just examples".to_string(), &store).is_none());
}

#[test]
fn oldest_row_answers_a_lookup() {
    let mut store = library();
    insert_book_with_defaults(
        "A Dance with Dragons, again".to_string(),
        None,
        Some("origin-book".to_string()),
        "book-2".to_string(),
        NOW,
        &mut store,
    )
    .unwrap();
    assert_eq!(get_book_by_original_id(&"origin-book".to_string(), &store).unwrap().id, "book-1");
    insert_author("George R.R. Martin".to_string(), "author-2".to_string(), NOW, &mut store).unwrap();
    assert_eq!(get_author_by_name(&"George R.R. Martin".to_string(), &store).unwrap().id, "author-1");
}

#[test]
fn rows_without_outside_identifier_or_content_answer_no_lookup() {
    let mut store = Store::new();
    insert_quote(quote("q", None, None, None), &mut store).unwrap();
    assert!(get_quote_by_original_id(&"".to_string(), &store).is_none());
    assert!(get_quote_by_book_and_content(&"".to_string(), &"".to_string(), &store).is_none());
    insert_quote(quote("r", Some(""), Some(""), Some("")), &mut store).unwrap();
    assert_eq!(get_quote_by_original_id(&"".to_string(), &store).unwrap().id, "r");
    assert_eq!(get_quote_by_book_and_content(&"".to_string(), &"".to_string(), &store).unwrap().id, "r");
}

#[test]
fn identifier_in_use_is_refused() {
    let mut store = library();
    let before = store.clone();
    assert_eq!(
        insert_author("Somebody".to_string(), "author-1".to_string(), NOW, &mut store),
        Err(StoreError::DuplicateId)
    );
    assert_eq!(
        insert_book_with_defaults("Other".to_string(), None, None, "book-1".to_string(), NOW, &mut store),
        Err(StoreError::DuplicateId)
    );
    assert_eq!(insert_chapter(chapter("chapter_1", "x", 9, "y"), &mut store), Err(StoreError::DuplicateId));
    assert_eq!(insert_quote(quote("quote-2", None, None, None), &mut store), Err(StoreError::DuplicateId));
    assert_eq!(store, before);
    let note = Note {
        id: "note-1".to_string(),
        book_id: None,
        author_id: None,
        quote_id: None,
        content: None,
        created_at: NOW,
        updated_at: NOW,
        deleted_at: None,
    };
    assert_eq!(insert_note(note.clone(), &mut store), Ok(()));
    assert_eq!(insert_note(note, &mut store), Err(StoreError::DuplicateId));
    assert_eq!(store.notes.len(), 1);
}

#[test]
fn same_identifier_may_stand_in_two_tables() {
    let mut store = Store::new();
    assert_eq!(insert_author("A".to_string(), "1".to_string(), NOW, &mut store), Ok(()));
    assert_eq!(
        insert_book_with_defaults("B".to_string(), None, None, "1".to_string(), NOW, &mut store),
        Ok(())
    );
    assert_eq!(insert_quote(quote("1", None, None, None), &mut store), Ok(()));
}

#[test]
fn inserted_rows_have_the_defaults() {
    let store = library();
    assert_eq!(
        store.authors[0],
        Author {
            id: "author-1".to_string(),
            name: "George R.R. Martin".to_string(),
            created_at: NOW,
            updated_at: NOW,
            deleted_at: None,
            original_id: None,
        }
    );
    assert_eq!(
        store.books[0],
        Book {
            id: "book-1".to_string(),
            author_id: Some("author-1".to_string()),
            title: "A Dance with Dragons".to_string(),
            publication_year: None,
            created_at: NOW,
            updated_at: NOW,
            deleted_at: None,
            original_id: Some("origin-book".to_string()),
        }
    );
}

#[test]
fn rollback_cuts_back_to_the_savepoint() {
    let mut store = library();
    let before = store.clone();
    let mark = store.savepoint();
    assert_eq!(mark, Savepoint { authors: 1, books: 1, chapters: 3, quotes: 2, notes: 0 });
    insert_author("New".to_string(), "author-9".to_string(), NOW, &mut store).unwrap();
    insert_quote(quote("quote-9", None, None, None), &mut store).unwrap();
    insert_chapter(chapter("chapter_9", "x", 9, "y"), &mut store).unwrap();
    store.rollback(&mark);
    assert_eq!(store, before);
    store.rollback(&Savepoint { authors: 9, books: 9, chapters: 9, quotes: 9, notes: 9 });
    assert_eq!(store, before);
    store.rollback(&Savepoint { authors: 0, books: 1, chapters: 2, quotes: 1, notes: 0 });
    assert!(store.authors.is_empty());
    assert_eq!(store.chapters.len(), 2);
    assert_eq!(store.quotes.len(), 1);
}

#[test]
fn identifiers_on_offer_are_handed_out_in_order() {
    let offered = vec!["a".to_string(), "b".to_string()];
    let mut ledger = Ledger { new_books: 0, new_quotes: 0, used: 0 };
    assert_eq!(take_id(&offered, &mut ledger), Some("a".to_string()));
    assert_eq!(take_id(&offered, &mut ledger), Some("b".to_string()));
    assert_eq!(take_id(&offered, &mut ledger), None);
    assert_eq!(ledger, Ledger { new_books: 0, new_quotes: 0, used: 2 });
}

#[test]
fn drawn_identifiers_differ() {
    let drawn = fresh_ids(50);
    assert_eq!(drawn.len(), 50);
    for id in &drawn {
        assert_eq!(id.len(), 36);
        assert_eq!(drawn.iter().filter(|other| *other == id).count(), 1);
    }
    assert!(fresh_ids(0).is_empty());
}

#[test]
fn author_is_found_or_added() {
    let mut store = library();
    let offered = vec!["new-1".to_string()];
    let mut ledger = Ledger { new_books: 0, new_quotes: 0, used: 0 };
    let known = resolve_author(&"George R.R. Martin".to_string(), NOW, &offered, &mut ledger, &mut store);
    assert_eq!(known.unwrap(), "author-1");
    assert_eq!(ledger.used, 0);
    let added = resolve_author(&"Jane Austen".to_string(), NOW, &offered, &mut ledger, &mut store);
    assert_eq!(added.unwrap(), "new-1");
    assert_eq!(ledger.used, 1);
    assert_eq!(store.authors[1].name, "Jane Austen");
    assert!(resolve_author(&"Third".to_string(), NOW, &offered, &mut ledger, &mut store).is_err());
}

#[test]
fn text_that_may_be_absent_is_copied() {
    assert_eq!(clone_text(&None), None);
    assert_eq!(clone_text(&Some("x".to_string())), Some("x".to_string()));
}
