use litforge_notes::datetime::Timestamp;
use litforge_notes::error::ImportError;
use litforge_notes::ibooks::{
    core_data_time_or, import_ibooks, import_ibooks_with_ids, CoreDataTime, IBooksBookAuthor,
    IBooksExport, IBooksQuote,
};
use litforge_notes::models::{Book, Note, Quote};
use litforge_notes::reconcile::ImportSummary;
use litforge_notes::store::Store;

const NOW: Timestamp = Timestamp { secs: 1_700_000_000, nanos: 0 };
const LATER: Timestamp = Timestamp { secs: 1_800_000_000, nanos: 0 };

fn tags(prefix: &str, count: usize) -> Vec<String> {
    (0..count).map(|i| format!("{}{}", prefix, i)).collect()
}

fn asset(id: &str, title: &str, author: Option<&str>) -> IBooksBookAuthor {
    IBooksBookAuthor {
        id: id.to_string(),
        author: author.map(|a| a.to_string()),
        title: title.to_string(),
    }
}

fn annotation(id: &str, asset: &str, text: &str, words: Option<&str>) -> IBooksQuote {
    IBooksQuote {
        id: id.to_string(),
        book_id: asset.to_string(),
        content: text.to_string(),
        created_at: CoreDataTime { seconds: 357_350_400, nanos: 250_000_000 },
        modified_at: Some(CoreDataTime { seconds: 357_350_460, nanos: 0 }),
        annotation: words.map(|w| w.to_string()),
    }
}

fn library() -> IBooksExport {
    IBooksExport {
        books: vec![
            asset("asset-1", "Walden", Some("Henry David Thoreau")),
            asset("asset-2", "Never Opened", Some("Nobody")),
            asset("asset-3", "Emma", None),
        ],
        quotes: vec![
            annotation("note-1", "asset-1", "Simplify.", None),
            annotation("note-2", "asset-3", "Handsome, clever, and rich.", Some("the opening")),
            annotation("note-3", "asset-9", "From a book that is gone.", None),
        ],
    }
}

#[test]
fn first_import_adds_the_books_that_have_annotations() {
    let mut store = Store::new();
    let summary = import_ibooks_with_ids(&mut store, &library(), NOW, &tags("id-", 20)).unwrap();
    assert_eq!(summary, ImportSummary { new_books: 2, new_quotes: 2 });
    assert_eq!(store.authors.len(), 1);
    assert_eq!(store.authors[0].name, "Henry David Thoreau");
    assert_eq!(
        store.books,
        vec![
            Book {
                id: "id-1".to_string(),
                author_id: Some("id-0".to_string()),
                title: "Walden".to_string(),
                publication_year: None,
                created_at: NOW,
                updated_at: NOW,
                deleted_at: None,
                original_id: Some("asset-1".to_string()),
            },
            Book {
                id: "id-2".to_string(),
                author_id: None,
                title: "Emma".to_string(),
                publication_year: None,
                created_at: NOW,
                updated_at: NOW,
                deleted_at: None,
                original_id: Some("asset-3".to_string()),
            },
        ]
    );
    assert_eq!(
        store.quotes,
        vec![
            Quote {
                id: "id-3".to_string(),
                book_id: Some("id-1".to_string()),
                author_id: Some("id-0".to_string()),
                chapter_id: None,
                chapter_progress: None,
                content: Some("Simplify.".to_string()),
                starred: Some(0),
                created_at: Timestamp { secs: 1_335_657_600, nanos: 250_000_000 },
                updated_at: Timestamp { secs: 1_335_657_660, nanos: 0 },
                imported_at: Some(NOW),
                deleted_at: None,
                original_id: Some("note-1".to_string()),
            },
            Quote {
                id: "id-4".to_string(),
                book_id: Some("id-2".to_string()),
                author_id: None,
                chapter_id: None,
                chapter_progress: None,
                content: Some("Handsome, clever, and rich.".to_string()),
                starred: Some(0),
                created_at: Timestamp { secs: 1_335_657_600, nanos: 250_000_000 },
                updated_at: Timestamp { secs: 1_335_657_660, nanos: 0 },
                imported_at: Some(NOW),
                deleted_at: None,
                original_id: Some("note-2".to_string()),
            },
        ]
    );
    assert_eq!(
        store.notes,
        vec![Note {
            id: "id-5".to_string(),
            book_id: Some("id-2".to_string()),
            author_id: None,
            quote_id: Some("id-4".to_string()),
            content: Some("the opening".to_string()),
            created_at: Timestamp { secs: 1_335_657_600, nanos: 250_000_000 },
            updated_at: Timestamp { secs: 1_335_657_660, nanos: 0 },
            deleted_at: None,
        }]
    );
}

#[test]
fn second_import_of_the_same_library_adds_nothing() {
    let mut store = Store::new();
    import_ibooks_with_ids(&mut store, &library(), NOW, &tags("first-", 20)).unwrap();
    let after_first = store.clone();
    let summary =
        import_ibooks_with_ids(&mut store, &library(), LATER, &tags("second-", 20)).unwrap();
    assert_eq!(summary, ImportSummary { new_books: 0, new_quotes: 0 });
    assert_eq!(store, after_first);
    let summary = import_ibooks_with_ids(&mut store, &library(), LATER, &vec![]).unwrap();
    assert_eq!(summary, ImportSummary { new_books: 0, new_quotes: 0 });
    assert_eq!(store, after_first);
}

#[test]
fn time_beyond_the_calendar_falls_back_to_the_time_of_the_import() {
    let mut store = Store::new();
    let mut odd = library();
    odd.quotes[0].created_at = CoreDataTime { seconds: i64::MAX, nanos: 0 };
    odd.quotes[0].modified_at = None;
    odd.quotes[1].modified_at = Some(CoreDataTime { seconds: 0, nanos: 2_000_000_000 });
    import_ibooks_with_ids(&mut store, &odd, NOW, &tags("id-", 20)).unwrap();
    assert_eq!(store.quotes[0].created_at, NOW);
    assert_eq!(store.quotes[0].updated_at, NOW);
    assert_eq!(store.quotes[1].created_at, Timestamp { secs: 1_335_657_600, nanos: 250_000_000 });
    assert_eq!(store.quotes[1].updated_at, NOW);
}

#[test]
fn core_data_time_or_names_the_time_or_the_fallback() {
    assert_eq!(
        core_data_time_or(&CoreDataTime { seconds: 0, nanos: 0 }, NOW),
        Timestamp { secs: 978_307_200, nanos: 0 }
    );
    assert_eq!(core_data_time_or(&CoreDataTime { seconds: i64::MIN, nanos: 0 }, NOW), NOW);
}

#[test]
fn annotation_without_words_or_with_empty_words_leaves_no_note() {
    let mut store = Store::new();
    let mut quiet = library();
    quiet.quotes[1].annotation = Some("".to_string());
    import_ibooks_with_ids(&mut store, &quiet, NOW, &tags("id-", 20)).unwrap();
    assert_eq!(store.quotes.len(), 2);
    assert!(store.notes.is_empty());
}

#[test]
fn failure_leaves_the_store_as_it_was() {
    let mut store = Store::new();
    import_ibooks_with_ids(&mut store, &library(), NOW, &tags("old-", 20)).unwrap();
    let before = store.clone();
    let more = IBooksExport {
        books: vec![asset("asset-5", "Ulysses", Some("James Joyce"))],
        quotes: vec![
            annotation("note-7", "asset-5", "Yes.", None),
            annotation("note-8", "asset-5", "yes I said yes", Some("the end")),
        ],
    };
    let offered = vec!["n-0".to_string(), "n-1".to_string(), "n-2".to_string(), "old-3".to_string()];
    let result = import_ibooks_with_ids(&mut store, &more, LATER, &offered);
    assert_eq!(result, Err(ImportError::PersistenceError("Failed to insert quote".to_string())));
    assert_eq!(store, before);
    let offered = vec!["n-0".to_string(), "n-1".to_string(), "n-2".to_string(), "n-3".to_string(), "old-5".to_string()];
    let result = import_ibooks_with_ids(&mut store, &more, LATER, &offered);
    assert_eq!(result, Err(ImportError::PersistenceError("Failed to insert note".to_string())));
    assert_eq!(store, before);
    let offered = vec!["old-0".to_string()];
    let result = import_ibooks_with_ids(&mut store, &more, LATER, &offered);
    assert_eq!(result, Err(ImportError::PersistenceError("Failed to insert author".to_string())));
    assert_eq!(store, before);
    let offered = vec!["n-0".to_string(), "old-1".to_string()];
    let result = import_ibooks_with_ids(&mut store, &more, LATER, &offered);
    assert_eq!(result, Err(ImportError::PersistenceError("Failed to insert book".to_string())));
    assert_eq!(store, before);
}

#[test]
fn annotation_of_a_book_known_only_to_the_store_becomes_a_quote() {
    let mut store = Store::new();
    import_ibooks_with_ids(&mut store, &library(), NOW, &tags("old-", 20)).unwrap();
    let later = IBooksExport {
        books: vec![],
        quotes: vec![annotation("note-5", "asset-1", "Another line.", None)],
    };
    let summary = import_ibooks_with_ids(&mut store, &later, LATER, &tags("new-", 5)).unwrap();
    assert_eq!(summary, ImportSummary { new_books: 0, new_quotes: 1 });
    assert_eq!(store.quotes[2].book_id, Some("old-1".to_string()));
    assert_eq!(store.quotes[2].author_id, Some("old-0".to_string()));
}

#[test]
fn library_import_with_drawn_identifiers_counts_the_same() {
    let mut store = Store::new();
    let summary = import_ibooks(&mut store, &library(), NOW).unwrap();
    assert_eq!(summary, ImportSummary { new_books: 2, new_quotes: 2 });
    assert_eq!(store.notes[0].quote_id, Some(store.quotes[1].id.clone()));
    assert_ne!(store.quotes[0].id, store.quotes[1].id);
    assert_eq!(import_ibooks(&mut store, &library(), LATER), Ok(ImportSummary { new_books: 0, new_quotes: 0 }));
}

#[test]
fn library_counts_are_the_rows_that_were_added() {
    let mut store = Store::new();
    let summary = import_ibooks_with_ids(&mut store, &library(), NOW, &tags("id-", 12)).unwrap();
    assert_eq!(summary.new_books, store.books.len());
    assert_eq!(summary.new_quotes, store.quotes.len());
    let rows = store.authors.len() + store.books.len() + store.quotes.len() + store.notes.len();
    assert_eq!(rows, 6);
    assert!(store.notes.iter().all(|n| n.id != "id-6"));
}
