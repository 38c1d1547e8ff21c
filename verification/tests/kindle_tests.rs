use litforge_notes::clippings::{parse_clippings, Clipping, EntryKind};
use litforge_notes::datetime::Timestamp;
use litforge_notes::error::ImportError;
use litforge_notes::kindle::{import_clippings, import_clippings_text, import_clippings_with_ids};
use litforge_notes::models::{Book, Note, Quote};
use litforge_notes::reconcile::ImportSummary;
use litforge_notes::store::Store;

const NOW: Timestamp = Timestamp { secs: 1_700_000_000, nanos: 0 };
const LATER: Timestamp = Timestamp { secs: 1_800_000_000, nanos: 0 };
const ADDED: Timestamp = Timestamp { secs: 1_459_004_379, nanos: 0 };

const FILE: &str = "Walden (Henry David Thoreau)\n\
- Your Highlight on page 3 | Added on Saturday, 26 March 2016 14:59:39\n\
\n\
Simplify, simplify.\n\
==========\n\
Walden (Henry David Thoreau)\n\
- Your Note on page 3 | Added on Saturday, 26 March 2016 14:59:39\n\
\n\
so true\n\
==========\n\
Walden (Henry David Thoreau)\n\
- Your Bookmark on page 9 | Added on Saturday, 26 March 2016 14:59:39\n\
\n\
\n\
==========\n\
Emma\n\
- Your Highlight on page 1 | Added on Saturday, 26 March 2016 14:59:39\n\
\n\
Handsome, clever, and rich.\n\
==========\n";

fn tags(prefix: &str, count: usize) -> Vec<String> {
    (0..count).map(|i| format!("{}{}", prefix, i)).collect()
}

fn entry(title: &str, author: Option<&str>, kind: EntryKind, content: Option<&str>) -> Clipping {
    Clipping {
        title: title.to_string(),
        author: author.map(|a| a.to_string()),
        entry_type: kind,
        added_at: ADDED,
        content: content.map(|c| c.to_string()),
    }
}

#[test]
fn first_import_adds_books_authors_quotes_and_notes() {
    let mut store = Store::new();
    let summary = import_clippings_text(&mut store, FILE, NOW, &tags("id-", 20)).unwrap();
    assert_eq!(summary, ImportSummary { new_books: 2, new_quotes: 2 });
    assert_eq!(store.authors.len(), 1);
    assert_eq!(store.authors[0].id, "id-1");
    assert_eq!(store.authors[0].name, "Henry David Thoreau");
    assert_eq!(
        store.books,
        vec![
            Book {
                id: "id-0".to_string(),
                author_id: None,
                title: "Walden".to_string(),
                publication_year: None,
                created_at: NOW,
                updated_at: NOW,
                deleted_at: None,
                original_id: Some("Walden".to_string()),
            },
            Book {
                id: "id-4".to_string(),
                author_id: None,
                title: "Emma".to_string(),
                publication_year: None,
                created_at: NOW,
                updated_at: NOW,
                deleted_at: None,
                original_id: Some("Emma".to_string()),
            },
        ]
    );
    assert_eq!(
        store.quotes,
        vec![
            Quote {
                id: "id-2".to_string(),
                book_id: Some("id-0".to_string()),
                author_id: Some("id-1".to_string()),
                chapter_id: None,
                chapter_progress: None,
                content: Some("Simplify, simplify.".to_string()),
                starred: Some(0),
                created_at: ADDED,
                updated_at: ADDED,
                imported_at: Some(NOW),
                deleted_at: None,
                original_id: None,
            },
            Quote {
                id: "id-5".to_string(),
                book_id: Some("id-4".to_string()),
                author_id: None,
                chapter_id: None,
                chapter_progress: None,
                content: Some("Handsome, clever, and rich.".to_string()),
                starred: Some(0),
                created_at: ADDED,
                updated_at: ADDED,
                imported_at: Some(NOW),
                deleted_at: None,
                original_id: None,
            },
        ]
    );
    assert_eq!(
        store.notes,
        vec![Note {
            id: "id-3".to_string(),
            book_id: Some("id-0".to_string()),
            author_id: Some("id-1".to_string()),
            quote_id: None,
            content: Some("so true".to_string()),
            created_at: ADDED,
            updated_at: ADDED,
            deleted_at: None,
        }]
    );
    assert!(store.chapters.is_empty());
}

#[test]
fn second_import_of_the_same_file_adds_no_book_and_no_quote() {
    let mut store = Store::new();
    import_clippings_text(&mut store, FILE, NOW, &tags("first-", 20)).unwrap();
    let after_first = store.clone();
    let summary = import_clippings_text(&mut store, FILE, LATER, &tags("second-", 20)).unwrap();
    assert_eq!(summary, ImportSummary { new_books: 0, new_quotes: 0 });
    assert_eq!(store.authors, after_first.authors);
    assert_eq!(store.books, after_first.books);
    assert_eq!(store.quotes, after_first.quotes);
    assert_eq!(store.notes.len(), 2);
    assert_eq!(store.notes[1].id, "second-0");
}

#[test]
fn second_import_of_a_file_without_notes_changes_nothing() {
    let entries = vec![
        entry("Walden", Some("Thoreau"), EntryKind::Highlight, Some("Simplify.")),
        entry("Walden", Some("Thoreau"), EntryKind::Highlight, Some("Simplify.")),
        entry("Emma", None, EntryKind::Highlight, Some("Simplify.")),
    ];
    let mut store = Store::new();
    let first = import_clippings_with_ids(&mut store, &entries, NOW, &tags("first-", 20)).unwrap();
    assert_eq!(first, ImportSummary { new_books: 2, new_quotes: 2 });
    let after_first = store.clone();
    let second = import_clippings_with_ids(&mut store, &entries, LATER, &vec![]).unwrap();
    assert_eq!(second, ImportSummary { new_books: 0, new_quotes: 0 });
    assert_eq!(store, after_first);
}

#[test]
fn text_that_differs_in_white_space_is_another_quote() {
    let entries = vec![
        entry("Walden", None, EntryKind::Highlight, Some("Simplify.")),
        entry("Walden", None, EntryKind::Highlight, Some("Simplify. ")),
        entry("Walden", None, EntryKind::Highlight, Some("simplify.")),
    ];
    let mut store = Store::new();
    let summary = import_clippings_with_ids(&mut store, &entries, NOW, &tags("id-", 20)).unwrap();
    assert_eq!(summary, ImportSummary { new_books: 1, new_quotes: 3 });
}

#[test]
fn entries_without_content_and_bookmarks_leave_no_quote_and_no_note() {
    let entries = vec![
        entry("Walden", Some("Thoreau"), EntryKind::Highlight, None),
        entry("Walden", Some("Thoreau"), EntryKind::Note, None),
        entry("Emma", None, EntryKind::Bookmark, Some("")),
        entry("Emma", None, EntryKind::Bookmark, None),
    ];
    let mut store = Store::new();
    let summary = import_clippings_with_ids(&mut store, &entries, NOW, &tags("id-", 20)).unwrap();
    assert_eq!(summary, ImportSummary { new_books: 2, new_quotes: 0 });
    assert_eq!(store.authors.len(), 1);
    assert!(store.quotes.is_empty());
    assert!(store.notes.is_empty());
}

#[test]
fn file_with_a_second_line_without_added_on_creates_no_record() {
    let text = "Walden (Henry David Thoreau)\n\
- Your Highlight on page 3 | Added on Saturday, 26 March 2016 14:59:39\n\
\n\
Simplify, simplify.\n\
==========\n\
Emma\n\
- Your Highlight on page 1\n\
\n\
Handsome, clever, and rich.\n\
==========\n";
    let mut store = Store::new();
    let result = import_clippings_text(&mut store, text, NOW, &tags("id-", 20));
    assert_eq!(
        result,
        Err(ImportError::InvalidFormat(
            "Invalid metadata format on line: - Your Highlight on page 1".to_string()
        ))
    );
    assert_eq!(store, Store::new());
}

#[test]
fn failure_of_the_store_leaves_it_as_it_was() {
    let mut store = Store::new();
    import_clippings_text(&mut store, FILE, NOW, &tags("old-", 20)).unwrap();
    let before = store.clone();
    let entries = vec![
        entry("Ulysses", Some("James Joyce"), EntryKind::Highlight, Some("Yes.")),
        entry("Ulysses", Some("James Joyce"), EntryKind::Note, Some("the end")),
    ];
    let offered = vec!["n-0".to_string(), "n-1".to_string(), "n-2".to_string(), "old-3".to_string()];
    let result = import_clippings_with_ids(&mut store, &entries, LATER, &offered);
    assert_eq!(result, Err(ImportError::PersistenceError("Failed to insert note".to_string())));
    assert_eq!(store, before);
    let result = import_clippings_with_ids(&mut store, &entries, LATER, &tags("n-", 2));
    assert_eq!(result, Err(ImportError::PersistenceError("Failed to insert quote".to_string())));
    assert_eq!(store, before);
    let result = import_clippings_with_ids(&mut store, &entries, LATER, &tags("n-", 1));
    assert_eq!(result, Err(ImportError::PersistenceError("Failed to insert author".to_string())));
    let result = import_clippings_with_ids(&mut store, &entries, LATER, &vec![]);
    assert_eq!(result, Err(ImportError::PersistenceError("Failed to insert book".to_string())));
    assert_eq!(store, before);
}

#[test]
fn clippings_import_with_drawn_identifiers_counts_the_same() {
    let mut store = Store::new();
    let entries = parse_clippings(FILE).unwrap();
    assert_eq!(
        import_clippings(&mut store, &entries, NOW),
        Ok(ImportSummary { new_books: 2, new_quotes: 2 })
    );
    assert_eq!(store.quotes[0].book_id, Some(store.books[0].id.clone()));
    assert_eq!(
        import_clippings(&mut store, &entries, LATER),
        Ok(ImportSummary { new_books: 0, new_quotes: 0 })
    );
    assert_eq!(store.quotes.len(), 2);
    assert_eq!(store.books.len(), 2);
}

#[test]
fn three_fresh_identifiers_for_each_entry_are_enough() {
    let entries = parse_clippings(FILE).unwrap();
    let mut store = Store::new();
    let summary =
        import_clippings_with_ids(&mut store, &entries, NOW, &tags("id-", 3 * entries.len())).unwrap();
    assert_eq!(summary.new_books, store.books.len());
    assert_eq!(summary.new_quotes, store.quotes.len());
}
