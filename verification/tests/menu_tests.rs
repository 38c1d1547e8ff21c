use litforge_notes::error::ImportError;
use litforge_notes::menu::{
    create_payload, device_name, dialog_filter, importing_payload, menu_event_by_id,
    outcome_payload, DialogImportType, MenuEvent, ParseError, Payload,
};
use litforge_notes::text::same_text;
use litforge_notes::queries::{column_for, direction_for, extract_order_clauses};
use litforge_notes::reconcile::ImportSummary;
use litforge_notes::summary::{push_decimal, summary_message};

#[test]
fn menu_entries_are_written_as_their_identifiers() {
    assert_eq!(MenuEvent::ImportFromKobo.to_string(), "import_from_kobo");
    assert_eq!(MenuEvent::ImportFromKindle.to_string(), "import_from_kindle");
    assert_eq!(MenuEvent::ImportFromiBooks.to_string(), "import_from_ibooks");
}

#[test]
fn menu_entries_are_read_whatever_the_case() {
    assert_eq!(MenuEvent::from_str("import_from_kobo"), Ok(MenuEvent::ImportFromKobo));
    assert_eq!(MenuEvent::from_str("IMPORT_FROM_KINDLE"), Ok(MenuEvent::ImportFromKindle));
    assert_eq!(MenuEvent::from_str("Import_From_iBooks"), Ok(MenuEvent::ImportFromiBooks));
    for event in [MenuEvent::ImportFromKobo, MenuEvent::ImportFromKindle, MenuEvent::ImportFromiBooks] {
        assert_eq!(MenuEvent::from_str(&event.to_string()), Ok(event));
    }
}

#[test]
fn other_texts_name_no_menu_entry() {
    assert_eq!(MenuEvent::from_str("import_from_nook"), Err(ParseError::InvalidMenuEvent));
    assert_eq!(MenuEvent::from_str(""), Err(ParseError::InvalidMenuEvent));
    assert_eq!(MenuEvent::from_str(" import_from_kobo"), Err(ParseError::InvalidMenuEvent));
    assert_eq!(ParseError::InvalidMenuEvent.to_string(), "Invalid menu event string");
}

#[test]
fn identifier_is_matched_letter_for_letter() {
    assert_eq!(menu_event_by_id("import_from_kobo"), Ok(MenuEvent::ImportFromKobo));
    assert_eq!(menu_event_by_id("Import_from_kobo"), Err(ParseError::InvalidMenuEvent));
    assert!(same_text("a", "a"));
    assert!(!same_text("a", "A"));
    assert!(!same_text("a", "ab"));
    assert!(same_text("", ""));
}

#[test]
fn dialogs_filter_by_kind_of_file() {
    assert_eq!(dialog_filter(DialogImportType::Kobo), ("KoboReader", "sqlite"));
    assert_eq!(dialog_filter(DialogImportType::Clippings), ("Clippings", "txt"));
}

#[test]
fn payload_holds_what_it_is_given() {
    assert_eq!(
        create_payload(Some("kobo".to_string()), None),
        Payload { device: Some("kobo".to_string()), message: None }
    );
    assert_eq!(
        create_payload(None, Some("done".to_string())),
        Payload { device: None, message: Some("done".to_string()) }
    );
}

#[test]
fn window_is_told_the_device_when_an_import_begins() {
    assert_eq!(device_name(MenuEvent::ImportFromKobo), "kobo");
    assert_eq!(device_name(MenuEvent::ImportFromKindle), "kindle");
    assert_eq!(device_name(MenuEvent::ImportFromiBooks), "ibooks");
    assert_eq!(
        importing_payload(MenuEvent::ImportFromKindle),
        Payload { device: Some("kindle".to_string()), message: None }
    );
}

#[test]
fn window_is_told_how_an_import_ended() {
    let (event, payload) = outcome_payload(&Ok(ImportSummary { new_books: 3, new_quotes: 41 }));
    assert_eq!(event, "import-success");
    assert_eq!(
        payload,
        Payload {
            device: None,
            message: Some("Imported successfully 3 new books and 41 new quotes".to_string())
        }
    );
    let (event, payload) =
        outcome_payload(&Err(ImportError::SourceUnreadable("Database file not found".to_string())));
    assert_eq!(event, "import-error");
    assert_eq!(payload.message, Some("Database file not found".to_string()));
}

#[test]
fn every_failure_has_its_sentence() {
    assert_eq!(ImportError::SourceUnreadable("a".to_string()).message(), "a");
    assert_eq!(ImportError::InvalidFormat("b".to_string()).message(), "b");
    assert_eq!(ImportError::PersistenceError("c".to_string()).message(), "c");
    assert_eq!(ImportError::InvalidTimestamp("d".to_string()).message(), "d");
}

#[test]
fn summary_is_a_sentence_with_both_counts() {
    assert_eq!(
        summary_message(&ImportSummary { new_books: 0, new_quotes: 0 }),
        "Imported successfully 0 new books and 0 new quotes"
    );
    assert_eq!(
        summary_message(&ImportSummary { new_books: 12, new_quotes: 3045 }),
        "Imported successfully 12 new books and 3045 new quotes"
    );
}

#[test]
fn numbers_are_written_in_decimal() {
    for n in [0usize, 1, 9, 10, 11, 99, 100, 101, 1000, 65_535, 1_000_000, usize::MAX] {
        let mut text = "n=".to_string();
        push_decimal(&mut text, n);
        assert_eq!(text, format!("n={}", n));
    }
}

#[test]
fn listing_is_descending_by_last_change_unless_asked_otherwise() {
    assert_eq!(extract_order_clauses(None, None), ("DESC".to_string(), "updated_at".to_string()));
    assert_eq!(
        extract_order_clauses(Some("date_created"), Some("asc")),
        ("ASC".to_string(), "created_at".to_string())
    );
    assert_eq!(
        extract_order_clauses(Some("date_modified"), Some("desc")),
        ("DESC".to_string(), "updated_at".to_string())
    );
    assert_eq!(
        extract_order_clauses(Some("chapter"), Some("Desc")),
        ("DESC".to_string(), "chapter_id".to_string())
    );
    assert_eq!(
        extract_order_clauses(Some("chapter_progress"), Some("DESC")),
        ("DESC".to_string(), "chapter_progress".to_string())
    );
    assert_eq!(
        extract_order_clauses(Some("starred"), Some("sideways")),
        ("ASC".to_string(), "starred".to_string())
    );
    assert_eq!(
        extract_order_clauses(Some("created_at"), Some("")),
        ("ASC".to_string(), "updated_at".to_string())
    );
    assert_eq!(
        extract_order_clauses(Some("Date_Created"), Some(" desc")),
        ("ASC".to_string(), "updated_at".to_string())
    );
}

#[test]
fn direction_and_column_for_given_words() {
    assert_eq!(direction_for("DESC"), "DESC");
    assert_eq!(direction_for("desc"), "ASC");
    assert_eq!(direction_for("ASC"), "ASC");
    assert_eq!(direction_for(""), "ASC");
    assert_eq!(column_for(None), "updated_at");
    assert_eq!(column_for(Some("starred")), "starred");
    assert_eq!(column_for(Some("")), "updated_at");
}
