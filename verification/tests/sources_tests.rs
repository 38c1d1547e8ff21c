use litforge_notes::error::ImportError;
use litforge_notes::kobo::KoboLayout;
use litforge_notes::sources::{
    clippings_source, ibooks_patterns, ibooks_sources, kobo_items_query, kobo_layout_of,
    kobo_source, source_unreadable, QUERY_KOBO_ITEMS_V174, QUERY_KOBO_ITEMS_V175,
};

#[test]
fn kobo_database_must_be_a_file() {
    assert_eq!(kobo_source(true), Ok(()));
    assert_eq!(
        kobo_source(false),
        Err(ImportError::SourceUnreadable("Database file not found".to_string()))
    );
}

#[test]
fn kobo_database_must_tell_its_version() {
    assert_eq!(kobo_layout_of(Some(174)), Ok(KoboLayout::ByContent));
    assert_eq!(kobo_layout_of(Some(175)), Ok(KoboLayout::ByVolume));
    assert_eq!(kobo_layout_of(Some(-1)), Ok(KoboLayout::ByContent));
    assert_eq!(
        kobo_layout_of(None),
        Err(ImportError::SourceUnreadable("Failed to get Kobo database version".to_string()))
    );
}

#[test]
fn each_layout_has_its_statement() {
    assert_eq!(kobo_items_query(KoboLayout::ByVolume), QUERY_KOBO_ITEMS_V175);
    assert_eq!(kobo_items_query(KoboLayout::ByContent), QUERY_KOBO_ITEMS_V174);
    assert!(QUERY_KOBO_ITEMS_V175.contains("INNER JOIN content c ON b.VolumeID = c.BookID"));
    assert!(QUERY_KOBO_ITEMS_V174.contains("LEFT JOIN content c ON b.ContentID = c.ContentID"));
    let columns = |statement: &str| statement[..statement.find("FROM").unwrap()].to_string();
    assert_eq!(columns(QUERY_KOBO_ITEMS_V174), columns(QUERY_KOBO_ITEMS_V175));
}

#[test]
fn clippings_file_must_be_a_file() {
    assert_eq!(clippings_source(true), Ok(()));
    assert_eq!(
        clippings_source(false),
        Err(ImportError::SourceUnreadable("File not found".to_string()))
    );
}

#[test]
fn apple_books_is_looked_for_below_the_home() {
    assert_eq!(
        ibooks_patterns("/Users/reader"),
        (
            "/Users/reader/Library/Containers/com.apple.iBooksX/Data/Documents/AEAnnotation/AEAnnotation*.sqlite"
                .to_string(),
            "/Users/reader/Library/Containers/com.apple.iBooksX/Data/Documents/BKLibrary/BKLibrary*.sqlite"
                .to_string(),
        )
    );
}

#[test]
fn apple_books_needs_both_databases() {
    assert_eq!(
        ibooks_sources(Some("a".to_string()), Some("b".to_string())),
        Ok(("a".to_string(), "b".to_string()))
    );
    assert_eq!(
        ibooks_sources(None, Some("b".to_string())),
        Err(ImportError::SourceUnreadable("iBooks annotation database not found".to_string()))
    );
    assert_eq!(
        ibooks_sources(Some("a".to_string()), None),
        Err(ImportError::SourceUnreadable("iBooks asset database not found".to_string()))
    );
    assert_eq!(
        ibooks_sources(None, None),
        Err(ImportError::SourceUnreadable("iBooks annotation database not found".to_string()))
    );
}

#[test]
fn unreadable_source_keeps_its_sentence() {
    assert_eq!(source_unreadable("gone"), ImportError::SourceUnreadable("gone".to_string()));
}
