//! Where the three kinds of export are found, which statements read them,
//! and when a source counts as unreadable.

use crate::error::{Failure, ImportError};
use crate::kobo::{kobo_layout, KoboLayout, KOBO_VOLUME_LAYOUT_SINCE};
use vstd::prelude::*;

verus! {

/// The directory, below the home of the user, in which Apple Books keeps
/// its databases.
pub const IBOOKS_DB_PATH: &'static str = "/Library/Containers/com.apple.iBooksX/Data/Documents/";

/// The pattern, below that directory, for the database of annotations.
pub const IBOOKS_DB_ANNOTATION_PATH: &'static str = "AEAnnotation/AEAnnotation*.sqlite";

/// The pattern, below that directory, for the database of books.
pub const IBOOKS_DB_ASSET_PATH: &'static str = "BKLibrary/BKLibrary*.sqlite";

/// What is said where the database of a Kobo reader is no file.
pub const KOBO_NOT_FOUND: &'static str = "Database file not found";

/// What is said where the database of a Kobo reader tells no version.
pub const KOBO_NO_VERSION: &'static str = "Failed to get Kobo database version";

/// What is said where the clippings file is no file.
pub const CLIPPINGS_NOT_FOUND: &'static str = "File not found";

/// What is said where Apple Books has no database of annotations.
pub const IBOOKS_NO_ANNOTATIONS: &'static str = "iBooks annotation database not found";

/// What is said where Apple Books has no database of books.
pub const IBOOKS_NO_ASSETS: &'static str = "iBooks asset database not found";

/// The statement that reads the version of a Kobo database.
pub const QUERY_KOBO_VERSION: &'static str = "SELECT version FROM DbVersion;";

/// The statement that reads the books of a Kobo database with their
/// authors.
pub const QUERY_KOBO_BOOKS_AUTHORS: &'static str =
    "SELECT DISTINCT b.VolumeID as volume_id, c.Title as title, c.Attribution as author \
     FROM Bookmark b INNER JOIN content c ON b.VolumeID = c.ContentID \
     ORDER BY c.Title;";

/// The statement that reads the chapters of one book of a Kobo database in
/// their order.
pub const QUERY_KOBO_CHAPTERS: &'static str =
    "SELECT DISTINCT c.ContentID as content_id, c.BookID as book_id, \
     c.Booktitle as book_title, c.Title as title, c.VolumeIndex as volume_index \
     FROM content c WHERE c.BookID = ? ORDER BY c.VolumeIndex;";

/// The statement that reads the bookmarks of a Kobo database that lays them
/// out by volume.
pub const QUERY_KOBO_ITEMS_V175: &'static str =
    "SELECT b.VolumeID as volume_id, c.ContentID as content_id, b.Text as text, \
     b.Annotation as annotation, b.DateCreated as date_created, \
     b.DateModified as date_modified, b.ChapterProgress as chapter_progress, \
     c.BookTitle as book_title, c.Title as chapter, b.BookmarkID as bookmark_id, \
     b.Type as item_type \
     FROM Bookmark b INNER JOIN content c ON b.VolumeID = c.BookID \
     GROUP BY b.DateCreated ORDER BY b.ChapterProgress ASC, b.DateCreated ASC;";

/// The statement that reads the bookmarks of a Kobo database that lays them
/// out by content.
pub const QUERY_KOBO_ITEMS_V174: &'static str =
    "SELECT b.VolumeID as volume_id, c.ContentID as content_id, b.Text as text, \
     b.Annotation as annotation, b.DateCreated as date_created, \
     b.DateModified as date_modified, b.ChapterProgress as chapter_progress, \
     c.BookTitle as book_title, c.Title as chapter, b.BookmarkID as bookmark_id, \
     b.Type as item_type \
     FROM Bookmark b LEFT JOIN content c ON b.ContentID = c.ContentID \
     GROUP BY b.DateCreated ORDER BY b.ChapterProgress ASC, b.DateCreated ASC;";

/// The statement that reads the books of Apple Books.
pub const QUERY_IBOOKS_BOOKS: &'static str =
    "SELECT ZASSETID as id, ZAUTHOR as author, ZTITLE as title FROM ZBKLIBRARYASSET;";

/// The statement that reads the annotations of Apple Books: those that are
/// not deleted and have a text, which stands in one of two columns.
pub const QUERY_IBOOKS_ANNOTATIONS: &'static str =
    "SELECT ZANNOTATIONUUID AS id, ZANNOTATIONASSETID AS book_id, \
     COALESCE(ZANNOTATIONSELECTEDTEXT, ZFUTUREPROOFING5) AS content, \
     ZANNOTATIONCREATIONDATE AS created_at, ZANNOTATIONMODIFICATIONDATE AS modified_at, \
     ZANNOTATIONNOTE as annotation \
     FROM ZAEANNOTATION \
     WHERE ZANNOTATIONDELETED = 0 \
     AND COALESCE(ZANNOTATIONSELECTEDTEXT, ZFUTUREPROOFING5) IS NOT NULL \
     AND COALESCE(ZANNOTATIONSELECTEDTEXT, ZFUTUREPROOFING5) != '';";

/// The failure for a source that is missing or cannot be opened.
pub open spec fn unreadable(what: &str) -> Failure {
    Failure::SourceUnreadable(what@)
}

/// The failure for a source that is missing or cannot be opened.
pub fn source_unreadable(what: &str) -> (e: ImportError)
    ensures
        e@ == unreadable(what),
{
    ImportError::SourceUnreadable(String::from_str(what))
}

/// The statement that reads the bookmarks of a Kobo database of the given
/// layout.
pub fn kobo_items_query(layout: KoboLayout) -> (statement: &'static str)
    ensures
        statement@ == match layout {
            KoboLayout::ByVolume => QUERY_KOBO_ITEMS_V175@,
            KoboLayout::ByContent => QUERY_KOBO_ITEMS_V174@,
        },
{
    match layout {
        KoboLayout::ByVolume => QUERY_KOBO_ITEMS_V175,
        KoboLayout::ByContent => QUERY_KOBO_ITEMS_V174,
    }
}

/// Whether a Kobo database can be opened: it must be a file.
pub fn kobo_source(is_file: bool) -> (r: Result<(), ImportError>)
    ensures
        r is Ok <==> is_file,
        r is Err ==> r->Err_0@ == unreadable(KOBO_NOT_FOUND),
{
    if is_file {
        Ok(())
    } else {
        Err(source_unreadable(KOBO_NOT_FOUND))
    }
}

/// The layout of a Kobo database that told its version; one that told none
/// cannot be read.
pub fn kobo_layout_of(version: Option<i32>) -> (r: Result<KoboLayout, ImportError>)
    ensures
        match version {
            Some(v) => r == Ok::<KoboLayout, ImportError>(
                if v >= KOBO_VOLUME_LAYOUT_SINCE {
                    KoboLayout::ByVolume
                } else {
                    KoboLayout::ByContent
                },
            ),
            None => r is Err && r->Err_0@ == unreadable(KOBO_NO_VERSION),
        },
{
    match version {
        Some(v) => Ok(kobo_layout(v)),
        None => Err(source_unreadable(KOBO_NO_VERSION)),
    }
}

/// Whether a clippings file can be read: it must be a file.
pub fn clippings_source(is_file: bool) -> (r: Result<(), ImportError>)
    ensures
        r is Ok <==> is_file,
        r is Err ==> r->Err_0@ == unreadable(CLIPPINGS_NOT_FOUND),
{
    if is_file {
        Ok(())
    } else {
        Err(source_unreadable(CLIPPINGS_NOT_FOUND))
    }
}

/// The two patterns by which the databases of Apple Books are looked for
/// below the home of the user: that of the annotations first, that of the
/// books second.
pub fn ibooks_patterns(home: &str) -> (r: (String, String))
    ensures
        r.0@ == home@ + IBOOKS_DB_PATH@ + IBOOKS_DB_ANNOTATION_PATH@,
        r.1@ == home@ + IBOOKS_DB_PATH@ + IBOOKS_DB_ASSET_PATH@,
{
    (
        String::from_str(home).concat(IBOOKS_DB_PATH).concat(IBOOKS_DB_ANNOTATION_PATH),
        String::from_str(home).concat(IBOOKS_DB_PATH).concat(IBOOKS_DB_ASSET_PATH),
    )
}

/// Whether Apple Books can be read: both of its databases must have been
/// found. The database of annotations is asked for first.
pub fn ibooks_sources(annotations: Option<String>, assets: Option<String>) -> (r: Result<
    (String, String),
    ImportError,
>)
    ensures
        match r {
            Ok(found) => annotations == Some(found.0) && assets == Some(found.1),
            Err(e) => if annotations is None {
                e@ == unreadable(IBOOKS_NO_ANNOTATIONS)
            } else {
                assets is None && e@ == unreadable(IBOOKS_NO_ASSETS)
            },
        },
{
    let annotation_path = match annotations {
        Some(path) => path,
        None => {
            return Err(source_unreadable(IBOOKS_NO_ANNOTATIONS));
        },
    };
    match assets {
        Some(path) => Ok((annotation_path, path)),
        None => Err(source_unreadable(IBOOKS_NO_ASSETS)),
    }
}

} // verus!
