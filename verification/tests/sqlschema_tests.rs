use litforge_notes::sqlschema::{parse_book, parse_note, BookJson, NoteJson};
use serde_json::Value;

fn json(text: &str) -> Value {
    serde_json::from_str(text).unwrap()
}

#[test]
fn book_with_author() {
    let value = json(
        r#"{"volumeid": "file:///mnt/onboard/Books/a.epub", "booktitle": null,
            "title": "La vita sul nostro pianeta", "author": "David Attenborough", "itemscount": 140}"#,
    );
    assert_eq!(
        parse_book(&value),
        Ok(BookJson {
            id: "file:///mnt/onboard/Books/a.epub".to_string(),
            title: "La vita sul nostro pianeta".to_string(),
            author: Some("David Attenborough".to_string()),
        })
    );
}

#[test]
fn book_without_author() {
    let value = json(r#"{"volumeid": "v", "title": "t", "author": null}"#);
    assert_eq!(
        parse_book(&value),
        Ok(BookJson { id: "v".to_string(), title: "t".to_string(), author: None })
    );
    let value = json(r#"{"volumeid": "v", "title": "t", "author": 7}"#);
    assert_eq!(parse_book(&value).unwrap().author, None);
}

#[test]
fn book_without_volume_or_title_is_refused() {
    assert_eq!(
        parse_book(&json(r#"{"title": "t"}"#)),
        Err("Invalid parameter volumeid".to_string())
    );
    assert_eq!(
        parse_book(&json(r#"{"volumeid": "v"}"#)),
        Err("Invalid parameter title".to_string())
    );
    assert_eq!(parse_book(&json(r#"{}"#)), Err("Invalid parameter volumeid".to_string()));
    assert_eq!(
        parse_book(&json(r#"{"volumeid": 3, "title": "t"}"#)),
        Err("Invalid parameter volumeid".to_string())
    );
}

#[test]
fn value_that_is_no_object_is_refused() {
    assert_eq!(parse_book(&json("[1, 2]")), Err("Invalid parameter volumeid".to_string()));
    assert_eq!(parse_book(&json("\"volumeid\"")), Err("Invalid parameter volumeid".to_string()));
    assert_eq!(parse_book(&Value::Null), Err("Invalid parameter volumeid".to_string()));
    assert_eq!(parse_note(&json("12")), Err("Invalid parameter bookmarkid".to_string()));
}

#[test]
fn note_with_every_member() {
    let value = json(
        r#"{"volumeid": "file:///mnt/onboard/Books/b.epub",
            "bookmarkid": "166479e7-5a37-497c-a391-7a12b3410c28",
            "text": "a passage", "annotation": null,
            "datecreated": "2012-12-24T20:06:50.000", "datemodified": "2012-12-24T20:06:50Z",
            "chapterprogress": 0.818414, "booktitle": "title",
            "chapter": "Epilogo. Dieci regole di vita", "author": "Rutger Bregman",
            "kind": "highlight", "dateformatted": "Monday, 24 December 2012 20:06:50"}"#,
    );
    assert_eq!(
        parse_note(&value),
        Ok(NoteJson {
            id: "166479e7-5a37-497c-a391-7a12b3410c28".to_string(),
            book_id: Some("file:///mnt/onboard/Books/b.epub".to_string()),
            text: Some("a passage".to_string()),
            datecreated: Some("2012-12-24T20:06:50.000".to_string()),
            datemodified: Some("2012-12-24T20:06:50Z".to_string()),
            chapter: Some("Epilogo. Dieci regole di vita".to_string()),
            chapter_progress: Some(0.818414f64.to_bits()),
            note_type: "highlight".to_string(),
            annotation: None,
        })
    );
}

#[test]
fn note_with_the_two_members_that_it_needs() {
    let value = json(r#"{"bookmarkid": "b", "kind": "note", "chapterprogress": 1}"#);
    assert_eq!(
        parse_note(&value),
        Ok(NoteJson {
            id: "b".to_string(),
            book_id: None,
            text: None,
            datecreated: None,
            datemodified: None,
            chapter: None,
            chapter_progress: Some(1.0f64.to_bits()),
            note_type: "note".to_string(),
            annotation: None,
        })
    );
    let value = json(r#"{"bookmarkid": "b", "kind": "note", "chapterprogress": "half"}"#);
    assert_eq!(parse_note(&value).unwrap().chapter_progress, None);
}

#[test]
fn note_without_identifier_or_kind_is_refused() {
    assert_eq!(
        parse_note(&json(r#"{"kind": "note"}"#)),
        Err("Invalid parameter bookmarkid".to_string())
    );
    assert_eq!(
        parse_note(&json(r#"{"bookmarkid": "b"}"#)),
        Err("Invalid parameter kind".to_string())
    );
    assert_eq!(parse_note(&json(r#"{}"#)), Err("Invalid parameter bookmarkid".to_string()));
}
