use litforge_notes::clippings::{
    lines_of, parse_clipping, parse_clippings, split_metadata, split_title, Clipping, EntryKind,
};
use litforge_notes::datetime::Timestamp;
use litforge_notes::error::ImportError;
use litforge_notes::text::{chars_of, is_space_char, trim};
use regex::Regex;

fn lines(texts: &[&str]) -> Vec<String> {
    texts.iter().map(|t| t.to_string()).collect()
}

fn title_by_pattern(re: &Regex, line: &str) -> Option<(String, Option<String>)> {
    let caps = re.captures(line.trim())?;
    Some((caps[1].trim().to_string(), caps.get(2).map(|m| m.as_str().trim().to_string())))
}

fn metadata_by_pattern(re: &Regex, line: &str) -> Option<(EntryKind, String)> {
    let caps = re.captures(line.trim())?;
    let kind = match &caps[1] {
        "Highlight" => EntryKind::Highlight,
        "Note" => EntryKind::Note,
        _ => EntryKind::Bookmark,
    };
    Some((kind, caps[2].trim().to_string()))
}

fn every_sequence(tokens: &[&str], longest: usize) -> Vec<String> {
    let mut all = vec![String::new()];
    let mut last = vec![String::new()];
    for _ in 0..longest {
        let mut next = Vec::new();
        for head in &last {
            for token in tokens {
                next.push(format!("{}{}", head, token));
            }
        }
        all.extend(next.iter().cloned());
        last = next;
    }
    all
}

const SAMPLE: &str = "\u{feff}The Pragmatic Programmer (Andrew Hunt;David Thomas)\r\n\
- Your Highlight on page 12 | Location 180-181 | Added on Saturday, March 26, 2016, 02:59 PM\r\n\
\r\n\
Care about your craft.\r\n\
==========\r\n\
Walden\r\n\
- Your Note on Location 50 | Added on Saturday, 26 March 2016 14:59:39\r\n\
\r\n\
first line\r\n\
second line\r\n\
==========\r\n\
Walden\r\n\
- Your Bookmark on Location 77 | Added on Saturday, 26 March 2016 14:59:39\r\n\
\r\n\
\r\n\
==========\r\n";

#[test]
fn sample_file_gives_its_three_entries() {
    let entries = parse_clippings(SAMPLE).unwrap();
    assert_eq!(
        entries,
        vec![
            Clipping {
                title: "The Pragmatic Programmer".to_string(),
                author: Some("Andrew Hunt;David Thomas".to_string()),
                entry_type: EntryKind::Highlight,
                added_at: Timestamp { secs: 1_459_004_340, nanos: 0 },
                content: Some("Care about your craft.".to_string()),
            },
            Clipping {
                title: "Walden".to_string(),
                author: None,
                entry_type: EntryKind::Note,
                added_at: Timestamp { secs: 1_459_004_379, nanos: 0 },
                content: Some("first line\nsecond line".to_string()),
            },
            Clipping {
                title: "Walden".to_string(),
                author: None,
                entry_type: EntryKind::Bookmark,
                added_at: Timestamp { secs: 1_459_004_379, nanos: 0 },
                content: Some("".to_string()),
            },
        ]
    );
}

#[test]
fn file_without_byte_order_mark_and_with_plain_line_feeds_reads_the_same() {
    let plain = SAMPLE.trim_start_matches('\u{feff}').replace("\r\n", "\n");
    assert_eq!(parse_clippings(&plain).unwrap(), parse_clippings(SAMPLE).unwrap());
}

#[test]
fn last_block_needs_no_delimiter() {
    let text = "Walden (Thoreau)\n- Your Highlight | Added on 2020-11-22 10:11:42\n\nSimplify.";
    let entries = parse_clippings(text).unwrap();
    assert_eq!(entries.len(), 1);
    assert_eq!(entries[0].content, Some("Simplify.".to_string()));
    assert_eq!(entries[0].added_at, Timestamp { secs: 1_606_039_902, nanos: 0 });
}

#[test]
fn empty_file_has_no_entries() {
    assert_eq!(parse_clippings("").unwrap(), vec![]);
    assert_eq!(parse_clippings("\u{feff}").unwrap(), vec![]);
    assert_eq!(parse_clippings("\n").unwrap(), vec![]);
    assert_eq!(parse_clippings("==========\n==========\n").unwrap(), vec![]);
}

#[test]
fn blank_first_line_is_passed_over() {
    let text = "   \nWalden\n- Your Highlight | Added on 2020-11-22 10:11:42\n\nSimplify.\n";
    let entries = parse_clippings(text).unwrap();
    assert_eq!(entries.len(), 1);
    assert_eq!(entries[0].title, "Walden");
}

#[test]
fn blank_line_inside_a_file_opens_a_block() {
    let text = "Walden\n- Your Highlight | Added on 2020-11-22 10:11:42\n\nSimplify.\n==========\n\nWalden\n";
    assert!(matches!(parse_clippings(text), Err(ImportError::InvalidFormat(_))));
}

#[test]
fn delimiter_may_stand_between_white_space() {
    let text = "Walden\n- Your Highlight | Added on 2020-11-22 10:11:42\n\nOne.\n  ==========\t\nWalden\n- Your Highlight | Added on 2020-11-22 10:11:42\n\nTwo.\n";
    let entries = parse_clippings(text).unwrap();
    assert_eq!(entries.len(), 2);
    assert_eq!(entries[1].content, Some("Two.".to_string()));
}

#[test]
fn second_line_without_added_on_fails_the_whole_file() {
    let text = "Walden\n- Your Highlight | Added on 2020-11-22 10:11:42\n\nOne.\n==========\nWalden\n- Your Highlight on page 3\n\nTwo.\n==========\n";
    assert_eq!(
        parse_clippings(text),
        Err(ImportError::InvalidFormat(
            "Invalid metadata format on line: - Your Highlight on page 3".to_string()
        ))
    );
}

#[test]
fn second_line_without_a_kind_fails_the_whole_file() {
    let text = "Walden\n- Your Remark | Added on 2020-11-22 10:11:42\n\nOne.\n";
    assert_eq!(
        parse_clippings(text),
        Err(ImportError::InvalidFormat(
            "Invalid metadata format on line: - Your Remark | Added on 2020-11-22 10:11:42"
                .to_string()
        ))
    );
}

#[test]
fn unreadable_date_fails_the_whole_file() {
    let text = "Walden\n- Your Highlight | Added on the first of May\n\nOne.\n";
    assert_eq!(
        parse_clippings(text),
        Err(ImportError::InvalidFormat(
            "Error parsing date => input contains invalid characters".to_string()
        ))
    );
}

#[test]
fn block_of_one_line_fails_the_whole_file() {
    assert_eq!(
        parse_clippings("Walden\n==========\n"),
        Err(ImportError::InvalidFormat("Invalid metadata format on line: ".to_string()))
    );
}

#[test]
fn title_with_author() {
    assert_eq!(
        split_title("Walden (Henry David Thoreau)"),
        Some(("Walden".to_string(), Some("Henry David Thoreau".to_string())))
    );
}

#[test]
fn title_without_author() {
    assert_eq!(split_title("  Walden  "), Some(("Walden".to_string(), None)));
    assert_eq!(split_title(""), Some(("".to_string(), None)));
}

#[test]
fn author_begins_at_the_first_bracket() {
    assert_eq!(
        split_title("Emma (Penguin Classics) (Jane Austen)"),
        Some(("Emma".to_string(), Some("Penguin Classics) (Jane Austen".to_string())))
    );
}

#[test]
fn bracket_that_is_not_closed_at_the_end_belongs_to_the_title() {
    assert_eq!(split_title("Emma (Jane Austen) again"), Some(("Emma (Jane Austen) again".to_string(), None)));
    assert_eq!(split_title("Emma (Jane Austen"), Some(("Emma (Jane Austen".to_string(), None)));
    assert_eq!(split_title("Emma Jane Austen)"), Some(("Emma Jane Austen)".to_string(), None)));
}

#[test]
fn author_alone() {
    assert_eq!(split_title("(Jane Austen)"), Some(("".to_string(), Some("Jane Austen".to_string()))));
    assert_eq!(split_title("( )"), Some(("".to_string(), Some("".to_string()))));
    assert_eq!(split_title("()"), Some(("".to_string(), Some("".to_string()))));
}

#[test]
fn title_line_that_breaks_without_author_is_refused() {
    assert_eq!(split_title("Emma\nJane Austen"), None);
    assert_eq!(split_title("Emma\n(Jane Austen)"), Some(("Emma".to_string(), Some("Jane Austen".to_string()))));
    assert_eq!(split_title("Emma (Jane\nAusten)"), None);
}

#[test]
fn title_lines_read_as_the_pattern_reads_them() {
    let re = Regex::new(r"^(.*?)(?:\s*\((.*?)\))?$").unwrap();
    let tokens = ["T", " ", "(", ")", "\n", "\t", "\u{a0}", "é"];
    for line in every_sequence(&tokens, 6) {
        assert_eq!(split_title(&line), title_by_pattern(&re, &line), "line {:?}", line);
    }
}

#[test]
fn longer_title_lines_read_as_the_pattern_reads_them() {
    let re = Regex::new(r"^(.*?)(?:\s*\((.*?)\))?$").unwrap();
    let tokens = ["Moby Dick", "  ", "(Herman Melville)", "(", ")", "\r", "\n", ") (", "\u{3000}"];
    for line in every_sequence(&tokens, 5) {
        assert_eq!(split_title(&line), title_by_pattern(&re, &line), "line {:?}", line);
    }
}

#[test]
fn metadata_of_a_highlight() {
    assert_eq!(
        split_metadata("- Your Highlight on page 12 | Location 180-181 | Added on Saturday, March 26, 2016, 02:59 PM"),
        Some((EntryKind::Highlight, "Saturday, March 26, 2016, 02:59 PM".to_string()))
    );
}

#[test]
fn metadata_of_a_note_and_of_a_bookmark() {
    assert_eq!(
        split_metadata("- Your Note on Location 50 | Added on 2020-11-22 10:11:42"),
        Some((EntryKind::Note, "2020-11-22 10:11:42".to_string()))
    );
    assert_eq!(
        split_metadata("Bookmark Added on   x  "),
        Some((EntryKind::Bookmark, "x".to_string()))
    );
}

#[test]
fn first_kind_and_first_added_on_count() {
    assert_eq!(
        split_metadata("- Note about a Highlight Added on one Added on two"),
        Some((EntryKind::Note, "one Added on two".to_string()))
    );
    assert_eq!(split_metadata("Added on 2020 Highlight"), None);
    assert_eq!(split_metadata("HighlightAdded on"), None);
    assert_eq!(split_metadata("HighlightAdded on ."), Some((EntryKind::Highlight, ".".to_string())));
}

#[test]
fn metadata_lines_read_as_the_pattern_reads_them() {
    let re = Regex::new(r"(?:- )?(?:Your )?(Highlight|Note|Bookmark).*?Added on (.*?)$").unwrap();
    let tokens = ["- ", "Your ", "Highlight", "Note", "Bookmark", "Added on ", "Added on", " ", "\n", "x"];
    for line in every_sequence(&tokens, 5) {
        assert_eq!(split_metadata(&line), metadata_by_pattern(&re, &line), "line {:?}", line);
    }
}

#[test]
fn metadata_lines_of_letters_read_as_the_pattern_reads_them() {
    let re = Regex::new(r"(?:- )?(?:Your )?(Highlight|Note|Bookmark).*?Added on (.*?)$").unwrap();
    let tokens = ["N", "o", "t", "e", "Added on ", "Not", "\t", "\n"];
    for line in every_sequence(&tokens, 6) {
        assert_eq!(split_metadata(&line), metadata_by_pattern(&re, &line), "line {:?}", line);
    }
}

#[test]
fn entry_of_a_block() {
    let block = lines(&[
        "Walden (Henry David Thoreau)",
        "- Your Highlight on page 3 | Added on 2020-11-22T10:11:42Z",
        "",
        "Simplify,",
        "simplify.",
    ]);
    assert_eq!(
        parse_clipping(&block),
        Ok(Clipping {
            title: "Walden".to_string(),
            author: Some("Henry David Thoreau".to_string()),
            entry_type: EntryKind::Highlight,
            added_at: Timestamp { secs: 1_606_039_902, nanos: 0 },
            content: Some("Simplify,\nsimplify.".to_string()),
        })
    );
}

#[test]
fn block_without_lines_behind_the_empty_line_has_no_content() {
    let block = lines(&["Walden", "- Your Bookmark | Added on 2020-11-22 10:11:42", ""]);
    assert_eq!(parse_clipping(&block).unwrap().content, None);
    let shorter = lines(&["Walden", "- Your Bookmark | Added on 2020-11-22 10:11:42"]);
    assert_eq!(parse_clipping(&shorter).unwrap().content, None);
}

#[test]
fn block_whose_third_line_is_not_empty_has_no_content() {
    let block = lines(&["Walden", "- Your Highlight | Added on 2020-11-22 10:11:42", " ", "text"]);
    assert_eq!(parse_clipping(&block).unwrap().content, None);
}

#[test]
fn block_with_unreadable_lines_says_which() {
    assert_eq!(
        parse_clipping(&lines(&["Walden\nPond", "- Your Highlight | Added on 2020-11-22 10:11:42"])),
        Err("Unable to parse line: Walden\nPond".to_string())
    );
    assert_eq!(
        parse_clipping(&lines(&["Walden", "Highlight"])),
        Err("Invalid metadata format on line: Highlight".to_string())
    );
    assert_eq!(
        parse_clipping(&lines(&["Walden", "Highlight Added on 2020-11-22"])),
        Err("Error parsing date => premature end of input".to_string())
    );
    assert_eq!(parse_clipping(&lines(&[])), Err("Invalid metadata format on line: ".to_string()));
}

#[test]
fn white_space_is_what_the_language_calls_white_space() {
    for code in 0..=0x10ffffu32 {
        if let Some(c) = char::from_u32(code) {
            assert_eq!(is_space_char(c), c.is_whitespace(), "character {:x}", code);
        }
    }
}

#[test]
fn trimming_is_what_the_language_calls_trimming() {
    let tokens = [" ", "\t", "a", "\n", "\u{2003}", "b c", "\u{feff}"];
    for text in every_sequence(&tokens, 5) {
        let got: String = trim(&chars_of(&text)).into_iter().collect();
        assert_eq!(got, text.trim(), "text {:?}", text);
    }
}

#[test]
fn lines_are_what_the_language_calls_lines() {
    let tokens = ["a", "\n", "\r", "\r\n", " ", "b\r", "\n\n"];
    for text in every_sequence(&tokens, 6) {
        let expected: Vec<String> = text.lines().map(|l| l.to_string()).collect();
        assert_eq!(lines_of(&text), expected, "text {:?}", text);
    }
}

#[test]
fn lines_of_given_texts() {
    assert_eq!(lines_of(""), Vec::<String>::new());
    assert_eq!(lines_of("\n"), vec!["".to_string()]);
    assert_eq!(lines_of("a"), vec!["a".to_string()]);
    assert_eq!(lines_of("a\r\nb\rc\n\r\n"), vec!["a".to_string(), "b\rc".to_string(), "".to_string()]);
    assert_eq!(lines_of("a\r"), vec!["a\r".to_string()]);
}
