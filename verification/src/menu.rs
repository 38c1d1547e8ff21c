//! The entries of the import menu, the file dialogs behind them, and what
//! the window is told about an import.

use crate::error::ImportError;
use crate::reconcile::ImportSummary;
use crate::summary::{summary_message, summary_text};
use crate::text::same_text;
use vstd::prelude::*;

verus! {

/// An entry of the import menu.
#[derive(Debug, Clone, Copy, PartialEq, Eq, Structural)]
pub enum MenuEvent {
    ImportFromKobo,
    ImportFromKindle,
    ImportFromiBooks,
}

/// Why a text names no menu entry.
#[derive(Debug, Clone, Copy, PartialEq, Eq, Structural)]
pub enum ParseError {
    InvalidMenuEvent,
}

/// The imports that begin with a file dialog.
#[derive(Debug, Clone, Copy, PartialEq, Eq, Structural)]
pub enum DialogImportType {
    Kobo,
    Clippings,
}

/// What the window is told about an import: the device while the import
/// runs, the message when it has ended.
#[derive(Debug, Clone, PartialEq, Eq)]
pub struct Payload {
    pub device: Option<String>,
    pub message: Option<String>,
}

/// The identifier of the menu entry for a Kobo reader.
pub const ID_IMPORT_FROM_KOBO: &'static str = "import_from_kobo";

/// The identifier of the menu entry for a Kindle.
pub const ID_IMPORT_FROM_KINDLE: &'static str = "import_from_kindle";

/// The identifier of the menu entry for Apple Books.
pub const ID_IMPORT_FROM_IBOOKS: &'static str = "import_from_ibooks";

/// What is said of a text that names no menu entry.
pub const INVALID_MENU_EVENT: &'static str = "Invalid menu event string";

/// The event that tells the window that an import has begun.
pub const EVENT_IMPORTING: &'static str = "importing";

/// The event that tells the window that an import has succeeded.
pub const EVENT_IMPORT_SUCCESS: &'static str = "import-success";

/// The event that tells the window that an import has failed.
pub const EVENT_IMPORT_ERROR: &'static str = "import-error";

/// What `str::to_lowercase` of std makes of a text.
pub uninterp spec fn lowercased(text: Seq<char>) -> Seq<char>;

/// Calls `str::to_lowercase` of std. The contract names the result after the
/// text and claims nothing else of it.
#[verifier::external_body]
fn lowercase(text: &str) -> (lower: String)
    ensures
        lower@ == lowercased(text@),
{
    text.to_lowercase()
}

/// The identifier of a menu entry.
pub open spec fn menu_event_id(event: MenuEvent) -> Seq<char> {
    match event {
        MenuEvent::ImportFromKobo => ID_IMPORT_FROM_KOBO@,
        MenuEvent::ImportFromKindle => ID_IMPORT_FROM_KINDLE@,
        MenuEvent::ImportFromiBooks => ID_IMPORT_FROM_IBOOKS@,
    }
}

/// The menu entry whose identifier is exactly `id`.
pub open spec fn menu_event_with_id(id: Seq<char>) -> Result<MenuEvent, ParseError> {
    if id == ID_IMPORT_FROM_KOBO@ {
        Ok(MenuEvent::ImportFromKobo)
    } else if id == ID_IMPORT_FROM_KINDLE@ {
        Ok(MenuEvent::ImportFromKindle)
    } else if id == ID_IMPORT_FROM_IBOOKS@ {
        Ok(MenuEvent::ImportFromiBooks)
    } else {
        Err(ParseError::InvalidMenuEvent)
    }
}

/// The menu entry whose identifier is exactly `id`.
pub fn menu_event_by_id(id: &str) -> (r: Result<MenuEvent, ParseError>)
    ensures
        r == menu_event_with_id(id@),
{
    if same_text(id, ID_IMPORT_FROM_KOBO) {
        Ok(MenuEvent::ImportFromKobo)
    } else if same_text(id, ID_IMPORT_FROM_KINDLE) {
        Ok(MenuEvent::ImportFromKindle)
    } else if same_text(id, ID_IMPORT_FROM_IBOOKS) {
        Ok(MenuEvent::ImportFromiBooks)
    } else {
        Err(ParseError::InvalidMenuEvent)
    }
}

impl MenuEvent {
    /// The identifier of the entry.
    pub fn to_string(&self) -> (id: String)
        ensures
            id@ == menu_event_id(*self),
    {
        match self {
            MenuEvent::ImportFromKobo => String::from_str(ID_IMPORT_FROM_KOBO),
            MenuEvent::ImportFromKindle => String::from_str(ID_IMPORT_FROM_KINDLE),
            MenuEvent::ImportFromiBooks => String::from_str(ID_IMPORT_FROM_IBOOKS),
        }
    }

    /// The entry that a text names, whatever the case of its letters.
    pub fn from_str(s: &str) -> (r: Result<MenuEvent, ParseError>)
        ensures
            r == menu_event_with_id(lowercased(s@)),
    {
        let lower = lowercase(s);
        menu_event_by_id(lower.as_str())
    }
}

impl ParseError {
    /// The sentence that describes the failure.
    pub fn to_string(&self) -> (text: String)
        ensures
            text@ == INVALID_MENU_EVENT@,
    {
        String::from_str(INVALID_MENU_EVENT)
    }
}

/// The name and the file extension that the dialog of an import shows.
pub fn dialog_filter(import_type: DialogImportType) -> (r: (&'static str, &'static str))
    ensures
        match import_type {
            DialogImportType::Kobo => r.0@ == "KoboReader"@ && r.1@ == "sqlite"@,
            DialogImportType::Clippings => r.0@ == "Clippings"@ && r.1@ == "txt"@,
        },
{
    match import_type {
        DialogImportType::Kobo => ("KoboReader", "sqlite"),
        DialogImportType::Clippings => ("Clippings", "txt"),
    }
}

/// The name by which the window knows the device behind a menu entry.
pub fn device_name(event: MenuEvent) -> (name: &'static str)
    ensures
        name@ == match event {
            MenuEvent::ImportFromKobo => "kobo"@,
            MenuEvent::ImportFromKindle => "kindle"@,
            MenuEvent::ImportFromiBooks => "ibooks"@,
        },
{
    match event {
        MenuEvent::ImportFromKobo => "kobo",
        MenuEvent::ImportFromKindle => "kindle",
        MenuEvent::ImportFromiBooks => "ibooks",
    }
}

/// Puts a device and a message together.
pub fn create_payload(device: Option<String>, message: Option<String>) -> (payload: Payload)
    ensures
        payload.device == device,
        payload.message == message,
{
    Payload { device, message }
}

/// What the window is told when an import begins: the device, no message.
pub fn importing_payload(event: MenuEvent) -> (payload: Payload)
    ensures
        payload.message is None,
        payload.device is Some,
        payload.device->0@ == match event {
            MenuEvent::ImportFromKobo => "kobo"@,
            MenuEvent::ImportFromKindle => "kindle"@,
            MenuEvent::ImportFromiBooks => "ibooks"@,
        },
{
    create_payload(Some(String::from_str(device_name(event))), None)
}

/// The event and the message that tell the window how an import ended: the
/// counts of a run that succeeded, the sentence of the failure otherwise.
pub fn outcome_payload(outcome: &Result<ImportSummary, ImportError>) -> (r: (&'static str, Payload))
    ensures
        r.1.device is None,
        r.1.message is Some,
        match *outcome {
            Ok(summary) => r.0@ == EVENT_IMPORT_SUCCESS@ && r.1.message->0@ == summary_text(
                summary,
            ),
            Err(e) => r.0@ == EVENT_IMPORT_ERROR@ && r.1.message->0@ == e.message_text(),
        },
{
    match outcome {
        Ok(summary) => (EVENT_IMPORT_SUCCESS, create_payload(None, Some(summary_message(summary)))),
        Err(e) => (EVENT_IMPORT_ERROR, create_payload(None, Some(e.message().clone()))),
    }
}

} // verus!
