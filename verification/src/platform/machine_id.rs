//! The identifier store: where each platform keeps the identifier, how
//! what was found there is read, and what a write comes to.
//!
//! The host looks where `identifier_location` points and reports what it
//! found as a `RawRead`; `read_machine_guid` makes the identifier of it.
//! Before a write, `write_machine_guid` says what is to be put where;
//! after it, `write_result` puts the outcome in the library's terms.

use crate::machine_id::{
    is_canonical_guid, validate_guid_format, view_of_done, view_of_read, BackupError,
    BackupErrorView, MachineId, MachineIdView,
};
use crate::platform::Platform;
use crate::text::{
    chars_of, contains, contains_word, copy_range, find_char, index_of, join, lemma_index_of_part,
    string_of_chars, trim, trimmed,
};
use vstd::prelude::*;

verus! {

/// A place where a platform keeps the identifier.
#[derive(Debug)]
pub enum Location {
    /// A value under a key of the local machine's registry.
    RegistryValue { key: String, name: String },
    /// A file, and the file to read where the first cannot be read.
    File { path: String, fallback: Option<String> },
    /// What a program prints when it is run with the given arguments.
    CommandOutput { program: String, arguments: Vec<String> },
}

/// A `Location` with its texts as sequences of characters.
pub enum LocationView {
    RegistryValue { key: Seq<char>, name: Seq<char> },
    File { path: Seq<char>, fallback: Option<Seq<char>> },
    CommandOutput { program: Seq<char>, arguments: Seq<Seq<char>> },
}

impl View for Location {
    type V = LocationView;

    open spec fn view(&self) -> LocationView {
        match self {
            Location::RegistryValue { key, name } => LocationView::RegistryValue {
                key: key@,
                name: name@,
            },
            Location::File { path, fallback } => LocationView::File {
                path: path@,
                fallback: fallback.deep_view(),
            },
            Location::CommandOutput { program, arguments } => LocationView::CommandOutput {
                program: program@,
                arguments: arguments.deep_view(),
            },
        }
    }
}

impl DeepView for Location {
    type V = LocationView;

    open spec fn deep_view(&self) -> LocationView {
        self@
    }
}

/// Where `platform` keeps the identifier, if it keeps one.
pub open spec fn location_on(platform: Platform) -> Option<LocationView> {
    match platform {
        Platform::Windows => Some(
            LocationView::RegistryValue {
                key: "SOFTWARE\\Microsoft\\Cryptography"@,
                name: "MachineGuid"@,
            },
        ),
        Platform::Linux => Some(
            LocationView::File {
                path: "/etc/machine-id"@,
                fallback: Some("/var/lib/dbus/machine-id"@),
            },
        ),
        Platform::MacOs => Some(
            LocationView::CommandOutput {
                program: "ioreg"@,
                arguments: seq!["-rd1"@, "-c"@, "IOPlatformExpertDevice"@],
            },
        ),
        Platform::Other => None,
    }
}

/// How the identifier's origin is named in what is read on `platform`.
pub open spec fn source_on(platform: Platform) -> Seq<char> {
    match platform {
        Platform::Windows => "HKLM\\SOFTWARE\\Microsoft\\Cryptography"@,
        Platform::Linux => "/etc/machine-id"@,
        Platform::MacOs => "IOPlatformUUID"@,
        Platform::Other => Seq::<char>::empty(),
    }
}

/// Where `platform` keeps the identifier, if it keeps one.
pub fn identifier_location(platform: Platform) -> (location: Option<Location>)
    ensures
        location.deep_view() == location_on(platform),
{
    match platform {
        Platform::Windows => Some(
            Location::RegistryValue {
                key: "SOFTWARE\\Microsoft\\Cryptography".to_owned(),
                name: "MachineGuid".to_owned(),
            },
        ),
        Platform::Linux => Some(
            Location::File {
                path: "/etc/machine-id".to_owned(),
                fallback: Some("/var/lib/dbus/machine-id".to_owned()),
            },
        ),
        Platform::MacOs => {
            let mut arguments: Vec<String> = Vec::new();
            arguments.push("-rd1".to_owned());
            arguments.push("-c".to_owned());
            arguments.push("IOPlatformExpertDevice".to_owned());
            assert(arguments.deep_view() =~= seq!["-rd1"@, "-c"@, "IOPlatformExpertDevice"@]);
            Some(Location::CommandOutput { program: "ioreg".to_owned(), arguments })
        },
        Platform::Other => None,
    }
}

/// What the host found where the identifier is kept.
#[derive(Debug)]
pub enum RawRead {
    /// The text that is kept there: a registry value, a file's content
    /// or a program's output.
    Found(String),
    /// The place is there, the value is not.
    Absent,
    /// The place could not be read; the text says why.
    Failed(String),
}

/// A `RawRead` with its texts as sequences of characters.
pub enum RawReadView {
    Found(Seq<char>),
    Absent,
    Failed(Seq<char>),
}

impl View for RawRead {
    type V = RawReadView;

    open spec fn view(&self) -> RawReadView {
        match self {
            RawRead::Found(text) => RawReadView::Found(text@),
            RawRead::Absent => RawReadView::Absent,
            RawRead::Failed(why) => RawReadView::Failed(why@),
        }
    }
}

/// The text between the first two double quotes of `line`, if the line
/// has two.
pub open spec fn first_quoted(line: Seq<char>) -> Option<Seq<char>> {
    let open = index_of(line, '"', 0);
    let close = index_of(line, '"', open + 1);
    if close < line.len() {
        Some(line.subrange(open + 1, close))
    } else {
        None
    }
}

/// The identifier that a line of the program's output gives: the line
/// has to name the identifier's key, and what it gives is its first
/// quoted text.
pub open spec fn uuid_in_line(line: Seq<char>) -> Option<Seq<char>> {
    if contains_word(line, "IOPlatformUUID"@) {
        first_quoted(line)
    } else {
        None
    }
}

/// The identifier that the program's output gives: that of the first
/// line that gives one.
pub open spec fn uuid_in_output(text: Seq<char>) -> Option<Seq<char>>
    decreases text.len(),
{
    let end = index_of(text, '\n', 0);
    match uuid_in_line(text.subrange(0, end)) {
        Some(found) => Some(found),
        None => if 0 <= end < text.len() {
            uuid_in_output(text.subrange(end + 1, text.len() as int))
        } else {
            None
        },
    }
}

fn quoted_value(line: &Vec<char>) -> (found: Option<String>)
    ensures
        found.deep_view() == first_quoted(line@),
{
    let n = line.len();
    let open = find_char(line, '"', 0);
    if open >= n {
        return None;
    }
    let close = find_char(line, '"', open + 1);
    if close >= n {
        return None;
    }
    Some(string_of_chars(line, open + 1, close))
}

/// The identifier that the program's output gives, if it gives one.
pub fn parse_ioreg_output(output: &str) -> (found: Option<String>)
    ensures
        found.deep_view() == uuid_in_output(output@),
{
    let chars = chars_of(output);
    let key = chars_of("IOPlatformUUID");
    let n = chars.len();
    let mut start: usize = 0;
    assert(chars@.subrange(0, n as int) =~= chars@);
    loop
        invariant
            start <= n,
            n == chars@.len(),
            chars@ == output@,
            key@ == "IOPlatformUUID"@,
            uuid_in_output(output@) == uuid_in_output(chars@.subrange(start as int, n as int)),
        decreases n - start,
    {
        let end = find_char(&chars, '\n', start);
        let line = copy_range(&chars, start, end);
        proof {
            let rest = chars@.subrange(start as int, n as int);
            lemma_index_of_part(chars@, '\n', start as int, n as int, 0);
            assert(index_of(rest, '\n', 0) == end - start);
            assert(rest.subrange(0, end - start) =~= line@);
            if end < n {
                assert(rest.subrange(end - start + 1, rest.len() as int) =~= chars@.subrange(
                    end + 1,
                    n as int,
                ));
            }
        }
        if contains(&line, &key) {
            let found = quoted_value(&line);
            if found.is_some() {
                return found;
            }
        }
        if end >= n {
            return None;
        }
        start = end + 1;
    }
}

/// The identifier as `platform` keeps it in the text that was found: the
/// whole text, the text without the white space around it, or the value
/// that the program's output gives.
pub open spec fn stored_identifier(platform: Platform, text: Seq<char>) -> Option<Seq<char>> {
    match platform {
        Platform::Windows => Some(text),
        Platform::Linux => Some(trimmed(text)),
        Platform::MacOs => uuid_in_output(text),
        Platform::Other => None,
    }
}

/// Why the read failed, in the words of `platform`.
pub open spec fn read_failure(platform: Platform, why: Seq<char>) -> Seq<char> {
    match platform {
        Platform::Linux => "Failed to read machine-id: "@ + why,
        Platform::MacOs => "Failed to execute ioreg: "@ + why,
        _ => why,
    }
}

/// What a read comes to. A platform without an identifier supports no
/// read. A place that could not be read, a missing value and a text
/// that gives no identifier each have their own error; an identifier
/// that is not canonical is refused and comes back in the error.
pub open spec fn read_outcome(platform: Platform, raw: RawReadView) -> Result<
    MachineIdView,
    BackupErrorView,
> {
    if platform == Platform::Other {
        Err(BackupErrorView::UnsupportedPlatform)
    } else {
        match raw {
            RawReadView::Absent => Err(BackupErrorView::NotFound),
            RawReadView::Failed(why) => Err(
                BackupErrorView::RegistryError(read_failure(platform, why)),
            ),
            RawReadView::Found(text) => match stored_identifier(platform, text) {
                None => Err(BackupErrorView::RegistryError("Could not find IOPlatformUUID"@)),
                Some(guid) => if is_canonical_guid(guid) {
                    Ok(MachineIdView { guid, source: source_on(platform) })
                } else {
                    Err(BackupErrorView::InvalidGuidFormat(guid))
                },
            },
        }
    }
}

/// Makes the identifier of what the host found where `platform` keeps it.
pub fn read_machine_guid(platform: Platform, raw: RawRead) -> (read: Result<MachineId, BackupError>)
    ensures
        view_of_read(read) == read_outcome(platform, raw@),
{
    match platform {
        Platform::Other => {
            return Err(BackupError::UnsupportedPlatform);
        },
        _ => {},
    }
    let text = match raw {
        RawRead::Absent => {
            return Err(BackupError::NotFound);
        },
        RawRead::Failed(why) => {
            let words = match platform {
                Platform::Linux => join("Failed to read machine-id: ", why.as_str()),
                Platform::MacOs => join("Failed to execute ioreg: ", why.as_str()),
                _ => why,
            };
            return Err(BackupError::RegistryError(words));
        },
        RawRead::Found(text) => text,
    };
    let (guid, source) = match platform {
        Platform::Windows => (text, "HKLM\\SOFTWARE\\Microsoft\\Cryptography".to_owned()),
        Platform::Linux => (trim(text.as_str()), "/etc/machine-id".to_owned()),
        _ => match parse_ioreg_output(text.as_str()) {
            Some(uuid) => (uuid, "IOPlatformUUID".to_owned()),
            None => {
                return Err(
                    BackupError::RegistryError("Could not find IOPlatformUUID".to_owned()),
                );
            },
        },
    };
    match validate_guid_format(guid.as_str()) {
        Ok(_) => Ok(MachineId { guid, source }),
        Err(e) => Err(e),
    }
}

/// What the host is to put where.
#[derive(Debug)]
pub struct WriteOrder {
    pub location: Location,
    pub text: String,
}

/// What came of the host's attempt to write.
#[derive(Debug)]
pub enum RawWrite {
    /// The text is in place.
    Written,
    /// The system denied the access.
    Denied,
    /// The write failed for another reason; the text says why.
    Failed(String),
}

/// A `RawWrite` with its texts as sequences of characters.
pub enum RawWriteView {
    Written,
    Denied,
    Failed(Seq<char>),
}

impl View for RawWrite {
    type V = RawWriteView;

    open spec fn view(&self) -> RawWriteView {
        match self {
            RawWrite::Written => RawWriteView::Written,
            RawWrite::Denied => RawWriteView::Denied,
            RawWrite::Failed(why) => RawWriteView::Failed(why@),
        }
    }
}

/// Whether `platform` lets the identifier be written.
pub open spec fn writable_on(platform: Platform) -> bool {
    platform == Platform::Windows || platform == Platform::Linux
}

/// Says what the host is to put where, so that `guid` becomes the live
/// identifier. Only Windows and Linux let the identifier be written, and
/// only a canonical identifier is written; any other text comes back in
/// the error.
pub fn write_machine_guid(platform: Platform, guid: &str) -> (order: Result<
    WriteOrder,
    BackupError,
>)
    ensures
        match order {
            Ok(order) => {
                &&& writable_on(platform)
                &&& is_canonical_guid(guid@)
                &&& Some(order.location@) == location_on(platform)
                &&& order.text@ == guid@
            },
            Err(e) => if !writable_on(platform) {
                e@ == BackupErrorView::UnsupportedPlatform
            } else {
                !is_canonical_guid(guid@) && e@ == BackupErrorView::InvalidGuidFormat(guid@)
            },
        },
{
    match platform {
        Platform::Windows => {},
        Platform::Linux => {},
        _ => {
            return Err(BackupError::UnsupportedPlatform);
        },
    }
    match validate_guid_format(guid) {
        Err(e) => Err(e),
        Ok(_) => match identifier_location(platform) {
            Some(location) => Ok(WriteOrder { location, text: guid.to_owned() }),
            None => Err(BackupError::UnsupportedPlatform),
        },
    }
}

/// What a write comes to: a denied access is told apart from every other
/// failure, so that the caller can ask for higher privilege and try again.
pub open spec fn write_outcome(platform: Platform, raw: RawWriteView) -> Result<
    (),
    BackupErrorView,
> {
    match raw {
        RawWriteView::Written => Ok(()),
        RawWriteView::Denied => Err(BackupErrorView::InsufficientPermissions),
        RawWriteView::Failed(why) => Err(
            BackupErrorView::RegistryWriteError(
                if platform == Platform::Linux {
                    "Failed to write machine-id: "@ + why
                } else {
                    why
                },
            ),
        ),
    }
}

/// Puts the outcome of the host's attempt to write in the library's terms.
pub fn write_result(platform: Platform, raw: RawWrite) -> (written: Result<(), BackupError>)
    ensures
        view_of_done(written) == write_outcome(platform, raw@),
{
    match raw {
        RawWrite::Written => Ok(()),
        RawWrite::Denied => Err(BackupError::InsufficientPermissions),
        RawWrite::Failed(why) => {
            let words = match platform {
                Platform::Linux => join("Failed to write machine-id: ", why.as_str()),
                _ => why,
            };
            Err(BackupError::RegistryWriteError(words))
        },
    }
}

} // verus!
