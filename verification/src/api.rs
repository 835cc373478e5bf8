//! The decisions of the request boundary: how a request for a new download
//! becomes a registered download, and what a client is told.
//!
//! The functions here take and return plain values. Reading the request,
//! looking at the disk and writing the response are left to the caller.

use vstd::prelude::*;
use vstd::string::{StrSliceExecFns, StringExecFns};
use crate::download::HttpDownload;
use crate::error::Error;
use crate::manager::{random_id, DownloadManager, Entry, Lifecycle};
use crate::observer::DownloadObserver;
use crate::state::{DownloadMetadata, DownloadState};

verus! {

/// The status of a reply to a request that was carried out.
pub const OK: u16 = 200;

/// The status of a reply to a request that created a download.
pub const CREATED: u16 = 201;

/// The status of a reply to a request that cannot be carried out as asked.
pub const BAD_REQUEST: u16 = 400;

/// The status of a reply to a request that failed inside the service.
pub const INTERNAL_SERVER_ERROR: u16 = 500;

/// A reply that tells the client why its request was not carried out.
#[derive(Clone, Debug, PartialEq, Eq)]
pub struct Refusal {
    pub status: u16,
    pub message: String,
}

/// The operations on one download that a client can ask for.
#[derive(Clone, Copy, Debug, PartialEq, Eq, Structural)]
pub enum Operation {
    Delete,
    Stop,
    Start,
    Resume,
    Metadata,
    Create,
}

impl Operation {
    /// The words that introduce the reason when the operation is refused.
    pub open spec fn prefix_spec(self) -> Seq<char> {
        match self {
            Operation::Delete => "Couldn't delete Download: "@,
            Operation::Stop => "Couldn't stop Download: "@,
            Operation::Start => "Couldn't start Download: "@,
            Operation::Resume => "Couldn't resume Download: "@,
            Operation::Metadata => "Error getting download_metadata: "@,
            Operation::Create => "Error creating download: "@,
        }
    }

    /// The status with which the operation is refused: a download that
    /// cannot be created is a failure of the service, everything else is a
    /// bad request.
    pub open spec fn refusal_status(self) -> u16 {
        if self is Create {
            INTERNAL_SERVER_ERROR
        } else {
            BAD_REQUEST
        }
    }

    fn prefix(&self) -> (words: String)
        ensures
            words@ == self.prefix_spec(),
    {
        match self {
            Operation::Delete => "Couldn't delete Download: ".to_owned(),
            Operation::Stop => "Couldn't stop Download: ".to_owned(),
            Operation::Start => "Couldn't start Download: ".to_owned(),
            Operation::Resume => "Couldn't resume Download: ".to_owned(),
            Operation::Metadata => "Error getting download_metadata: ".to_owned(),
            Operation::Create => "Error creating download: ".to_owned(),
        }
    }

    /// Returns the reply to a client whose request for this operation
    /// failed with `error`.
    pub fn refuse(&self, error: &Error) -> (refusal: Refusal)
        ensures
            refusal.status == self.refusal_status(),
            refusal.message@ == self.prefix_spec() + error.message_spec(),
    {
        let status: u16 = match self {
            Operation::Create => INTERNAL_SERVER_ERROR,
            _ => BAD_REQUEST,
        };
        let reason = error.message();
        Refusal { status, message: self.prefix().concat(reason.as_str()) }
    }
}

/// A locator that was parsed: its text in normal form and its path.
#[derive(Clone, Debug, PartialEq, Eq)]
pub struct Locator {
    pub text: String,
    pub path: String,
}

/// The mathematical value of a `Locator`.
pub struct LocatorView {
    pub text: Seq<char>,
    pub path: Seq<char>,
}

impl View for Locator {
    type V = LocatorView;

    open spec fn view(&self) -> LocatorView {
        LocatorView { text: self.text@, path: self.path@ }
    }
}

/// What parsing `text` as an absolute URL gives: the locator, or the words
/// that say why it is none.
pub uninterp spec fn parsed_locator(text: Seq<char>) -> Result<LocatorView, Seq<char>>;

/// The identifier `id` in the hyphenated form in which identifiers are
/// written.
pub uninterp spec fn hyphenated(id: u128) -> Seq<char>;

/// The mathematical value of the outcome of parsing a locator.
pub open spec fn parse_view(parsed: Result<Locator, String>) -> Result<LocatorView, Seq<char>> {
    match parsed {
        Ok(locator) => Ok(locator@),
        Err(reason) => Err(reason@),
    }
}

/// Parses `text` as an absolute URL.
///
/// Calls `reqwest::Url::parse`. Of a URL it hands back the serialization
/// (`Url::as_str`) and the path (`Url::path`); of a failure, the words with
/// which the parse error displays itself. The contract claims only that
/// the outcome depends on `text` alone.
#[verifier::external_body]
fn parse_locator(text: &str) -> (parsed: Result<Locator, String>)
    ensures
        parse_view(parsed) == parsed_locator(text@),
{
    match reqwest::Url::parse(text) {
        Ok(url) => Ok(Locator { text: url.as_str().to_string(), path: url.path().to_string() }),
        Err(error) => Err(error.to_string()),
    }
}

/// Writes the identifier `id` in hyphenated form.
///
/// Calls `uuid::Uuid::from_u128` and the `to_string` that the `Display` of
/// `uuid::Uuid` provides. The contract claims only that the text depends
/// on `id` alone.
#[verifier::external_body]
pub(crate) fn identifier_text(id: u128) -> (text: String)
    ensures
        text@ == hyphenated(id),
{
    uuid::Uuid::from_u128(id).to_string()
}

/// The place in `path` where its last segment begins: after the last
/// slash, or at the start where there is none.
pub open spec fn segment_start(path: Seq<char>) -> int
    decreases path.len(),
{
    if path.len() == 0 {
        0
    } else if path.last() == '/' {
        path.len() as int
    } else {
        segment_start(path.drop_last())
    }
}

/// The file name that `path` ends in: its last segment, unless that is
/// empty.
pub open spec fn file_name_spec(path: Seq<char>) -> Option<Seq<char>> {
    if segment_start(path) == path.len() {
        None
    } else {
        Some(path.skip(segment_start(path)))
    }
}

/// Returns the file name that `path` ends in, if it ends in one.
pub fn file_name_of(path: &str) -> (name: Option<String>)
    ensures
        match name {
            Some(n) => file_name_spec(path@) == Some(n@),
            None => file_name_spec(path@) is None,
        },
{
    let length = path.unicode_len();
    let mut start: usize = 0;
    let mut i: usize = 0;
    while i < length
        invariant
            length == path@.len(),
            i <= length,
            start <= i,
            start == segment_start(path@.take(i as int)),
        decreases length - i,
    {
        let c = path.get_char(i);
        assert(path@.take(i + 1).drop_last() =~= path@.take(i as int));
        assert(path@.take(i + 1).last() == c);
        i = i + 1;
        if c == '/' {
            start = i;
        }
    }
    assert(path@.take(length as int) =~= path@);
    if start == length {
        None
    } else {
        Some(path.substring_char(start, length).to_owned())
    }
}

/// What is to be downloaded, and under which name.
#[derive(Clone, Debug, PartialEq, Eq)]
pub struct Target {
    pub url: String,
    pub file_name: String,
}

/// What a request for the locator that parsed as `parsed` leads to: the
/// target, or the message of the refusal.
pub open spec fn located(parsed: Result<LocatorView, Seq<char>>) -> Result<
    (Seq<char>, Seq<char>),
    Seq<char>,
> {
    match parsed {
        Err(reason) => Err("Invalid URL, couldn't parse: "@ + reason),
        Ok(locator) => match file_name_spec(locator.path) {
            None => Err("Couldn't parse filename from url"@),
            Some(name) => Ok((locator.text, name)),
        },
    }
}

/// Whether `answer` is what `located` prescribes as `expected`: the target
/// with these texts, or a bad request with this message.
pub open spec fn answers(
    answer: Result<Target, Refusal>,
    expected: Result<(Seq<char>, Seq<char>), Seq<char>>,
) -> bool {
    match answer {
        Ok(target) => expected == Ok::<(Seq<char>, Seq<char>), Seq<char>>(
            (target.url@, target.file_name@),
        ),
        Err(refusal) => refusal.status == BAD_REQUEST && expected == Err::<
            (Seq<char>, Seq<char>),
            Seq<char>,
        >(refusal.message@),
    }
}

/// Decides what a request leads to whose locator parsed as `parsed`: a
/// locator that is no URL and one whose path ends in no file name are
/// refused as bad requests.
pub fn locate_from(parsed: Result<Locator, String>) -> (answer: Result<Target, Refusal>)
    ensures
        answers(answer, located(parse_view(parsed))),
{
    match parsed {
        Err(reason) => Err(
            Refusal {
                status: BAD_REQUEST,
                message: "Invalid URL, couldn't parse: ".to_owned().concat(reason.as_str()),
            },
        ),
        Ok(locator) => match file_name_of(locator.path.as_str()) {
            None => Err(
                Refusal {
                    status: BAD_REQUEST,
                    message: "Couldn't parse filename from url".to_owned(),
                },
            ),
            Some(file_name) => Ok(Target { url: locator.text, file_name }),
        },
    }
}

/// Decides what a request for the locator `text` leads to.
pub fn locate(text: &str) -> (answer: Result<Target, Refusal>)
    ensures
        answers(answer, located(parsed_locator(text@))),
{
    locate_from(parse_locator(text))
}

/// The name under which a file is stored: its own, or, where that is
/// taken, its own behind the identifier `tag` and a hyphen.
pub open spec fn tagged_name(file_name: Seq<char>, taken: bool, tag: u128) -> Seq<char> {
    if taken {
        hyphenated(tag) + seq!['-'] + file_name
    } else {
        file_name
    }
}

/// Returns the name under which to store a file called `file_name`, using
/// `tag` to tell it from the file that has taken the name.
pub fn unique_name_from(file_name: String, taken: bool, tag: u128) -> (name: String)
    ensures
        name@ == tagged_name(file_name@, taken, tag),
{
    if taken {
        proof {
            reveal_strlit("-");
        }
        let name = identifier_text(tag).concat("-").concat(file_name.as_str());
        assert(name@ == tagged_name(file_name@, taken, tag)) by {
            assert("-"@ =~= seq!['-']);
        }
        name
    } else {
        file_name
    }
}

/// Returns the name under which to store a file called `file_name`: the
/// name itself, or, where it is taken, the name behind a random identifier
/// and a hyphen.
pub fn unique_name(file_name: String, taken: bool) -> (name: String)
    ensures
        exists|tag: u128| name@ == #[trigger] tagged_name(file_name@, taken, tag),
{
    let tag = random_id();
    unique_name_from(file_name, taken, tag)
}

/// Registers `download`, whose destination file holds `on_disk` bytes,
/// with the manager and makes it known to the observer as paused with
/// these bytes. Returns the metadata record of the new download.
pub fn register(
    manager: &mut DownloadManager,
    observer: &mut DownloadObserver,
    download: HttpDownload,
    on_disk: u64,
) -> (record: DownloadMetadata)
    ensures
        !old(manager)@.contains_key(record.id),
        record == download.metadata(record.id),
        final(manager).interval() == old(manager).interval(),
        final(manager)@ == old(manager)@.insert(
            record.id,
            Entry { download, lifecycle: Lifecycle::Registered },
        ),
        final(observer)@ == old(observer)@.insert(record.id, DownloadState::Paused(on_disk)),
{
    let url = download.url.clone();
    let file_path = download.file_path.clone();
    let size = download.size;
    let id = manager.add(download);
    observer.track(id, DownloadState::Paused(on_disk));
    DownloadMetadata { id, url, file_path, size }
}

/// What a client is told about one download.
#[derive(Clone, Debug, PartialEq, Eq)]
pub struct DownloadData {
    pub state: DownloadState,
    pub metadata: DownloadMetadata,
}

/// The message of the refusal to describe the download `id`, if it is
/// refused: the manager must know the download, and so must the observer.
pub open spec fn describe_refusal(
    registry: Map<u128, Entry>,
    observed: Map<u128, DownloadState>,
    id: u128,
) -> Option<Seq<char>> {
    if !registry.contains_key(id) {
        Some(Operation::Metadata.prefix_spec() + Error::NotFound.message_spec())
    } else if !observed.contains_key(id) {
        Some("Error getting download_state: "@ + hyphenated(id))
    } else {
        None
    }
}

/// Returns what a client is told about the download `id`: its metadata and
/// its last known state, or a bad request where either is missing.
pub fn describe(manager: &DownloadManager, observer: &DownloadObserver, id: u128) -> (answer:
    Result<DownloadData, Refusal>)
    ensures
        match describe_refusal(manager@, observer@, id) {
            Some(message) => answer matches Err(refusal) && refusal.status == BAD_REQUEST
                && refusal.message@ == message,
            None => answer == Ok::<DownloadData, Refusal>(
                DownloadData {
                    state: observer@[id],
                    metadata: manager@[id].download.metadata(id),
                },
            ),
        },
{
    let metadata = match manager.get_metadata(id) {
        Ok(record) => record,
        Err(error) => {
            return Err(Operation::Metadata.refuse(&error));
        },
    };
    match observer.get_state(id) {
        Some(state) => Ok(DownloadData { state, metadata }),
        None => Err(
            Refusal {
                status: BAD_REQUEST,
                message: "Error getting download_state: ".to_owned().concat(
                    identifier_text(id).as_str(),
                ),
            },
        ),
    }
}

} // verus!
