use downloader::download::HttpDownload;
use downloader::error::{Error, JoinFailure, TransferError};
use downloader::state::{DownloadMetadata, DownloadState, DownloadUpdate};

fn all_errors() -> Vec<Error> {
    vec![
        Error::NotFound,
        Error::AlreadyRunning,
        Error::DownloadNotRunning,
        Error::NotPaused,
        Error::TransferError(TransferError::Connection),
        Error::TransferError(TransferError::Status(500)),
        Error::TransferError(TransferError::ResumeMismatch { offset: 1 }),
        Error::TransferError(TransferError::Write),
        Error::TransferError(TransferError::Overflow),
        Error::TransferError(TransferError::InvalidTarget),
        Error::TaskJoinError(JoinFailure::Panicked),
        Error::TaskJoinError(JoinFailure::Aborted),
        Error::LockAcquisitionError,
    ]
}

#[test]
fn error_codes_are_stable() {
    let codes: Vec<u16> = all_errors().iter().map(|e| e.code()).collect();
    assert_eq!(codes, vec![404, 409, 410, 411, 501, 502, 503, 504, 505, 506, 520, 521, 530]);
}

#[test]
fn error_messages_are_stable() {
    let messages: Vec<String> = all_errors().iter().map(|e| e.message()).collect();
    assert_eq!(
        messages,
        vec![
            "download is not registered",
            "download is already running",
            "download is not running",
            "download is not paused",
            "connection to the server failed",
            "server answered with a non-success status",
            "server did not confirm the resume offset",
            "writing the destination file failed",
            "byte count exceeds 64 bits",
            "locator or destination is unusable",
            "download task panicked",
            "download task was aborted",
            "could not acquire the registry lock",
        ]
    );
}

#[test]
fn transfer_error_code_and_message_match_the_wrapping_error() {
    for error in [
        TransferError::Connection,
        TransferError::Status(404),
        TransferError::ResumeMismatch { offset: 9 },
        TransferError::Write,
        TransferError::Overflow,
        TransferError::InvalidTarget,
    ] {
        assert_eq!(error.code(), Error::TransferError(error).code());
        assert_eq!(error.message(), Error::TransferError(error).message());
    }
}

#[test]
fn state_reports_its_byte_count() {
    assert_eq!(DownloadState::Paused(4).bytes(), Some(4));
    assert_eq!(DownloadState::Downloading(5, Some(9)).bytes(), Some(5));
    assert_eq!(DownloadState::Downloading(6, None).bytes(), Some(6));
    assert_eq!(DownloadState::Completed(7).bytes(), Some(7));
    assert_eq!(DownloadState::Failed("x".to_string()).bytes(), None);
}

#[test]
fn duplicates_are_equal() {
    for state in [
        DownloadState::Paused(4),
        DownloadState::Downloading(5, Some(9)),
        DownloadState::Completed(7),
        DownloadState::Failed("reason".to_string()),
    ] {
        assert_eq!(state.duplicate(), state);
        let update = DownloadUpdate { id: 3, state };
        assert_eq!(update.duplicate(), update);
    }
    let record = DownloadMetadata {
        id: 1,
        url: "u".to_string(),
        file_path: "p".to_string(),
        size: Some(2),
    };
    assert_eq!(record.duplicate(), record);
}

#[test]
fn create_prepares_the_destination_path() {
    let download = HttpDownload::create(
        "https://example.org/a.bin".to_string(),
        "/var/downloads".to_string(),
        "a.bin".to_string(),
        Some(77),
        None,
    )
    .unwrap();
    assert_eq!(download.url, "https://example.org/a.bin");
    assert_eq!(download.file_path, "/var/downloads/a.bin");
    assert_eq!(download.file_path(), "/var/downloads/a.bin");
    assert_eq!(download.size, Some(77));
    assert_eq!(download.resume_offset, None);
    assert_eq!(download.downloaded, 0);
}

#[test]
fn create_without_directory_uses_the_bare_name() {
    let download =
        HttpDownload::create("u".to_string(), String::new(), "a.bin".to_string(), None, None)
            .unwrap();
    assert_eq!(download.file_path, "a.bin");
}

#[test]
fn create_with_offset_counts_it_as_downloaded() {
    let download = HttpDownload::create(
        "u".to_string(),
        "d".to_string(),
        "f".to_string(),
        None,
        Some(1234),
    )
    .unwrap();
    assert_eq!(download.resume_offset, Some(1234));
    assert_eq!(download.downloaded, 1234);
    assert_eq!(download.file_path, "d/f");
}

#[test]
fn create_rejects_empty_locator_and_empty_name() {
    let invalid = Err(Error::TransferError(TransferError::InvalidTarget));
    assert_eq!(
        HttpDownload::create(String::new(), "d".to_string(), "f".to_string(), None, None),
        invalid
    );
    assert_eq!(
        HttpDownload::create("u".to_string(), "d".to_string(), String::new(), None, None),
        invalid
    );
    assert_eq!(
        HttpDownload::create(String::new(), String::new(), String::new(), None, Some(1)),
        invalid
    );
}

#[test]
fn unit_metadata_carries_the_identifier() {
    let download = HttpDownload::create(
        "https://example.org/a".to_string(),
        "/d".to_string(),
        "a".to_string(),
        Some(5),
        None,
    )
    .unwrap();
    assert_eq!(
        download.get_metadata(42),
        DownloadMetadata {
            id: 42,
            url: "https://example.org/a".to_string(),
            file_path: "/d/a".to_string(),
            size: Some(5),
        }
    );
}
