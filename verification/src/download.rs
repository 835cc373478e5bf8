//! The transfer unit: one resource to fetch and the bookkeeping of its
//! destination file.

use vstd::prelude::*;
use vstd::string::StringExecFns;
use crate::error::{Error, TransferError};
use crate::state::DownloadMetadata;

verus! {

/// One downloadable resource.
#[derive(Clone, Debug, PartialEq, Eq)]
pub struct HttpDownload {
    /// The source locator.
    pub url: String,
    /// The destination path.
    pub file_path: String,
    /// The total size, unknown until a response has announced it.
    pub size: Option<u64>,
    /// The offset that the unit was created to continue from, if any.
    pub resume_offset: Option<u64>,
    /// The bytes that are durably in the destination file.
    pub downloaded: u64,
}

/// The destination path of a file named `file_name` in `directory`.
pub open spec fn destination(directory: Seq<char>, file_name: Seq<char>) -> Seq<char> {
    if directory.len() == 0 {
        file_name
    } else {
        directory + seq!['/'] + file_name
    }
}

/// The byte count that an optional offset stands for.
pub open spec fn offset_or_zero(offset: Option<u64>) -> u64 {
    match offset {
        Some(n) => n,
        None => 0,
    }
}

impl HttpDownload {
    /// Prepares a download of `url` into the file `file_name` of
    /// `directory`, of `size` bytes where the size is known, continuing
    /// from `resume_offset` where one is given. Nothing is sent or written.
    /// An empty locator or file name is rejected.
    pub fn create(
        url: String,
        directory: String,
        file_name: String,
        size: Option<u64>,
        resume_offset: Option<u64>,
    ) -> (made: Result<HttpDownload, Error>)
        ensures
            made is Ok <==> url@.len() > 0 && file_name@.len() > 0,
            made matches Err(e) ==> e == Error::TransferError(TransferError::InvalidTarget),
            made matches Ok(d) ==> {
                &&& d.url == url
                &&& d.file_path@ == destination(directory@, file_name@)
                &&& d.size == size
                &&& d.resume_offset == resume_offset
                &&& d.downloaded == offset_or_zero(resume_offset)
            },
    {
        if url.as_str().is_empty() || file_name.as_str().is_empty() {
            return Err(Error::TransferError(TransferError::InvalidTarget));
        }
        let file_path = if directory.as_str().is_empty() {
            file_name
        } else {
            proof {
                reveal_strlit("/");
            }
            let path = directory.concat("/").concat(file_name.as_str());
            assert(path@ == destination(directory@, file_name@)) by {
                assert("/"@ =~= seq!['/']);
            }
            path
        };
        let downloaded: u64 = match resume_offset {
            Some(n) => n,
            None => 0,
        };
        Ok(HttpDownload { url, file_path, size, resume_offset, downloaded })
    }

    /// Returns the destination path.
    pub fn file_path(&self) -> (path: String)
        ensures
            path == self.file_path,
    {
        self.file_path.clone()
    }

    /// Returns the metadata record of this download under the identifier
    /// `id`.
    pub fn get_metadata(&self, id: u128) -> (record: DownloadMetadata)
        ensures
            record == self.metadata(id),
    {
        DownloadMetadata {
            id,
            url: self.url.clone(),
            file_path: self.file_path.clone(),
            size: self.size,
        }
    }

    /// The metadata record of this download under the identifier `id`.
    pub open spec fn metadata(&self, id: u128) -> DownloadMetadata {
        DownloadMetadata { id, url: self.url, file_path: self.file_path, size: self.size }
    }
}

} // verus!
