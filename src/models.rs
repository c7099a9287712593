//! The request and response records of every operation.
use vstd::prelude::*;

verus! {

/// A liveness check: the answer echoes `value`.
#[derive(Debug)]
pub struct PingRequest {
    pub value: Option<String>,
}

#[derive(Debug, Default)]
pub struct PingResponse {
    pub value: Option<String>,
}

/// Fetch `url` into app-private storage.
#[derive(Debug)]
pub struct DownloadPrivateRequest {
    pub url: String,
    pub file_name: Option<String>,
}

/// Fetch `url` into public storage; `mime_type` is a hint for the platform.
#[derive(Debug)]
pub struct DownloadPublicRequest {
    pub url: String,
    pub file_name: Option<String>,
    pub mime_type: Option<String>,
}

/// Where content was stored: `file_name` is the final name, `path` a
/// file-system path (desktop), `uri` a platform content locator (mobile).
#[derive(Debug, Default)]
pub struct DownloadResponse {
    pub file_name: String,
    pub path: Option<String>,
    pub uri: Option<String>,
}

/// Store `data` as `file_name` in app-private storage.
#[derive(Debug)]
pub struct SaveFilePrivateFromBufferRequest {
    pub data: Vec<u8>,
    pub file_name: String,
}

/// Store `data` as `file_name` in public storage.
#[derive(Debug)]
pub struct SaveFilePublicFromBufferRequest {
    pub data: Vec<u8>,
    pub file_name: String,
    pub mime_type: Option<String>,
}

/// Copy the file at `source_path` into app-private storage, as `file_name`
/// or, when absent, under the source's own final name.
#[derive(Debug)]
pub struct SaveFilePrivateFromPathRequest {
    pub source_path: String,
    pub file_name: Option<String>,
}

/// Copy the file at `source_path` into public storage.
#[derive(Debug)]
pub struct SaveFilePublicFromPathRequest {
    pub source_path: String,
    pub file_name: Option<String>,
}

/// A response as plain values.
pub struct ResponseModel {
    pub file_name: Seq<char>,
    pub path: Option<Seq<char>>,
    pub uri: Option<Seq<char>>,
}

pub open spec fn opt_view(o: Option<String>) -> Option<Seq<char>> {
    match o {
        Some(s) => Some(s@),
        None => None,
    }
}

impl View for DownloadResponse {
    type V = ResponseModel;

    open spec fn view(&self) -> ResponseModel {
        ResponseModel {
            file_name: self.file_name@,
            path: opt_view(self.path),
            uri: opt_view(self.uri),
        }
    }
}

} // verus!
