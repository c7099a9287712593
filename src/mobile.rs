//! The mobile backend's decisions: which native handler serves each
//! operation, and how the handler's answer is relayed.
use vstd::prelude::*;

use crate::error::{Error, ErrorKind, ErrorModel};
use crate::text::concat;

verus! {

/// Every operation of the backend interface.
#[derive(Clone, Copy, Debug, PartialEq, Eq, Structural)]
pub enum Operation {
    Ping,
    DownloadPrivate,
    DownloadPublic,
    SaveFilePrivateFromBuffer,
    SaveFilePublicFromBuffer,
    SaveFilePrivateFromPath,
    SaveFilePublicFromPath,
}

/// The name of the native handler that serves `op`, for the operations that
/// are forwarded at all.
pub open spec fn handler_name(op: Operation) -> Option<Seq<char>> {
    match op {
        Operation::Ping => Some("ping"@),
        Operation::DownloadPrivate => Some("downloadPrivate"@),
        Operation::DownloadPublic => Some("downloadPublic"@),
        _ => None,
    }
}

/// The operation's own name, as used in messages.
pub open spec fn operation_name(op: Operation) -> Seq<char> {
    match op {
        Operation::Ping => "ping"@,
        Operation::DownloadPrivate => "download_private"@,
        Operation::DownloadPublic => "download_public"@,
        Operation::SaveFilePrivateFromBuffer => "save_file_private_from_buffer"@,
        Operation::SaveFilePublicFromBuffer => "save_file_public_from_buffer"@,
        Operation::SaveFilePrivateFromPath => "save_file_private_from_path"@,
        Operation::SaveFilePublicFromPath => "save_file_public_from_path"@,
    }
}

pub fn operation_label(op: Operation) -> (r: &'static str)
    ensures
        r@ == operation_name(op),
{
    match op {
        Operation::Ping => "ping",
        Operation::DownloadPrivate => "download_private",
        Operation::DownloadPublic => "download_public",
        Operation::SaveFilePrivateFromBuffer => "save_file_private_from_buffer",
        Operation::SaveFilePublicFromBuffer => "save_file_public_from_buffer",
        Operation::SaveFilePrivateFromPath => "save_file_private_from_path",
        Operation::SaveFilePublicFromPath => "save_file_public_from_path",
    }
}

/// The handler to call for `op`; an operation with no native handler is
/// `Unsupported` on this backend.
pub fn forward(op: Operation) -> (r: Result<&'static str, Error>)
    ensures
        match handler_name(op) {
            Some(n) => r is Ok && r->Ok_0@ == n,
            None => r is Err && r->Err_0@ == (ErrorModel {
                kind: ErrorKind::Unsupported,
                message: operation_name(op) + " is not available on mobile"@,
            }),
        },
{
    match op {
        Operation::Ping => Ok("ping"),
        Operation::DownloadPrivate => Ok("downloadPrivate"),
        Operation::DownloadPublic => Ok("downloadPublic"),
        _ => Err(Error::Unsupported(concat(operation_label(op), " is not available on mobile"))),
    }
}

/// Passes the handler's answer on unchanged; a failed call, whatever its
/// cause, becomes `PlatformCallFailed` with the call's own message.
pub fn relay<T>(reply: Result<T, String>) -> (r: Result<T, Error>)
    ensures
        match reply {
            Ok(v) => r == Ok::<T, Error>(v),
            Err(e) => r is Err && r->Err_0@ == (ErrorModel {
                kind: ErrorKind::PlatformCallFailed,
                message: e@,
            }),
        },
{
    match reply {
        Ok(v) => Ok(v),
        Err(e) => Err(Error::PlatformCallFailed(e)),
    }
}

} // verus!
