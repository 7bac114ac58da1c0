//! Mapping of every terminal outcome of the pipeline to an HTTP reply.
//!
//! Client-caused failures answer 400, everything downstream answers 500, and
//! success answers 200 with the archive bytes, the `application/zip` content
//! type, and an attachment disposition carrying the archive name. No failure
//! body ever holds the password or an internal path: each is a fixed message.

use vstd::prelude::*;

verus! {

/// Every way a request can fail.
pub enum Failure {
    /// The password was empty or whitespace-only.
    BlankPassword,
    /// The multipart body could not be parsed.
    MalformedUpload,
    /// No part named `files` was uploaded.
    NoFiles,
    /// The per-request workspace could not be created.
    WorkspaceFailure,
    /// An uploaded file could not be created or written.
    WriteFailure,
    /// The workspace contents could not be listed.
    ListingFailure,
    /// The archiver process could not be started.
    ArchiverUnavailable,
    /// The archiver process reported failure.
    ArchiveFailure,
    /// The produced archive could not be read back.
    ArtifactReadFailure,
}

/// The HTTP status of each failure: 400 for what the client caused, 500 for
/// everything downstream.
pub open spec fn failure_status(f: Failure) -> u16 {
    match f {
        Failure::BlankPassword => 400,
        Failure::MalformedUpload => 400,
        Failure::NoFiles => 400,
        Failure::WorkspaceFailure => 500,
        Failure::WriteFailure => 500,
        Failure::ListingFailure => 500,
        Failure::ArchiverUnavailable => 500,
        Failure::ArchiveFailure => 500,
        Failure::ArtifactReadFailure => 500,
    }
}

/// The fixed plain-text body of each failure.
pub open spec fn failure_message(f: Failure) -> Seq<char> {
    match f {
        Failure::BlankPassword => "Password is required"@,
        Failure::MalformedUpload => "Malformed upload body"@,
        Failure::NoFiles => "No files were uploaded"@,
        Failure::WorkspaceFailure => "Could not create a workspace"@,
        Failure::WriteFailure => "Could not store an uploaded file"@,
        Failure::ListingFailure => "Could not list the uploaded files"@,
        Failure::ArchiverUnavailable => "Could not run the archiver"@,
        Failure::ArchiveFailure => "Could not create the archive"@,
        Failure::ArtifactReadFailure => "Could not read the archive"@,
    }
}

/// What a reply carries: a fixed plain-text message on failure, the archive
/// bytes on success.
pub enum ReplyBody {
    Text(String),
    Archive(Vec<u8>),
}

/// An outbound HTTP reply, ready for the transport to send.
pub struct Reply {
    /// The HTTP status code.
    pub status: u16,
    /// The content type; `application/zip` on success, absent (plain text)
    /// on failure.
    pub content_type: Option<String>,
    /// The `Content-Disposition` header value, present only on success.
    pub disposition: Option<String>,
    /// The response body.
    pub body: ReplyBody,
}

/// The `Content-Disposition` value under which the archive is offered.
pub open spec fn attachment_disposition(archive_name: Seq<char>) -> Seq<char> {
    "attachment; filename="@ + archive_name
}

/// What the reply to failure `f` must look like.
pub open spec fn is_failure_reply(r: Reply, f: Failure) -> bool {
    &&& r.status == failure_status(f)
    &&& r.content_type is None
    &&& r.disposition is None
    &&& r.body matches ReplyBody::Text(m) && m@ == failure_message(f)
}

/// What the successful reply must look like: the archive bytes, verbatim,
/// offered as a zip attachment under the archive's name.
pub open spec fn is_success_reply(r: Reply, archive_name: Seq<char>, artifact: Seq<u8>) -> bool {
    &&& r.status == 200
    &&& r.content_type matches Some(c) && c@ == "application/zip"@
    &&& r.disposition matches Some(d) && d@ == attachment_disposition(archive_name)
    &&& r.body matches ReplyBody::Archive(b) && b@ == artifact
}

/// Builds the reply for failure `f`.
pub fn failure_reply(f: Failure) -> (r: Reply)
    ensures
        is_failure_reply(r, f),
{
    let message = match f {
        Failure::BlankPassword => String::from_str("Password is required"),
        Failure::MalformedUpload => String::from_str("Malformed upload body"),
        Failure::NoFiles => String::from_str("No files were uploaded"),
        Failure::WorkspaceFailure => String::from_str("Could not create a workspace"),
        Failure::WriteFailure => String::from_str("Could not store an uploaded file"),
        Failure::ListingFailure => String::from_str("Could not list the uploaded files"),
        Failure::ArchiverUnavailable => String::from_str("Could not run the archiver"),
        Failure::ArchiveFailure => String::from_str("Could not create the archive"),
        Failure::ArtifactReadFailure => String::from_str("Could not read the archive"),
    };
    let status: u16 = match f {
        Failure::BlankPassword => 400,
        Failure::MalformedUpload => 400,
        Failure::NoFiles => 400,
        Failure::WorkspaceFailure => 500,
        Failure::WriteFailure => 500,
        Failure::ListingFailure => 500,
        Failure::ArchiverUnavailable => 500,
        Failure::ArchiveFailure => 500,
        Failure::ArtifactReadFailure => 500,
    };
    Reply { status, content_type: None, disposition: None, body: ReplyBody::Text(message) }
}

/// Builds the successful reply around the archive bytes.
pub fn success_reply(archive_name: &String, artifact: Vec<u8>) -> (r: Reply)
    ensures
        is_success_reply(r, archive_name@, artifact@),
{
    let disposition = String::from_str("attachment; filename=").concat(archive_name.as_str());
    Reply {
        status: 200,
        content_type: Some(String::from_str("application/zip")),
        disposition: Some(disposition),
        body: ReplyBody::Archive(artifact),
    }
}

} // verus!
