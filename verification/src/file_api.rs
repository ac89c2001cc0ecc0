//! The file service: large payloads are uploaded through a resumable
//! session, wait there until the service has processed them, and are
//! deleted once they have been used.

use crate::json::{json_model, JsonModel};
use crate::payload::{single, single_member};
use crate::json::json_text;
use crate::remote::{is_success, HttpReply, Transmission};
use crate::text::{concat, decimal, str_eq, strip_prefix, u64_to_string, without_prefix};
use vstd::pervasive::unreached;
use vstd::prelude::*;
use vstd::string::*;

verus! {

/// Where uploads begin.
pub const FILE_API_URL: &'static str =
    "https://generativelanguage.googleapis.com/upload/v1beta/files";

/// Where uploaded files are looked up and deleted.
pub const FILE_INFO_URL: &'static str = "https://generativelanguage.googleapis.com/v1beta/files";

/// How long, in seconds, the service may take to process an upload.
pub const FILE_PROCESSING_TIMEOUT_SECS: u64 = 300;

/// How long, in seconds, to wait between two looks at an upload.
pub const FILE_PROCESSING_POLL_INTERVAL_SECS: u64 = 2;

/// Why an exchange with the file service failed.
#[derive(Debug)]
pub enum FileApiError {
    UploadInitFailed(String),
    MissingUploadUrl,
    UploadFailed(String),
    FileProcessingTimeout(u64),
    DeleteFailed(String),
    NetworkError(String),
    JsonError(String),
    ApiError { status: u16, message: String },
}

impl FileApiError {
    /// The message of the error.
    pub open spec fn text(self) -> Seq<char> {
        match self {
            FileApiError::UploadInitFailed(detail) => "Failed to initiate upload: "@ + detail@,
            FileApiError::MissingUploadUrl => "Missing upload URL in response headers"@,
            FileApiError::UploadFailed(detail) => "Failed to upload file bytes: "@ + detail@,
            FileApiError::FileProcessingTimeout(secs) => "File processing timeout after "@
                + decimal(secs as nat) + " seconds"@,
            FileApiError::DeleteFailed(detail) => "Failed to delete file: "@ + detail@,
            FileApiError::NetworkError(detail) => "Network error: "@ + detail@,
            FileApiError::JsonError(detail) => "JSON parsing error: "@ + detail@,
            FileApiError::ApiError { status, message } => "API error ("@ + decimal(status as nat)
                + "): "@ + message@,
        }
    }

    /// Renders the message of the error.
    pub fn to_string(&self) -> (r: String)
        ensures
            r@ == self.text(),
    {
        match self {
            FileApiError::UploadInitFailed(detail) => concat(
                "Failed to initiate upload: ",
                detail.as_str(),
            ),
            FileApiError::MissingUploadUrl => String::from_str(
                "Missing upload URL in response headers",
            ),
            FileApiError::UploadFailed(detail) => concat(
                "Failed to upload file bytes: ",
                detail.as_str(),
            ),
            FileApiError::FileProcessingTimeout(secs) => {
                let mut r = concat("File processing timeout after ", u64_to_string(*secs).as_str());
                r.append(" seconds");
                r
            },
            FileApiError::DeleteFailed(detail) => concat(
                "Failed to delete file: ",
                detail.as_str(),
            ),
            FileApiError::NetworkError(detail) => concat("Network error: ", detail.as_str()),
            FileApiError::JsonError(detail) => concat("JSON parsing error: ", detail.as_str()),
            FileApiError::ApiError { status, message } => {
                let mut r = concat("API error (", u64_to_string(*status as u64).as_str());
                r.append("): ");
                r.append(message.as_str());
                r
            },
        }
    }
}

/// What the service reports of an uploaded file.
#[derive(Debug, Clone)]
pub struct FileInfo {
    pub name: String,
    pub uri: String,
    pub mime_type: String,
    pub size_bytes: String,
    pub state: String,
    pub display_name: Option<String>,
}

/// One header of a request.
#[derive(Debug, Clone)]
pub struct Header {
    pub name: String,
    pub value: String,
}

/// A request to the file service: where it goes, its headers in order,
/// and its JSON body if it has one. (The bytes of an upload are not kept
/// here; the caller owns them.)
#[derive(Debug)]
pub struct FileRequest {
    pub url: String,
    pub headers: Vec<Header>,
    pub body: Option<serde_json::Value>,
}

/// The four exchanges with the file service.
#[derive(Debug, Clone, Copy, PartialEq, Eq, Structural)]
pub enum Endpoint {
    StartUpload,
    UploadBytes,
    FileInfo,
    DeleteFile,
}

/// The name of a file without the `files/` that the service puts in
/// front of it.
pub open spec fn file_id(file_name: Seq<char>) -> Seq<char> {
    match without_prefix(file_name, "files/"@) {
        Some(id) => id,
        None => file_name,
    }
}

/// The address at which uploads begin, with the API key.
pub open spec fn start_address(api_key: Seq<char>) -> Seq<char> {
    FILE_API_URL@ + "?key="@ + api_key
}

/// The address of an uploaded file, with the API key.
pub open spec fn file_address(file_name: Seq<char>, api_key: Seq<char>) -> Seq<char> {
    FILE_INFO_URL@ + "/"@ + file_id(file_name) + "?key="@ + api_key
}

/// Name and value of each header, in order.
pub open spec fn header_pairs(headers: Seq<Header>) -> Seq<(Seq<char>, Seq<char>)> {
    headers.map_values(|h: Header| (h.name@, h.value@))
}

/// The headers that open a resumable upload of `file_size` bytes.
pub open spec fn start_headers(file_size: u64, mime_type: Seq<char>) -> Seq<
    (Seq<char>, Seq<char>),
> {
    seq![
        ("X-Goog-Upload-Protocol"@, "resumable"@),
        ("X-Goog-Upload-Command"@, "start"@),
        ("X-Goog-Upload-Header-Content-Length"@, decimal(file_size as nat)),
        ("X-Goog-Upload-Header-Content-Type"@, mime_type),
        ("Content-Type"@, "application/json"@),
    ]
}

/// The headers that send all `len` bytes of a payload at once and close
/// the upload.
pub open spec fn transfer_headers(len: usize) -> Seq<(Seq<char>, Seq<char>)> {
    seq![
        ("Content-Length"@, decimal(len as nat)),
        ("X-Goog-Upload-Offset"@, "0"@),
        ("X-Goog-Upload-Command"@, "upload, finalize"@),
    ]
}

/// What a rejected reply says, as the errors of this module quote it:
/// `HTTP`, the status with its reason phrase, and the body.
pub open spec fn rejection_text(reply: HttpReply) -> Seq<char> {
    "HTTP "@ + decimal(reply.status as nat) + " "@ + reply.reason@ + ": "@ + reply.body@
}

/// Builds [`rejection_text`].
fn rejection_message(reply: &HttpReply) -> (r: String)
    ensures
        r@ == rejection_text(*reply),
{
    let mut r = concat("HTTP ", u64_to_string(reply.status as u64).as_str());
    r.append(" ");
    r.append(reply.reason.as_str());
    r.append(": ");
    r.append(reply.body.as_str());
    r
}

fn header(name: &str, value: &str) -> (h: Header)
    ensures
        h.name@ == name@,
        h.value@ == value@,
{
    Header { name: String::from_str(name), value: String::from_str(value) }
}

/// What [`check_reply`] makes of the outcome of an exchange.
///
/// A failed transmission is a network error with the transport's text. A
/// reply with a status in the 2xx range passes. Any other reply is the
/// error of the exchange it answers: the upload could not begin, the
/// bytes could not be uploaded, the file could not be deleted (each with
/// [`rejection_text`]), or, for a look at a file, an API error with the
/// status and the body.
pub open spec fn reply_checked(
    endpoint: Endpoint,
    transmission: Transmission,
    r: Result<HttpReply, FileApiError>,
) -> bool {
    match transmission {
        Transmission::Failed(message) => r == Err::<HttpReply, FileApiError>(
            FileApiError::NetworkError(message),
        ),
        Transmission::Replied(reply) => if is_success(reply.status) {
            r == Ok::<HttpReply, FileApiError>(reply)
        } else {
            match endpoint {
                Endpoint::StartUpload => r matches Err(FileApiError::UploadInitFailed(detail))
                    && detail@ == rejection_text(reply),
                Endpoint::UploadBytes => r matches Err(FileApiError::UploadFailed(detail))
                    && detail@ == rejection_text(reply),
                Endpoint::DeleteFile => r matches Err(FileApiError::DeleteFailed(detail))
                    && detail@ == rejection_text(reply),
                Endpoint::FileInfo => r == Err::<HttpReply, FileApiError>(
                    FileApiError::ApiError { status: reply.status, message: reply.body },
                ),
            }
        },
    }
}

/// Sorts the outcome of an exchange with the file service into the reply
/// to go on with and the error to report.
pub fn check_reply(endpoint: Endpoint, transmission: Transmission) -> (r: Result<
    HttpReply,
    FileApiError,
>)
    ensures
        reply_checked(endpoint, transmission, r),
{
    match transmission {
        Transmission::Failed(message) => Err(FileApiError::NetworkError(message)),
        Transmission::Replied(reply) => {
            if reply.status >= 200 && reply.status <= 299 {
                Ok(reply)
            } else {
                match endpoint {
                    Endpoint::StartUpload => Err(
                        FileApiError::UploadInitFailed(rejection_message(&reply)),
                    ),
                    Endpoint::UploadBytes => Err(
                        FileApiError::UploadFailed(rejection_message(&reply)),
                    ),
                    Endpoint::DeleteFile => Err(
                        FileApiError::DeleteFailed(rejection_message(&reply)),
                    ),
                    Endpoint::FileInfo => Err(
                        FileApiError::ApiError { status: reply.status, message: reply.body },
                    ),
                }
            }
        },
    }
}

/// A client of the file service: the API key under which files are
/// uploaded.
#[derive(Debug, Clone)]
pub struct FileApiClient {
    api_key: String,
}

impl FileApiClient {
    /// The API key of the client.
    pub closed spec fn key(&self) -> Seq<char> {
        self.api_key@
    }

    pub fn new(api_key: String) -> (client: Self)
        ensures
            client.key() == api_key@,
    {
        FileApiClient { api_key }
    }

    /// Strips the `files/` in front of a file's name, if it is there.
    pub fn extract_file_id(file_name: &str) -> (id: &str)
        ensures
            id@ == file_id(file_name@),
    {
        match strip_prefix(file_name, "files/") {
            Some(id) => id,
            None => file_name,
        }
    }

    /// The first step of an upload: the request that declares size,
    /// content type and display name of the payload and asks for a
    /// session.
    pub fn start_upload(&self, file_size: u64, mime_type: &str, display_name: &str) -> (request:
        FileRequest)
        ensures
            request.url@ == start_address(self.key()),
            header_pairs(request.headers@) == start_headers(file_size, mime_type@),
            request.body matches Some(body) && json_model(body) == single(
                "file"@,
                single("display_name"@, JsonModel::Text(display_name@)),
            ),
    {
        let mut url = concat(FILE_API_URL, "?key=");
        url.append(self.api_key.as_str());
        let mut headers: Vec<Header> = Vec::new();
        headers.push(header("X-Goog-Upload-Protocol", "resumable"));
        headers.push(header("X-Goog-Upload-Command", "start"));
        headers.push(
            header("X-Goog-Upload-Header-Content-Length", u64_to_string(file_size).as_str()),
        );
        headers.push(header("X-Goog-Upload-Header-Content-Type", mime_type));
        headers.push(header("Content-Type", "application/json"));
        proof {
            assert(header_pairs(headers@) =~= start_headers(file_size, mime_type@));
        }
        let body = single_member("file", single_member("display_name", json_text(display_name)));
        FileRequest { url, headers, body: Some(body) }
    }

    /// What [`FileApiClient::read_start_reply`] makes of the outcome of
    /// the first step: the address of the session where the reply passed
    /// and carries one, the error that reports its absence where it
    /// carries none, and else what [`reply_checked`] says.
    pub open spec fn start_reply_read(
        transmission: Transmission,
        r: Result<String, FileApiError>,
    ) -> bool {
        match transmission {
            Transmission::Failed(message) => r == Err::<String, FileApiError>(
                FileApiError::NetworkError(message),
            ),
            Transmission::Replied(reply) => if is_success(reply.status) {
                match reply.upload_url {
                    Some(url) => r == Ok::<String, FileApiError>(url),
                    None => r matches Err(FileApiError::MissingUploadUrl),
                }
            } else {
                r matches Err(FileApiError::UploadInitFailed(detail)) && detail@ == rejection_text(
                    reply,
                )
            },
        }
    }

    /// Reads the reply to the first step: the address of the session that
    /// the service opened. A reply without it is an error.
    pub fn read_start_reply(transmission: Transmission) -> (r: Result<String, FileApiError>)
        ensures
            Self::start_reply_read(transmission, r),
    {
        match check_reply(Endpoint::StartUpload, transmission) {
            Ok(reply) => match reply.upload_url {
                Some(url) => Ok(url),
                None => Err(FileApiError::MissingUploadUrl),
            },
            Err(e) => Err(e),
        }
    }

    /// The second step of an upload: the request that sends the whole
    /// payload of `len` bytes to the session and closes it.
    pub fn upload_bytes(&self, upload_url: &str, len: usize) -> (request: FileRequest)
        ensures
            request.url@ == upload_url@,
            header_pairs(request.headers@) == transfer_headers(len),
            request.body is None,
    {
        let mut headers: Vec<Header> = Vec::new();
        headers.push(header("Content-Length", u64_to_string(len as u64).as_str()));
        headers.push(header("X-Goog-Upload-Offset", "0"));
        headers.push(header("X-Goog-Upload-Command", "upload, finalize"));
        proof {
            assert(header_pairs(headers@) =~= transfer_headers(len));
        }
        FileRequest { url: String::from_str(upload_url), headers, body: None }
    }

    /// The address at which the file of that name is looked up.
    pub fn get_file_info(&self, file_name: &str) -> (url: String)
        ensures
            url@ == file_address(file_name@, self.key()),
    {
        let mut url = concat(FILE_INFO_URL, "/");
        url.append(Self::extract_file_id(file_name));
        url.append("?key=");
        url.append(self.api_key.as_str());
        url
    }

    /// The address at which the file of that name is deleted.
    pub fn delete_file(&self, file_name: &str) -> (url: String)
        ensures
            url@ == file_address(file_name@, self.key()),
    {
        self.get_file_info(file_name)
    }
}

/// Where an upload stands.
#[derive(Debug, Clone, Copy, PartialEq, Eq, Structural)]
pub enum UploadState {
    /// The payload is on its way: the session is being opened or the
    /// bytes are being sent.
    Uploading,
    /// The service has the payload and is processing it.
    Processing,
    /// The file is ready to be used.
    Active,
    /// The upload failed, or the service could not process the file.
    Failed,
    /// The service did not finish processing within the time allowed.
    TimedOut,
}

/// A span of time, as a clock measures it: whole seconds and the
/// nanoseconds beyond them.
#[derive(Debug, Clone, Copy)]
pub struct Elapsed {
    pub secs: u64,
    pub nanos: u32,
}

impl Elapsed {
    /// Whether the span is longer than `limit_secs` seconds.
    pub open spec fn exceeds(self, limit_secs: u64) -> bool {
        self.secs > limit_secs || (self.secs == limit_secs && self.nanos > 0)
    }

    /// Computes [`Elapsed::exceeds`].
    pub fn is_longer_than(&self, limit_secs: u64) -> (r: bool)
        ensures
            r == self.exceeds(limit_secs),
    {
        self.secs > limit_secs || (self.secs == limit_secs && self.nanos > 0)
    }
}

/// What the owner of an upload does next.
#[derive(Debug, Clone, Copy, PartialEq, Eq, Structural)]
pub enum UploadAction {
    /// Ask the service for a session.
    StartUpload,
    /// Send the payload to the session.
    TransferBytes,
    /// Wait `after_secs` seconds, then look at the file's status.
    FetchStatus { after_secs: u64 },
    /// Nothing: the upload has ended. Take the result.
    Finish,
}

/// The state that a look at a file in processing leads to: the service's
/// word decides first, then the clock.
pub open spec fn status_outcome(reported: Seq<char>, elapsed: Elapsed) -> UploadState {
    if reported == "ACTIVE"@ {
        UploadState::Active
    } else if reported == "FAILED"@ {
        UploadState::Failed
    } else if elapsed.exceeds(FILE_PROCESSING_TIMEOUT_SECS) {
        UploadState::TimedOut
    } else {
        UploadState::Processing
    }
}

/// Whether `failure` is the error that reports that the service could
/// not process the file `polled`.
pub open spec fn processing_failed(
    failure: Option<FileApiError>,
    polled: Option<FileInfo>,
) -> bool {
    &&& polled is Some
    &&& failure matches Some(FileApiError::UploadFailed(detail))
    &&& detail@ == "File processing failed for "@ + polled->Some_0.name@
}

/// One upload, from the request for a session to a file that is ready.
#[derive(Debug)]
pub struct UploadSession {
    pub state: UploadState,
    /// The session that the service opened.
    pub upload_url: Option<String>,
    /// The file as the service reported it when the bytes had arrived,
    /// or, once it is active, as it was last reported.
    pub file: Option<FileInfo>,
    /// Why the upload ended without an active file.
    pub failure: Option<FileApiError>,
    /// How many times the file's status has been looked at.
    pub status_fetches: u64,
}

impl UploadSession {
    /// What a session holds fits its state: a file once the bytes have
    /// arrived, an active file in the active state, and the reason in each
    /// of the states of failure.
    pub open spec fn wf(&self) -> bool {
        match self.state {
            UploadState::Uploading => self.file is None && self.failure is None
                && self.status_fetches == 0,
            UploadState::Processing => self.file is Some && self.failure is None,
            UploadState::Active => self.failure is None && self.file is Some
                && self.file->Some_0.state@ == "ACTIVE"@,
            UploadState::Failed => self.failure is Some,
            UploadState::TimedOut => self.failure == Some(
                FileApiError::FileProcessingTimeout(FILE_PROCESSING_TIMEOUT_SECS),
            ),
        }
    }

    /// Whether the upload has ended, well or badly.
    pub open spec fn terminal(&self) -> bool {
        self.state == UploadState::Active || self.state == UploadState::Failed || self.state
            == UploadState::TimedOut
    }

    /// What is to be done in a given state.
    pub open spec fn action(&self) -> UploadAction {
        match self.state {
            UploadState::Uploading => if self.upload_url is None {
                UploadAction::StartUpload
            } else {
                UploadAction::TransferBytes
            },
            UploadState::Processing => UploadAction::FetchStatus {
                after_secs: if self.status_fetches == 0 {
                    0
                } else {
                    FILE_PROCESSING_POLL_INTERVAL_SECS
                },
            },
            _ => UploadAction::Finish,
        }
    }

    /// An upload that has not begun.
    pub fn new() -> (session: Self)
        ensures
            session.wf(),
            session.state == UploadState::Uploading,
            session.upload_url is None,
            session.status_fetches == 0,
    {
        UploadSession {
            state: UploadState::Uploading,
            upload_url: None,
            file: None,
            failure: None,
            status_fetches: 0,
        }
    }

    /// What to do next. The first look at a file in processing is
    /// immediate, each later one waits for the poll interval. Once the
    /// upload has ended nothing more is asked of the service.
    pub fn next_action(&self) -> (action: UploadAction)
        ensures
            action == self.action(),
            self.terminal() <==> action == UploadAction::Finish,
    {
        match self.state {
            UploadState::Uploading => if self.upload_url.is_none() {
                UploadAction::StartUpload
            } else {
                UploadAction::TransferBytes
            },
            UploadState::Processing => if self.status_fetches == 0 {
                UploadAction::FetchStatus { after_secs: 0 }
            } else {
                UploadAction::FetchStatus { after_secs: FILE_PROCESSING_POLL_INTERVAL_SECS }
            },
            _ => UploadAction::Finish,
        }
    }

    /// Takes the answer to the request for a session: its address, or the
    /// error that ends the upload.
    pub fn on_start(&mut self, result: Result<String, FileApiError>)
        requires
            old(self).wf(),
            old(self).action() == UploadAction::StartUpload,
        ensures
            final(self).wf(),
            final(self).status_fetches == 0,
            match result {
                Ok(url) => final(self).state == UploadState::Uploading && final(self).upload_url
                    == Some(url) && final(self).action() == UploadAction::TransferBytes,
                Err(e) => final(self).state == UploadState::Failed && final(self).failure == Some(
                    e,
                ),
            },
    {
        match result {
            Ok(url) => {
                self.upload_url = Some(url);
            },
            Err(e) => {
                self.state = UploadState::Failed;
                self.failure = Some(e);
            },
        }
    }

    /// Takes the answer to the transfer of the bytes: the file as the
    /// service reports it, or the error that ends the upload. A file that
    /// is reported active is ready; any other is in processing and will
    /// be looked at.
    pub fn on_transfer(&mut self, result: Result<FileInfo, FileApiError>)
        requires
            old(self).wf(),
            old(self).action() == UploadAction::TransferBytes,
        ensures
            final(self).wf(),
            final(self).upload_url == old(self).upload_url,
            final(self).status_fetches == 0,
            match result {
                Ok(info) => final(self).file == Some(info) && final(self).state == (if info.state@
                    == "ACTIVE"@ {
                    UploadState::Active
                } else {
                    UploadState::Processing
                }),
                Err(e) => final(self).state == UploadState::Failed && final(self).failure == Some(
                    e,
                ),
            },
    {
        match result {
            Ok(info) => {
                if str_eq(info.state.as_str(), "ACTIVE") {
                    self.state = UploadState::Active;
                } else {
                    self.state = UploadState::Processing;
                }
                self.file = Some(info);
            },
            Err(e) => {
                self.state = UploadState::Failed;
                self.failure = Some(e);
            },
        }
    }

    /// The name under which the file in processing is looked up.
    pub fn file_name(&self) -> (name: &str)
        requires
            self.wf(),
            self.state == UploadState::Processing,
        ensures
            self.file matches Some(info) && name@ == info.name@,
    {
        match &self.file {
            Some(info) => info.name.as_str(),
            None => unreached(),
        }
    }

    /// Takes the answer to a look at the file, and the time that has
    /// passed since the first look began.
    ///
    /// An error ends the upload. A file reported `ACTIVE` is ready; one
    /// reported `FAILED` ends the upload as failed. Otherwise the upload
    /// times out if more than the time allowed has passed, and stays in
    /// processing if not. Every answer counts as one look.
    pub fn on_status(&mut self, result: Result<FileInfo, FileApiError>, elapsed: Elapsed)
        requires
            old(self).wf(),
            old(self).state == UploadState::Processing,
        ensures
            final(self).wf(),
            final(self).upload_url == old(self).upload_url,
            final(self).status_fetches == if old(self).status_fetches < u64::MAX {
                old(self).status_fetches + 1
            } else {
                u64::MAX as int
            },
            match result {
                Err(e) => final(self).state == UploadState::Failed && final(self).failure == Some(
                    e,
                ) && final(self).file == old(self).file,
                Ok(info) => final(self).state == status_outcome(info.state@, elapsed)
                    && match final(self).state {
                    UploadState::Active => final(self).file == Some(info),
                    UploadState::Failed => final(self).file == old(self).file
                        && processing_failed(final(self).failure, old(self).file),
                    _ => final(self).file == old(self).file,
                },
            },
    {
        if self.status_fetches < u64::MAX {
            self.status_fetches = self.status_fetches + 1;
        }
        match result {
            Err(e) => {
                self.state = UploadState::Failed;
                self.failure = Some(e);
            },
            Ok(info) => {
                if str_eq(info.state.as_str(), "ACTIVE") {
                    self.state = UploadState::Active;
                    self.file = Some(info);
                } else if str_eq(info.state.as_str(), "FAILED") {
                    let detail = match &self.file {
                        Some(polled) => concat("File processing failed for ", polled.name.as_str()),
                        None => unreached(),
                    };
                    self.state = UploadState::Failed;
                    self.failure = Some(FileApiError::UploadFailed(detail));
                } else if elapsed.is_longer_than(FILE_PROCESSING_TIMEOUT_SECS) {
                    self.state = UploadState::TimedOut;
                    self.failure = Some(
                        FileApiError::FileProcessingTimeout(FILE_PROCESSING_TIMEOUT_SECS),
                    );
                }
            },
        }
    }

    /// The result of an upload that has ended: the active file, or why
    /// there is none.
    pub fn into_result(self) -> (r: Result<FileInfo, FileApiError>)
        requires
            self.wf(),
            self.terminal(),
        ensures
            self.state == UploadState::Active ==> self.file == Some(r->Ok_0) && r is Ok,
            self.state != UploadState::Active ==> self.failure == Some(r->Err_0) && r is Err,
    {
        match self.state {
            UploadState::Active => match self.file {
                Some(info) => Ok(info),
                None => unreached(),
            },
            _ => match self.failure {
                Some(e) => Err(e),
                None => unreached(),
            },
        }
    }
}

/// An upload that has ended asks nothing more of the service: no state
/// that is active, failed or timed out leads to another request or
/// another look at the file.
pub proof fn lemma_ended_upload_is_quiet(session: UploadSession)
    requires
        session.terminal(),
    ensures
        session.action() == UploadAction::Finish,
{
}

/// A file in processing is looked at again exactly when the service
/// reports neither `ACTIVE` nor `FAILED` and the time allowed has not
/// passed.
pub proof fn lemma_polling_continues(reported: Seq<char>, elapsed: Elapsed)
    ensures
        status_outcome(reported, elapsed) == UploadState::Processing <==> (reported != "ACTIVE"@
            && reported != "FAILED"@ && !elapsed.exceeds(FILE_PROCESSING_TIMEOUT_SECS)),
        status_outcome(reported, elapsed) == UploadState::TimedOut <==> (reported != "ACTIVE"@
            && reported != "FAILED"@ && elapsed.exceeds(FILE_PROCESSING_TIMEOUT_SECS)),
{
}

/// Where a file in processing ends up, and after how many looks, when
/// the looks are answered by `reports` in order, each with the state that
/// the service reports and the time that has passed. The looks go on
/// while the outcome is `Processing`; the first other outcome ends them,
/// and what follows in `reports` is never asked for.
pub open spec fn polled(reports: Seq<(Seq<char>, Elapsed)>) -> (UploadState, nat)
    decreases reports.len(),
{
    if reports.len() == 0 {
        (UploadState::Processing, 0)
    } else {
        let first = status_outcome(reports[0].0, reports[0].1);
        if first == UploadState::Processing {
            let rest = polled(reports.skip(1));
            (rest.0, rest.1 + 1)
        } else {
            (first, 1)
        }
    }
}

/// Polling ends with the first look whose outcome is not `Processing`:
/// if the looks before position `k` leave the file in processing and the
/// look at `k` does not, the upload ends in the state of that look after
/// exactly `k + 1` looks, whatever the service would have answered
/// afterwards.
pub proof fn lemma_polling_ends_at_first_outcome(reports: Seq<(Seq<char>, Elapsed)>, k: int)
    requires
        0 <= k < reports.len(),
        forall|i: int|
            0 <= i < k ==> status_outcome((#[trigger] reports[i]).0, reports[i].1)
                == UploadState::Processing,
        status_outcome(reports[k].0, reports[k].1) != UploadState::Processing,
    ensures
        polled(reports) == (status_outcome(reports[k].0, reports[k].1), (k + 1) as nat),
    decreases k,
{
    if k > 0 {
        assert(status_outcome(reports[0].0, reports[0].1) == UploadState::Processing);
        assert forall|i: int| 0 <= i < k - 1 implies status_outcome(
            (#[trigger] reports.skip(1)[i]).0,
            reports.skip(1)[i].1,
        ) == UploadState::Processing by {
            assert(reports.skip(1)[i] == reports[i + 1]);
        }
        lemma_polling_ends_at_first_outcome(reports.skip(1), k - 1);
    }
}

/// A file that the service reports in processing `k` times, each within
/// the time allowed, and then active, is looked at exactly `k + 1` times,
/// and the upload ends active.
pub proof fn lemma_active_after_processing(reports: Seq<(Seq<char>, Elapsed)>, k: int)
    requires
        0 <= k,
        reports.len() == k + 1,
        forall|i: int|
            0 <= i < k ==> (#[trigger] reports[i]).0 != "ACTIVE"@ && reports[i].0 != "FAILED"@
                && !reports[i].1.exceeds(FILE_PROCESSING_TIMEOUT_SECS),
        reports[k].0 == "ACTIVE"@,
    ensures
        polled(reports) == (UploadState::Active, (k + 1) as nat),
{
    lemma_polling_ends_at_first_outcome(reports, k);
}

/// A file that stays in processing times out at the first look after the
/// time allowed, and is not looked at again.
pub proof fn lemma_timeout_ends_polling(reports: Seq<(Seq<char>, Elapsed)>, k: int)
    requires
        0 <= k < reports.len(),
        forall|i: int|
            0 <= i < reports.len() ==> (#[trigger] reports[i]).0 != "ACTIVE"@ && reports[i].0
                != "FAILED"@,
        forall|i: int|
            0 <= i < k ==> !(#[trigger] reports[i]).1.exceeds(FILE_PROCESSING_TIMEOUT_SECS),
        reports[k].1.exceeds(FILE_PROCESSING_TIMEOUT_SECS),
    ensures
        polled(reports) == (UploadState::TimedOut, (k + 1) as nat),
{
    lemma_polling_ends_at_first_outcome(reports, k);
}

} // verus!
