use vstd::prelude::*;
use vstd::string::StringExecFns;
use crate::errors::UploadError;
use crate::outside::{json_id_of, json_well_formed, json_id_field, resolve_with_path, sniff_type, sniffed, url_with_path};

verus! {

/// The application name carried by every desktop notification.
pub fn app_name() -> (s: &'static str)
    ensures
        s@ == "filebin-img-uploader"@,
{
    "filebin-img-uploader"
}

/// The summary line of every desktop notification.
pub fn notification_summary() -> (s: &'static str)
    ensures
        s@ == "Screenshot"@,
{
    "Screenshot"
}

/// How long a desktop notification stays up, in milliseconds.
pub const NOTIFICATION_TIMEOUT_MS: u32 = 5000;

/// The name of the single part of the multipart upload form.
pub fn form_part_name() -> (s: &'static str)
    ensures
        s@ == "file"@,
{
    "file"
}

/// The path of the upload endpoint, relative to the service's base URL.
pub open spec fn upload_file_path() -> Seq<char> {
    "/api/file"@
}

/// The path under which the service serves the file with identifier `id`.
pub open spec fn download_file_path(id: Seq<char>) -> Seq<char> {
    "/api/file/"@ + id
}

/// The filename under which the image is uploaded, synthesized from the
/// sniffed extension.
pub open spec fn upload_filename(ext: Seq<char>) -> Seq<char> {
    "upload."@ + ext
}

/// The notification body on the declined path.
pub open spec fn decline_notice_text() -> Seq<char> {
    "Screenshot has been copied to clipboard."@
}

/// The notification body shown right before the upload.
pub open spec fn uploading_notice_text() -> Seq<char> {
    "Uploading to filebin..."@
}

/// The notification body reporting the download link.
pub open spec fn link_notice_text(link: Seq<char>) -> Seq<char> {
    "Screenshot link has been copied to clipboard. ("@ + link + ")"@
}

/// The notification body reporting a failed run.
pub open spec fn failure_notice_text(e: UploadError) -> Seq<char> {
    "Image uploader failed with \""@ + crate::errors::message_of(e) + "\""@
}

/// Where a run with endpoint `ep` posts its upload: a function of the
/// endpoint alone, the same for every run.
pub open spec fn planned_upload(ep: Seq<char>) -> Option<Seq<char>> {
    url_with_path(ep, upload_file_path())
}

/// The download link a run surfaces for the response `body`: a function of
/// the endpoint and that run's own response alone.
pub open spec fn planned_link(ep: Seq<char>, body: Seq<char>) -> Option<Seq<char>> {
    if json_well_formed(body) && json_id_of(body) is Some {
        url_with_path(ep, download_file_path(json_id_of(body)->Some_0))
    } else {
        None
    }
}

/// Whether `status` is an HTTP success status.
pub open spec fn success_status(status: u16) -> bool {
    200 <= status < 300
}

/// One HTTP POST, fully determined: where to send, under what filename and
/// MIME type, and which bytes.
pub struct UploadRequest {
    /// The resolved upload URL, `<endpoint>/api/file`.
    pub url: String,
    /// The synthesized filename, `upload.<ext>`.
    pub filename: String,
    /// The sniffed MIME type.
    pub mime: String,
    /// The image bytes, exactly as read from input.
    pub bytes: Vec<u8>,
}

/// What the run does after the user's decision: either copy the image
/// itself, or upload it. Each arm carries the notification body to show
/// before acting.
pub enum Plan {
    /// Declined: put the image bytes themselves on the clipboard.
    CopyImage { notice: String, bytes: Vec<u8> },
    /// Accepted: perform this upload.
    Upload { notice: String, request: UploadRequest },
}

/// What the run does after a successful upload: put `link` on the clipboard
/// and show `notice`.
pub struct UploadOutcome {
    /// The download URL, `<endpoint>/api/file/<id>`.
    pub link: String,
    /// The notification body reporting the link.
    pub notice: String,
}

/// Decides the whole run up to the network call, from the image bytes, the
/// user's decision and the configured endpoint. Declining plans a verbatim
/// copy of the bytes; accepting plans one upload, provided the bytes carry a
/// known file signature and the endpoint is present and a valid URL. The
/// checks run in that order, so an unrecognized image fails before the
/// endpoint is even looked at, and nothing past this function runs on a
/// failed check. Neither path checks that the bytes are a well-formed image:
/// the declined path copies them sight unseen, and the accepted path looks
/// only at the leading signature.
pub fn prepare(img: Vec<u8>, accepted: bool, endpoint: Option<&str>) -> (r: Result<
    Plan,
    UploadError,
>)
    ensures
        (!accepted ==> (r matches Ok(p) && p matches Plan::CopyImage { notice, bytes }
            && notice@ == decline_notice_text() && bytes@ == img@)),
        (accepted ==> (match sniffed(img@) {
            None => r == Err::<Plan, UploadError>(UploadError::Recognition),
            Some(t) => (match endpoint {
                None => r matches Err(e) && e matches UploadError::Config(m) && m@
                    == "environment variable not found"@,
                Some(ep) => (match planned_upload(ep@) {
                    None => r matches Err(e) && e matches UploadError::Config(_),
                    Some(u) => r matches Ok(p) && p matches Plan::Upload { notice, request }
                        && notice@ == uploading_notice_text() && request.url@ == u
                        && request.mime@ == t.0 && request.filename@ == upload_filename(t.1)
                        && request.bytes@ == img@,
                }),
            }),
        })),
{
    if !accepted {
        let notice = String::from_str("Screenshot has been copied to clipboard.");
        return Ok(Plan::CopyImage { notice, bytes: img });
    }
    match sniff_type(img.as_slice()) {
        None => Err(UploadError::Recognition),
        Some(t) => match endpoint {
            None => Err(
                UploadError::Config(String::from_str("environment variable not found")),
            ),
            Some(ep) => match resolve_with_path(ep, "/api/file") {
                Err(m) => Err(UploadError::Config(m)),
                Ok(u) => {
                    let (mime, ext) = t;
                    let mut filename = String::from_str("upload.");
                    filename.append(ext.as_str());
                    let notice = String::from_str("Uploading to filebin...");
                    Ok(
                        Plan::Upload {
                            notice,
                            request: UploadRequest { url: u, filename, mime, bytes: img },
                        },
                    )
                },
            },
        },
    }
}

/// Decides the rest of the run from the upload's HTTP status and response
/// body: only a success status whose body is JSON with a string field `id`
/// yields an outcome, whose link is the endpoint's URL with the path
/// `/api/file/<id>`. The checks run in the order given by the `ensures`
/// chain, and no outcome - so no clipboard write of a link - exists on any
/// failed check.
pub fn finish_upload(endpoint: Option<&str>, status: u16, body: &str) -> (r: Result<
    UploadOutcome,
    UploadError,
>)
    ensures
        (!success_status(status) ==> r == Err::<UploadOutcome, UploadError>(
            UploadError::Status(status),
        )),
        (success_status(status) ==> (if !json_well_formed(body@) {
            r matches Err(e) && e matches UploadError::Parse(_)
        } else {
            match endpoint {
                None => r matches Err(e) && e matches UploadError::Config(m) && m@
                    == "environment variable not found"@,
                Some(ep) => (match json_id_of(body@) {
                    None => r == Err::<UploadOutcome, UploadError>(UploadError::MissingField),
                    Some(id) => (match url_with_path(ep@, download_file_path(id)) {
                        None => r matches Err(e) && e matches UploadError::Config(_),
                        Some(link) => r matches Ok(o) && o.link@ == link && o.notice@
                            == link_notice_text(link),
                    }),
                }),
            }
        })),
{
    if status < 200 || 300 <= status {
        return Err(UploadError::Status(status));
    }
    match json_id_field(body) {
        Err(m) => Err(UploadError::Parse(m)),
        Ok(opt_id) => match endpoint {
            None => Err(
                UploadError::Config(String::from_str("environment variable not found")),
            ),
            Some(ep) => match opt_id {
                None => Err(UploadError::MissingField),
                Some(id) => {
                    let mut path = String::from_str("/api/file/");
                    path.append(id.as_str());
                    proof {
                        assert(path@ =~= download_file_path(id@));
                    }
                    match resolve_with_path(ep, path.as_str()) {
                        Err(m) => Err(UploadError::Config(m)),
                        Ok(link) => {
                            let mut notice = String::from_str(
                                "Screenshot link has been copied to clipboard. (",
                            );
                            notice.append(link.as_str());
                            notice.append(")");
                            proof {
                                assert(notice@ =~= link_notice_text(link@));
                            }
                            Ok(UploadOutcome { link, notice })
                        },
                    }
                },
            },
        },
    }
}

/// The notification body for a failed run: the error's description, quoted,
/// after a fixed preamble.
pub fn failure_notice(e: &UploadError) -> (s: String)
    ensures
        s@ == failure_notice_text(*e),
{
    let mut s = String::from_str("Image uploader failed with \"");
    let m = e.message();
    s.append(m.as_str());
    s.append("\"");
    proof {
        assert(s@ =~= failure_notice_text(*e));
    }
    s
}

/// Runs are independent: the pipeline keeps no state between them. Where to
/// post is a function of the endpoint alone - `planned_upload`, the same for
/// every run, so a second run with identical input uploads again instead of
/// reusing the first run's result - and the link a run surfaces embeds the
/// identifier of that run's own response alone, whatever any other run's
/// response held.
pub proof fn lemma_runs_independent(
    ep: Seq<char>,
    body1: Seq<char>,
    body2: Seq<char>,
    id1: Seq<char>,
    id2: Seq<char>,
)
    requires
        json_well_formed(body1),
        json_id_of(body1) == Some(id1),
        json_well_formed(body2),
        json_id_of(body2) == Some(id2),
    ensures
        planned_link(ep, body1) == url_with_path(ep, download_file_path(id1)),
        planned_link(ep, body2) == url_with_path(ep, download_file_path(id2)),
{
}

} // verus!
