//! The descriptions of uploaded files.

use crate::api::client::{authorization_of, params_view, HttpRequest, Method, Params};
use crate::error::FileUploadError;
use crate::text::joined;
use crate::text::text_of;
use crate::Baserow;
use vstd::prelude::*;
use vstd::string::StringExecFns;

verus! {

/// One thumbnail of an uploaded image.
#[derive(Debug, Clone)]
pub struct Thumbnail {
    /// Where the thumbnail can be fetched.
    pub url: String,
    /// Its width in pixels, where the service fixes one.
    pub width: Option<u32>,
    /// Its height in pixels, where the service fixes one.
    pub height: Option<u32>,
}

/// The thumbnails that the service makes of an uploaded image.
#[derive(Debug, Clone)]
pub struct Thumbnails {
    /// The smallest one.
    pub tiny: Thumbnail,
    /// The next larger one.
    pub small: Thumbnail,
}

/// An uploaded file, as the service describes it.
#[derive(Debug, Clone)]
pub struct File {
    /// Where the file can be fetched.
    pub url: String,
    /// Its thumbnails, if it is an image.
    pub thumbnails: Option<Thumbnails>,
    /// The name under which the service stores it.
    pub name: String,
    /// Its size in bytes.
    pub size: u64,
    /// Its media type.
    pub mime_type: String,
    /// Whether the service takes it for an image.
    pub is_image: bool,
    /// The image's width in pixels.
    pub image_width: Option<u32>,
    /// The image's height in pixels.
    pub image_height: Option<u32>,
    /// When it was uploaded, as the service writes it.
    pub uploaded_at: String,
}

/// The body of a request to upload the file found at a URL.
#[derive(Debug, Clone)]
pub struct UploadFileViaUrlRequest {
    /// The URL to fetch the file from.
    pub url: String,
}

/// What is needed to upload a file: the request, and the name and media type
/// under which the file's content is sent.
#[derive(Debug)]
pub struct FileUpload {
    /// The request; its body is the file's content as a form part.
    pub request: HttpRequest,
    /// The name of the file.
    pub file_name: String,
    /// The media type of the file, guessed from its name.
    pub content_type: String,
}

/// The normal form of a URL, for a text that is one.
pub uninterp spec fn normal_url(text: Seq<char>) -> Option<Seq<char>>;

/// `mime_guess::from_path` with `first_or_octet_stream`: the media type that
/// the extension of the name suggests, or that of arbitrary bytes. What
/// counts as the extension is decided by the platform's rules for paths, so
/// nothing is claimed of the result.
#[verifier::external_body]
pub(crate) fn guessed_content_type(file_name: &str) -> (content_type: String) {
    mime_guess::from_path(file_name).first_or_octet_stream().as_ref().to_string()
}

/// `str::parse` for `reqwest::Url`, and `to_string` on the URL: the normal
/// form of `text` where it is a URL, and nothing where it is not. The result
/// depends on the text alone.
#[verifier::external_body]
pub(crate) fn parsed_url(text: &str) -> (url: Option<String>)
    ensures
        text_of(url) == normal_url(text@),
{
    match text.parse::<reqwest::Url>() {
        Ok(url) => Some(url.to_string()),
        Err(_) => None,
    }
}

/// The URL to which files are uploaded.
pub open spec fn upload_file_url(base: Seq<char>) -> Seq<char> {
    base + "/api/user-files/upload-file/"@
}

/// The URL to which the URLs of files are uploaded.
pub open spec fn upload_via_url_url(base: Seq<char>) -> Seq<char> {
    base + "/api/user-files/upload-via-url/"@
}

/// The body that asks the service to fetch a file, from the text that the
/// caller gave and its normal form as a URL: a text that is no URL is
/// refused, and carried in the error.
pub fn upload_via_url_body(text: &str, url: Option<String>) -> (outcome: Result<
    UploadFileViaUrlRequest,
    FileUploadError,
>)
    ensures
        url is Some ==> (outcome matches Ok(body) && body.url == url->0),
        url is None ==> (outcome matches Err(FileUploadError::InvalidURL(given)) && given@
            == text@),
{
    match url {
        Some(url) => Ok(UploadFileViaUrlRequest { url }),
        None => Err(FileUploadError::InvalidURL(String::from_str(text))),
    }
}

/// Accepts the response to an upload by its status: 200 passes; any other
/// status is an error that carries it.
pub fn upload_status(status: u16) -> (outcome: Result<(), FileUploadError>)
    ensures
        status == 200 ==> outcome is Ok,
        status != 200 ==> outcome == Err::<(), FileUploadError>(
            FileUploadError::UnexpectedStatusCode(status),
        ),
{
    if status == 200 {
        Ok(())
    } else {
        Err(FileUploadError::UnexpectedStatusCode(status))
    }
}

impl Baserow {
    /// What is needed to upload a file named `file_name`. The token is sent
    /// where the configuration has one.
    pub fn upload_file_request(&self, file_name: String) -> (upload: FileUpload)
        ensures
            upload.request.describes(
                Method::Post,
                upload_file_url(self.configuration.base_url@),
                Params::empty(),
                authorization_of(self.configuration),
            ),
            upload.file_name == file_name,
    {
        let request = HttpRequest {
            method: Method::Post,
            url: joined(self.configuration.base_url.as_str(), "/api/user-files/upload-file/"),
            query: Vec::new(),
            authorization: self.authorization(),
        };
        assert(params_view(request.query@) =~= Params::empty());
        let content_type = guessed_content_type(file_name.as_str());
        FileUpload { request, file_name, content_type }
    }

    /// The request that asks the service to fetch the file at `url`, with its
    /// body, which holds the URL in its normal form. A text that is no URL is
    /// refused before anything is described. The token is sent where the
    /// configuration has one.
    pub fn upload_file_via_url_request(&self, url: &str) -> (outcome: Result<
        (HttpRequest, UploadFileViaUrlRequest),
        FileUploadError,
    >)
        ensures
            normal_url(url@) is None ==> (outcome matches Err(FileUploadError::InvalidURL(given))
                && given@ == url@),
            normal_url(url@) is Some ==> (outcome matches Ok(sent) && sent.0.describes(
                Method::Post,
                upload_via_url_url(self.configuration.base_url@),
                Params::empty(),
                authorization_of(self.configuration),
            ) && sent.1.url@ == normal_url(url@)->0),
    {
        let body = match upload_via_url_body(url, parsed_url(url)) {
            Ok(body) => body,
            Err(error) => {
                return Err(error);
            },
        };
        let request = HttpRequest {
            method: Method::Post,
            url: joined(self.configuration.base_url.as_str(), "/api/user-files/upload-via-url/"),
            query: Vec::new(),
            authorization: self.authorization(),
        };
        assert(params_view(request.query@) =~= Params::empty());
        Ok((request, body))
    }
}

} // verus!
