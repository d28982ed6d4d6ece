//! Data exchanged with the disk service, and the parts of its client that compute.
use vstd::prelude::*;
use base64::Engine;
use crate::config::Config;
use crate::meta_db::Meta;
use crate::utils::text::{debug_quoted, decimal, decimal_text, push_str, quoted, same_text};

verus! {

/// Tokens granted by the OAuth service.
pub struct SuccessAuth {
    pub token_type: String,
    pub access_token: String,
    pub expires_in: i32,
    pub refresh_token: String,
}

/// The body of a refused OAuth request.
pub struct AuthError {
    pub error: String,
    pub error_description: String,
}

/// The account owner.
pub struct User {
    pub display_name: String,
}

/// Disk usage as the service reports it.
pub struct DiskMetaResponse {
    pub used_space: u64,
    pub total_space: u64,
    pub user: User,
}

/// One resource on the disk; `item_type` is `dir` for a directory.
#[derive(Hash, Eq, PartialEq, Debug)]
pub struct DirItem {
    pub name: String,
    pub resource_id: String,
    pub path: String,
    pub item_type: String,
    pub created: String,
    pub modified: String,
    pub revision: u64,
}

impl Clone for DirItem {
    fn clone(&self) -> (r: Self)
        ensures
            r == *self,
    {
        DirItem {
            name: self.name.clone(),
            resource_id: self.resource_id.clone(),
            path: self.path.clone(),
            item_type: self.item_type.clone(),
            created: self.created.clone(),
            modified: self.modified.clone(),
            revision: self.revision,
        }
    }
}

/// A page of a directory's resources.
#[derive(Clone, Debug)]
pub struct DirItems {
    pub limit: u32,
    pub offset: u32,
    pub total: u32,
    pub items: Vec<DirItem>,
}

/// A resource with the page of resources it contains.
#[derive(Clone, Debug)]
pub struct ItemResponse {
    pub name: String,
    pub resource_id: String,
    pub path: String,
    pub item_type: String,
    pub created: String,
    pub modified: String,
    pub revision: u64,
    pub _embedded: DirItems,
}

/// Whether a resource type names a directory.
pub open spec fn is_dir_type(t: Seq<char>) -> bool {
    t == "dir"@
}

fn dir_type_text(t: &str) -> (r: bool)
    ensures
        r == is_dir_type(t@),
{
    proof {
        reveal_strlit("dir");
    }
    same_text(t, "dir")
}

impl DirItem {
    /// Whether the resource is a directory.
    pub fn is_dir(&self) -> (r: bool)
        ensures
            r == is_dir_type(self.item_type@),
    {
        dir_type_text(self.item_type.as_str())
    }
}

impl ItemResponse {
    /// Whether the resource is a directory.
    pub fn is_dir(&self) -> (r: bool)
        ensures
            r == is_dir_type(self.item_type@),
    {
        dir_type_text(self.item_type.as_str())
    }

    /// Splits the response into the resource itself and the page of its content.
    pub fn as_tuple(self) -> (r: (DirItem, DirItems))
        ensures
            r.0 == (DirItem {
                name: self.name,
                resource_id: self.resource_id,
                path: self.path,
                item_type: self.item_type,
                created: self.created,
                modified: self.modified,
                revision: self.revision,
            }),
            r.1 == self._embedded,
    {
        (
            DirItem {
                name: self.name,
                resource_id: self.resource_id,
                path: self.path,
                item_type: self.item_type,
                created: self.created,
                modified: self.modified,
                revision: self.revision,
            },
            self._embedded,
        )
    }
}

/// A failed request to the disk service.
#[derive(Debug)]
pub enum DiskError {
    UnknownServer(String),
    Unauthorized(String),
    Forbidden(String),
    InvalidResponseBody(String),
    EmptyToken,
}

/// Where the service sends the content of a resource.
pub struct DownloadHref {
    pub href: String,
    pub method: String,
    pub templated: bool,
}

/// The message a disk error reports.
pub open spec fn disk_error_message(e: DiskError) -> Seq<char> {
    match e {
        DiskError::UnknownServer(m) => m@,
        DiskError::Unauthorized(m) => m@,
        DiskError::Forbidden(m) => m@,
        DiskError::InvalidResponseBody(m) => m@,
        DiskError::EmptyToken => "Unknwon disk error"@,
    }
}

impl DiskError {
    /// A server failure of no known kind; its message is the key `disk.errors.unknown`.
    pub fn unknown_default() -> (r: Self)
        ensures
            r matches DiskError::UnknownServer(m) && m@ == "disk.errors.unknown"@,
    {
        DiskError::UnknownServer(String::from_str("disk.errors.unknown"))
    }

    /// A refused token; its message is the key `disk.errors.unauthorized`.
    pub fn unauthorized_default() -> (r: Self)
        ensures
            r matches DiskError::Unauthorized(m) && m@ == "disk.errors.unauthorized"@,
    {
        DiskError::Unauthorized(String::from_str("disk.errors.unauthorized"))
    }

    /// A forbidden request; its message is the key `disk.errors.forbidden`.
    pub fn forbidden_default() -> (r: Self)
        ensures
            r matches DiskError::Forbidden(m) && m@ == "disk.errors.forbidden"@,
    {
        DiskError::Forbidden(String::from_str("disk.errors.forbidden"))
    }

    /// A body that could not be read; its message is the key `disk.errors.invalid_body`.
    pub fn invalid_response_body_default() -> (r: Self)
        ensures
            r matches DiskError::InvalidResponseBody(m) && m@ == "disk.errors.invalid_body"@,
    {
        DiskError::InvalidResponseBody(String::from_str("disk.errors.invalid_body"))
    }

    /// The text the error shows to the user.
    pub fn message(&self) -> (r: String)
        ensures
            r@ == disk_error_message(*self),
    {
        match self {
            DiskError::UnknownServer(m) => m.clone(),
            DiskError::Unauthorized(m) => m.clone(),
            DiskError::Forbidden(m) => m.clone(),
            DiskError::InvalidResponseBody(m) => m.clone(),
            DiskError::EmptyToken => String::from_str("Unknwon disk error"),
        }
    }

    /// The text `format!("{:?}", e)` writes for the error (see `disk_error_debug`).
    pub fn debug_text(&self) -> (r: String)
        ensures
            r@ == disk_error_debug(*self),
    {
        let (name, m) = match self {
            DiskError::UnknownServer(m) => ("UnknownServer(", m),
            DiskError::Unauthorized(m) => ("Unauthorized(", m),
            DiskError::Forbidden(m) => ("Forbidden(", m),
            DiskError::InvalidResponseBody(m) => ("InvalidResponseBody(", m),
            DiskError::EmptyToken => {
                return String::from_str("EmptyToken");
            },
        };
        let mut out = String::from_str(name);
        let q = quoted(m.as_str());
        push_str(&mut out, q.as_str());
        push_str(&mut out, ")");
        out
    }
}

/// The text `format!("{:?}", e)` writes for a disk error: the variant's name, followed
/// by its message quoted in brackets where it has one.
pub open spec fn disk_error_debug(e: DiskError) -> Seq<char> {
    match e {
        DiskError::UnknownServer(m) => "UnknownServer("@ + debug_quoted(m@) + ")"@,
        DiskError::Unauthorized(m) => "Unauthorized("@ + debug_quoted(m@) + ")"@,
        DiskError::Forbidden(m) => "Forbidden("@ + debug_quoted(m@) + ")"@,
        DiskError::InvalidResponseBody(m) => "InvalidResponseBody("@ + debug_quoted(m@) + ")"@,
        DiskError::EmptyToken => "EmptyToken"@,
    }
}

/// The HTTP status the service answers an expired or missing token with.
pub open spec fn unauthorized_status() -> u16 {
    401
}

/// The HTTP status the service answers a forbidden request with.
pub open spec fn forbidden_status() -> u16 {
    403
}

/// The error a failed request maps to. `status` is the HTTP status of a response that
/// the service refused, or `None` when the request failed without a response.
pub fn error_for_status(status: Option<u16>) -> (r: DiskError)
    ensures
        status == Some(unauthorized_status()) ==> (r matches DiskError::Unauthorized(m) && m@
            == "disk.errors.unauthorized"@),
        status == Some(forbidden_status()) ==> (r matches DiskError::Forbidden(m) && m@
            == "disk.errors.forbidden"@),
        status != Some(unauthorized_status()) && status != Some(forbidden_status()) ==> (
        r matches DiskError::UnknownServer(m) && m@ == "disk.errors.unknown"@),
{
    match status {
        Some(401) => DiskError::unauthorized_default(),
        Some(403) => DiskError::forbidden_default(),
        _ => DiskError::unknown_default(),
    }
}

/// The message key for an OAuth error code: `bad_verification_code`
/// is reported as `invalid_code`, any other code under its own name.
pub open spec fn auth_error_key(error: Seq<char>) -> Seq<char> {
    "login_form.errors."@ + (if error == "bad_verification_code"@ {
        "invalid_code"@
    } else {
        error
    })
}

/// The message key under which a refused authorization is explained to the user.
pub fn auth_error_message_key(error: &str) -> (r: String)
    ensures
        r@ == auth_error_key(error@),
{
    let mut out = String::from_str("login_form.errors.");
    if same_text(error, "bad_verification_code") {
        push_str(&mut out, "invalid_code");
    } else {
        push_str(&mut out, error);
    }
    out
}

/// The message shown for a refused authorization: the key of the generic error label,
/// `: `, the key that explains `error` (see `auth_error_key`), and a line break.
pub fn auth_failure_message(error: &str) -> (r: String)
    ensures
        r@ == "common.error: "@ + auth_error_key(error@) + "\n"@,
{
    let mut out = String::from_str("common.error: ");
    let key = auth_error_message_key(error);
    push_str(&mut out, key.as_str());
    push_str(&mut out, "\n");
    out
}

/// Why an authorization request failed: the service refused it with an error code, it
/// answered with a body that could not be read (with the reader's explanation), or no
/// answer came.
pub enum AuthFailure {
    Refused(String),
    Unreadable(String),
    NoAnswer,
}

/// The message shown for a failed authorization: the refusal's message (see
/// `auth_failure_message`), `Unexpected error: <why>`, or `Unknown error`.
pub fn auth_error_text(failure: &AuthFailure) -> (r: String)
    ensures
        failure matches AuthFailure::Refused(e) ==> r@ == "common.error: "@ + auth_error_key(e@)
            + "\n"@,
        failure matches AuthFailure::Unreadable(why) ==> r@ == "Unexpected error: "@ + why@,
        failure is NoAnswer ==> r@ == "Unknown error"@,
{
    match failure {
        AuthFailure::Refused(e) => auth_failure_message(e.as_str()),
        AuthFailure::Unreadable(why) => {
            let mut out = String::from_str("Unexpected error: ");
            push_str(&mut out, why.as_str());
            out
        },
        AuthFailure::NoAnswer => String::from_str("Unknown error"),
    }
}

/// Result of base64 encoding (standard alphabet, with padding) the UTF-8 bytes of `text`.
pub uninterp spec fn base64_standard(text: Seq<char>) -> Seq<char>;

/// Wrapper around `base64::engine::general_purpose::STANDARD.encode`: the standard,
/// padded base64 text of the UTF-8 bytes of `input`. Its result is taken to depend on
/// the input alone and is only named here.
#[verifier::external_body]
fn encode_base64(input: &str) -> (r: String)
    ensures
        r@ == base64_standard(input@),
{
    base64::engine::general_purpose::STANDARD.encode(input)
}

/// The value of a `Basic` authorization header for already encoded credentials.
pub fn basic_authorization_value(encoded: &str) -> (r: String)
    ensures
        r@ == "Basic "@ + encoded@,
{
    let mut out = String::from_str("Basic ");
    push_str(&mut out, encoded);
    out
}

/// The value of an `OAuth` authorization header for a token.
pub open spec fn oauth_header(token: Seq<char>) -> Seq<char> {
    "OAuth "@ + token
}

/// Query text for an optional paging parameter: `&name=value`, or nothing.
pub open spec fn paging_param(name: Seq<char>, value: Option<u32>) -> Seq<char> {
    match value {
        Some(v) => "&"@ + name + "="@ + decimal_text(v as nat),
        None => Seq::empty(),
    }
}

/// The address that lists a resource of the disk with its content.
pub open spec fn resources_url(api_url: Seq<char>, path: Seq<char>, offset: Option<u32>, limit: Option<u32>) -> Seq<char> {
    api_url + "/resources?path="@ + path + paging_param("offset"@, offset) + paging_param("limit"@, limit)
}

fn push_paging_param(out: &mut String, name: &str, value: Option<u32>)
    ensures
        final(out)@ == old(out)@ + paging_param(name@, value),
{
    if let Some(v) = value {
        push_str(out, "&");
        push_str(out, name);
        push_str(out, "=");
        let digits = decimal(v as u128);
        push_str(out, digits.as_str());
    }
    assert(final(out)@ =~= old(out)@ + paging_param(name@, value));
}

/// The client of the disk service: where it lives, the application's OAuth credentials
/// and the token granted to the user, if any.
#[derive(Debug, Clone)]
pub struct DiskClient {
    pub api_url: String,
    pub oauth_url: String,
    pub client_id: String,
    pub client_secret: String,
    pub token: Option<String>,
}

impl DiskClient {
    /// A client for the service that the configuration names, with the stored token.
    pub fn from_app_conf(conf: &Config, meta: &Meta) -> (r: Self)
        ensures
            r.api_url@ == conf.api.api_url@,
            r.oauth_url@ == conf.api.oauth_url@,
            r.client_id@ == conf.api.client_id@,
            r.client_secret@ == conf.api.client_secret@,
            r.token == meta.api_token,
    {
        DiskClient {
            api_url: conf.api.api_url.clone(),
            oauth_url: conf.api.oauth_url.clone(),
            client_id: conf.api.client_id.clone(),
            client_secret: conf.api.client_secret.clone(),
            token: meta.api_token.clone(),
        }
    }

    /// The same client holding a new token.
    pub fn update_token(&self, new_token: String) -> (r: Self)
        ensures
            r.api_url@ == self.api_url@,
            r.oauth_url@ == self.oauth_url@,
            r.client_id@ == self.client_id@,
            r.client_secret@ == self.client_secret@,
            r.token == Some(new_token),
    {
        DiskClient {
            api_url: self.api_url.clone(),
            oauth_url: self.oauth_url.clone(),
            client_id: self.client_id.clone(),
            client_secret: self.client_secret.clone(),
            token: Some(new_token),
        }
    }

    /// The authorization header every API request carries: `OAuth <token>`, or
    /// `EmptyToken` when the user has not logged in.
    pub fn api_token_header(&self) -> (r: Result<String, DiskError>)
        ensures
            self.token is None ==> r matches Err(DiskError::EmptyToken),
            self.token matches Some(t) ==> (r matches Ok(h) && h@ == oauth_header(t@)),
    {
        match &self.token {
            None => Err(DiskError::EmptyToken),
            Some(t) => {
                let mut h = String::from_str("OAuth ");
                push_str(&mut h, t.as_str());
                Ok(h)
            },
        }
    }

    /// The address where an authorization code is exchanged for a token.
    pub fn token_url(&self) -> (r: String)
        ensures
            r@ == self.oauth_url@ + "/token"@,
    {
        let mut out = self.oauth_url.clone();
        push_str(&mut out, "/token");
        out
    }

    /// The `Basic` authorization header of the token request: the base64 text of
    /// `client_id:client_secret`.
    pub fn basic_authorization(&self) -> (r: String)
        ensures
            r@ == "Basic "@ + base64_standard(self.client_id@ + ":"@ + self.client_secret@),
    {
        let mut credentials = self.client_id.clone();
        push_str(&mut credentials, ":");
        push_str(&mut credentials, self.client_secret.as_str());
        let encoded = encode_base64(credentials.as_str());
        basic_authorization_value(encoded.as_str())
    }

    /// The address that lists the resource at `path`, with optional paging.
    pub fn item_url(&self, path: &str, offset: Option<u32>, limit: Option<u32>) -> (r: String)
        ensures
            r@ == resources_url(self.api_url@, path@, offset, limit),
    {
        let mut out = self.api_url.clone();
        push_str(&mut out, "/resources?path=");
        push_str(&mut out, path);
        push_paging_param(&mut out, "offset", offset);
        push_paging_param(&mut out, "limit", limit);
        proof {
            assert(out@ =~= resources_url(self.api_url@, path@, offset, limit));
        }
        out
    }

    /// The address that answers where the content of `cloud_path` can be fetched.
    pub fn download_link_url(&self, cloud_path: &str) -> (r: String)
        ensures
            r@ == self.api_url@ + "/resources/download?path="@ + cloud_path@,
    {
        let mut out = self.api_url.clone();
        push_str(&mut out, "/resources/download?path=");
        push_str(&mut out, cloud_path);
        out
    }
}

}
