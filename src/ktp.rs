//! Kernel transfer: validation of a source locator against its declared
//! protocol, the locator rewrites each transport needs, and the session that
//! drives one acquisition followed by at most one build attempt.
use vstd::prelude::*;
use crate::text::{
    contains_char, find_char, first_index, has_char, has_prefix, last_index, lemma_first_index,
    lemma_first_index_is, lemma_last_index, rfind_char, starts_with,
};

verus! {

#[derive(Clone, Copy, Debug, PartialEq, Eq, Structural)]
pub enum TransferProtocol {
    SSH,
    HTTP,
    FTP,
    Cloud,
}

/// One transfer request. Paths are carried as text.
#[derive(Clone, Debug)]
pub struct TransferOptions {
    pub protocol: TransferProtocol,
    pub source_url: String,
    pub destination_path: String,
    pub auto_compile: bool,
    pub username: Option<String>,
    pub password: Option<String>,
}

/// Non-fatal notices raised while a transfer runs.
#[derive(Clone, Copy, Debug, PartialEq, Eq, Structural)]
pub enum Advisory {
    /// An HTTP source that does not use `https://`.
    PlainHttp,
    /// An FTP source that does not start with `ftp://`.
    FtpSchemeMissing,
    /// Any FTP transfer: the protocol is unencrypted.
    FtpInsecure,
    /// `make clean` exited unsuccessfully; the build goes on.
    CleanFailed,
    /// `make menuconfig` exited unsuccessfully; the build goes on.
    ConfigureCancelled,
}

#[derive(Clone, Debug, PartialEq, Eq)]
pub enum KtpError {
    /// An SSH or Cloud locator without both `@` and `:`.
    InvalidSshUrl,
    /// An FTP locator that does not parse as a URL.
    InvalidUrl,
    FtpHostMissing,
    FtpNoFileName,
    /// `scp` exited unsuccessfully.
    ScpFailed,
    /// An FTP retrieval reported that it did not complete.
    FtpTransferFailed,
    /// An HTTP response status outside 200..=299.
    HttpStatus(u16),
    /// A transport could not complete; the message is its cause.
    Transport(String),
    /// The custom install descriptor exited unsuccessfully.
    InstallFailed,
    /// The kernel compile exited unsuccessfully.
    CompileFailed,
    /// An external step could not be started; the message is its cause.
    Io(String),
    /// An event that the session does not expect in its current phase.
    OutOfOrder,
}

pub struct KtpController;

/// The installation descriptor looked for in the destination root.
pub open spec fn descriptor_name() -> Seq<char> {
    seq!['K', 'T', 'P', '.', 'm', 'k']
}

/// The file name of the installation descriptor.
pub fn descriptor_file_name() -> (r: String)
    ensures
        r@ == descriptor_name(),
{
    proof {
        reveal_strlit("KTP.mk");
    }
    "KTP.mk".to_string()
}

pub open spec fn opt_view(o: Option<String>) -> Option<Seq<char>> {
    match o {
        Some(s) => Some(s@),
        None => None,
    }
}

/// The advisories that validation reports for `url` under `protocol`.
pub open spec fn advisories_for(protocol: TransferProtocol, url: Seq<char>) -> Seq<Advisory> {
    match protocol {
        TransferProtocol::HTTP => if has_prefix(url, "https://"@) {
            seq![]
        } else {
            seq![Advisory::PlainHttp]
        },
        TransferProtocol::FTP => if has_prefix(url, "ftp://"@) {
            seq![Advisory::FtpInsecure]
        } else {
            seq![Advisory::FtpSchemeMissing, Advisory::FtpInsecure]
        },
        _ => seq![],
    }
}

/// Validation rejects an SSH or Cloud locator unless it holds both `@` and `:`.
pub open spec fn url_rejected(protocol: TransferProtocol, url: Seq<char>) -> bool {
    (protocol == TransferProtocol::SSH || protocol == TransferProtocol::Cloud) && !(has_char(
        url,
        '@',
    ) && has_char(url, ':'))
}

/// The locator handed to `scp`: a supplied username replaces everything
/// before the first `@`, or is prepended with `@` where there is none.
pub open spec fn scp_locator(src: Seq<char>, user: Option<Seq<char>>) -> Seq<char> {
    match user {
        None => src,
        Some(u) => match first_index(src, '@') {
            Some(i) => u + seq!['@'] + src.subrange(i + 1, src.len() as int),
            None => u + seq!['@'] + src,
        },
    }
}

/// The final `/`-separated segment of a URL: its download file name.
pub open spec fn last_segment(url: Seq<char>) -> Seq<char> {
    match last_index(url, '/') {
        Some(i) => url.subrange(i + 1, url.len() as int),
        None => url,
    }
}

/// `s` with every leading `/` removed.
pub open spec fn trim_leading_slashes(s: Seq<char>) -> Seq<char>
    decreases s.len(),
{
    if s.len() > 0 && s[0] == '/' {
        trim_leading_slashes(s.drop_first())
    } else {
        s
    }
}

pub open spec fn is_success_status(code: u16) -> bool {
    200 <= code <= 299
}

/// Where and how an FTP file is fetched.
#[derive(Clone, Debug)]
pub struct FtpTarget {
    pub host: String,
    pub port: u16,
    pub remote_path: String,
    /// The file name the retrieval is stored under, where the remote path
    /// names one.
    pub file_name: Option<String>,
    pub destination: String,
    pub user: String,
    pub pass: String,
}

/// What `Path::file_name` yields for a path: its last normal component.
pub uninterp spec fn path_file_name(p: Seq<char>) -> Option<Seq<char>>;

/// Relies on `std::path::Path::file_name`: the final component of the path,
/// if it names one.
#[verifier::external_body]
fn file_name_of(p: &str) -> (r: Option<String>)
    ensures
        opt_view(r) == path_file_name(p@),
{
    std::path::Path::new(p).file_name().map(|n| n.to_string_lossy().into_owned())
}

/// The parts of a parsed URL that the transports read, as plain values.
#[derive(Clone, Debug)]
pub struct UrlParts {
    pub host: Option<String>,
    pub port: Option<u16>,
    pub port_or_default: Option<u16>,
    pub username: String,
    pub password: Option<String>,
    pub path: String,
}

/// Whether `url::Url::parse` accepts the text.
pub uninterp spec fn url_parses(s: Seq<char>) -> bool;

/// What `url::Url::host_str` gives for the parsed text.
pub uninterp spec fn url_host_of(s: Seq<char>) -> Option<Seq<char>>;

/// What `url::Url::port` gives for the parsed text.
pub uninterp spec fn url_port_of(s: Seq<char>) -> Option<u16>;

/// What `url::Url::port_or_known_default` gives for the parsed text.
pub uninterp spec fn url_port_or_default_of(s: Seq<char>) -> Option<u16>;

/// What `url::Url::username` gives for the parsed text.
pub uninterp spec fn url_username_of(s: Seq<char>) -> Seq<char>;

/// What `url::Url::password` gives for the parsed text.
pub uninterp spec fn url_password_of(s: Seq<char>) -> Option<Seq<char>>;

/// What `url::Url::path` gives for the parsed text.
pub uninterp spec fn url_path_of(s: Seq<char>) -> Seq<char>;

/// Relies on `url::Url::parse` (an error where the text is not an absolute
/// URL) and on the accessors `host_str`, `port`, `port_or_known_default`,
/// `username`, `password` and `path` of the parsed URL, each a function of
/// the parsed text alone.
#[verifier::external_body]
pub(crate) fn parse_url_parts(s: &str) -> (r: Option<UrlParts>)
    ensures
        r is Some == url_parses(s@),
        r matches Some(p) ==> {
            &&& opt_view(p.host) == url_host_of(s@)
            &&& p.port == url_port_of(s@)
            &&& p.port_or_default == url_port_or_default_of(s@)
            &&& p.username@ == url_username_of(s@)
            &&& opt_view(p.password) == url_password_of(s@)
            &&& p.path@ == url_path_of(s@)
        },
{
    url::Url::parse(s).ok().map(|u| UrlParts {
        host: u.host_str().map(|h| h.to_string()),
        port: u.port(),
        port_or_default: u.port_or_known_default(),
        username: u.username().to_string(),
        password: u.password().map(|p| p.to_string()),
        path: u.path().to_string(),
    })
}

pub(crate) fn copy_str(s: &str) -> (r: String)
    ensures
        r@ == s@,
{
    s.to_string()
}

fn concat3(a: &str, c: &str, b: &str) -> (r: String)
    ensures
        r@ == a@ + c@ + b@,
{
    let mut r = copy_str(a);
    r.append(c);
    r.append(b);
    r
}

/// The locator that `scp` is given for `source_url` and an optional
/// username override.
pub fn scp_final_url(source_url: &str, username: &Option<String>) -> (r: String)
    ensures
        r@ == scp_locator(source_url@, opt_view(*username)),
{
    proof {
        reveal_strlit("@");
        lemma_first_index(source_url@, '@');
    }
    match username {
        None => copy_str(source_url),
        Some(user) => match find_char(source_url, '@') {
            Some(at) => {
                let n = source_url.unicode_len();
                let rest = source_url.substring_char(at + 1, n);
                concat3(user.as_str(), "@", rest)
            },
            None => concat3(user.as_str(), "@", source_url),
        },
    }
}

/// The file name an HTTP download is stored under: the URL's last
/// `/`-separated segment.
pub fn http_file_name(url: &str) -> (r: String)
    ensures
        r@ == last_segment(url@),
{
    proof {
        lemma_last_index(url@, '/');
    }
    match rfind_char(url, '/') {
        Some(i) => {
            let n = url.unicode_len();
            copy_str(url.substring_char(i + 1, n))
        },
        None => copy_str(url),
    }
}

/// `s` without its leading `/` characters.
pub fn strip_leading_slashes(s: &str) -> (r: String)
    ensures
        r@ == trim_leading_slashes(s@),
{
    let n = s.unicode_len();
    let mut i: usize = 0;
    proof {
        assert(s@.subrange(0, n as int) =~= s@);
    }
    while i < n && s.get_char(i) == '/'
        invariant
            n == s@.len(),
            i <= n,
            trim_leading_slashes(s@) == trim_leading_slashes(s@.subrange(i as int, n as int)),
        decreases n - i,
    {
        proof {
            assert(s@.subrange(i as int, n as int).drop_first() =~= s@.subrange(
                i + 1,
                n as int,
            ));
        }
        i = i + 1;
    }
    copy_str(s.substring_char(i, n))
}

/// The FTP target assembled from the parts of a parsed locator: the host,
/// the port (21 when unknown), the path without leading `/`, its file name,
/// and the credentials, which default to anonymous/anonymous.
pub fn ftp_target_from_parts(
    host: Option<String>,
    port: Option<u16>,
    remote_path: String,
    file_name: Option<String>,
    destination: &str,
    username: &Option<String>,
    password: &Option<String>,
) -> (r: Result<FtpTarget, KtpError>)
    ensures
        host is None <==> r == Err::<FtpTarget, KtpError>(KtpError::FtpHostMissing),
        host is Some ==> r is Ok,
        r matches Ok(t) ==> {
            &&& host == Some(t.host)
            &&& t.port == (match port {
                Some(p) => p,
                None => 21,
            })
            &&& t.remote_path == remote_path
            &&& t.file_name == file_name
            &&& t.destination@ == destination@
            &&& t.user@ == (match username {
                Some(u) => u@,
                None => "anonymous"@,
            })
            &&& t.pass@ == (match password {
                Some(p) => p@,
                None => "anonymous"@,
            })
        },
{
    let host = match host {
        Some(h) => h,
        None => return Err(KtpError::FtpHostMissing),
    };
    let port = match port {
        Some(p) => p,
        None => 21,
    };
    let user = match username {
        Some(u) => u.clone(),
        None => copy_str("anonymous"),
    };
    let pass = match password {
        Some(p) => p.clone(),
        None => copy_str("anonymous"),
    };
    Ok(FtpTarget { host, port, remote_path, file_name, destination: copy_str(destination), user, pass })
}

/// The remote path an FTP locator retrieves: the URL's path without its
/// leading `/` characters.
pub open spec fn ftp_remote_path(url: Seq<char>) -> Seq<char> {
    trim_leading_slashes(url_path_of(url))
}

/// The error resolving an FTP locator ends in, if any: it must parse as a
/// URL and name a host.
pub open spec fn ftp_failure(url: Seq<char>) -> Option<KtpError> {
    if !url_parses(url) {
        Some(KtpError::InvalidUrl)
    } else if url_host_of(url) is None {
        Some(KtpError::FtpHostMissing)
    } else {
        None
    }
}

/// Whether the remote path of an FTP locator names a file to store.
pub open spec fn ftp_names_file(url: Seq<char>) -> bool {
    path_file_name(ftp_remote_path(url)) is Some
}

/// `t` is the target resolved from `url`: host and port (21 when none is
/// known) from the URL, its path without leading `/`, that path's file
/// name if it has one, and the credentials, which default to anonymous/anonymous.
pub open spec fn ftp_target_of(
    t: FtpTarget,
    url: Seq<char>,
    destination: Seq<char>,
    username: Option<Seq<char>>,
    password: Option<Seq<char>>,
) -> bool {
    &&& url_host_of(url) == Some(t.host@)
    &&& t.port == (match url_port_or_default_of(url) {
        Some(p) => p,
        None => 21,
    })
    &&& t.remote_path@ == ftp_remote_path(url)
    &&& opt_view(t.file_name) == path_file_name(t.remote_path@)
    &&& t.destination@ == destination
    &&& t.user@ == (match username {
        Some(u) => u,
        None => "anonymous"@,
    })
    &&& t.pass@ == (match password {
        Some(p) => p,
        None => "anonymous"@,
    })
}

/// Parses an FTP locator and resolves where the file is fetched from and how.
pub fn resolve_ftp(
    url: &str,
    destination: &str,
    username: &Option<String>,
    password: &Option<String>,
) -> (r: Result<FtpTarget, KtpError>)
    ensures
        ftp_failure(url@) matches Some(e) ==> r == Err::<FtpTarget, KtpError>(e),
        ftp_failure(url@) is None ==> (r matches Ok(t) && ftp_target_of(
            t,
            url@,
            destination@,
            opt_view(*username),
            opt_view(*password),
        )),
{
    let parts = match parse_url_parts(url) {
        Some(p) => p,
        None => return Err(KtpError::InvalidUrl),
    };
    let remote_path = strip_leading_slashes(parts.path.as_str());
    let file_name = file_name_of(remote_path.as_str());
    ftp_target_from_parts(
        parts.host,
        parts.port_or_default,
        remote_path,
        file_name,
        destination,
        username,
        password,
    )
}

/// An external build step run in the destination tree.
#[derive(Clone, Copy, Debug, PartialEq, Eq, Structural)]
pub enum BuildStep {
    /// `make -f KTP.mk`.
    Install,
    /// `make clean`.
    Clean,
    /// `make menuconfig`.
    Configure,
    /// `make`.
    Compile,
}

/// What a finished build step's exit means: clean and configure failures
/// are warnings, install and compile failures are terminal.
pub open spec fn build_step_result(step: BuildStep, success: bool) -> Result<
    Option<Advisory>,
    KtpError,
> {
    if success {
        Ok(None)
    } else {
        match step {
            BuildStep::Install => Err(KtpError::InstallFailed),
            BuildStep::Clean => Ok(Some(Advisory::CleanFailed)),
            BuildStep::Configure => Ok(Some(Advisory::ConfigureCancelled)),
            BuildStep::Compile => Err(KtpError::CompileFailed),
        }
    }
}

/// Judges the exit of a build step run on its own.
pub fn build_step_outcome(step: BuildStep, success: bool) -> (r: Result<Option<Advisory>, KtpError>)
    ensures
        r == build_step_result(step, success),
{
    if success {
        Ok(None)
    } else {
        match step {
            BuildStep::Install => Err(KtpError::InstallFailed),
            BuildStep::Clean => Ok(Some(Advisory::CleanFailed)),
            BuildStep::Configure => Ok(Some(Advisory::ConfigureCancelled)),
            BuildStep::Compile => Err(KtpError::CompileFailed),
        }
    }
}

impl KtpController {
    pub fn new() -> Self {
        KtpController
    }

    /// Checks `url` against the shape its protocol expects. SSH and Cloud
    /// locators need both `@` and `:`; HTTP and FTP locators are never
    /// refused, only flagged.
    pub fn validate_url(&self, protocol: TransferProtocol, url: &str) -> (r: Result<
        Vec<Advisory>,
        KtpError,
    >)
        ensures
            url_rejected(protocol, url@) ==> r == Err::<Vec<Advisory>, KtpError>(
                KtpError::InvalidSshUrl,
            ),
            !url_rejected(protocol, url@) ==> (r matches Ok(v) && v@ == advisories_for(
                protocol,
                url@,
            )),
    {
        let mut v: Vec<Advisory> = Vec::new();
        match protocol {
            TransferProtocol::HTTP => {
                if !starts_with(url, "https://") {
                    v.push(Advisory::PlainHttp);
                }
            },
            TransferProtocol::SSH | TransferProtocol::Cloud => {
                if !contains_char(url, '@') || !contains_char(url, ':') {
                    return Err(KtpError::InvalidSshUrl);
                }
            },
            TransferProtocol::FTP => {
                if !starts_with(url, "ftp://") {
                    v.push(Advisory::FtpSchemeMissing);
                }
                v.push(Advisory::FtpInsecure);
            },
        }
        proof {
            assert(v@ =~= advisories_for(protocol, url@));
        }
        Ok(v)
    }
}


/// A supplied username replaces everything before the first `@` of the
/// locator.
pub proof fn lemma_scp_user_replaced(prefix: Seq<char>, rest: Seq<char>, user: Seq<char>)
    requires
        !has_char(prefix, '@'),
    ensures
        scp_locator(prefix + seq!['@'] + rest, Some(user)) == user + seq!['@'] + rest,
{
    let s = prefix + seq!['@'] + rest;
    assert forall|j: int| 0 <= j < prefix.len() implies s[j] != '@' by {
        if s[j] == '@' {
            assert(prefix[j] == '@');
        }
    }
    lemma_first_index_is(s, '@', prefix.len() as int);
    assert(s.subrange(prefix.len() + 1 as int, s.len() as int) =~= rest);
}

/// A supplied username is prepended with `@` to a locator that has none.
pub proof fn lemma_scp_user_prepended(src: Seq<char>, user: Seq<char>)
    requires
        !has_char(src, '@'),
    ensures
        scp_locator(src, Some(user)) == user + seq!['@'] + src,
{
    lemma_first_index(src, '@');
}

/// Without a username override the locator is handed on unchanged.
pub proof fn lemma_scp_without_override(src: Seq<char>)
    ensures
        scp_locator(src, None) == src,
{
}

} // verus!
