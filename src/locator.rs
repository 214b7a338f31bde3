//! Classification of a source locator into the transport that serves it, and
//! the checks that tell whether a locator names a git repository.
use vstd::prelude::*;
use crate::text::{contains, contains_char, ends_with, has_char, has_infix, has_prefix, has_suffix, starts_with};

verus! {

#[derive(Clone, Copy, Debug, PartialEq, Eq, Structural)]
pub enum TransportKind {
    Http,
    Ftp,
    ScpLike,
    LocalDirectory,
}

pub open spec fn is_http_locator(s: Seq<char>) -> bool {
    has_prefix(s, "http://"@) || has_prefix(s, "https://"@)
}

/// A colon without `://`: the `user@host:path` and `host:path` forms.
pub open spec fn scp_like(s: Seq<char>) -> bool {
    has_char(s, ':') && !has_infix(s, "://"@)
}

/// The transport kind of a locator; URL schemes are tried before the
/// SCP-like form, and a local directory is the fallback.
pub open spec fn kind_of(s: Seq<char>) -> TransportKind {
    if is_http_locator(s) {
        TransportKind::Http
    } else if has_prefix(s, "ftp://"@) {
        TransportKind::Ftp
    } else if scp_like(s) {
        TransportKind::ScpLike
    } else {
        TransportKind::LocalDirectory
    }
}

pub fn is_scp_like(url: &str) -> (r: bool)
    ensures
        r == scp_like(url@),
{
    contains_char(url, ':') && !contains(url, "://")
}

/// Classifies `source`; every string has exactly one kind.
pub fn classify(source: &str) -> (r: TransportKind)
    ensures
        r == kind_of(source@),
{
    if starts_with(source, "http://") || starts_with(source, "https://") {
        TransportKind::Http
    } else if starts_with(source, "ftp://") {
        TransportKind::Ftp
    } else if is_scp_like(source) {
        TransportKind::ScpLike
    } else {
        TransportKind::LocalDirectory
    }
}

pub open spec fn git_http_url(s: Seq<char>) -> bool {
    has_suffix(s, ".git"@) || has_infix(s, ".git/"@)
}

pub open spec fn git_ftp_url(s: Seq<char>) -> bool {
    has_infix(s, ".git"@) || has_infix(s, ".gitlang"@)
}

pub open spec fn git_scp_url(s: Seq<char>) -> bool {
    has_infix(s, ".git"@)
}

pub fn is_git_http_url(url: &str) -> (r: bool)
    ensures
        r == git_http_url(url@),
{
    ends_with(url, ".git") || contains(url, ".git/")
}

pub fn is_git_ftp_url(url: &str) -> (r: bool)
    ensures
        r == git_ftp_url(url@),
{
    contains(url, ".git") || contains(url, ".gitlang")
}

pub fn is_git_scp_url(url: &str) -> (r: bool)
    ensures
        r == git_scp_url(url@),
{
    contains(url, ".git")
}

/// Whether `source` names a git repository. For a local directory the answer
/// is whether it holds a `.git` directory, which the caller finds out and
/// passes as `local_has_git_dir`.
pub fn is_valid_git_source(source: &str, local_has_git_dir: bool) -> (r: bool)
    ensures
        r == match kind_of(source@) {
            TransportKind::Http => git_http_url(source@),
            TransportKind::Ftp => git_ftp_url(source@),
            TransportKind::ScpLike => git_scp_url(source@),
            TransportKind::LocalDirectory => local_has_git_dir,
        },
{
    match classify(source) {
        TransportKind::Http => is_git_http_url(source),
        TransportKind::Ftp => is_git_ftp_url(source),
        TransportKind::ScpLike => is_git_scp_url(source),
        TransportKind::LocalDirectory => local_has_git_dir,
    }
}

/// A locator holding `://` is never classified as SCP-like.
pub proof fn lemma_scheme_is_never_scp(s: Seq<char>)
    requires
        has_infix(s, "://"@),
    ensures
        kind_of(s) != TransportKind::ScpLike,
{
}

/// A locator starting with `http://` or `https://` is classified as HTTP,
/// whatever its path and query hold.
pub proof fn lemma_http_prefix_is_http(s: Seq<char>)
    requires
        has_prefix(s, "http://"@) || has_prefix(s, "https://"@),
    ensures
        kind_of(s) == TransportKind::Http,
{
}

} // verus!
