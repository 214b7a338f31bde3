//! Remote directory listing: the address an SFTP listing connects to, the
//! loop that gathers entry names until the channel signals the end, and the
//! login an FTP listing uses.
use vstd::prelude::*;
use crate::text::{contains_char, find_char, first_index, has_char, lemma_first_index};
use crate::ktp::{
    copy_str, opt_view, parse_url_parts, url_host_of, url_parses, url_password_of, url_path_of,
    url_port_of, url_username_of,
};

verus! {

#[derive(Clone, Copy, Debug, PartialEq, Eq, Structural)]
pub enum EntryType {
    File,
    Directory,
}

/// One entry of a remote listing and the locator it was listed under.
#[derive(Clone, Debug)]
pub struct DirectoryEntry {
    pub name: String,
    pub url: String,
    pub entry_type: EntryType,
}

#[derive(Clone, Debug)]
pub struct CommitEntry {
    pub commit_hash: String,
    pub author: String,
    pub date: String,
    pub message: String,
    pub url: String,
}

#[derive(Clone, Debug)]
pub struct PatchEntry {
    pub patch_name: String,
    pub url: String,
    pub diff_content: Option<String>,
}

#[derive(Clone, Debug, PartialEq, Eq)]
pub enum ListingError {
    /// An SCP locator without exactly one `:`.
    InvalidScpUrl,
    InvalidUrl,
    FtpHostMissing,
    /// A directory read failed; the message is its cause.
    Remote(String),
}

/// The position of `c` in `s` where `c` occurs there exactly once.
pub open spec fn sole_index(s: Seq<char>, c: char) -> Option<int> {
    match first_index(s, c) {
        Some(i) => if has_char(s.subrange(i + 1, s.len() as int), c) {
            None
        } else {
            Some(i)
        },
        None => None,
    }
}

pub fn sole_char_index(s: &str, c: char) -> (r: Option<usize>)
    ensures
        opt_int(r) == sole_index(s@, c),
        r matches Some(i) ==> i < s@.len(),
{
    proof {
        lemma_first_index(s@, c);
    }
    match find_char(s, c) {
        Some(i) => {
            let n = s.unicode_len();
            if contains_char(s.substring_char(i + 1, n), c) {
                None
            } else {
                Some(i)
            }
        },
        None => None,
    }
}

pub open spec fn opt_int(o: Option<usize>) -> Option<int> {
    match o {
        Some(i) => Some(i as int),
        None => None,
    }
}

/// Who to log in as, where, and which remote directory to list.
#[derive(Clone, Debug)]
pub struct ScpAddress {
    pub user: String,
    pub host: String,
    pub path: String,
}

/// The parts of `user@host:path` or `host:path`. A non-empty `username`
/// overrides the user the locator names; the locator's user is taken only
/// where no username is given.
pub open spec fn scp_address_fits(
    url: Seq<char>,
    username: Seq<char>,
    user: Seq<char>,
    host: Seq<char>,
    path: Seq<char>,
) -> bool {
    match sole_index(url, ':') {
        Some(i) => {
            let host_part = url.subrange(0, i);
            &&& path == url.subrange(i + 1, url.len() as int)
            &&& match sole_index(host_part, '@') {
                Some(j) => user == (if username.len() > 0 {
                    username
                } else {
                    host_part.subrange(0, j)
                }) && host == host_part.subrange(j + 1, host_part.len() as int),
                None => user == username && host == host_part,
            }
        },
        None => false,
    }
}

/// Splits an SCP locator into the address an SFTP listing uses. It is
/// refused unless it holds exactly one `:`.
pub fn parse_scp_address(scp_url: &str, username: &str) -> (r: Result<ScpAddress, ListingError>)
    ensures
        sole_index(scp_url@, ':') is None <==> r == Err::<ScpAddress, ListingError>(
            ListingError::InvalidScpUrl,
        ),
        sole_index(scp_url@, ':') is Some ==> (r matches Ok(a) && scp_address_fits(
            scp_url@,
            username@,
            a.user@,
            a.host@,
            a.path@,
        )),
{
    let n = scp_url.unicode_len();
    let colon = match sole_char_index(scp_url, ':') {
        Some(i) => i,
        None => return Err(ListingError::InvalidScpUrl),
    };
    let host_part = scp_url.substring_char(0, colon);
    let path = copy_str(scp_url.substring_char(colon + 1, n));
    let m = host_part.unicode_len();
    match sole_char_index(host_part, '@') {
        Some(at) => {
            let user = if username.unicode_len() > 0 {
                copy_str(username)
            } else {
                copy_str(host_part.substring_char(0, at))
            };
            let host = copy_str(host_part.substring_char(at + 1, m));
            Ok(ScpAddress { user, host, path })
        },
        None => Ok(ScpAddress { user: copy_str(username), host: copy_str(host_part), path }),
    }
}

/// What one directory read of an SFTP handle gave.
#[derive(Clone, Debug)]
pub enum ReadOutcome {
    /// An entry, with its file name where the path has one.
    Entry(Option<String>),
    /// A session-level error code, with its message.
    SessionError(i32, String),
    /// An SFTP-level error code, with its message.
    SftpError(i32, String),
}

/// The session error code with which the channel signals that every entry
/// has been read.
pub const END_OF_LISTING: i32 = -37;

#[derive(Clone, Debug, PartialEq, Eq)]
pub enum ListingControl {
    /// Read the next entry.
    Continue,
    /// The listing is complete.
    Done,
    Fail(ListingError),
}

/// Entry names gathered by a directory listing, in the order read.
pub struct DirListing {
    pub names: Vec<String>,
}

impl DirListing {
    pub fn new() -> (r: Self)
        ensures
            r.names@.len() == 0,
    {
        DirListing { names: Vec::new() }
    }

    /// Takes in one read: an entry's name is kept, the end-of-listing code
    /// completes the listing, and any other error ends it.
    pub fn absorb(&mut self, outcome: ReadOutcome) -> (c: ListingControl)
        ensures
            match outcome {
                ReadOutcome::Entry(Some(name)) => final(self).names@ == old(self).names@.push(name)
                    && c == ListingControl::Continue,
                ReadOutcome::Entry(None) => final(self).names@ == old(self).names@ && c
                    == ListingControl::Continue,
                ReadOutcome::SessionError(code, m) => final(self).names@ == old(self).names@ && c
                    == if code == END_OF_LISTING {
                    ListingControl::Done
                } else {
                    ListingControl::Fail(ListingError::Remote(m))
                },
                ReadOutcome::SftpError(_, m) => final(self).names@ == old(self).names@ && c
                    == ListingControl::Fail(ListingError::Remote(m)),
            },
    {
        match outcome {
            ReadOutcome::Entry(Some(name)) => {
                self.names.push(name);
                ListingControl::Continue
            },
            ReadOutcome::Entry(None) => ListingControl::Continue,
            ReadOutcome::SessionError(code, m) => {
                if code == END_OF_LISTING {
                    ListingControl::Done
                } else {
                    ListingControl::Fail(ListingError::Remote(m))
                }
            },
            ReadOutcome::SftpError(_, m) => ListingControl::Fail(ListingError::Remote(m)),
        }
    }
}

/// Where an FTP listing connects, how it logs in, and what it lists.
#[derive(Clone, Debug)]
pub struct FtpListingTarget {
    pub host: String,
    pub port: u16,
    pub user: String,
    pub pass: String,
    pub path: String,
}

/// The FTP login for a listing: anonymous/anonymous where the URL names no
/// user, else the URL's user with its password, or an empty one.
pub fn ftp_listing_login(url_user: &str, url_pass: Option<String>) -> (r: (String, String))
    ensures
        url_user@.len() == 0 ==> r.0@ == "anonymous"@ && r.1@ == "anonymous"@,
        url_user@.len() > 0 ==> r.0@ == url_user@ && r.1@ == (match url_pass {
            Some(p) => p@,
            None => Seq::<char>::empty(),
        }),
{
    if url_user.unicode_len() == 0 {
        (copy_str("anonymous"), copy_str("anonymous"))
    } else {
        let pass = match url_pass {
            Some(p) => p,
            None => String::new(),
        };
        (copy_str(url_user), pass)
    }
}

/// The FTP listing target assembled from the parts of a parsed URL; the
/// port is 21 where the URL gives none.
pub fn ftp_listing_from_parts(
    host: Option<String>,
    port: Option<u16>,
    url_user: &str,
    url_pass: Option<String>,
    path: String,
) -> (r: Result<FtpListingTarget, ListingError>)
    ensures
        host is None ==> r == Err::<FtpListingTarget, ListingError>(ListingError::FtpHostMissing),
        host is Some ==> r is Ok,
        r matches Ok(t) ==> {
            &&& host == Some(t.host)
            &&& t.port == (match port {
                Some(p) => p,
                None => 21,
            })
            &&& t.path == path
            &&& url_user@.len() == 0 ==> t.user@ == "anonymous"@ && t.pass@ == "anonymous"@
            &&& url_user@.len() > 0 ==> t.user@ == url_user@ && t.pass@ == (match url_pass {
                Some(p) => p@,
                None => Seq::<char>::empty(),
            })
        },
{
    let host = match host {
        Some(h) => h,
        None => return Err(ListingError::FtpHostMissing),
    };
    let port = match port {
        Some(p) => p,
        None => 21,
    };
    let (user, pass) = ftp_listing_login(url_user, url_pass);
    Ok(FtpListingTarget { host, port, user, pass, path })
}

/// Parses an FTP URL into the target of a directory listing: its host, its
/// stated port or 21, the login `ftp_listing_login` picks from its user and
/// password, and its path.
pub fn resolve_ftp_listing(url: &str) -> (r: Result<FtpListingTarget, ListingError>)
    ensures
        !url_parses(url@) ==> r == Err::<FtpListingTarget, ListingError>(ListingError::InvalidUrl),
        url_parses(url@) && url_host_of(url@) is None ==> r == Err::<
            FtpListingTarget,
            ListingError,
        >(ListingError::FtpHostMissing),
        url_parses(url@) && url_host_of(url@) is Some ==> (r matches Ok(t) && {
            &&& url_host_of(url@) == Some(t.host@)
            &&& t.port == (match url_port_of(url@) {
                Some(p) => p,
                None => 21,
            })
            &&& t.path@ == url_path_of(url@)
            &&& url_username_of(url@).len() == 0 ==> t.user@ == "anonymous"@ && t.pass@
                == "anonymous"@
            &&& url_username_of(url@).len() > 0 ==> t.user@ == url_username_of(url@) && t.pass@
                == (match url_password_of(url@) {
                Some(p) => p,
                None => Seq::<char>::empty(),
            })
        }),
{
    let parts = match parse_url_parts(url) {
        Some(p) => p,
        None => return Err(ListingError::InvalidUrl),
    };
    let ghost pw = parts.password;
    let r = ftp_listing_from_parts(parts.host, parts.port, parts.username.as_str(), parts.password, parts.path);
    proof {
        assert(opt_view(pw) == url_password_of(url@));
    }
    r
}

} // verus!
