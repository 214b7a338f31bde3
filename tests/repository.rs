use ktp::gitsync::{credential_user, push_refspec, SyncAction, SyncError, SyncEvent, SyncOptions, SyncPhase, SyncSession};
use ktp::listing::{
    parse_scp_address, resolve_ftp_listing, DirListing, ListingControl, ListingError, ReadOutcome,
    END_OF_LISTING,
};
use ktp::locator::{classify, is_scp_like, is_valid_git_source, TransportKind};

fn sync_options(push: bool) -> SyncOptions {
    SyncOptions {
        source: "https://example.com/repo.git".to_string(),
        local_path: "/tmp/repo".to_string(),
        commit_message: "Automatic commit".to_string(),
        author_name: "GitFetcher".to_string(),
        author_email: "gitfetcher@example.com".to_string(),
        remote_name: "origin".to_string(),
        branch: "master".to_string(),
        push,
    }
}

#[test]
fn classify_kinds() {
    assert_eq!(classify("http://example.com/a"), TransportKind::Http);
    assert_eq!(classify("https://example.com/a?x=1:2"), TransportKind::Http);
    assert_eq!(classify("ftp://example.com/a"), TransportKind::Ftp);
    assert_eq!(classify("user@host:/srv"), TransportKind::ScpLike);
    assert_eq!(classify("host:path"), TransportKind::ScpLike);
    assert_eq!(classify("/home/user/linux"), TransportKind::LocalDirectory);
    assert_eq!(classify(""), TransportKind::LocalDirectory);
}

#[test]
fn scheme_locators_are_never_scp() {
    assert_eq!(classify("ssh://host:22/x"), TransportKind::LocalDirectory);
    assert!(!is_scp_like("file://a:b"));
    assert!(is_scp_like("C:\\kernel"));
}

#[test]
fn git_source_checks() {
    assert!(is_valid_git_source("https://github.com/torvalds/linux.git", false));
    assert!(is_valid_git_source("https://host/repo.git/tree", false));
    assert!(!is_valid_git_source("https://host/kernel.tar", true));
    assert!(is_valid_git_source("ftp://host/x.gitlang", false));
    assert!(is_valid_git_source("git@github.com:a/b.git", false));
    assert!(!is_valid_git_source("git@github.com:a/b", true));
    assert!(is_valid_git_source("/srv/repo", true));
    assert!(!is_valid_git_source("/srv/repo", false));
}

#[test]
fn clone_fetch_stage_commit_push() {
    let mut s = SyncSession::new(sync_options(true));
    match s.step(SyncEvent::Begin(false)) {
        SyncAction::Clone { url, path } => {
            assert_eq!(url, "https://example.com/repo.git");
            assert_eq!(path, "/tmp/repo");
        }
        other => panic!("unexpected {:?}", other),
    }
    match s.step(SyncEvent::Done) {
        SyncAction::Fetch { remote } => assert_eq!(remote, "origin"),
        other => panic!("unexpected {:?}", other),
    }
    assert!(matches!(s.step(SyncEvent::Done), SyncAction::StageAll));
    assert!(matches!(s.step(SyncEvent::Done), SyncAction::ReadHead));
    match s.step(SyncEvent::Head(true)) {
        SyncAction::Commit { message, parented } => {
            assert_eq!(message, "Automatic commit");
            assert!(parented);
        }
        other => panic!("unexpected {:?}", other),
    }
    match s.step(SyncEvent::Done) {
        SyncAction::Push { remote, refspec } => {
            assert_eq!(remote, "origin");
            assert_eq!(refspec, "refs/heads/master");
        }
        other => panic!("unexpected {:?}", other),
    }
    assert!(matches!(s.step(SyncEvent::Done), SyncAction::Finish(Ok(()))));
    assert_eq!(s.phase, SyncPhase::Succeeded);
}

#[test]
fn open_existing_then_root_commit_without_push() {
    let mut s = SyncSession::new(sync_options(false));
    assert!(matches!(s.step(SyncEvent::Begin(true)), SyncAction::Open { .. }));
    assert!(matches!(s.step(SyncEvent::Done), SyncAction::Fetch { .. }));
    s.step(SyncEvent::Done);
    s.step(SyncEvent::Done);
    assert!(matches!(s.step(SyncEvent::Head(false)), SyncAction::Commit { parented: false, .. }));
    assert!(matches!(s.step(SyncEvent::Done), SyncAction::Finish(Ok(()))));
}

#[test]
fn fetch_failure_is_terminal() {
    let mut s = SyncSession::new(sync_options(true));
    s.step(SyncEvent::Begin(false));
    s.step(SyncEvent::Done);
    match s.step(SyncEvent::Failed("no agent".to_string())) {
        SyncAction::Finish(Err(e)) => assert_eq!(e, SyncError::Repository("no agent".to_string())),
        other => panic!("unexpected {:?}", other),
    }
    assert!(matches!(s.step(SyncEvent::Done), SyncAction::Finish(Err(SyncError::OutOfOrder))));
}

#[test]
fn push_failure_after_commit() {
    let mut s = SyncSession::new(sync_options(true));
    s.step(SyncEvent::Begin(true));
    s.step(SyncEvent::Done);
    s.step(SyncEvent::Done);
    s.step(SyncEvent::Done);
    s.step(SyncEvent::Head(true));
    assert!(matches!(s.step(SyncEvent::Done), SyncAction::Push { .. }));
    assert!(matches!(s.step(SyncEvent::Failed("rejected".to_string())), SyncAction::Finish(Err(_))));
    assert_eq!(s.phase, SyncPhase::Failed);
}

#[test]
fn refspec_and_credential_user() {
    assert_eq!(push_refspec("dev"), "refs/heads/dev");
    assert_eq!(credential_user(Some("alice")), "alice");
    assert_eq!(credential_user(None), "git");
}

#[test]
fn scp_address_with_user() {
    let a = parse_scp_address("dev@10.0.0.5:/srv/kernel", "").unwrap();
    assert_eq!(a.user, "dev");
    assert_eq!(a.host, "10.0.0.5");
    assert_eq!(a.path, "/srv/kernel");
}

#[test]
fn scp_address_username_overrides_embedded_user() {
    let a = parse_scp_address("a@h:/p", "b").unwrap();
    assert_eq!(a.user, "b");
    assert_eq!(a.host, "h");
    assert_eq!(a.path, "/p");
}

#[test]
fn scp_address_without_user() {
    let a = parse_scp_address("10.0.0.5:/srv", "root").unwrap();
    assert_eq!(a.user, "root");
    assert_eq!(a.host, "10.0.0.5");
    assert_eq!(a.path, "/srv");
}

#[test]
fn scp_address_needs_one_colon() {
    assert_eq!(parse_scp_address("host/path", "u").unwrap_err(), ListingError::InvalidScpUrl);
    assert_eq!(parse_scp_address("h:a:b", "u").unwrap_err(), ListingError::InvalidScpUrl);
    let a = parse_scp_address("a@b@h:/p", "u").unwrap();
    assert_eq!(a.user, "u");
    assert_eq!(a.host, "a@b@h");
}

#[test]
fn listing_reads_until_end_code() {
    let mut l = DirListing::new();
    assert_eq!(l.absorb(ReadOutcome::Entry(Some("a".to_string()))), ListingControl::Continue);
    assert_eq!(l.absorb(ReadOutcome::Entry(None)), ListingControl::Continue);
    assert_eq!(l.absorb(ReadOutcome::Entry(Some("b".to_string()))), ListingControl::Continue);
    assert_eq!(l.absorb(ReadOutcome::SessionError(END_OF_LISTING, "eof".to_string())), ListingControl::Done);
    assert_eq!(l.names, vec!["a".to_string(), "b".to_string()]);
}

#[test]
fn listing_other_errors_fail() {
    let mut l = DirListing::new();
    assert_eq!(
        l.absorb(ReadOutcome::SessionError(-16, "file".to_string())),
        ListingControl::Fail(ListingError::Remote("file".to_string()))
    );
    assert_eq!(
        l.absorb(ReadOutcome::SftpError(-37, "sftp".to_string())),
        ListingControl::Fail(ListingError::Remote("sftp".to_string()))
    );
    assert!(l.names.is_empty());
}

#[test]
fn ftp_listing_targets() {
    let t = resolve_ftp_listing("ftp://mirror.example.org/pub").unwrap();
    assert_eq!(t.host, "mirror.example.org");
    assert_eq!(t.port, 21);
    assert_eq!(t.user, "anonymous");
    assert_eq!(t.pass, "anonymous");
    assert_eq!(t.path, "/pub");
    let u = resolve_ftp_listing("ftp://bob:pw@h:2100/x").unwrap();
    assert_eq!((u.user.as_str(), u.pass.as_str(), u.port), ("bob", "pw", 2100));
    let v = resolve_ftp_listing("ftp://bob@h/x").unwrap();
    assert_eq!(v.pass, "");
    assert_eq!(resolve_ftp_listing("nonsense").unwrap_err(), ListingError::InvalidUrl);
}
