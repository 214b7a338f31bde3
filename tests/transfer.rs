use ktp::ktp::{
    build_step_outcome, descriptor_file_name, BuildStep, http_file_name, resolve_ftp, scp_final_url, strip_leading_slashes, Advisory, KtpController,
    KtpError, TransferOptions, TransferProtocol,
};
use ktp::session::{Action, Event, Phase, TransferSession};

fn options(protocol: TransferProtocol, source: &str, dest: &str, auto: bool) -> TransferOptions {
    TransferOptions {
        protocol,
        source_url: source.to_string(),
        destination_path: dest.to_string(),
        auto_compile: auto,
        username: None,
        password: None,
    }
}

#[test]
fn scp_username_replaces_embedded_user() {
    let r = scp_final_url("a@host:/p", &Some("b".to_string()));
    assert_eq!(r, "b@host:/p");
}

#[test]
fn scp_username_prepended_without_at() {
    let r = scp_final_url("host:/p", &Some("b".to_string()));
    assert_eq!(r, "b@host:/p");
}

#[test]
fn scp_without_override_keeps_locator() {
    assert_eq!(scp_final_url("dev@10.0.0.5:/srv/kernel", &None), "dev@10.0.0.5:/srv/kernel");
}

#[test]
fn scp_override_replaces_only_up_to_first_at() {
    let r = scp_final_url("a@b@host:/p", &Some("u".to_string()));
    assert_eq!(r, "u@b@host:/p");
}

#[test]
fn http_file_name_is_last_segment() {
    assert_eq!(http_file_name("https://example.com/kernel.tar"), "kernel.tar");
    assert_eq!(http_file_name("https://example.com/dir/"), "");
    assert_eq!(http_file_name("kernel.tar"), "kernel.tar");
}

#[test]
fn leading_slashes_stripped() {
    assert_eq!(strip_leading_slashes("//pub/linux.tar"), "pub/linux.tar");
    assert_eq!(strip_leading_slashes("pub"), "pub");
    assert_eq!(strip_leading_slashes(""), "");
}

#[test]
fn validate_rejects_ssh_without_at() {
    let c = KtpController::new();
    assert_eq!(c.validate_url(TransferProtocol::SSH, "host:/p"), Err(KtpError::InvalidSshUrl));
    assert_eq!(c.validate_url(TransferProtocol::Cloud, "a@host"), Err(KtpError::InvalidSshUrl));
    assert_eq!(c.validate_url(TransferProtocol::SSH, "a@host:/p"), Ok(vec![]));
}

#[test]
fn validate_flags_plain_http_and_ftp() {
    let c = KtpController::new();
    assert_eq!(c.validate_url(TransferProtocol::HTTP, "http://x/k.tar"), Ok(vec![Advisory::PlainHttp]));
    assert_eq!(c.validate_url(TransferProtocol::HTTP, "https://x/k.tar"), Ok(vec![]));
    assert_eq!(c.validate_url(TransferProtocol::FTP, "ftp://x/k.tar"), Ok(vec![Advisory::FtpInsecure]));
    assert_eq!(
        c.validate_url(TransferProtocol::FTP, "x/k.tar"),
        Ok(vec![Advisory::FtpSchemeMissing, Advisory::FtpInsecure])
    );
}

#[test]
fn resolve_ftp_defaults() {
    let t = resolve_ftp("ftp://mirror.example.org/pub/linux.tar", "/tmp/out", &None, &None).unwrap();
    assert_eq!(t.host, "mirror.example.org");
    assert_eq!(t.port, 21);
    assert_eq!(t.remote_path, "pub/linux.tar");
    assert_eq!(t.file_name, Some("linux.tar".to_string()));
    assert_eq!(t.user, "anonymous");
    assert_eq!(t.pass, "anonymous");
    assert_eq!(t.destination, "/tmp/out");
}

#[test]
fn resolve_ftp_credentials_and_port() {
    let t = resolve_ftp(
        "ftp://h.example:2121/a/b.tgz",
        "/d",
        &Some("u".to_string()),
        &Some("p".to_string()),
    )
    .unwrap();
    assert_eq!(t.port, 2121);
    assert_eq!(t.user, "u");
    assert_eq!(t.pass, "p");
    assert_eq!(t.file_name, Some("b.tgz".to_string()));
}

#[test]
fn resolve_ftp_errors() {
    assert!(matches!(resolve_ftp("not a url", "/d", &None, &None), Err(KtpError::InvalidUrl)));
    assert_eq!(resolve_ftp("ftp://host/", "/d", &None, &None).unwrap().file_name, None);
}

#[test]
fn https_download_end_to_end() {
    let mut s = TransferSession::new(options(
        TransferProtocol::HTTP,
        "https://example.com/kernel.tar",
        "/tmp/out",
        false,
    ));
    match s.step(Event::Begin) {
        Action::HttpRequest { url, destination } => {
            assert_eq!(url, "https://example.com/kernel.tar");
            assert_eq!(destination, "/tmp/out");
        }
        other => panic!("unexpected {:?}", other),
    }
    match s.step(Event::Status(200)) {
        Action::HttpStore { destination, file_name } => {
            assert_eq!(destination, "/tmp/out");
            assert_eq!(file_name, "kernel.tar");
        }
        other => panic!("unexpected {:?}", other),
    }
    assert!(matches!(s.step(Event::Completed(true)), Action::ProbeDescriptor { .. }));
    assert!(matches!(s.step(Event::Probed(false)), Action::Finish(Ok(()))));
    assert_eq!(s.phase, Phase::Succeeded);
    assert!(s.advisories.is_empty());
}

#[test]
fn http_success_status_stores_even_when_empty() {
    let mut s = TransferSession::new(options(TransferProtocol::HTTP, "http://h/k.tar", "/d", false));
    s.step(Event::Begin);
    assert_eq!(s.advisories, vec![Advisory::PlainHttp]);
    assert!(matches!(s.step(Event::Status(204)), Action::HttpStore { .. }));
}

#[test]
fn http_failure_status_stores_nothing() {
    let mut s = TransferSession::new(options(TransferProtocol::HTTP, "https://h/k.tar", "/d", true));
    s.step(Event::Begin);
    match s.step(Event::Status(404)) {
        Action::Finish(Err(e)) => assert_eq!(e, KtpError::HttpStatus(404)),
        other => panic!("unexpected {:?}", other),
    }
    assert_eq!(s.phase, Phase::Failed);
    let mut t = TransferSession::new(options(TransferProtocol::HTTP, "https://h/k.tar", "/d", true));
    t.step(Event::Begin);
    assert!(matches!(t.step(Event::Status(300)), Action::Finish(Err(KtpError::HttpStatus(300)))));
}

#[test]
fn scp_copy_keeps_locator_without_override() {
    let mut s = TransferSession::new(options(
        TransferProtocol::SSH,
        "dev@10.0.0.5:/srv/kernel",
        "/tmp/k",
        false,
    ));
    match s.step(Event::Begin) {
        Action::ScpCopy { locator, destination } => {
            assert_eq!(locator, "dev@10.0.0.5:/srv/kernel");
            assert_eq!(destination, "/tmp/k");
        }
        other => panic!("unexpected {:?}", other),
    }
    assert!(matches!(s.step(Event::Completed(false)), Action::Finish(Err(KtpError::ScpFailed))));
}

#[test]
fn scp_session_applies_username_override() {
    let mut o = options(TransferProtocol::Cloud, "a@host:/p", "/d", false);
    o.username = Some("b".to_string());
    let mut s = TransferSession::new(o);
    match s.step(Event::Begin) {
        Action::ScpCopy { locator, .. } => assert_eq!(locator, "b@host:/p"),
        other => panic!("unexpected {:?}", other),
    }
}

#[test]
fn invalid_ssh_locator_fails_session() {
    let mut s = TransferSession::new(options(TransferProtocol::SSH, "host/path", "/d", true));
    assert!(matches!(s.step(Event::Begin), Action::Finish(Err(KtpError::InvalidSshUrl))));
    assert!(matches!(s.step(Event::Begin), Action::Finish(Err(KtpError::OutOfOrder))));
}

#[test]
fn descriptor_runs_alone_and_its_failure_is_terminal() {
    let mut s = TransferSession::new(options(TransferProtocol::SSH, "u@h:/k", "/dst", true));
    s.step(Event::Begin);
    s.step(Event::Completed(true));
    match s.step(Event::Probed(true)) {
        Action::RunDescriptor { directory } => assert_eq!(directory, "/dst"),
        other => panic!("unexpected {:?}", other),
    }
    assert!(matches!(s.step(Event::Completed(false)), Action::Finish(Err(KtpError::InstallFailed))));
    assert_eq!(s.descriptor, Some(true));
    assert_eq!(s.phase, Phase::Failed);
}

#[test]
fn auto_build_runs_clean_configure_compile() {
    let mut s = TransferSession::new(options(TransferProtocol::SSH, "u@h:/k", "/dst", true));
    s.step(Event::Begin);
    s.step(Event::Completed(true));
    assert!(matches!(s.step(Event::Probed(false)), Action::Clean { .. }));
    assert!(matches!(s.step(Event::Completed(false)), Action::Configure { .. }));
    assert!(matches!(s.step(Event::Completed(false)), Action::Compile { .. }));
    assert_eq!(s.advisories, vec![Advisory::CleanFailed, Advisory::ConfigureCancelled]);
    assert!(matches!(s.step(Event::Completed(false)), Action::Finish(Err(KtpError::CompileFailed))));
}

#[test]
fn auto_build_success() {
    let mut s = TransferSession::new(options(TransferProtocol::SSH, "u@h:/k", "/dst", true));
    s.step(Event::Begin);
    s.step(Event::Completed(true));
    s.step(Event::Probed(false));
    s.step(Event::Completed(true));
    s.step(Event::Completed(true));
    assert!(matches!(s.step(Event::Completed(true)), Action::Finish(Ok(()))));
    assert!(s.advisories.is_empty());
}

#[test]
fn ftp_without_credentials_logs_in_anonymously() {
    let mut s = TransferSession::new(options(
        TransferProtocol::FTP,
        "ftp://ftp.example.com/pub/kernel.tar",
        "/tmp/out",
        false,
    ));
    match s.step(Event::Begin) {
        Action::FtpLogin(t) => {
            assert_eq!(t.user, "anonymous");
            assert_eq!(t.pass, "anonymous");
            assert_eq!(t.host, "ftp.example.com");
            assert_eq!(t.port, 21);
        }
        other => panic!("unexpected {:?}", other),
    }
    match s.step(Event::Completed(true)) {
        Action::FtpRetrieve(t) => {
            assert_eq!(t.remote_path, "pub/kernel.tar");
            assert_eq!(t.file_name, Some("kernel.tar".to_string()));
            assert_eq!(t.destination, "/tmp/out");
        }
        other => panic!("unexpected {:?}", other),
    }
    assert_eq!(s.advisories, vec![Advisory::FtpInsecure]);
}

#[test]
fn transport_error_carries_its_message() {
    let mut s = TransferSession::new(options(TransferProtocol::FTP, "ftp://h/k.tar", "/d", false));
    s.step(Event::Begin);
    match s.step(Event::Broken("connection refused".to_string())) {
        Action::Finish(Err(e)) => assert_eq!(e, KtpError::Transport("connection refused".to_string())),
        other => panic!("unexpected {:?}", other),
    }
}

#[test]
fn descriptor_is_ktp_makefile() {
    assert_eq!(descriptor_file_name(), "KTP.mk");
}

#[test]
fn ftp_unparsable_locator_fails_at_start() {
    let mut s = TransferSession::new(options(TransferProtocol::FTP, "no scheme here", "/d", false));
    assert!(matches!(s.step(Event::Begin), Action::Finish(Err(KtpError::InvalidUrl))));
    assert_eq!(s.phase, Phase::Failed);
}

#[test]
fn ftp_incomplete_retrieval_is_a_transfer_failure() {
    let mut s = TransferSession::new(options(TransferProtocol::FTP, "ftp://h/k.tar", "/d", false));
    assert!(matches!(s.step(Event::Begin), Action::FtpLogin(_)));
    assert!(matches!(s.step(Event::Completed(true)), Action::FtpRetrieve(_)));
    assert!(matches!(s.step(Event::Completed(false)), Action::Finish(Err(KtpError::FtpTransferFailed))));
}

#[test]
fn ftp_path_without_file_name_fails_after_login() {
    let mut s = TransferSession::new(options(TransferProtocol::FTP, "ftp://h/", "/d", false));
    match s.step(Event::Begin) {
        Action::FtpLogin(t) => assert_eq!((t.user.as_str(), t.pass.as_str()), ("anonymous", "anonymous")),
        other => panic!("unexpected {:?}", other),
    }
    assert!(matches!(s.step(Event::Completed(true)), Action::Finish(Err(KtpError::FtpNoFileName))));
}

#[test]
fn resolve_ftp_missing_host() {
    assert!(matches!(resolve_ftp("mailto:k.tar", "/d", &None, &None), Err(KtpError::FtpHostMissing)));
}

#[test]
fn build_step_exits() {
    assert_eq!(build_step_outcome(BuildStep::Clean, false), Ok(Some(Advisory::CleanFailed)));
    assert_eq!(build_step_outcome(BuildStep::Configure, false), Ok(Some(Advisory::ConfigureCancelled)));
    assert_eq!(build_step_outcome(BuildStep::Install, false), Err(KtpError::InstallFailed));
    assert_eq!(build_step_outcome(BuildStep::Compile, false), Err(KtpError::CompileFailed));
    assert_eq!(build_step_outcome(BuildStep::Compile, true), Ok(None));
}
