use webnis::pam::{
    after_try, auth_request, from_io_error, reply_code, reply_verdict, AuthFailure, AuthStep,
    IoFailure, PamArgs, Webnis, MAX_TRIES, PAUSE_NANOS, PAUSE_SECS,
};

fn words(list: &[&str]) -> Vec<String> {
    list.iter().map(|s| s.to_string()).collect()
}

#[test]
fn module_type_exists() {
    let _module = Webnis;
}

#[test]
fn pam_args_bits() {
    assert_eq!(PamArgs::DEBUG.bit(), 1);
    assert_eq!(PamArgs::USE_FIRST_PASS.bit(), 2);
}

#[test]
fn pam_args_parse() {
    assert_eq!(PamArgs::parse(&words(&[])), 0);
    assert_eq!(PamArgs::parse(&words(&["debug"])), 1);
    assert_eq!(PamArgs::parse(&words(&["use_first_pass"])), 2);
    assert_eq!(PamArgs::parse(&words(&["use_first_pass", "x", "debug"])), 3);
    assert_eq!(PamArgs::parse(&words(&["debug", "debug"])), 1);
    assert_eq!(PamArgs::parse(&words(&["Debug", "try_first_pass"])), 0);
}

#[test]
fn pam_args_are_told_from_the_flags() {
    let flags = PamArgs::parse(&words(&["x", "debug"]));
    assert!(PamArgs::DEBUG.is_set(flags));
    assert!(!PamArgs::USE_FIRST_PASS.is_set(flags));
    assert!(PamArgs::USE_FIRST_PASS.is_set(3));
    assert!(!PamArgs::DEBUG.is_set(0));
}

#[test]
fn auth_request_line() {
    assert_eq!(auth_request("ann", b"secret"), b"auth ann secret\n".to_vec());
    assert_eq!(auth_request("", b""), b"auth  \n".to_vec());
    assert_eq!(auth_request("é", &[0, 255]), vec![97, 117, 116, 104, 32, 0xC3, 0xA9, 32, 0, 255, 10]);
}

#[test]
fn reply_codes() {
    assert_eq!(reply_code("200 OK\n"), Some(200));
    assert_eq!(reply_code("+404 x"), Some(404));
    assert_eq!(reply_code("0042 x"), Some(42));
    assert_eq!(reply_code("65535 x"), Some(65535));
    assert_eq!(reply_code("65536 x"), None);
    assert_eq!(reply_code("200\n"), None);
    assert_eq!(reply_code(" 200"), None);
    assert_eq!(reply_code("-1 x"), None);
    assert_eq!(reply_code(""), None);
}

#[test]
fn reply_verdicts() {
    assert_eq!(reply_verdict("200 OK\n"), Ok(()));
    assert_eq!(reply_verdict("299 fine\n"), Ok(()));
    assert_eq!(reply_verdict("199 x\n"), Err(AuthFailure::AuthInfoUnavail));
    assert_eq!(reply_verdict("300 x\n"), Err(AuthFailure::AuthInfoUnavail));
    assert_eq!(reply_verdict("401 no\n"), Err(AuthFailure::AuthErr));
    assert_eq!(reply_verdict("403 no\n"), Err(AuthFailure::AuthErr));
    assert_eq!(reply_verdict("404 no\n"), Err(AuthFailure::AuthErr));
    assert_eq!(reply_verdict("402 no\n"), Err(AuthFailure::AuthInfoUnavail));
    assert_eq!(reply_verdict("500 down\n"), Err(AuthFailure::AuthInfoUnavail));
    assert_eq!(reply_verdict("garbage\n"), Err(AuthFailure::AuthInfoUnavail));
    assert_eq!(reply_verdict(""), Err(AuthFailure::AuthInfoUnavail));
}

#[test]
fn error_lines_of_the_proxy_are_decoded() {
    assert_eq!(reply_code(&webnis::dispatch::error_line(404, "HTTP error")), Some(404));
    assert_eq!(reply_code(&webnis::dispatch::error_line(0, "")), Some(0));
    assert_eq!(
        reply_verdict(&webnis::dispatch::Failure::Timeout.reply()),
        Err(AuthFailure::AuthInfoUnavail)
    );
    assert_eq!(
        reply_verdict(&webnis::dispatch::Failure::Http(403).reply()),
        Err(AuthFailure::AuthErr)
    );
}

#[test]
fn io_errors() {
    assert_eq!(from_io_error(IoFailure::TimedOut), AuthFailure::AuthInfoUnavail);
    assert_eq!(from_io_error(IoFailure::Interrupted), AuthFailure::AuthInfoUnavail);
    assert_eq!(from_io_error(IoFailure::Other), AuthFailure::AuthInfoUnavail);
}

#[test]
fn retry_once_after_a_pause() {
    assert_eq!(MAX_TRIES, 2);
    assert_eq!((PAUSE_SECS, PAUSE_NANOS), (2, 500));
    assert_eq!(after_try(0, Ok(())), AuthStep::Done(Ok(())));
    assert_eq!(after_try(0, Err(AuthFailure::AuthErr)), AuthStep::Done(Err(AuthFailure::AuthErr)));
    assert_eq!(after_try(0, Err(AuthFailure::AuthInfoUnavail)), AuthStep::Pause);
    assert_eq!(
        after_try(1, Err(AuthFailure::AuthInfoUnavail)),
        AuthStep::Done(Err(AuthFailure::AuthInfoUnavail))
    );
    assert_eq!(
        after_try(u32::MAX, Err(AuthFailure::AuthInfoUnavail)),
        AuthStep::Done(Err(AuthFailure::AuthInfoUnavail))
    );
}
