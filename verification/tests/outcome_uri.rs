use alternate_tonic_client::outcome::{settle_timed, settle_untimed};
use alternate_tonic_client::uri::set_request_uri_scheme_and_authority;
use alternate_tonic_client::{CallError, Timed, UriRewriteError};

#[test]
fn untimed_success_is_kept() {
    let r: Result<u32, CallError<&str, ()>> = settle_untimed(Ok(7));
    assert!(matches!(r, Ok(7)));
}

#[test]
fn untimed_failure_is_a_failure() {
    let r: Result<u32, CallError<&str, ()>> = settle_untimed(Err("refused"));
    assert!(matches!(r, Err(CallError::Failed("refused"))));
}

#[test]
fn finished_in_time_is_as_without_deadline() {
    let ok: Result<u32, CallError<&str, &str>> = settle_timed(Timed::Finished(Ok(1)));
    let err: Result<u32, CallError<&str, &str>> = settle_timed(Timed::Finished(Err("reset")));
    assert!(matches!(ok, Ok(1)));
    assert!(matches!(err, Err(CallError::Failed("reset"))));
}

#[test]
fn elapsed_deadline_is_a_timeout() {
    let r: Result<u32, CallError<&str, &str>> = settle_timed(Timed::Elapsed("deadline has elapsed"));
    assert!(matches!(r, Err(CallError::TimedOut("deadline has elapsed"))));
}

#[test]
fn request_uri_is_sent_to_localhost_with_its_path() {
    let r = set_request_uri_scheme_and_authority("https://example.com:8443/helloworld.Greeter/SayHello");
    assert_eq!(r, Ok("http://localhost/helloworld.Greeter/SayHello".to_string()));
}

#[test]
fn request_uri_keeps_its_query() {
    let r = set_request_uri_scheme_and_authority("http://10.0.0.1:50051/pkg.Service/Method?trace=1");
    assert_eq!(r, Ok("http://localhost/pkg.Service/Method?trace=1".to_string()));
}

#[test]
fn relative_request_uri_is_made_absolute() {
    let r = set_request_uri_scheme_and_authority("/pkg.Service/Method");
    assert_eq!(r, Ok("http://localhost/pkg.Service/Method".to_string()));
}

#[test]
fn request_uris_with_the_same_path_are_sent_alike() {
    let a = set_request_uri_scheme_and_authority("http://a.example/x.Y/Z");
    let b = set_request_uri_scheme_and_authority("https://b.example:9000/x.Y/Z");
    assert_eq!(a, b);
}

#[test]
fn authority_only_uri_has_no_path_and_query() {
    let r = set_request_uri_scheme_and_authority("example.com:50051");
    assert_eq!(r, Err(UriRewriteError::MissingPathAndQuery));
}

#[test]
fn text_that_is_no_uri_is_refused() {
    let r = set_request_uri_scheme_and_authority("not a uri");
    assert_eq!(r, Err(UriRewriteError::Unparsable));
}

#[test]
fn asterisk_form_is_sent_as_is() {
    let r = set_request_uri_scheme_and_authority("*");
    assert_eq!(r, Ok("http://localhost*".to_string()));
}

#[test]
fn query_without_path_gets_the_root_path() {
    let r = set_request_uri_scheme_and_authority("http://example.com?x=1");
    assert_eq!(r, Ok("http://localhost/?x=1".to_string()));
}

#[test]
fn fragment_only_uri_is_sent_to_the_root() {
    let r = set_request_uri_scheme_and_authority("http://example.com#top");
    assert_eq!(r, Ok("http://localhost/".to_string()));
}

#[test]
fn rewriting_twice_changes_nothing() {
    for uri in [
        "https://example.com:8443/helloworld.Greeter/SayHello",
        "http://example.com?x=1",
        "/pkg.Service/Method?trace=1",
        "http://example.com#top",
    ] {
        let once = set_request_uri_scheme_and_authority(uri).unwrap();
        let twice = set_request_uri_scheme_and_authority(&once).unwrap();
        assert_eq!(once, twice);
    }
}
