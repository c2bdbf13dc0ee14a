use wikipedia_cli::errors::{classify, ErrorCause, ErrorKinds, WikiError};

fn kinds() -> ErrorKinds {
    ErrorKinds {
        decode: false,
        connect: false,
        redirect: false,
        request: false,
        timeout: false,
        body: false,
        status: false,
    }
}

#[test]
fn each_kind_names_its_stage() {
    assert_eq!(classify(ErrorKinds { decode: true, ..kinds() }), Some(ErrorCause::Title));
    assert_eq!(classify(ErrorKinds { connect: true, ..kinds() }), Some(ErrorCause::Connection));
    assert_eq!(classify(ErrorKinds { redirect: true, ..kinds() }), Some(ErrorCause::Redirect));
    assert_eq!(classify(ErrorKinds { request: true, ..kinds() }), Some(ErrorCause::Request));
    assert_eq!(classify(ErrorKinds { timeout: true, ..kinds() }), Some(ErrorCause::Request));
    assert_eq!(classify(ErrorKinds { body: true, ..kinds() }), Some(ErrorCause::Response));
    assert_eq!(classify(ErrorKinds { status: true, ..kinds() }), Some(ErrorCause::Response));
    assert_eq!(classify(kinds()), None);
}

#[test]
fn earlier_kinds_win() {
    let all = ErrorKinds {
        decode: true,
        connect: true,
        redirect: true,
        request: true,
        timeout: true,
        body: true,
        status: true,
    };
    assert_eq!(classify(all), Some(ErrorCause::Title));
    assert_eq!(classify(ErrorKinds { decode: false, ..all }), Some(ErrorCause::Connection));
    assert_eq!(classify(ErrorKinds { timeout: true, status: true, ..kinds() }), Some(ErrorCause::Request));
}

#[test]
fn cause_words() {
    assert_eq!(ErrorCause::Title.word(), "title");
    assert_eq!(ErrorCause::Connection.word(), "connection");
    assert_eq!(ErrorCause::Redirect.word(), "redirect");
    assert_eq!(ErrorCause::Request.word(), "request");
    assert_eq!(ErrorCause::Response.word(), "response");
}

#[test]
fn error_from_a_bad_url_keeps_titles() {
    let err = reqwest::blocking::get("not a url").err().expect("a bad URL must fail");
    let wrapped = WikiError::from_http(err);
    assert!(wrapped.args().is_empty());
    assert_eq!(wrapped.cause(), None);
    assert_eq!(wrapped.cause_word(), "request");
    assert!(wrapped.http_error().is_builder());
    let with_titles = wrapped.with_args(vec!["Pet_Door".to_string()]);
    assert_eq!(with_titles.args(), &vec!["Pet_Door".to_string()]);
    assert_eq!(with_titles.cause(), None);
}

#[test]
fn new_error_records_cause_and_titles() {
    let err = reqwest::blocking::get("still not a url").err().expect("a bad URL must fail");
    let e = WikiError::new(err, ErrorCause::Title, vec!["A".to_string(), "B".to_string()]);
    assert_eq!(e.cause(), Some(ErrorCause::Title));
    assert_eq!(e.cause_word(), "title");
    assert_eq!(e.args().len(), 2);
    assert!(e.http_error().to_string().contains("builder error"));
}
