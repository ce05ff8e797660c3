use regtags::tags::Error;
use regtags::tags::Tags;

#[test]
fn test_check_repo() {
    let check_eq = |s, s2: &str| {
        assert_eq!(Tags::check_repo(String::from(s)).unwrap(), s2);
    };
    let check_neq = |s, s2: &str| {
        assert_ne!(Tags::check_repo(String::from(s)).unwrap(), s2);
    };
    let check_err = |s: &str| {
        assert_eq!(Tags::check_repo(String::from(s)).is_err(), true);
    };

    check_eq("nginx", "library/nginx");
    check_neq("nginx", "nginx");
    check_eq("rocketchat/rocket.chat", "rocketchat/rocket.chat");
    check_eq("mysql", "library/mysql");
    check_neq("mysql", "mysql");
    check_err("nginx\u{e4}");
    check_err("nginx\u{b2}");
    check_eq("selim13/automysqlbackup", "selim13/automysqlbackup");
}

#[test]
fn check_repo_reports_the_offending_character() {
    match Tags::check_repo(String::from("ngin\u{e4}x")) {
        Err(Error::InvalidCharacter(c)) => assert_eq!(c, '\u{e4}'),
        _ => panic!("expected an invalid-character error"),
    }
}

#[test]
fn check_repo_keeps_empty_namespace_rule() {
    assert_eq!(Tags::check_repo(String::from("")).unwrap(), "library/");
    assert_eq!(Tags::check_repo(String::from("a/b/c")).unwrap(), "a/b/c");
}

#[test]
fn error_messages_render() {
    assert_eq!(
        Error::InvalidCharacter('\u{e4}').message(),
        "Invalid Character: \u{e4}"
    );
    assert_eq!(
        Error::Fetching(String::from("timed out")).message(),
        "Fetching error: timed out"
    );
    assert_eq!(
        Error::Converting(String::from("bad json")).message(),
        "Converting error: bad json"
    );
    assert_eq!(Error::NextPageSelected.message(), "next page selected");
    assert_eq!(Error::NoSelection.message(), "no tag selected");
    assert_eq!(Error::NoMatch.message(), "no image found");
    assert_eq!(
        Error::SaveFailure(String::from("disk full")).message(),
        "Saving error: disk full"
    );
}

#[test]
fn request_url_is_built_from_the_repository() {
    assert_eq!(
        regtags::tags::request_url("library/mysql"),
        "https://hub.docker.com/v2/repositories/library/mysql/tags"
    );
}
