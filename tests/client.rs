use github_client::github::{
    is_success, GitHub, GitHubErr, HeaderField, SearchEntry, SearchRes, User,
};

fn octocat_entry() -> SearchEntry {
    SearchEntry {
        login: "octocat".to_string(),
        id: 583231,
        html_url: "https://github.com/octocat".to_string(),
        profile_type: "User".to_string(),
    }
}

fn full_user() -> User {
    User {
        login: "octocat".to_string(),
        html_url: "https://github.com/octocat".to_string(),
        name: "The Octocat".to_string(),
        bio: Some("Mascot".to_string()),
        company: Some("GitHub".to_string()),
        location: Some("San Francisco".to_string()),
        email: Some("octo@example.com".to_string()),
        public_repos: 8,
        public_gists: 8,
        followers: 20000,
        following: 9,
    }
}

#[test]
fn common_headers_in_order() {
    let gh = GitHub::new("SECRET-REDACTED", "my-cli");
    let hs = match gh.get_common_headers() {
        Ok(hs) => hs,
        Err(_) => panic!("valid credentials were refused"),
    };
    assert_eq!(hs.len(), 3);
    assert_eq!(hs[0].field, HeaderField::Accept);
    assert_eq!(hs[0].text, "application/vnd.github+json");
    assert_eq!(hs[0].value.to_str().unwrap(), "application/vnd.github+json");
    assert_eq!(hs[1].field, HeaderField::Authorization);
    assert_eq!(hs[1].text, "SECRET-REDACTED");
    assert_eq!(hs[1].value.as_bytes(), b"SECRET-REDACTED");
    assert_eq!(hs[2].field, HeaderField::UserAgent);
    assert_eq!(hs[2].text, "my-cli");
    assert_eq!(hs[2].value.as_bytes(), b"my-cli");
}

#[test]
fn token_with_newline_is_refused() {
    let gh = GitHub::new("abc\ndef", "my-cli");
    assert!(matches!(gh.get_common_headers(), Err(GitHubErr::HeaderErr(_))));
    assert!(matches!(gh.search_request("rust"), Err(GitHubErr::HeaderErr(_))));
    assert!(matches!(gh.user_request("octocat"), Err(GitHubErr::HeaderErr(_))));
}

#[test]
fn agent_with_control_chars_is_refused() {
    let gh = GitHub::new("tok", "cli\u{7f}");
    assert!(matches!(gh.get_common_headers(), Err(GitHubErr::HeaderErr(_))));
    let gh = GitHub::new("tok", "cli\r");
    assert!(matches!(gh.user_request("octocat"), Err(GitHubErr::HeaderErr(_))));
    let gh = GitHub::new("to\u{0}k", "cli");
    assert!(matches!(gh.search_request("x"), Err(GitHubErr::HeaderErr(_))));
}

#[test]
fn tab_and_non_ascii_are_accepted() {
    let gh = GitHub::new("a\tb", "cliënt");
    let hs = gh.get_common_headers().ok().unwrap();
    assert_eq!(hs[1].text, "a\tb");
    assert_eq!(hs[2].value.as_bytes(), "cliënt".as_bytes());
}

#[test]
fn search_request_shape() {
    let gh = GitHub::new("tok", "cli");
    let req = gh.search_request("linus torvalds").ok().unwrap();
    assert_eq!(req.url, "https://api.github.com/search/users");
    assert_eq!(req.query, vec![("q".to_string(), "linus torvalds".to_string())]);
    assert_eq!(req.headers.len(), 3);
}

#[test]
fn search_request_with_empty_query() {
    let gh = GitHub::new("tok", "cli");
    let req = gh.search_request("").ok().unwrap();
    assert_eq!(req.query, vec![("q".to_string(), String::new())]);
}

#[test]
fn user_request_shape() {
    let gh = GitHub::new("tok", "cli");
    let req = gh.user_request("octocat").ok().unwrap();
    assert_eq!(req.url, "https://api.github.com/users/octocat");
    assert!(req.query.is_empty());
    assert_eq!(req.headers[1].text, "tok");
}

#[test]
fn success_statuses() {
    assert!(is_success(200));
    assert!(is_success(204));
    assert!(is_success(299));
    assert!(!is_success(199));
    assert!(!is_success(300));
    assert!(!is_success(404));
    assert!(!is_success(0));
}

#[test]
fn error_status_carries_the_body() {
    let body = "{\"message\":\"Not Found\"}".to_string();
    match GitHub::user_response(404, body.clone()) {
        Err(GitHubErr::ErrResponse(b)) => assert_eq!(b, body),
        _ => panic!("a 404 must give ErrResponse"),
    }
    match GitHub::user_response(500, String::new()) {
        Err(GitHubErr::ErrResponse(b)) => assert_eq!(b, ""),
        _ => panic!("a 500 must give ErrResponse"),
    }
}

#[test]
fn success_status_hands_the_body_on() {
    let body = "{\"login\":\"octocat\"}".to_string();
    match GitHub::user_response(200, body.clone()) {
        Ok(b) => assert_eq!(b, body),
        _ => panic!("a 200 must pass the body on"),
    }
}

#[test]
fn decode_failure_is_serde_err() {
    let bad = serde_json::from_str::<serde_json::Value>("{\"items\": [");
    assert!(matches!(GitHub::decoded(bad), Err(GitHubErr::SerdeErr(_))));
    let good = serde_json::from_str::<u32>("2");
    assert!(matches!(GitHub::decoded(good), Ok(2)));
}

#[test]
fn search_entry_line() {
    assert_eq!(
        octocat_entry().to_string(),
        "octocat(User)  #583231 https://github.com/octocat"
    );
    let org = SearchEntry {
        login: "rust-lang".to_string(),
        id: 0,
        html_url: "https://github.com/rust-lang".to_string(),
        profile_type: "Organization".to_string(),
    };
    assert_eq!(org.to_string(), "rust-lang(Organization)  #0 https://github.com/rust-lang");
}

#[test]
fn search_entry_with_largest_id() {
    let mut e = octocat_entry();
    e.id = u32::MAX;
    assert_eq!(e.to_string(), "octocat(User)  #4294967295 https://github.com/octocat");
}

#[test]
fn search_result_keeps_order() {
    let res = SearchRes {
        total_count: 2,
        items: vec![octocat_entry(), SearchEntry { login: "b".to_string(), ..octocat_entry() }],
    };
    assert_eq!(res.items.len(), 2);
    assert_eq!(res.items[0].login, "octocat");
    assert_eq!(res.items[1].login, "b");
}

#[test]
fn profile_with_every_field() {
    let expected = "👋 The Octocat(octocat) \n\
                    ❔ Mascot \n\
                    🖥️  @ GitHub \n\
                    📍 San Francisco \n\
                    📧 octo@example.com \n\
                    Public repos 📔 8, public gists 📕 8 \n\
                    followers 🏃 20000, following ❤️ 9 \n\
                    More at 📘 https://github.com/octocat \n";
    assert_eq!(full_user().to_string(), expected);
}

#[test]
fn profile_without_optional_fields() {
    let mut u = full_user();
    u.bio = None;
    u.company = None;
    u.location = None;
    u.email = None;
    u.followers = 0;
    let expected = "👋 The Octocat(octocat) \n\
                    Public repos 📔 8, public gists 📕 8 \n\
                    followers 🏃 0, following ❤️ 9 \n\
                    More at 📘 https://github.com/octocat \n";
    assert_eq!(u.to_string(), expected);
}

#[test]
fn profile_with_some_optional_fields() {
    let mut u = full_user();
    u.bio = None;
    u.location = None;
    let text = u.to_string();
    assert!(!text.contains("❔"));
    assert!(!text.contains("📍"));
    assert!(text.contains("🖥️  @ GitHub \n📧 octo@example.com \n"));
    assert!(text.starts_with("👋 The Octocat(octocat) \n🖥️"));
}
