use xepher_backend::client::{
    decimal_string, resolve_url, score_urls, scores_from_response, session_cookie,
    status_is_success, DEFAULT_USER_AGENT,
};
use xepher_backend::error::XepherError;
use xepher_backend::{IIDXScoreResult, XepherClient};

fn attempt(points: u16) -> IIDXScoreResult {
    IIDXScoreResult {
        chart: 1,
        great: 10,
        miss_count: 3,
        pgreat: 20,
        points,
        raised: false,
        songid: 1000,
        status: "FAILED".to_string(),
        timestamp: 5,
        userid: "None".to_string(),
    }
}

#[test]
fn test_builder() {
    let (sess_id, user_id) = ("session-id".to_string(), "1234".to_string());
    let _: XepherClient = XepherClient::builder().cookie(&sess_id, &user_id).build();
}

#[test]
fn tests_test_builder() {
    let (sess_id, user_id) = ("session-id".to_string(), "1234".to_string());
    let client: XepherClient = XepherClient::builder()
        .cookie(&sess_id, &user_id)
        .songs_db_paths(vec![
            "./assets/iidx-old-leggendaria-songs.json",
            "./assets/iidx-songs.json",
        ])
        .build();
    assert_eq!(
        client.songs_db_paths(),
        &vec![
            "./assets/iidx-old-leggendaria-songs.json".to_string(),
            "./assets/iidx-songs.json".to_string()
        ]
    );
}

#[test]
fn cookie_has_the_fixed_format() {
    assert_eq!(session_cookie("abc", "123"), "SessionID=abc; UserID=123");
    assert_eq!(session_cookie("abc", &decimal_string(123)), "SessionID=abc; UserID=123");
    let client = XepherClient::builder().cookie("abc", "123").build();
    assert_eq!(client.cookie(), "SessionID=abc; UserID=123");
}

#[test]
fn user_agent_defaults_and_can_be_replaced() {
    let plain = XepherClient::builder().cookie("s", "1").build();
    assert_eq!(
        plain.user_agent(),
        "Mozilla/5.0 (X11; Linux x86_64; rv:138.0) Gecko/20100101 Firefox/138.0"
    );
    assert_eq!(plain.user_agent(), DEFAULT_USER_AGENT);
    let custom = XepherClient::builder().user_agent("probe/1.0").cookie("s", "1").build();
    assert_eq!(custom.user_agent(), "probe/1.0");
    assert!(custom.songs_db_paths().is_empty());
}

#[test]
fn decimal_notation() {
    assert_eq!(decimal_string(0), "0");
    assert_eq!(decimal_string(7), "7");
    assert_eq!(decimal_string(10), "10");
    assert_eq!(decimal_string(1234567890), "1234567890");
    assert_eq!(decimal_string(u64::MAX), "18446744073709551615");
}

#[test]
fn list_address_keeps_the_trailing_slash() {
    let (referer, list) = score_urls(42).unwrap();
    assert_eq!(referer, "https://webui.xepher.fun/iidx/scores/42/");
    assert_eq!(list, "https://webui.xepher.fun/iidx/scores/42/list");
    let (_, without_slash) = resolve_url("https://webui.xepher.fun/iidx/scores/42", "list").unwrap();
    assert_eq!(without_slash, "https://webui.xepher.fun/iidx/scores/list");
}

#[test]
fn base_address_is_normalised() {
    let (base, joined) = resolve_url("HTTPS://WebUI.Xepher.fun/a/b/", "../c").unwrap();
    assert_eq!(base, "https://webui.xepher.fun/a/b/");
    assert_eq!(joined, "https://webui.xepher.fun/a/c");
}

#[test]
fn malformed_base_is_a_request_build_error() {
    assert!(matches!(resolve_url("not a url", "list"), Err(XepherError::RequestBuild)));
    assert!(matches!(resolve_url("", "list"), Err(XepherError::RequestBuild)));
}

#[test]
fn score_request_carries_the_session() {
    let client = XepherClient::builder().cookie("abc", "123").user_agent("ua").build();
    let req = client.score_request(123).unwrap();
    assert_eq!(req.url, "https://webui.xepher.fun/iidx/scores/123/list");
    let expected: Vec<(String, String)> = vec![
        ("User-Agent".to_string(), "ua".to_string()),
        ("Accept".to_string(), "application/json".to_string()),
        ("Content-Type".to_string(), "application/json; charset=utf-8".to_string()),
        ("Referer".to_string(), "https://webui.xepher.fun/iidx/scores/123/".to_string()),
        ("Cookie".to_string(), "SessionID=abc; UserID=123".to_string()),
    ];
    assert_eq!(req.headers, expected);
}

#[test]
fn success_range() {
    assert!(!status_is_success(199));
    assert!(status_is_success(200));
    assert!(status_is_success(204));
    assert!(status_is_success(299));
    assert!(!status_is_success(300));
    assert!(!status_is_success(404));
}

#[test]
fn failing_status_names_the_user() {
    for status in [404u16, 500] {
        let r = scores_from_response(42, status, Ok(vec![attempt(1)]));
        match r {
            Err(e) => {
                assert!(matches!(e, XepherError::Fetch { user_id: 42, status: s } if s == status));
                assert_eq!(e.message(), "fail fetching result for user 42");
            }
            Ok(_) => panic!("attempts returned on status {status}"),
        }
    }
}

#[test]
fn empty_attempts_are_no_error() {
    let r = scores_from_response(42, 200, Ok(Vec::new()));
    assert!(r.unwrap().is_empty());
}

#[test]
fn attempts_come_back_in_order() {
    let r = scores_from_response(7, 200, Ok(vec![attempt(3), attempt(1), attempt(2)])).unwrap();
    let points: Vec<u16> = r.iter().map(|a| a.points).collect();
    assert_eq!(points, vec![3, 1, 2]);
}

#[test]
fn missing_attempts_is_a_decode_error() {
    let r = scores_from_response(42, 200, Err("missing field `attempts`".to_string()));
    match r {
        Err(XepherError::Decode(m)) => assert_eq!(m, "missing field `attempts`"),
        _ => panic!("expected a decode error"),
    }
}

#[test]
fn error_messages() {
    assert_eq!(XepherError::RequestBuild.message(), "malformed score page address");
    assert_eq!(XepherError::Transport("refused".to_string()).message(), "refused");
    assert_eq!(
        XepherError::SourceRead("a.json".to_string()).message(),
        "fail to read song db from: a.json"
    );
    assert_eq!(
        XepherError::SourceFormat("a.json".to_string()).message(),
        "a.json doesn't contain the correct format of an IIDX song DB"
    );
    assert_eq!(XepherError::Fetch { user_id: 0, status: 500 }.message(), "fail fetching result for user 0");
}
