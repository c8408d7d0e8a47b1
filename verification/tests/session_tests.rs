use wishget::game::Game;
use wishget::json::JsonDoc;
use wishget::session::{
    cache_file_parts, first_url, should_load_cache, should_write_cache, DataArgs, FetchSession, SessionAction,
};

fn text(s: &str) -> JsonDoc {
    JsonDoc::Text(s.to_string())
}

fn obj(entries: Vec<(&str, JsonDoc)>) -> JsonDoc {
    JsonDoc::Object(entries.into_iter().map(|(k, v)| (k.to_string(), v)).collect())
}

fn record(id: &str, uid: &str) -> JsonDoc {
    obj(vec![("uid", text(uid)), ("id", text(id))])
}

fn answer(records: Vec<JsonDoc>) -> JsonDoc {
    obj(vec![("data", obj(vec![("list", JsonDoc::Array(records))]))])
}

fn fetch_url(a: &SessionAction) -> (String, bool, bool) {
    match a {
        SessionAction::Fetch { url, pause_before, metadata, .. } => (url.clone(), *pause_before, *metadata),
        _ => panic!("a fetch was expected"),
    }
}

#[test]
fn cache_decisions() {
    assert!(should_load_cache(&String::from("800123"), false));
    assert!(!should_load_cache(&String::from("800123"), true));
    assert!(!should_load_cache(&String::from("-1"), false));
    assert!(should_write_cache(&String::from("800123"), false));
    assert!(!should_write_cache(&String::from("800123"), true));
    assert!(!should_write_cache(&String::from("-1"), false));
    let (game, uid, file) = cache_file_parts(Game::HSR, &String::from("800123"), &String::from("11"));
    assert_eq!((game.as_str(), uid.as_str(), file.as_str()), ("hkrpg", "800123", "11.cache"));
}

#[test]
fn data_args_pick_the_link() {
    let mut a = DataArgs {
        game_path: String::from("/g"),
        ignore_cache: false,
        skip_write_cache: false,
        process_all_banners: false,
        known_url: String::new(),
    };
    assert_eq!(a.given_url(), None);
    a.known_url = String::from("https://x");
    assert_eq!(a.given_url().as_deref(), Some("https://x"));
    assert_eq!(first_url(&vec![String::from("a"), String::from("b")]).as_deref(), Some("a"));
    assert_eq!(first_url(&Vec::new()), None);
}

#[test]
fn session_with_a_kept_cache() {
    let mut s = FetchSession::new(Game::HSR, String::from("https://api/log?k=1"), &String::from("11"), false, false, false);
    let a = s.begin();
    assert_eq!(fetch_url(&a), (String::from("https://api/log?k=1&size=1&page=1&end_id=0&gacha_type=11"), false, true));
    let a = s.on_answer(answer(vec![record("100", "800123")]));
    match &a {
        SessionAction::LoadCache { game, uid, gacha_type } => {
            assert_eq!((*game, uid.as_str(), gacha_type.as_str()), (Game::HSR, "800123", "11"));
        }
        _ => panic!("the kept records are asked for"),
    }
    let a = s.on_cache(JsonDoc::Array(vec![record("95", "800123"), record("94", "800123")]));
    assert_eq!(fetch_url(&a), (String::from("https://api/log?k=1&size=5&page=1&end_id=0&gacha_type=11"), false, false));
    let page: Vec<JsonDoc> = (0..5).map(|i| record(&format!("{}", 101 - i), "800123")).collect();
    let a = s.on_answer(answer(page));
    assert_eq!(fetch_url(&a), (String::from("https://api/log?k=1&size=5&page=2&end_id=97&gacha_type=11"), true, false));
    let page: Vec<JsonDoc> = (0..5).map(|i| record(&format!("{}", 96 - i), "800123")).collect();
    let a = s.on_answer(answer(page));
    match a {
        SessionAction::WriteCache { game, uid, gacha_type, text } => {
            assert_eq!((game, uid.as_str(), gacha_type.as_str()), (Game::HSR, "800123", "11"));
            let kept = json::parse(text.as_str()).unwrap();
            assert_eq!(kept.len(), 8);
            let ids: Vec<&str> = kept.members().map(|r| r["id"].as_str().unwrap()).collect();
            assert_eq!(ids, vec!["101", "100", "99", "98", "97", "96", "95", "94"]);
            assert!(text.starts_with("[\n  {\n    \"uid\": \"800123\""));
        }
        _ => panic!("the records are kept"),
    }
    let a = s.on_written();
    assert!(matches!(a, SessionAction::Finished));
    assert_eq!(s.urls, vec!["https://api/log?k=1&size=5&page=2&end_id=97&gacha_type=11"]);
}

#[test]
fn session_over_all_banners_without_accounts() {
    let mut s = FetchSession::new(Game::Genshin, String::from("https://api/log?k=1"), &String::from("301"), true, true, true);
    let mut a = s.begin();
    let mut fetched = Vec::new();
    loop {
        match a {
            SessionAction::Fetch { url, .. } => {
                fetched.push(url);
                a = s.on_answer(answer(vec![]));
            }
            SessionAction::Finished => break,
            _ => panic!("nothing is loaded or kept"),
        }
    }
    assert_eq!(fetched.len(), 8);
    assert_eq!(s.urls.len(), 4);
    assert_eq!(s.urls[3], "https://api/log?k=1&size=5&page=1&end_id=0&gacha_type=302");
}

#[test]
fn session_takes_pages_and_kept_records_as_text() {
    let mut s = FetchSession::new(Game::Genshin, String::from("https://api/log?k=1"), &String::from("301"), false, false, false);
    let first = s.begin();
    assert_eq!(fetch_url(&first).0, "https://api/log?k=1&size=1&page=1&end_id=0&gacha_type=301");
    assert!(s.on_page("not json").is_none());
    assert!(s.on_page("{\"data\": {\"list\": [{\"id\": \"5\"}]}}").is_none());
    let a = s.on_page("{\"retcode\": 0, \"data\": {\"list\": [{\"uid\": \"700\", \"id\": \"5\"}]}}").unwrap();
    assert!(matches!(a, SessionAction::LoadCache { .. }));
    assert!(s.on_cache_text("[{\"id\": ").is_none());
    let a = s.on_cache_text("[{\"uid\": \"700\", \"id\": \"3\"}]").unwrap();
    assert_eq!(fetch_url(&a).0, "https://api/log?k=1&size=5&page=1&end_id=0&gacha_type=301");
    let a = s
        .on_page("{\"data\": {\"list\": [{\"uid\": \"700\", \"id\": \"4\"}, {\"uid\": \"700\", \"id\": \"3\"}]}}")
        .unwrap();
    match a {
        SessionAction::WriteCache { text, .. } => {
            let kept = json::parse(text.as_str()).unwrap();
            assert_eq!(kept.len(), 2);
            assert_eq!(kept[0]["id"].as_str(), Some("4"));
            assert_eq!(kept[1]["id"].as_str(), Some("3"));
        }
        _ => panic!("the records are kept"),
    }
}

#[test]
fn ignored_cache_is_never_asked_for() {
    let mut s = FetchSession::new(Game::HSR, String::from("https://api/log?k=1"), &String::from("11"), true, false, false);
    s.begin();
    let a = s.on_answer(answer(vec![record("100", "800123")]));
    assert_eq!(fetch_url(&a).0, "https://api/log?k=1&size=5&page=1&end_id=0&gacha_type=11");
}
