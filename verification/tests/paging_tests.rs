use wishget::json::{check_numbers, json_eq_checked, json_equal, number_string, JsonDoc, JsonNumber};
use wishget::paging::{find_cache_meeting, generate, urlgen, DeuxWalk, PageWalk, WalkStep};

fn text(s: &str) -> JsonDoc {
    JsonDoc::Text(s.to_string())
}

fn obj(entries: Vec<(&str, JsonDoc)>) -> JsonDoc {
    JsonDoc::Object(entries.into_iter().map(|(k, v)| (k.to_string(), v)).collect())
}

fn record(id: &str, uid: &str) -> JsonDoc {
    obj(vec![("uid", text(uid)), ("id", text(id)), ("name", text("item"))])
}

fn answer(records: Vec<JsonDoc>) -> JsonDoc {
    obj(vec![("retcode", JsonDoc::Number(JsonNumber { positive: true, mantissa: 0, exponent: 0 })),
        ("data", obj(vec![("page", text("1")), ("list", JsonDoc::Array(records))]))])
}

fn ids(records: &[JsonDoc]) -> Vec<String> {
    records
        .iter()
        .map(|r| match r.get("id") {
            Some(JsonDoc::Text(t)) => t.clone(),
            _ => String::from("?"),
        })
        .collect()
}

#[test]
fn urlgen_strips_a_trailing_anchor() {
    let plain = urlgen(String::from("https://h/p?a=1"), String::from("301"), 5, 2, String::from("99"));
    assert_eq!(plain, "https://h/p?a=1&size=5&page=2&end_id=99&gacha_type=301");
    let anchored = urlgen(String::from("https://h/p?a=1#/"), String::from("301"), 5, 2, String::from("99"));
    assert_eq!(anchored, plain);
    let hash_only = urlgen(String::from("https://h/p?a=1#"), String::from("1"), 1, 255, String::from("0"));
    assert_eq!(hash_only, "https://h/p?a=1#&size=1&page=255&end_id=0&gacha_type=1");
}

#[test]
fn generate_appends_size_page_and_end() {
    assert_eq!(generate(String::from("https://h/p?x"), 5, 1, String::from("0")), "https://h/p?x&size=5&page=1&end_id=0");
}

#[test]
fn metadata_walk_reads_the_account() {
    let mut walk = PageWalk::metadata(String::from("https://h/p?a"), String::from("11"));
    assert_eq!(walk.request_url(), "https://h/p?a&size=1&page=1&end_id=0&gacha_type=11");
    match walk.absorb(answer(vec![record("900", "800123")])) {
        WalkStep::Finished { url, uid } => {
            assert_eq!(url, "https://h/p?a&size=1&page=1&end_id=0&gacha_type=11");
            assert_eq!(uid, "800123");
        }
        WalkStep::Next => panic!("a walk of one page ends"),
    }
}

#[test]
fn empty_page_reports_unknown_account() {
    let mut walk = PageWalk::metadata(String::from("https://h/p?a"), String::from("11"));
    match walk.absorb(answer(vec![])) {
        WalkStep::Finished { uid, .. } => assert_eq!(uid, "-1"),
        WalkStep::Next => panic!("a walk of one page ends"),
    }
}

#[test]
fn full_pages_go_on_from_the_last_record() {
    let mut walk = PageWalk::records(String::from("https://h/p?a#/"), String::from("301"), JsonDoc::Null);
    let page: Vec<JsonDoc> = (0..5).map(|i| record(&format!("{}", 100 - i), "7")).collect();
    assert!(matches!(walk.absorb(answer(page)), WalkStep::Next));
    assert_eq!(walk.page, 2);
    assert_eq!(walk.end_id, "96");
    assert_eq!(walk.request_url(), "https://h/p?a&size=5&page=2&end_id=96&gacha_type=301");
    match walk.absorb(answer(vec![record("95", "7"), record("94", "7")])) {
        WalkStep::Finished { url, uid } => {
            assert_eq!(url, "https://h/p?a&size=5&page=2&end_id=96&gacha_type=301");
            assert_eq!(uid, "7");
        }
        WalkStep::Next => panic!("a short page ends the walk"),
    }
    assert_eq!(ids(&walk.acc), vec!["100", "99", "98", "97", "96", "95", "94"]);
}

#[test]
fn meeting_the_cache_takes_the_cached_records() {
    let cache = JsonDoc::Array(vec![record("98", "7"), record("97", "7"), record("50", "7")]);
    let mut walk = PageWalk::records(String::from("https://h/p?a"), String::from("301"), cache);
    let page: Vec<JsonDoc> = (0..5).map(|i| record(&format!("{}", 100 - i), "7")).collect();
    match walk.absorb(answer(page)) {
        WalkStep::Finished { uid, .. } => assert_eq!(uid, "7"),
        WalkStep::Next => panic!("meeting the cache ends the walk"),
    }
    assert_eq!(ids(&walk.acc), vec!["100", "99", "98", "97", "50"]);
}

#[test]
fn empty_cache_array_is_not_met_by_records_with_ids() {
    let mut walk = PageWalk::records(String::from("https://h/p?a"), String::from("301"), JsonDoc::Array(vec![]));
    let page: Vec<JsonDoc> = (0..5).map(|i| record(&format!("{}", 10 - i), "7")).collect();
    assert!(matches!(walk.absorb(answer(page)), WalkStep::Next));
    assert_eq!(walk.acc.len(), 5);
}

#[test]
fn json_equality_follows_the_json_crate() {
    let one = JsonDoc::Number(JsonNumber { positive: true, mantissa: 1, exponent: 0 });
    let one_point_zero = JsonDoc::Number(JsonNumber { positive: true, mantissa: 10, exponent: -1 });
    let two = JsonDoc::Number(JsonNumber { positive: true, mantissa: 2, exponent: 0 });
    assert!(json_equal(&one, &one_point_zero));
    assert!(!json_equal(&one, &two));
    let a = obj(vec![("x", text("1")), ("y", JsonDoc::Bool(true))]);
    let b = obj(vec![("y", JsonDoc::Bool(true)), ("x", text("1"))]);
    let c = obj(vec![("y", JsonDoc::Bool(false)), ("x", text("1"))]);
    assert!(json_equal(&a, &b));
    assert!(!json_equal(&a, &c));
    assert!(json_equal(&JsonDoc::Array(vec![text("a"), JsonDoc::Null]), &JsonDoc::Array(vec![text("a"), JsonDoc::Null])));
    assert!(!json_equal(&JsonDoc::Array(vec![text("a")]), &JsonDoc::Array(vec![text("a"), JsonDoc::Null])));
    assert!(!json_equal(&text("1"), &one));
}

#[test]
fn single_banner_walk_keeps_first_records() {
    let mut walk = DeuxWalk::new(String::from("https://h/p?a&gacha_type=301"));
    assert!(walk.goes_on());
    assert_eq!(walk.request_url(), "https://h/p?a&gacha_type=301&size=5&page=1&end_id=0");
    let page: Vec<JsonDoc> = (0..5).map(|i| record(&format!("{}", 100 - i), "7")).collect();
    walk.absorb(answer(page));
    assert!(walk.goes_on());
    assert_eq!(walk.request_url(), "https://h/p?a&gacha_type=301&size=5&page=2&end_id=96");
    walk.absorb(answer(vec![record("95", "7"), record("94", "7")]));
    assert!(!walk.goes_on());
    assert_eq!(ids(&walk.accumulated), vec!["100", "95"]);
    assert_eq!(walk.page as usize, walk.accumulated.len() + 1);
}

fn num(positive: bool, mantissa: u64, exponent: i16) -> JsonNumber {
    JsonNumber { positive, mantissa, exponent }
}

#[test]
fn numbers_too_far_apart_are_not_compared() {
    assert!(!check_numbers(num(true, 1, 32767), num(true, 1, -1)));
    assert!(!check_numbers(num(true, 1, -32768), num(true, 1, 0)));
    assert!(check_numbers(num(true, 1, 32767), num(true, 1, 0)));
    assert!(check_numbers(num(true, 0, 32767), num(true, 0, -32768)));
    assert!(check_numbers(num(true, 1, 32767), num(false, 1, -1)));
    assert!(!check_numbers(num(true, 10, -1), num(true, 1, 32767)));
    assert!(check_numbers(num(true, 1, 0), num(true, 1, 32767)));
    let far = JsonDoc::Number(num(true, 1, 32767));
    let small = JsonDoc::Number(num(true, 1, -1));
    assert_eq!(json_eq_checked(&far, &small), None);
    assert_eq!(json_eq_checked(&JsonDoc::Number(num(true, 0, 32767)), &JsonDoc::Number(num(true, 0, -32768))), Some(true));
    assert_eq!(json_eq_checked(&JsonDoc::Number(num(true, 5, 0)), &JsonDoc::Number(num(false, 5, 0))), Some(false));
    assert_eq!(json_eq_checked(&JsonDoc::Number(num(true, 50, -1)), &JsonDoc::Number(num(true, 5, 0))), Some(true));
    assert_eq!(json_eq_checked(&JsonDoc::Array(vec![text("a"), far]), &JsonDoc::Array(vec![text("b"), small])), Some(false));
}

#[test]
fn a_page_whose_identifiers_cannot_be_compared_is_refused() {
    let with_num_id = |m: u64, e: i16| obj(vec![("uid", text("7")), ("id", JsonDoc::Number(num(true, m, e)))]);
    let cache = JsonDoc::Array(vec![with_num_id(1, -1)]);
    let list = vec![with_num_id(1, 32767)];
    assert_eq!(find_cache_meeting(&list, &cache), None);
    let list = vec![with_num_id(3, 0), with_num_id(10, -2)];
    assert_eq!(find_cache_meeting(&list, &cache), Some(Some(1)));
    assert_eq!(find_cache_meeting(&list, &JsonDoc::Null), Some(None));
    let walk = PageWalk::records(String::from("https://h/p?a"), String::from("301"), cache);
    assert!(!walk.accepts(&answer(vec![with_num_id(1, 32767)])));
    assert!(walk.accepts(&answer(vec![with_num_id(3, 0), with_num_id(10, -2)])));
}

#[test]
fn single_banner_walk_reads_text_and_writes_json() {
    let mut walk = DeuxWalk::new(String::from("https://h/p?a"));
    assert!(!walk.on_page("<html>"));
    assert_eq!(walk.page, 1);
    assert!(walk.on_page("{\"data\": {\"list\": [{\"id\": \"9\", \"n\": 1.5}, {\"id\": \"8\"}]}}"));
    assert!(!walk.goes_on());
    assert_eq!(walk.end_id, "8");
    let written = walk.pretty_accumulated();
    assert_eq!(written, "[\n  {\n    \"id\": \"9\",\n    \"n\": 1.5\n  }\n]");
    assert_eq!(DeuxWalk::new(String::new()).pretty_accumulated(), "[]");
}

#[test]
fn numbers_keep_their_parts_when_written_and_compared() {
    assert_eq!(number_string(num(true, 10, -1)), "0.10e1");
    assert_eq!(number_string(num(false, 0, -32768)), "-0.0e-32767");
    assert_eq!(number_string(num(true, 123, 4)), "123e4");
    for n in [num(true, 10, -1), num(false, 250, -2), num(true, u64::MAX, -32768), num(false, 0, 7), num(true, 7, 32767)] {
        let parsed = json::parse(number_string(n).as_str()).unwrap();
        match parsed {
            json::JsonValue::Number(x) => assert_eq!(x.as_parts(), (n.positive, n.mantissa, n.exponent)),
            _ => panic!("a number was expected"),
        }
    }
    let one_point_zero = JsonDoc::Number(num(true, 10, -1));
    let wrapped = JsonDoc::Number(num(true, 9223372036854775809, 0));
    assert!(json_equal(&one_point_zero, &wrapped));
    assert_eq!(json_eq_checked(&JsonDoc::Number(num(true, 1, 40)), &JsonDoc::Number(num(true, 1, 0))), Some(true));
    assert_eq!(json_eq_checked(&JsonDoc::Number(num(true, 1, 25)), &JsonDoc::Number(num(true, 100000, 0))), Some(true));
    assert_eq!(json_eq_checked(&JsonDoc::Number(num(true, 1, 25)), &JsonDoc::Number(num(true, 10, 0))), Some(false));
}

#[test]
fn written_records_are_what_the_json_crate_writes_for_the_page() {
    let body = "{\"data\": {\"list\": [{\"id\": \"9\", \"a\": 1.0, \"b\": -2.50, \"c\": [100, 1e300, 0.1e-5, true, null], \"d\": {\"x\": \"\\u00e9\\n\"}}, {\"id\": \"8\"}]}}";
    let mut walk = DeuxWalk::new(String::from("https://h/p?a"));
    assert!(walk.on_page(body));
    let original = json::parse(body).unwrap();
    let mut expected = json::JsonValue::new_array();
    expected.push(original["data"]["list"][0].clone()).unwrap();
    assert_eq!(walk.pretty_accumulated(), expected.pretty(2));
    assert!(walk.pretty_accumulated().contains("\"a\": 1.0"));
}
