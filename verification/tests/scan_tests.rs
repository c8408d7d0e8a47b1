use wishget::scan::{data, get_data_url, get_wishes_url, is_wish_link_exec, select_wishes_url, try_data, wishes};

const OLD_LINK: &str = "https://webstatic-sea.hoyoverse.com/hkrpg/event/e20211215gacha-v2/index.html?authkey=old&default_gacha_type=1";
const NEW_LINK: &str = "https://webstatic-sea.hoyoverse.com/hkrpg/event/e20211215gacha-v2/index.html?authkey=new&default_gacha_type=11";

fn cache_bytes(texts: &[&str]) -> Vec<u8> {
    let mut bytes = vec![0u8, 1, 2];
    for t in texts {
        bytes.extend_from_slice(t.as_bytes());
        bytes.extend_from_slice(&[0, 0xff, 3]);
    }
    bytes
}

#[test]
fn wish_links_are_recognised() {
    assert!(is_wish_link_exec(NEW_LINK));
    assert!(!is_wish_link_exec("https://example.com/e/gacha-v2/index.html"));
    assert!(!is_wish_link_exec("https://webstatic-sea.hoyoverse.com/hkrpg/index.html"));
    assert!(!is_wish_link_exec("https://webstatic-sea.hoyoverse.com/x\n/e/gacha-v2/"));
    assert!(is_wish_link_exec("1/0/https://webstatic-sea.hoyoverse.com/e/gacha-v2/"));
}

#[test]
fn the_last_link_is_selected_without_its_prefix() {
    let strings = vec![
        format!("1/0/{OLD_LINK}"),
        String::from("some other text of the web cache"),
        format!("1/0/{NEW_LINK}"),
        String::from("https://example.com/not/a/history/link"),
    ];
    assert_eq!(select_wishes_url(&strings).as_deref(), Some(NEW_LINK));
    assert_eq!(select_wishes_url(&vec![String::from("nothing")]), None);
    assert_eq!(select_wishes_url(&Vec::new()), None);
}

#[test]
fn wishes_url_is_read_from_cache_bytes() {
    let bytes = cache_bytes(&[&format!("1/0/{OLD_LINK}"), "short", &format!("1/0/{NEW_LINK}")]);
    assert_eq!(get_wishes_url(&bytes).as_deref(), Some(NEW_LINK));
    assert_eq!(wishes(&bytes), NEW_LINK);
    assert_eq!(get_wishes_url(&cache_bytes(&["no history link in this cache file"])), None);
    assert_eq!(get_wishes_url(&[]), None);
}

#[test]
fn data_url_is_made_from_cache_bytes() {
    let bytes = cache_bytes(&[&format!("1/0/{NEW_LINK}")]);
    let expected = "https://api-os-takumi.mihoyo.com/common/gacha_record/api/getGachaLog?authkey=new&default_gacha_type=11&gacha_type=11";
    assert_eq!(get_data_url(&bytes), expected);
    assert_eq!(data(&bytes), expected);
    assert_eq!(try_data(&bytes).as_deref(), Some(expected));
    assert_eq!(try_data(&cache_bytes(&["nothing to find in here at all"])), None);
}

#[test]
fn a_link_is_read_only_as_one_printable_run() {
    let mut bytes = cache_bytes(&[&format!("1/0/{NEW_LINK}")]);
    let cut = 3 + 4 + 30;
    bytes.insert(cut, 0x07);
    assert_eq!(get_wishes_url(&bytes), None);
    let with_tab = format!("1/0/{NEW_LINK}\tand more");
    assert_eq!(get_wishes_url(&cache_bytes(&[&with_tab])).as_deref(), Some(format!("{NEW_LINK}\tand more").as_str()));
}
