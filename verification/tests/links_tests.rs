use wishget::game::Game;
use wishget::links::{build_data_url, data_url_from, game_of_link, get_game, get_param, try_data_url_from, UrlParts};

const HSR_LINK: &str = "https://webstatic-sea.hoyoverse.com/hkrpg/event/e20211215gacha-v2/index.html?authkey_ver=1&authkey=abc%2Bdef&lang=en&default_gacha_type=11&game_biz=hkrpg_global#/log";
const GENSHIN_LINK: &str = "https://webstatic-sea.hoyoverse.com/Genshin/event/e20190909gacha-v2/index.html?win_mode=fullscreen&authkey_ver=1&init_type=301&init_type=200&authkey=xyz#/log";

fn parts(path: &str, query: Option<&str>) -> UrlParts {
    UrlParts {
        text: String::new(),
        scheme: String::from("https"),
        host: Some(String::from("example.com")),
        path: path.to_string(),
        query: query.map(|q| q.to_string()),
    }
}

#[test]
fn game_of_link_reads_the_parsed_path() {
    assert_eq!(game_of_link(HSR_LINK), Some(Game::HSR));
    assert_eq!(game_of_link(GENSHIN_LINK), Some(Game::Genshin));
    assert_eq!(game_of_link("https://example.com/?q=hkrpg"), Some(Game::Unsupported));
    assert_eq!(game_of_link("not a link"), None);
}

#[test]
fn get_param_reads_the_first_value_decoded() {
    let u = parts("/p", Some("win_mode=fullscreen&init_type=301&init_type=200"));
    assert_eq!(get_param(&u, "init_type"), "301");
    assert_eq!(get_param(&u, "missing"), "");
    let h = parts("/p", Some("authkey=abc%2Bdef&x=a+b"));
    assert_eq!(get_param(&h, "authkey"), "abc+def");
    assert_eq!(get_param(&h, "x"), "a b");
    let bare = parts("/path", None);
    assert_eq!(get_param(&bare, "init_type"), "");
}

#[test]
fn get_game_reads_the_path() {
    assert_eq!(get_game(&parts("/hkrpg/index.html", None)), Game::HSR);
    assert_eq!(get_game(&parts("/Genshin/index.html", None)), Game::Genshin);
    assert_eq!(get_game(&parts("/x", Some("hkrpg"))), Game::Unsupported);
}

#[test]
fn data_url_of_star_rail_link() {
    assert_eq!(
        data_url_from(HSR_LINK),
        "https://api-os-takumi.mihoyo.com/common/gacha_record/api/getGachaLog?authkey_ver=1&authkey=abc%2Bdef&lang=en&default_gacha_type=11&game_biz=hkrpg_global&gacha_type=11"
    );
}

#[test]
fn data_url_of_genshin_link() {
    assert_eq!(
        data_url_from(GENSHIN_LINK),
        "https://hk4e-api-os.hoyoverse.com/event/gacha_info/api/getGachaLog?win_mode=fullscreen&authkey_ver=1&init_type=301&init_type=200&authkey=xyz&gacha_type=301"
    );
}

#[test]
fn data_url_of_unparsable_link_is_empty() {
    assert_eq!(data_url_from("no link here"), "");
    assert_eq!(try_data_url_from("no link here"), Some(String::new()));
}

#[test]
fn try_data_url_refuses_what_cannot_be_made() {
    assert_eq!(try_data_url_from("https://example.com/x?a=1"), None);
    assert_eq!(try_data_url_from("https://example.com/hkrpg/index.html"), None);
    assert_eq!(try_data_url_from("mailto:someone@hkrpg.example?x=1"), None);
    assert_eq!(try_data_url_from(HSR_LINK).as_deref(), Some(data_url_from(HSR_LINK).as_str()));
}

#[test]
fn build_data_url_splits_the_record_link() {
    let (game, link, banner) = build_data_url(HSR_LINK).unwrap();
    assert_eq!(game, Game::HSR);
    assert_eq!(banner, "11");
    assert_eq!(format!("{link}&gacha_type={banner}"), data_url_from(HSR_LINK));
    assert!(build_data_url("no link here").is_none());
    assert!(build_data_url("https://example.com/x?a=1").is_none());
}
