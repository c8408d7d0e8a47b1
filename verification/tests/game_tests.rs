use wishget::game::{game_from_path, get_list_of_gacha_types, Game};

#[test]
fn game_names() {
    assert_eq!(Game::Genshin.name(), "yuanshen");
    assert_eq!(Game::HSR.name(), "hkrpg");
    assert_eq!(Game::Unsupported.name(), "Unsupported");
}

#[test]
fn game_from_link_path() {
    assert_eq!(game_from_path("/hkrpg/event/e20211215gacha-v2/index.html"), Game::HSR);
    assert_eq!(game_from_path("/Genshin/event/e20190909gacha-v2/index.html"), Game::Genshin);
    assert_eq!(game_from_path("/genshin/event/e20190909gacha-v2/index.html"), Game::Unsupported);
    assert_eq!(game_from_path("/Genshin/hkrpg"), Game::HSR);
}

#[test]
fn banner_codes_of_each_game() {
    let first = String::from("301");
    assert_eq!(get_list_of_gacha_types(Game::Genshin, &first, true), vec!["100", "200", "301", "302"]);
    assert_eq!(get_list_of_gacha_types(Game::HSR, &first, true), vec!["1", "2", "11", "12"]);
    assert_eq!(get_list_of_gacha_types(Game::HSR, &first, false), vec!["301"]);
    assert_eq!(get_list_of_gacha_types(Game::Unsupported, &first, false), vec!["301"]);
}
