use wishget::game::Game;
use wishget::history::{data_url_line, history_url_line, print_url, HistoryArgs, HistoryError, LineKind, Mode};

fn args(reverse_order: bool, open_url: bool, max_return_num: usize) -> HistoryArgs {
    HistoryArgs { game_path: String::from("/game"), reverse_order, open_url, max_return_num, url_mode: Mode::History }
}

fn links(n: usize) -> Vec<String> {
    (0..n).map(|i| format!("link{i}")).collect()
}

#[test]
fn report_keeps_order_and_cuts() {
    let rep = args(false, true, 2).report(links(3)).ok().unwrap();
    assert_eq!(rep.urls, vec!["link0", "link1"]);
    assert_eq!(rep.open.as_deref(), Some("link0"));
    assert!(!rep.single);
}

#[test]
fn reversed_report_opens_the_oldest() {
    let rep = args(true, true, 5).report(links(3)).ok().unwrap();
    assert_eq!(rep.urls, vec!["link2", "link1", "link0"]);
    assert_eq!(rep.open.as_deref(), Some("link2"));
}

#[test]
fn single_link_report() {
    let rep = args(false, false, 1).report(links(4)).ok().unwrap();
    assert_eq!(rep.urls, vec!["link0"]);
    assert!(rep.single);
    assert!(rep.open.is_none());
    let none_asked = args(false, false, 0).report(links(2)).ok().unwrap();
    assert!(none_asked.urls.is_empty());
    assert!(!none_asked.single);
}

#[test]
fn no_links_is_an_error() {
    assert!(matches!(args(false, false, 1).report(Vec::new()), Err(HistoryError::NoWishesUrl)));
}

#[test]
fn link_lines() {
    let url = String::from("https://x/index.html?a=1");
    assert_eq!(history_url_line(&url, Some(Game::Genshin)), "https://x/index.html?a=1#/log");
    assert_eq!(history_url_line(&url, Some(Game::HSR)), "https://x/index.html?a=1");
    assert_eq!(history_url_line(&url, None), "https://x/index.html?a=1");
    assert_eq!(data_url_line(&String::from("https://api/log?a=1"), &String::from("11")), "https://api/log?a=1&gacha_type=11");
}

#[test]
fn report_lines_by_mode() {
    let url = String::from("https://x/i?a=1");
    let data = String::from("https://api/log?a=1");
    let banner = String::from("301");
    let lines = |mode| {
        print_url("- ", &url, mode, Some(Game::Genshin), &data, &banner)
            .into_iter()
            .map(|l| (l.kind, l.text))
            .collect::<Vec<_>>()
    };
    assert_eq!(lines(Mode::History), vec![(LineKind::Prompt, String::from("- ")), (LineKind::Info, String::from("https://x/i?a=1#/log"))]);
    assert_eq!(lines(Mode::Data), vec![(LineKind::Error, String::from("- ")), (LineKind::Info, String::from("https://api/log?a=1&gacha_type=301"))]);
    assert_eq!(
        lines(Mode::All),
        vec![
            (LineKind::Prompt, String::from("- ")),
            (LineKind::Info, String::from("https://x/i?a=1#/log")),
            (LineKind::Error, String::from("- ")),
            (LineKind::Info, String::from("https://api/log?a=1&gacha_type=301")),
            (LineKind::Error, String::from("-------------")),
        ]
    );
}
