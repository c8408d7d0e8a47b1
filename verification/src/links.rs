//! Reading a wish-history link and turning it into the link of the record
//! service that serves the same history.
use vstd::prelude::*;
use crate::game::{Game, game_from_path, game_of_path};

verus! {

/// What the link handling reads of a parsed link.
#[derive(Debug)]
pub struct UrlParts {
    /// The whole link as the parser writes it out.
    pub text: String,
    pub scheme: String,
    pub host: Option<String>,
    pub path: String,
    pub query: Option<String>,
}

/// The mathematical value of a [`UrlParts`].
pub struct UrlView {
    pub text: Seq<char>,
    pub scheme: Seq<char>,
    pub host: Option<Seq<char>>,
    pub path: Seq<char>,
    pub query: Option<Seq<char>>,
}

/// The view of an optional text.
pub open spec fn opt_text(o: Option<String>) -> Option<Seq<char>> {
    match o {
        Some(s) => Some(s@),
        None => None,
    }
}

impl View for UrlParts {
    type V = UrlView;

    open spec fn view(&self) -> UrlView {
        UrlView {
            text: self.text@,
            scheme: self.scheme@,
            host: opt_text(self.host),
            path: self.path@,
            query: opt_text(self.query),
        }
    }
}

/// The view of an optional [`UrlParts`].
pub open spec fn opt_url(o: Option<UrlParts>) -> Option<UrlView> {
    match o {
        Some(u) => Some(u@),
        None => None,
    }
}

/// What `url::Url::parse` makes of `input`: `None` where it reports an error.
pub uninterp spec fn parsed_url(input: Seq<char>) -> Option<UrlView>;

/// The link written `text` after `url::Url::set_host` with `host`: `None`
/// where the call reports an error.
pub uninterp spec fn url_with_host(text: Seq<char>, host: Seq<char>) -> Option<UrlView>;

/// The link written `text` after `url::Url::set_path` with `path`: `None`
/// where `text` does not parse.
pub uninterp spec fn url_with_path(text: Seq<char>, path: Seq<char>) -> Option<UrlView>;

/// The name-value pairs that `url::form_urlencoded::parse` reads from a query,
/// in their order, percent-decoded.
pub uninterp spec fn form_pairs(query: Seq<char>) -> Seq<(Seq<char>, Seq<char>)>;

/// Calls `url::Url::parse` and reads the serialization, scheme, host, path and
/// query of the result. The contract only names the result.
#[verifier::external_body]
pub(crate) fn parse_url(input: &str) -> (r: Option<UrlParts>)
    ensures
        opt_url(r) == parsed_url(input@),
{
    match url::Url::parse(input) {
        Ok(u) => Some(UrlParts {
            text: u.as_str().to_string(),
            scheme: u.scheme().to_string(),
            host: u.host_str().map(|h| h.to_string()),
            path: u.path().to_string(),
            query: u.query().map(|q| q.to_string()),
        }),
        Err(_) => None,
    }
}

/// Calls `url::Url::set_host` with `Some(host)` on the link that `url.text`
/// writes out (read back with `url::Url::parse`). The contract only names the
/// result.
#[verifier::external_body]
fn url_set_host(url: &UrlParts, host: &str) -> (r: Option<UrlParts>)
    ensures
        opt_url(r) == url_with_host(url.text@, host@),
{
    let mut u = match url::Url::parse(&url.text) { Ok(u) => u, Err(_) => return None };
    match u.set_host(Some(host)) {
        Ok(()) => Some(UrlParts {
            text: u.as_str().to_string(),
            scheme: u.scheme().to_string(),
            host: u.host_str().map(|h| h.to_string()),
            path: u.path().to_string(),
            query: u.query().map(|q| q.to_string()),
        }),
        Err(_) => None,
    }
}

/// Calls `url::Url::set_path` on the link that `url.text` writes out (read
/// back with `url::Url::parse`). The contract only names the result.
#[verifier::external_body]
fn url_set_path(url: &UrlParts, path: &str) -> (r: Option<UrlParts>)
    ensures
        opt_url(r) == url_with_path(url.text@, path@),
{
    let mut u = match url::Url::parse(&url.text) { Ok(u) => u, Err(_) => return None };
    u.set_path(path);
    Some(UrlParts {
        text: u.as_str().to_string(),
        scheme: u.scheme().to_string(),
        host: u.host_str().map(|h| h.to_string()),
        path: u.path().to_string(),
        query: u.query().map(|q| q.to_string()),
    })
}

/// Calls `url::form_urlencoded::parse` on the bytes of `query` and collects
/// the pairs it yields. The contract only names the result.
#[verifier::external_body]
fn query_pairs(query: &str) -> (r: Vec<(String, String)>)
    ensures
        r@.map_values(|p: (String, String)| (p.0@, p.1@)) == form_pairs(query@),
{
    url::form_urlencoded::parse(query.as_bytes()).map(|(k, v)| (k.into_owned(), v.into_owned())).collect()
}

/// The value of the first pair named `name`; empty when there is none.
pub open spec fn param_value(pairs: Seq<(Seq<char>, Seq<char>)>, name: Seq<char>) -> Seq<char>
    decreases pairs.len(),
{
    if pairs.len() == 0 {
        Seq::empty()
    } else if pairs[0].0 == name {
        pairs[0].1
    } else {
        param_value(pairs.drop_first(), name)
    }
}

/// The query of a link, or the empty text where it has none.
pub open spec fn query_or_empty(url: UrlView) -> Seq<char> {
    match url.query {
        Some(q) => q,
        None => Seq::empty(),
    }
}

/// The value of the query parameter `param` of `url`: that of its first
/// occurrence, or the empty text where the query does not name it.
pub fn get_param(url: &UrlParts, param: &str) -> (r: String)
    ensures
        r@ == param_value(form_pairs(query_or_empty(url@)), param@),
{
    proof {
        reveal_strlit("");
    }
    let pairs = match &url.query {
        Some(q) => {
            assert(query_or_empty(url@) == q@);
            query_pairs(q.as_str())
        },
        None => {
            assert(query_or_empty(url@) == ""@);
            query_pairs("")
        },
    };
    let wanted = String::from_str(param);
    let ghost all = pairs@.map_values(|p: (String, String)| (p.0@, p.1@));
    assert(all.skip(0) =~= all);
    let mut i: usize = 0;
    while i < pairs.len()
        invariant
            i <= pairs@.len(),
            all == pairs@.map_values(|p: (String, String)| (p.0@, p.1@)),
            wanted@ == param@,
            all == form_pairs(query_or_empty(url@)),
            param_value(all, param@) == param_value(all.skip(i as int), param@),
        decreases pairs.len() - i,
    {
        assert(all.skip(i as int).drop_first() =~= all.skip(i + 1));
        if pairs[i].0 == wanted {
            return pairs[i].1.clone();
        }
        i = i + 1;
    }
    assert(all.skip(i as int) =~= Seq::<(Seq<char>, Seq<char>)>::empty());
    String::new()
}

/// The game that a link belongs to, read from its path.
pub fn get_game(url: &UrlParts) -> (r: Game)
    ensures
        r == game_of_path(url.path@),
{
    game_from_path(url.path.as_str())
}

/// The game that a link belongs to, where it parses.
pub fn game_of_link(url: &str) -> (r: Option<Game>)
    ensures
        match parsed_url(url@) {
            Some(u) => r == Some(game_of_path(u.path)),
            None => r is None,
        },
{
    match parse_url(url) {
        Some(u) => Some(get_game(&u)),
        None => None,
    }
}

/// The host of the record service that serves a game's history.
pub open spec fn record_host(game: Game) -> Seq<char> {
    match game {
        Game::HSR => "api-os-takumi.mihoyo.com"@,
        Game::Genshin => "hk4e-api-os.hoyoverse.com"@,
        Game::Unsupported => Seq::empty(),
    }
}

/// The path of the record service that serves a game's history.
pub open spec fn record_path(game: Game) -> Seq<char> {
    match game {
        Game::HSR => "/common/gacha_record/api/getGachaLog"@,
        Game::Genshin => "/event/gacha_info/api/getGachaLog"@,
        Game::Unsupported => Seq::empty(),
    }
}

/// The query parameter of a history link that names the banner it shows.
pub open spec fn banner_param(game: Game) -> Seq<char> {
    match game {
        Game::HSR => "default_gacha_type"@,
        Game::Genshin => "init_type"@,
        Game::Unsupported => Seq::empty(),
    }
}

/// The host, path and banner parameter that belong to a supported game.
fn record_endpoint(game: Game) -> (r: (&'static str, &'static str, &'static str))
    requires
        game != Game::Unsupported,
    ensures
        r.0@ == record_host(game),
        r.1@ == record_path(game),
        r.2@ == banner_param(game),
{
    match game {
        Game::HSR => ("api-os-takumi.mihoyo.com", "/common/gacha_record/api/getGachaLog", "default_gacha_type"),
        _ => ("hk4e-api-os.hoyoverse.com", "/event/gacha_info/api/getGachaLog", "init_type"),
    }
}

/// A history link moved onto the record service of its game: its host and
/// then its path replaced.
pub open spec fn moved_link(url: UrlView) -> Option<UrlView> {
    let game = game_of_path(url.path);
    match url_with_host(url.text, record_host(game)) {
        Some(h) => url_with_path(h.text, record_path(game)),
        None => None,
    }
}

/// The inputs on which a record link can be made: a link that does not parse
/// (it gives the empty text), or one that has a query, belongs to a supported
/// game, and takes the record service's host and path.
pub open spec fn data_url_defined(wishes_url: Seq<char>) -> bool {
    match parsed_url(wishes_url) {
        None => true,
        Some(u) => {
            &&& u.query is Some
            &&& game_of_path(u.path) != Game::Unsupported
            &&& moved_link(u) matches Some(m) && m.host is Some
        },
    }
}

/// The record link of a parsed history link, without its banner: scheme,
/// `://`, the record host, the record path, `?` and the history link's query.
pub open spec fn record_base(u: UrlView) -> Seq<char> {
    let m = moved_link(u).unwrap();
    m.scheme + "://"@ + m.host.unwrap() + m.path + "?"@ + u.query.unwrap()
}

/// The banner code that a parsed history link names.
pub open spec fn banner_of(u: UrlView) -> Seq<char> {
    param_value(form_pairs(query_or_empty(u)), banner_param(game_of_path(u.path)))
}

/// The record link of a history link: its record link without the banner,
/// then `&gacha_type=` and the banner code. The empty text for a link that
/// does not parse.
pub open spec fn data_url_of(wishes_url: Seq<char>) -> Seq<char> {
    match parsed_url(wishes_url) {
        None => Seq::empty(),
        Some(u) => record_base(u) + "&gacha_type="@ + banner_of(u),
    }
}

/// The record link of a link that parses is its link without the banner,
/// `&gacha_type=`, and the banner code: what [`build_data_url`] gives, put
/// together.
pub proof fn lemma_data_url_parts(wishes_url: Seq<char>)
    requires
        parsed_url(wishes_url) is Some,
    ensures
        data_url_of(wishes_url) == record_base(parsed_url(wishes_url).unwrap()) + "&gacha_type="@ + banner_of(
            parsed_url(wishes_url).unwrap(),
        ),
{
}

/// The parts of the record link of a history link: its game, the record link
/// without the banner, and the banner code; `None` for a link that does not
/// parse or from which no record link can be made.
pub fn build_data_url(wishes_url: &str) -> (r: Option<(Game, String, String)>)
    ensures
        r is Some <==> (parsed_url(wishes_url@) is Some && data_url_defined(wishes_url@)),
        r matches Some(parts) ==> ({
            let u = parsed_url(wishes_url@).unwrap();
            &&& parts.0 == game_of_path(u.path)
            &&& parts.1@ == record_base(u)
            &&& parts.2@ == banner_of(u)
        }),
{
    let base = match parse_url(wishes_url) {
        Some(b) => b,
        None => return None,
    };
    let query = match &base.query {
        Some(q) => q.clone(),
        None => return None,
    };
    let game = get_game(&base);
    if game == Game::Unsupported {
        return None;
    }
    let (host, path, param) = record_endpoint(game);
    let moved = match url_set_host(&base, host) {
        Some(m) => m,
        None => return None,
    };
    let moved = match url_set_path(&moved, path) {
        Some(m) => m,
        None => return None,
    };
    let host_text = match &moved.host {
        Some(h) => h.clone(),
        None => return None,
    };
    let banner = get_param(&base, param);
    let mut link = moved.scheme.clone();
    link.append("://");
    link.append(host_text.as_str());
    link.append(moved.path.as_str());
    link.append("?");
    link.append(query.as_str());
    Some((game, link, banner))
}

/// The record-service link that serves the history that `wishes_url` shows.
pub fn data_url_from(wishes_url: &str) -> (r: String)
    requires
        data_url_defined(wishes_url@),
    ensures
        r@ == data_url_of(wishes_url@),
{
    match build_data_url(wishes_url) {
        Some((_game, link, banner)) => {
            let mut r = link;
            r.append("&gacha_type=");
            r.append(banner.as_str());
            r
        },
        None => String::new(),
    }
}

/// The record link of `wishes_url`, or `None` on the inputs on which it
/// cannot be made (see [`data_url_defined`]).
pub fn try_data_url_from(wishes_url: &str) -> (r: Option<String>)
    ensures
        r is Some <==> data_url_defined(wishes_url@),
        r matches Some(s) ==> s@ == data_url_of(wishes_url@),
{
    match parse_url(wishes_url) {
        None => Some(data_url_from(wishes_url)),
        Some(_) => match build_data_url(wishes_url) {
            Some(_) => Some(data_url_from(wishes_url)),
            None => None,
        },
    }
}

} // verus!
