//! The `history` command: which wish-history links it reports, in which
//! order, and the lines it writes for each.
use vstd::prelude::*;
use crate::game::Game;
use crate::text::texts;

verus! {

/// Which links the `history` command reports for each wish-history link.
#[derive(Clone, Copy, Debug, PartialEq, Eq, PartialOrd, Ord, Structural)]
pub enum Mode {
    /// The wish-history link.
    History,
    /// The record-service link.
    Data,
    /// Both.
    All,
}

/// The options of the `history` command.
pub struct HistoryArgs {
    /// Path to the game installation.
    pub game_path: String,
    /// Report the links from the oldest to the most recent.
    pub reverse_order: bool,
    /// Open the first link of the report.
    pub open_url: bool,
    /// The most links to report.
    pub max_return_num: usize,
    /// Which links to report for each.
    pub url_mode: Mode,
}

/// Why the `history` command reports nothing.
#[derive(Clone, Copy, Debug, PartialEq, Eq, Structural)]
pub enum HistoryError {
    /// The cache holds no wish-history link.
    NoWishesUrl,
}

/// What the `history` command reports of the links it found.
pub struct HistoryReport {
    /// The links to report, in order.
    pub urls: Vec<String>,
    /// The link to open, where one is to be opened.
    pub open: Option<String>,
    /// Whether a single link is reported (without a list marker, and copied
    /// to the clipboard).
    pub single: bool,
}

/// The links reported: in the order found, or reversed, and no more than
/// `max` of them.
pub open spec fn reported_urls(urls: Seq<Seq<char>>, reverse: bool, max: nat) -> Seq<Seq<char>> {
    let ordered = if reverse { urls.reverse() } else { urls };
    if max < ordered.len() {
        ordered.take(max as int)
    } else {
        ordered
    }
}

/// A report holds as many links as were found, but no more than asked for.
pub proof fn lemma_report_length(urls: Seq<Seq<char>>, reverse: bool, max: nat)
    ensures
        reported_urls(urls, reverse, max).len() == if max < urls.len() { max } else { urls.len() },
{
}

/// Of links found newest first, the first reported (the one opened) is the
/// most recent, or the oldest where the order is reversed.
pub proof fn lemma_first_reported(urls: Seq<Seq<char>>, reverse: bool, max: nat)
    requires
        urls.len() > 0,
        max > 0,
    ensures
        reported_urls(urls, reverse, max)[0] == if reverse { urls.last() } else { urls[0] },
{
}

/// Reversing the order of a report that holds every link found gives the
/// report in the order found.
pub proof fn lemma_reversed_report(urls: Seq<Seq<char>>, max: nat)
    requires
        max >= urls.len(),
    ensures
        reported_urls(urls, true, max).reverse() == reported_urls(urls, false, max),
{
    assert(urls.reverse().reverse() =~= urls);
}

impl HistoryArgs {
    /// The report on the links found, newest first: reversed where asked,
    /// cut to the most links asked for, the first to open where asked, and
    /// a single link reported as such. No links found is an error. Opening a
    /// link of a report of none cannot be asked for.
    pub fn report(&self, urls: Vec<String>) -> (r: Result<HistoryReport, HistoryError>)
        requires
            !(self.open_url && self.max_return_num == 0),
        ensures
            urls@.len() == 0 <==> r == Err::<HistoryReport, HistoryError>(HistoryError::NoWishesUrl),
            r matches Ok(rep) ==> {
                &&& texts(rep.urls@) == reported_urls(texts(urls@), self.reverse_order, self.max_return_num as nat)
                &&& rep.single == (rep.urls@.len() == 1)
                &&& (self.open_url ==> (rep.open matches Some(o) && o@ == texts(rep.urls@)[0]))
                &&& (!self.open_url ==> rep.open is None)
            },
    {
        if urls.len() == 0 {
            return Err(HistoryError::NoWishesUrl);
        }
        let n: usize = urls.len();
        let ghost found = texts(urls@);
        let mut ordered: Vec<String> = Vec::new();
        let mut rest = urls;
        if self.reverse_order {
            while rest.len() > 0
                invariant
                    rest@.len() + ordered@.len() == n,
                    n == found.len(),
                    texts(rest@) == found.take(rest@.len() as int),
                    texts(ordered@) == found.reverse().take(ordered@.len() as int),
                decreases rest.len(),
            {
                let ghost before = rest@;
                let ghost k = ordered@.len();
                let last = rest.pop().unwrap();
                assert(texts(before)[before.len() - 1] == found.take(before.len() as int)[before.len() - 1]);
                assert(last@ == found[n - 1 - k]);
                assert(texts(rest@) =~= found.take(rest@.len() as int)) by {
                    assert forall|j: int| 0 <= j < rest@.len() implies texts(rest@)[j] == found[j] by {
                        assert(texts(before)[j] == found.take(before.len() as int)[j]);
                    }
                }
                let ghost prev = ordered@;
                ordered.push(last);
                assert forall|j: int| 0 <= j < k + 1 implies texts(ordered@)[j] == found.reverse()[j] by {
                    if j < k {
                        assert(texts(prev)[j] == found.reverse().take(k as int)[j]);
                    }
                }
                assert(texts(ordered@) =~= found.reverse().take(ordered@.len() as int));
            }
            assert(found.reverse().take(n as int) =~= found.reverse());
        } else {
            ordered = rest;
        }
        let ghost all = texts(ordered@);
        assert(all == (if self.reverse_order { found.reverse() } else { found }));
        if self.max_return_num < ordered.len() {
            ordered.truncate(self.max_return_num);
        }
        assert(texts(ordered@) =~= reported_urls(found, self.reverse_order, self.max_return_num as nat));
        let open = if self.open_url {
            Some(ordered[0].clone())
        } else {
            None
        };
        let single = ordered.len() == 1;
        Ok(HistoryReport { urls: ordered, open, single })
    }
}

/// The wish-history link as reported: Genshin's with `#/log` after it.
pub open spec fn history_url_text(url: Seq<char>, game: Option<Game>) -> Seq<char> {
    match game {
        Some(Game::Genshin) => url + "#/log"@,
        _ => url,
    }
}

/// The wish-history link as reported.
pub fn history_url_line(url: &String, game: Option<Game>) -> (r: String)
    ensures
        r@ == history_url_text(url@, game),
{
    let mut r = url.clone();
    match game {
        Some(Game::Genshin) => r.append("#/log"),
        _ => {},
    }
    r
}

/// The record-service link as reported: the link and its banner code.
pub open spec fn data_url_text(data_url: Seq<char>, gacha_type: Seq<char>) -> Seq<char> {
    data_url + "&gacha_type="@ + gacha_type
}

/// The record-service link as reported.
pub fn data_url_line(data_url: &String, gacha_type: &String) -> (r: String)
    ensures
        r@ == data_url_text(data_url@, gacha_type@),
{
    let mut r = data_url.clone();
    r.append("&gacha_type=");
    r.append(gacha_type.as_str());
    r
}

/// Where a line of the report goes.
#[derive(Clone, Copy, Debug, PartialEq, Eq, Structural)]
pub enum LineKind {
    /// Written to the error stream with no line end: a list marker.
    Prompt,
    /// Logged at the info level (the standard output).
    Info,
    /// Logged at the error level (the error stream).
    Error,
}

/// One line of the report.
pub struct ReportLine {
    pub kind: LineKind,
    pub text: String,
}

/// The view of a report line.
pub open spec fn line_view(l: ReportLine) -> (LineKind, Seq<char>) {
    (l.kind, l.text@)
}

/// The lines that report one link: the marker and the wish-history link,
/// the marker and the record-service link, or both with a separator.
pub open spec fn url_report(
    prompt: Seq<char>,
    url: Seq<char>,
    mode: Mode,
    game: Option<Game>,
    data_url: Seq<char>,
    gacha_type: Seq<char>,
) -> Seq<(LineKind, Seq<char>)> {
    let history = history_url_text(url, game);
    let data = data_url_text(data_url, gacha_type);
    match mode {
        Mode::History => seq![(LineKind::Prompt, prompt), (LineKind::Info, history)],
        Mode::Data => seq![(LineKind::Error, prompt), (LineKind::Info, data)],
        Mode::All => seq![
            (LineKind::Prompt, "- "@),
            (LineKind::Info, history),
            (LineKind::Error, "- "@),
            (LineKind::Info, data),
            (LineKind::Error, "-------------"@),
        ],
    }
}

/// The lines that report one link, given the record-service link and the
/// banner code that belong to it.
pub fn print_url(
    prompt: &str,
    url: &String,
    mode: Mode,
    game: Option<Game>,
    data_url: &String,
    gacha_type: &String,
) -> (r: Vec<ReportLine>)
    ensures
        r@.map_values(|l: ReportLine| line_view(l)) == url_report(prompt@, url@, mode, game, data_url@, gacha_type@),
{
    let mut r: Vec<ReportLine> = Vec::new();
    match mode {
        Mode::History => {
            r.push(ReportLine { kind: LineKind::Prompt, text: String::from_str(prompt) });
            r.push(ReportLine { kind: LineKind::Info, text: history_url_line(url, game) });
        },
        Mode::Data => {
            r.push(ReportLine { kind: LineKind::Error, text: String::from_str(prompt) });
            r.push(ReportLine { kind: LineKind::Info, text: data_url_line(data_url, gacha_type) });
        },
        Mode::All => {
            r.push(ReportLine { kind: LineKind::Prompt, text: String::from_str("- ") });
            r.push(ReportLine { kind: LineKind::Info, text: history_url_line(url, game) });
            r.push(ReportLine { kind: LineKind::Error, text: String::from_str("- ") });
            r.push(ReportLine { kind: LineKind::Info, text: data_url_line(data_url, gacha_type) });
            r.push(ReportLine { kind: LineKind::Error, text: String::from_str("-------------") });
        },
    }
    assert(r@.map_values(|l: ReportLine| line_view(l)) =~= url_report(prompt@, url@, mode, game, data_url@, gacha_type@));
    r
}

} // verus!
