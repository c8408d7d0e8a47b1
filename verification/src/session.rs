//! The `data` command: for each banner, read the account, load the records
//! kept from an earlier run, walk the record service down to them, and keep
//! what was gathered. The steps that need the network or the disk are asked
//! of the caller, which answers with what it got.
use vstd::prelude::*;
use crate::game::{Game, banner_codes, game_name, get_list_of_gacha_types};
use crate::json::{JsonDoc, elements, member, parse_json, parsed_json, pretty_json, pretty_values, text_of};
use crate::paging::{
    PageWalk, WalkStep, answer_fits, answer_list, gathered, page_link, walk_ends, walk_uid,
};
use crate::text::{contains, has_substring, texts};

verus! {

/// The options of the `data` command.
pub struct DataArgs {
    /// Path to the game installation.
    pub game_path: String,
    /// Do not read the records kept from an earlier run.
    pub ignore_cache: bool,
    /// Do not keep the records gathered.
    pub skip_write_cache: bool,
    /// Fetch every banner of the game, not only the one that the link names.
    pub process_all_banners: bool,
    /// The link to start from, where the user knows it; empty otherwise.
    pub known_url: String,
}

impl DataArgs {
    /// The link that the user gave, where one was given.
    pub fn given_url(&self) -> (r: Option<String>)
        ensures
            match r {
                Some(u) => self.known_url@.len() > 0 && u@ == self.known_url@,
                None => self.known_url@.len() == 0,
            },
    {
        if self.known_url.unicode_len() > 0 {
            Some(self.known_url.clone())
        } else {
            None
        }
    }
}

/// The first of the wish-history links found, which the `data` command
/// starts from; `None` when none was found.
pub fn first_url(urls: &Vec<String>) -> (r: Option<String>)
    ensures
        match r {
            Some(u) => urls@.len() > 0 && u@ == urls@[0]@,
            None => urls@.len() == 0,
        },
{
    if urls.len() > 0 {
        Some(urls[0].clone())
    } else {
        None
    }
}

/// The marker before each link of the final list: `- ` where there is more
/// than one link, nothing otherwise.
pub fn url_list_prefix(count: usize) -> (r: &'static str)
    ensures
        r@ == (if count > 1 { "- "@ } else { ""@ }),
{
    if count > 1 {
        "- "
    } else {
        ""
    }
}

/// An account that records can be kept for: the walk found one (an unknown
/// account reads `-1`).
pub open spec fn known_account(uid: Seq<char>) -> bool {
    !has_substring(uid, "-1"@)
}

/// An account is known exactly when its identifier does not hold `-1`,
/// whatever its length or other characters.
pub proof fn lemma_known_account(uid: Seq<char>)
    ensures
        known_account(uid) <==> !has_substring(uid, "-1"@),
{
}

/// Whether the records kept for `uid` are to be read.
pub fn should_load_cache(uid: &String, ignore_cache: bool) -> (r: bool)
    ensures
        r == (!ignore_cache && known_account(uid@)),
        r == (!ignore_cache && !has_substring(uid@, "-1"@)),
{
    !ignore_cache && !contains(uid.as_str(), "-1")
}

/// Whether the records gathered for `uid` are to be kept.
pub fn should_write_cache(uid: &String, skip_write_cache: bool) -> (r: bool)
    ensures
        r == (!skip_write_cache && known_account(uid@)),
        r == (!skip_write_cache && !has_substring(uid@, "-1"@)),
{
    !skip_write_cache && !contains(uid.as_str(), "-1")
}

/// Where the records of a banner are kept, below the user's local data
/// directory: the game's name, the account, and the banner code with `.cache`.
pub fn cache_file_parts(game: Game, uid: &String, gacha_type: &String) -> (r: (String, String, String))
    ensures
        r.0@ == game_name(game),
        r.1@ == uid@,
        r.2@ == gacha_type@ + ".cache"@,
{
    let mut file = gacha_type.clone();
    file.append(".cache");
    (game.name(), uid.clone(), file)
}

/// How far the handling of the current banner is.
pub enum Stage {
    /// Nothing done yet.
    Start,
    /// Reading the banner's account.
    Metadata(PageWalk),
    /// Waiting for the records kept for the account.
    LoadingCache { uid: String },
    /// Gathering the banner's records.
    Records { walk: PageWalk, uid: String },
    /// Waiting for the gathered records to be kept.
    Writing,
    /// Every banner handled.
    Done,
}

/// What the caller is asked to do next.
pub enum SessionAction {
    /// Fetch the page at `url` (after a pause of two seconds where
    /// `pause_before` is set) and answer with [`FetchSession::on_answer`].
    /// `metadata` tells an account read from a records walk.
    Fetch { url: String, pause_before: bool, metadata: bool, gacha_type: String },
    /// Read the records kept for the account and answer with
    /// [`FetchSession::on_cache`] (`Null` where there are none).
    LoadCache { game: Game, uid: String, gacha_type: String },
    /// Keep `text`, the records gathered written as a JSON array, for the
    /// account, and answer with [`FetchSession::on_written`].
    WriteCache { game: Game, uid: String, gacha_type: String, text: String },
    /// Every banner is handled; the links are in [`FetchSession::urls`].
    Finished,
}

/// A run of the `data` command on one record link.
pub struct FetchSession {
    pub game: Game,
    /// The record link without its banner.
    pub url: String,
    /// The banners to fetch, in order.
    pub banners: Vec<String>,
    pub ignore_cache: bool,
    pub skip_write_cache: bool,
    /// The banner being handled.
    pub current: usize,
    pub stage: Stage,
    /// The link of the last page of each banner handled, in order.
    pub urls: Vec<String>,
}

/// `walk` is the account read of `banner` from `url`: one page of one record
/// from the start, keeping nothing.
pub open spec fn is_metadata_walk(walk: PageWalk, url: String, banner: String) -> bool {
    &&& walk.url == url
    &&& walk.gacha_type == banner
    &&& walk.size == 1
    &&& walk.page == 1
    &&& walk.end_id@ == "0"@
    &&& walk.cache == JsonDoc::Null
    &&& walk.run_only_once
    &&& walk.acc@.len() == 0
}

/// `walk` is the start of the records walk of `banner` from `url` down to
/// `cache`.
pub open spec fn is_records_walk(walk: PageWalk, url: String, banner: String, cache: JsonDoc) -> bool {
    &&& walk.url == url
    &&& walk.gacha_type == banner
    &&& walk.size == 5
    &&& walk.page == 1
    &&& walk.end_id@ == "0"@
    &&& walk.cache == cache
    &&& !walk.run_only_once
    &&& walk.acc@.len() == 0
}

/// The settings of a session that no step changes.
pub open spec fn same_setup(a: FetchSession, b: FetchSession) -> bool {
    &&& a.game == b.game
    &&& a.url == b.url
    &&& a.banners == b.banners
    &&& a.ignore_cache == b.ignore_cache
    &&& a.skip_write_cache == b.skip_write_cache
}

/// The session has moved on to banner `i`: it reads that banner's account,
/// or, past the last banner, it is done.
pub open spec fn started_banner(s: FetchSession, action: SessionAction, i: int) -> bool {
    if i < s.banners@.len() {
        &&& s.current == i
        &&& s.stage matches Stage::Metadata(walk) && is_metadata_walk(walk, s.url, s.banners@[i])
        &&& action matches SessionAction::Fetch { url, pause_before, metadata, gacha_type }
        &&& url@ == page_link(s.url@, s.banners@[i]@, 1, 1, "0"@)
        &&& !pause_before && metadata
        &&& gacha_type@ == s.banners@[i]@
    } else {
        &&& s.stage is Done
        &&& action is Finished
    }
}

/// The session has started the records walk of its current banner for
/// account `uid`, down to `cache`.
pub open spec fn started_records(s: FetchSession, action: SessionAction, uid: Seq<char>, cache: JsonDoc) -> bool {
    &&& s.stage matches Stage::Records { walk, uid: u } && u@ == uid && is_records_walk(
        walk,
        s.url,
        s.banners@[s.current as int],
        cache,
    )
    &&& action matches SessionAction::Fetch { url, pause_before, metadata, gacha_type }
    &&& url@ == page_link(s.url@, s.banners@[s.current as int]@, 5, 1, "0"@)
    &&& !pause_before && !metadata
    &&& gacha_type@ == s.banners@[s.current as int]@
}

/// The shape of a session that its steps keep: the walk under way belongs to
/// the current banner and reads five records to a page, from page one on;
/// each banner handled has left one link; and where the kept records are
/// to be ignored, none are asked for and no walk goes down to any.
pub open spec fn session_wf(s: FetchSession) -> bool {
    &&& one_link_per_banner(s)
    &&& match s.stage {
        Stage::Metadata(walk) => is_metadata_walk(walk, s.url, s.banners@[s.current as int]),
        Stage::Records { walk, uid } => {
            &&& walk.url == s.url
            &&& walk.gacha_type == s.banners@[s.current as int]
            &&& !walk.run_only_once
            &&& walk.size == 5
            &&& walk.page >= 1
            &&& s.ignore_cache ==> walk.cache == JsonDoc::Null
        },
        Stage::LoadingCache { uid } => !s.ignore_cache,
        _ => true,
    }
}

/// The answers that a session can take: a page that its current walk can go
/// on with.
pub open spec fn session_answer_fits(s: FetchSession, answer: JsonDoc) -> bool {
    match s.stage {
        Stage::Metadata(walk) => answer_fits(walk, answer),
        Stage::Records { walk, uid } => answer_fits(walk, answer),
        _ => false,
    }
}

/// Each banner handled has left exactly one link, and the banner being handled
/// leaves its link when its records walk ends.
pub open spec fn one_link_per_banner(s: FetchSession) -> bool {
    match s.stage {
        Stage::Start => s.urls@.len() == 0 && s.current == 0,
        Stage::Writing => s.urls@.len() == s.current + 1 && s.current < s.banners@.len(),
        Stage::Done => s.urls@.len() == s.banners@.len(),
        _ => s.urls@.len() == s.current && s.current < s.banners@.len(),
    }
}

/// A session that is done has one link for each of its banners.
pub proof fn lemma_done_session_links(s: FetchSession)
    requires
        session_wf(s),
        s.stage is Done,
    ensures
        s.urls@.len() == s.banners@.len(),
{
}

/// Where the kept records are to be ignored, a session never waits for them,
/// and the records walk under way goes down to none.
pub proof fn lemma_ignored_cache_not_read(s: FetchSession)
    requires
        session_wf(s),
        s.ignore_cache,
    ensures
        !(s.stage is LoadingCache),
        s.stage matches Stage::Records { walk, uid } ==> walk.cache == JsonDoc::Null,
{
}

/// What one answer does to a session. After the account read: the records
/// kept for the account are asked for where they are to be read, else the
/// records walk starts. During the records walk: where the walk goes on, it
/// moves to the next page, from the identifier of the last record gathered,
/// still down to the same kept records, and that page is asked for; where it
/// ends, the link of its last page is noted, and the records gathered are
/// handed over to be kept, written as JSON, where they are to be, else the
/// next banner is started.
pub open spec fn answer_step(before: FetchSession, after: FetchSession, answer: JsonDoc, r: SessionAction) -> bool {
    let list = elements(answer_list(answer));
    match before.stage {
        Stage::Metadata(walk) => {
            let uid = walk_uid(gathered(walk.acc@, list, walk.cache));
            &&& after.urls == before.urls
            &&& after.current == before.current
            &&& if !before.ignore_cache && known_account(uid) {
                &&& after.stage matches Stage::LoadingCache { uid: u } && u@ == uid
                &&& r matches SessionAction::LoadCache { game, uid: u, gacha_type }
                &&& game == before.game && u@ == uid
                &&& gacha_type@ == before.banners@[before.current as int]@
            } else {
                started_records(after, r, uid, JsonDoc::Null)
            }
        },
        Stage::Records { walk, uid } => {
            let records = gathered(walk.acc@, list, walk.cache);
            if !walk_ends(walk, answer) {
                let next_id = text_of(member(records.last(), "id"@)).unwrap();
                &&& after.urls == before.urls
                &&& after.current == before.current
                &&& after.stage matches Stage::Records { walk: w, uid: u }
                &&& u == uid && w.url == walk.url && w.gacha_type == walk.gacha_type
                &&& w.size == walk.size && !w.run_only_once && w.acc@ == records
                &&& w.page == walk.page + 1 && w.end_id@ == next_id && w.cache == walk.cache
                &&& r matches SessionAction::Fetch { url, pause_before, metadata, gacha_type }
                &&& url@ == page_link(walk.url@, walk.gacha_type@, walk.size as nat, (walk.page + 1) as nat, next_id)
                &&& pause_before && !metadata && gacha_type@ == walk.gacha_type@
            } else {
                &&& texts(after.urls@) == texts(before.urls@).push(
                    page_link(walk.url@, walk.gacha_type@, walk.size as nat, walk.page as nat, walk.end_id@),
                )
                &&& if !before.skip_write_cache && known_account(uid@) {
                    &&& after.current == before.current
                    &&& after.stage is Writing
                    &&& r matches SessionAction::WriteCache { game, uid: u, gacha_type, text }
                    &&& game == before.game && u@ == uid@
                    &&& gacha_type@ == before.banners@[before.current as int]@
                    &&& text@ == pretty_json(records, 2)
                } else {
                    started_banner(after, r, before.current + 1)
                }
            }
        },
        _ => false,
    }
}

/// The link that a records walk notes when it ends is that of a page of
/// five records of the current banner, from the session's record link, at a
/// page of at least one; the links noted before stay.
pub proof fn lemma_noted_link(before: FetchSession, after: FetchSession, answer: JsonDoc, r: SessionAction)
    requires
        session_wf(before),
        answer_step(before, after, answer, r),
        before.stage matches Stage::Records { walk, uid } && walk_ends(walk, answer),
    ensures
        after.urls@.len() == before.urls@.len() + 1,
        texts(after.urls@).take(before.urls@.len() as int) == texts(before.urls@),
        exists|page: nat, end_id: Seq<char>|
            page >= 1 && after.urls@.last()@ == page_link(
                before.url@,
                before.banners@[before.current as int]@,
                5,
                page,
                end_id,
            ),
{
    let walk = before.stage->Records_walk;
    let n = before.urls@.len() as int;
    assert(texts(after.urls@).len() == after.urls@.len());
    assert(texts(after.urls@)[n] == after.urls@[n]@);
    assert(texts(after.urls@).take(n) =~= texts(before.urls@));
    assert(after.urls@.last()@ == page_link(before.url@, before.banners@[before.current as int]@, 5, walk.page as nat, walk.end_id@));
}

/// After the account read, an account whose identifier does not hold `-1`
/// has its kept records asked for, unless they are to be ignored; an
/// identifier that holds `-1` never has.
pub proof fn lemma_account_read_asks_for_kept_records(
    before: FetchSession,
    after: FetchSession,
    answer: JsonDoc,
    r: SessionAction,
)
    requires
        answer_step(before, after, answer, r),
        before.stage is Metadata,
    ensures
        ({
            let walk = before.stage->Metadata_0;
            let uid = walk_uid(gathered(walk.acc@, elements(answer_list(answer)), walk.cache));
            &&& (!before.ignore_cache && !has_substring(uid, "-1"@)) ==> (r matches SessionAction::LoadCache {
                uid: u,
                ..
            } && u@ == uid)
            &&& has_substring(uid, "-1"@) ==> r is Fetch
        }),
{
}

/// When a records walk ends for an account whose identifier does not hold
/// `-1`, the records gathered are handed over to be kept, unless keeping is
/// turned off; for an identifier that holds `-1` they never are.
pub proof fn lemma_walk_end_keeps_records(before: FetchSession, after: FetchSession, answer: JsonDoc, r: SessionAction)
    requires
        answer_step(before, after, answer, r),
        before.stage matches Stage::Records { walk, uid } && walk_ends(walk, answer),
    ensures
        ({
            let uid = before.stage->Records_uid;
            &&& (!before.skip_write_cache && !has_substring(uid@, "-1"@)) ==> r is WriteCache
            &&& has_substring(uid@, "-1"@) ==> !(r is WriteCache)
        }),
{
}

impl FetchSession {
    /// A session on the record link `url` of `game`, for the banners that
    /// [`get_list_of_gacha_types`] gives.
    pub fn new(
        game: Game,
        url: String,
        first_type: &String,
        ignore_cache: bool,
        skip_write_cache: bool,
        process_all: bool,
    ) -> (r: FetchSession)
        requires
            !(process_all && game == Game::Unsupported),
        ensures
            r.game == game,
            r.url == url,
            texts(r.banners@) == banner_codes(game, first_type@, process_all),
            r.ignore_cache == ignore_cache,
            r.skip_write_cache == skip_write_cache,
            r.current == 0,
            r.stage is Start,
            r.urls@.len() == 0,
            session_wf(r),
    {
        let banners = get_list_of_gacha_types(game, first_type, process_all);
        FetchSession {
            game,
            url,
            banners,
            ignore_cache,
            skip_write_cache,
            current: 0,
            stage: Stage::Start,
            urls: Vec::new(),
        }
    }

    /// Moves on to banner `i`: reads its account, or ends past the last.
    fn start_banner(&mut self, i: usize) -> (r: SessionAction)
        requires
            i <= old(self).banners@.len(),
        ensures
            same_setup(*old(self), *final(self)),
            final(self).urls == old(self).urls,
            started_banner(*final(self), r, i as int),
            old(self).urls@.len() == i ==> session_wf(*final(self)),
    {
        if i < self.banners.len() {
            let banner = self.banners[i].clone();
            let walk = PageWalk::metadata(self.url.clone(), banner.clone());
            let url = walk.request_url();
            self.current = i;
            self.stage = Stage::Metadata(walk);
            SessionAction::Fetch { url, pause_before: false, metadata: true, gacha_type: banner }
        } else {
            self.stage = Stage::Done;
            SessionAction::Finished
        }
    }

    /// Starts the records walk of the current banner for account `uid`,
    /// down to `cache`.
    fn start_records(&mut self, uid: String, cache: JsonDoc) -> (r: SessionAction)
        requires
            old(self).current < old(self).banners@.len(),
            old(self).ignore_cache ==> cache == JsonDoc::Null,
        ensures
            same_setup(*old(self), *final(self)),
            final(self).urls == old(self).urls,
            final(self).current == old(self).current,
            started_records(*final(self), r, uid@, cache),
            old(self).urls@.len() == old(self).current ==> session_wf(*final(self)),
    {
        let banner = self.banners[self.current].clone();
        let walk = PageWalk::records(self.url.clone(), banner.clone(), cache);
        let url = walk.request_url();
        self.stage = Stage::Records { walk, uid };
        SessionAction::Fetch { url, pause_before: false, metadata: false, gacha_type: banner }
    }

    /// The first step: reads the account of the first banner (or ends where
    /// there is none).
    pub fn begin(&mut self) -> (r: SessionAction)
        requires
            session_wf(*old(self)),
            old(self).stage is Start,
        ensures
            same_setup(*old(self), *final(self)),
            final(self).urls == old(self).urls,
            started_banner(*final(self), r, 0),
            session_wf(*final(self)),
    {
        self.start_banner(0)
    }

    /// Whether the session can take `answer` (see [`session_answer_fits`]).
    pub fn accepts(&self, answer: &JsonDoc) -> (r: bool)
        ensures
            r == session_answer_fits(*self, *answer),
    {
        match &self.stage {
            Stage::Metadata(walk) => walk.accepts(answer),
            Stage::Records { walk, uid: _ } => walk.accepts(answer),
            _ => false,
        }
    }

    /// Takes in the page fetched. After the account read, asks for the
    /// records kept for the account where they are to be read, else starts
    /// the records walk. During the records walk, asks for the next page, or,
    /// when the walk ends, notes the link of its last page, then asks for the
    /// records to be kept where they are to be, else moves on to the next
    /// banner.
    pub fn on_answer(&mut self, answer: JsonDoc) -> (r: SessionAction)
        requires
            session_wf(*old(self)),
            session_answer_fits(*old(self), answer),
        ensures
            same_setup(*old(self), *final(self)),
            session_wf(*final(self)),
            answer_step(*old(self), *final(self), answer, r),
            old(self).ignore_cache ==> !(r is LoadCache),
    {
        let mut stage = Stage::Done;
        std::mem::swap(&mut stage, &mut self.stage);
        match stage {
            Stage::Metadata(walk) => {
                let mut walk = walk;
                match walk.absorb(answer) {
                    WalkStep::Finished { url: _, uid } => {
                        if should_load_cache(&uid, self.ignore_cache) {
                            let banner = self.banners[self.current].clone();
                            let asked = uid.clone();
                            self.stage = Stage::LoadingCache { uid };
                            SessionAction::LoadCache { game: self.game, uid: asked, gacha_type: banner }
                        } else {
                            self.start_records(uid, JsonDoc::Null)
                        }
                    },
                    WalkStep::Next => {
                        self.stage = Stage::Done;
                        SessionAction::Finished
                    },
                }
            },
            Stage::Records { walk, uid } => {
                let mut walk = walk;
                match walk.absorb(answer) {
                    WalkStep::Next => {
                        let url = walk.request_url();
                        let banner = walk.gacha_type.clone();
                        self.stage = Stage::Records { walk, uid };
                        SessionAction::Fetch { url, pause_before: true, metadata: false, gacha_type: banner }
                    },
                    WalkStep::Finished { url, uid: _ } => {
                        self.urls.push(url);
                        proof {
                            assert(texts(self.urls@) =~= texts(old(self).urls@).push(
                                page_link(
                                    old(self).stage->Records_walk.url@,
                                    old(self).stage->Records_walk.gacha_type@,
                                    old(self).stage->Records_walk.size as nat,
                                    old(self).stage->Records_walk.page as nat,
                                    old(self).stage->Records_walk.end_id@,
                                ),
                            ));
                        }
                        if should_write_cache(&uid, self.skip_write_cache) {
                            let banner = self.banners[self.current].clone();
                            self.stage = Stage::Writing;
                            let text = pretty_values(&walk.acc, 2);
                            SessionAction::WriteCache { game: self.game, uid, gacha_type: banner, text }
                        } else {
                            let _n: usize = self.banners.len();
                            let next: usize = self.current + 1;
                            self.start_banner(next)
                        }
                    },
                }
            },
            _ => {
                self.stage = Stage::Done;
                SessionAction::Finished
            },
        }
    }

    /// Takes in the text of the page fetched, where it is JSON that the
    /// session can take (see [`FetchSession::on_answer`]); otherwise leaves
    /// the session as it is and answers `None`.
    pub fn on_page(&mut self, body: &str) -> (r: Option<SessionAction>)
        requires
            session_wf(*old(self)),
        ensures
            same_setup(*old(self), *final(self)),
            session_wf(*final(self)),
            match parsed_json(body@) {
                Some(answer) => if session_answer_fits(*old(self), answer) {
                    r matches Some(a) && answer_step(*old(self), *final(self), answer, a)
                } else {
                    r is None && *final(self) == *old(self)
                },
                None => r is None && *final(self) == *old(self),
            },
            old(self).ignore_cache ==> !(r matches Some(a) && a is LoadCache),
    {
        match parse_json(body) {
            Some(answer) => if self.accepts(&answer) {
                Some(self.on_answer(answer))
            } else {
                None
            },
            None => None,
        }
    }

    /// Takes in the text of the records kept for the account, where it is
    /// JSON, and starts the records walk down to them (see
    /// [`FetchSession::on_cache`]); otherwise leaves the session as it is and
    /// answers `None`.
    pub fn on_cache_text(&mut self, text: &str) -> (r: Option<SessionAction>)
        requires
            session_wf(*old(self)),
            old(self).stage is LoadingCache,
        ensures
            same_setup(*old(self), *final(self)),
            session_wf(*final(self)),
            match parsed_json(text@) {
                Some(cache) => {
                    &&& r matches Some(a)
                    &&& final(self).urls == old(self).urls
                    &&& final(self).current == old(self).current
                    &&& started_records(*final(self), a, old(self).stage->LoadingCache_uid@, cache)
                },
                None => r is None && *final(self) == *old(self),
            },
    {
        match parse_json(text) {
            Some(cache) => Some(self.on_cache(cache)),
            None => None,
        }
    }

    /// Takes in the records kept for the account (`Null` where there are
    /// none) and starts the records walk down to them.
    pub fn on_cache(&mut self, cache: JsonDoc) -> (r: SessionAction)
        requires
            session_wf(*old(self)),
            old(self).stage is LoadingCache,
        ensures
            same_setup(*old(self), *final(self)),
            final(self).urls == old(self).urls,
            final(self).current == old(self).current,
            started_records(*final(self), r, old(self).stage->LoadingCache_uid@, cache),
            session_wf(*final(self)),
    {
        let mut stage = Stage::Done;
        std::mem::swap(&mut stage, &mut self.stage);
        match stage {
            Stage::LoadingCache { uid } => self.start_records(uid, cache),
            _ => SessionAction::Finished,
        }
    }

    /// Takes in that the records were kept, and moves on to the next banner.
    pub fn on_written(&mut self) -> (r: SessionAction)
        requires
            session_wf(*old(self)),
            old(self).stage is Writing,
        ensures
            same_setup(*old(self), *final(self)),
            final(self).urls == old(self).urls,
            started_banner(*final(self), r, old(self).current + 1),
            session_wf(*final(self)),
    {
        let _n: usize = self.banners.len();
        let next: usize = self.current + 1;
        self.start_banner(next)
    }
}

} // verus!
