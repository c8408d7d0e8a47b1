//! Walking the record service page by page: the links of the pages, and what
//! each answer changes in the records gathered so far.
use vstd::prelude::*;
use crate::json::{
    JsonDoc, element, elements, json_eq_checked, json_eq_safe, json_len, member, parse_json, parsed_json,
    pretty_json, pretty_values, same_json, text_of,
};
use crate::text::{decimal, decimal_string, drop_last_char, ends_with, ends_with_exec, remove_last};

verus! {

/// The record link without a trailing `#/`.
pub open spec fn link_base(url: Seq<char>) -> Seq<char> {
    if ends_with(url, "#/"@) {
        drop_last_char(drop_last_char(url))
    } else {
        url
    }
}

/// The link of one page of a banner's records: the record link without a
/// trailing `#/`, then `&size=`, `&page=`, `&end_id=` and `&gacha_type=` with
/// their values.
pub open spec fn page_link(url: Seq<char>, gacha_type: Seq<char>, size: nat, page: nat, end_id: Seq<char>) -> Seq<char> {
    link_base(url) + "&size="@ + decimal(size) + "&page="@ + decimal(page) + "&end_id="@ + end_id
        + "&gacha_type="@ + gacha_type
}

/// The link of one page of a banner's records.
pub fn urlgen(url: String, gacha_type: String, szgate: usize, page: u8, end_id: String) -> (r: String)
    ensures
        r@ == page_link(url@, gacha_type@, szgate as nat, page as nat, end_id@),
        ends_with(r@, "&end_id="@ + end_id@ + "&gacha_type="@ + gacha_type@),
{
    proof {
        lemma_page_link_carries_end_id(url@, gacha_type@, szgate as nat, page as nat, end_id@);
    }
    let mut r = if ends_with_exec(url.as_str(), "#/") {
        String::from_str(remove_last(remove_last(url.as_str())))
    } else {
        url
    };
    r.append("&size=");
    r.append(decimal_string(szgate as u64).as_str());
    r.append("&page=");
    r.append(decimal_string(page as u64).as_str());
    r.append("&end_id=");
    r.append(end_id.as_str());
    r.append("&gacha_type=");
    r.append(gacha_type.as_str());
    r
}

/// The link of one page, as the single-banner walk writes it: the link, then
/// `&size=`, `&page=` and `&end_id=` with their values.
pub open spec fn plain_page_link(url: Seq<char>, size: nat, page: nat, end_id: Seq<char>) -> Seq<char> {
    url + "&size="@ + decimal(size) + "&page="@ + decimal(page) + "&end_id="@ + end_id
}

/// The link of one page, as the single-banner walk writes it.
pub fn generate(url: String, sizegate: usize, page: u8, end_id: String) -> (r: String)
    ensures
        r@ == plain_page_link(url@, sizegate as nat, page as nat, end_id@),
        ends_with(r@, "&end_id="@ + end_id@),
{
    proof {
        lemma_plain_page_link_carries_end_id(url@, sizegate as nat, page as nat, end_id@);
    }
    let mut r = url;
    r.append("&size=");
    r.append(decimal_string(sizegate as u64).as_str());
    r.append("&page=");
    r.append(decimal_string(page as u64).as_str());
    r.append("&end_id=");
    r.append(end_id.as_str());
    r
}

/// A record link gives the same page links with or without a trailing `#/`.
pub proof fn lemma_page_link_ignores_trailing_anchor(
    url: Seq<char>,
    gacha_type: Seq<char>,
    size: nat,
    page: nat,
    end_id: Seq<char>,
)
    requires
        !ends_with(url, "#/"@),
    ensures
        page_link(url + "#/"@, gacha_type, size, page, end_id) == page_link(url, gacha_type, size, page, end_id),
{
    reveal_strlit("#/");
    let with_anchor = url + "#/"@;
    assert(with_anchor.subrange(with_anchor.len() - 2, with_anchor.len() as int) =~= "#/"@);
    assert(drop_last_char(drop_last_char(with_anchor)) =~= url);
}

/// The link base is the record link itself, unless that ends with `#/`,
/// which alone is dropped.
pub proof fn lemma_link_base(url: Seq<char>)
    ensures
        !ends_with(url, "#/"@) ==> link_base(url) == url,
        !ends_with(url, "#/"@) ==> link_base(url + "#/"@) == url,
{
    reveal_strlit("#/");
    if !ends_with(url, "#/"@) {
        let with_anchor = url + "#/"@;
        assert(with_anchor.subrange(with_anchor.len() - 2, with_anchor.len() as int) =~= "#/"@);
        assert(drop_last_char(drop_last_char(with_anchor)) =~= url);
    }
}

/// A page link carries the identifier it goes on from whole, followed by the
/// banner code, at its end, after the link base, size and page; so both can
/// be read back unchanged.
pub proof fn lemma_page_link_carries_end_id(
    url: Seq<char>,
    gacha_type: Seq<char>,
    size: nat,
    page: nat,
    end_id: Seq<char>,
)
    ensures
        ({
            let l = page_link(url, gacha_type, size, page, end_id);
            let tail = "&end_id="@ + end_id + "&gacha_type="@ + gacha_type;
            &&& ends_with(l, tail)
            &&& l.subrange(0, l.len() - tail.len()) == link_base(url) + "&size="@ + decimal(size) + "&page="@
                + decimal(page)
        }),
{
    let l = page_link(url, gacha_type, size, page, end_id);
    let head = link_base(url) + "&size="@ + decimal(size) + "&page="@ + decimal(page);
    let tail = "&end_id="@ + end_id + "&gacha_type="@ + gacha_type;
    assert(l =~= head + tail);
    assert(l.subrange(l.len() - tail.len(), l.len() as int) =~= tail);
    assert(l.subrange(0, l.len() - tail.len()) =~= head);
}

/// A page link of the single-banner walk ends with the identifier it goes on
/// from, whole, after the link, size and page.
pub proof fn lemma_plain_page_link_carries_end_id(url: Seq<char>, size: nat, page: nat, end_id: Seq<char>)
    ensures
        ({
            let l = plain_page_link(url, size, page, end_id);
            let tail = "&end_id="@ + end_id;
            &&& ends_with(l, tail)
            &&& l.subrange(0, l.len() - tail.len()) == url + "&size="@ + decimal(size) + "&page="@ + decimal(page)
        }),
{
    let l = plain_page_link(url, size, page, end_id);
    let head = url + "&size="@ + decimal(size) + "&page="@ + decimal(page);
    let tail = "&end_id="@ + end_id;
    assert(l =~= head + tail);
    assert(l.subrange(l.len() - tail.len(), l.len() as int) =~= tail);
    assert(l.subrange(0, l.len() - tail.len()) =~= head);
}

/// Where a walk of a banner's pages stands.
pub struct PageWalk {
    /// The record link of the banner's game.
    pub url: String,
    /// The banner code.
    pub gacha_type: String,
    /// How many records a page holds; a shorter page is the last.
    pub size: usize,
    /// The page to ask for next.
    pub page: u8,
    /// The identifier of the last record gathered, from which the next page
    /// goes on.
    pub end_id: String,
    /// The records kept from an earlier run, newest first, or `Null`.
    pub cache: JsonDoc,
    /// Whether the walk stops after its first page.
    pub run_only_once: bool,
    /// The records gathered so far, newest first.
    pub acc: Vec<JsonDoc>,
}

/// What a walk does after an answer.
pub enum WalkStep {
    /// Ask for the next page, at [`PageWalk::request_url`].
    Next,
    /// The walk is over: `url` is the link of its last page and `uid` the
    /// account of its last record (`-1` when it gathered none).
    Finished { url: String, uid: String },
}

/// The records that an answer holds: its `data.list` array.
pub open spec fn answer_list(answer: JsonDoc) -> JsonDoc {
    member(member(answer, "data"@), "list"@)
}

/// A record that is also the newest record kept from an earlier run: the
/// records from it on are those that the cache holds.
pub open spec fn meets_cache(record: JsonDoc, cache: JsonDoc) -> bool {
    cache != JsonDoc::Null && same_json(member(record, "id"@), member(element(cache, 0), "id"@))
}

/// The position of the first record of `list` that meets the cache.
pub open spec fn first_cache_meeting(list: Seq<JsonDoc>, cache: JsonDoc) -> Option<int>
    decreases list.len(),
{
    if list.len() == 0 {
        None
    } else if meets_cache(list[0], cache) {
        Some(0)
    } else {
        match first_cache_meeting(list.drop_first(), cache) {
            Some(i) => Some(i + 1),
            None => None,
        }
    }
}

/// Whether the `json` crate gets through comparing the identifiers of the
/// records of `list`, in order, with that of the newest kept record, up to
/// the first that meets it (see [`json_eq_safe`]).
pub open spec fn meeting_safe(list: Seq<JsonDoc>, cache: JsonDoc) -> bool
    decreases list.len(),
{
    if list.len() == 0 || cache == JsonDoc::Null {
        true
    } else {
        &&& json_eq_safe(member(list[0], "id"@), member(element(cache, 0), "id"@))
        &&& (meets_cache(list[0], cache) || meeting_safe(list.drop_first(), cache))
    }
}

/// The records gathered after a page: those before, then the page's records
/// up to the first that meets the cache and, where one does, all the cached
/// records in its place and after it.
pub open spec fn gathered(acc: Seq<JsonDoc>, list: Seq<JsonDoc>, cache: JsonDoc) -> Seq<JsonDoc> {
    match first_cache_meeting(list, cache) {
        Some(k) => acc + list.take(k) + elements(cache),
        None => acc + list,
    }
}

/// Whether the walk ends with a page: a page whose length is not the page
/// size, a walk of one page, or a page that meets the cache.
pub open spec fn walk_ends(walk: PageWalk, answer: JsonDoc) -> bool {
    json_len(answer_list(answer)) != walk.size || walk.run_only_once
        || first_cache_meeting(elements(answer_list(answer)), walk.cache) is Some
}

/// The account that a finished walk reports: that of its last record, or
/// `-1` when it gathered none.
pub open spec fn walk_uid(records: Seq<JsonDoc>) -> Seq<char> {
    if records.len() == 0 {
        "-1"@
    } else {
        text_of(member(records.last(), "uid"@)).unwrap()
    }
}

/// The answers that a walk can go on with: the identifiers of the page's
/// records can be compared with the kept one; where the walk ends, its last
/// record names its account by a text; where it goes on, a page follows (the
/// page number has room), and the last record gathered has a text
/// identifier.
pub open spec fn answer_fits(walk: PageWalk, answer: JsonDoc) -> bool {
    let records = gathered(walk.acc@, elements(answer_list(answer)), walk.cache);
    if !meeting_safe(elements(answer_list(answer)), walk.cache) {
        false
    } else if walk_ends(walk, answer) {
        records.len() == 0 || text_of(member(records.last(), "uid"@)) is Some
    } else {
        &&& walk.page < u8::MAX
        &&& records.len() > 0
        &&& text_of(member(records.last(), "id"@)) is Some
    }
}

proof fn lemma_first_cache_meeting(list: Seq<JsonDoc>, cache: JsonDoc, k: int)
    requires
        0 <= k <= list.len(),
        forall|j: int| 0 <= j < k ==> !meets_cache(#[trigger] list[j], cache),
        k < list.len() ==> meets_cache(list[k], cache),
    ensures
        first_cache_meeting(list, cache) == (if k < list.len() { Some(k) } else { None::<int> }),
    decreases k,
{
    if k > 0 {
        let rest = list.drop_first();
        assert forall|j: int| 0 <= j < k - 1 implies !meets_cache(#[trigger] rest[j], cache) by {
            assert(rest[j] == list[j + 1]);
        }
        lemma_first_cache_meeting(rest, cache, k - 1);
    }
}

/// A page never takes away records gathered before it: they stay, in order,
/// at the front.
pub proof fn lemma_gathered_keeps_earlier(acc: Seq<JsonDoc>, list: Seq<JsonDoc>, cache: JsonDoc)
    ensures
        gathered(acc, list, cache).len() >= acc.len(),
        gathered(acc, list, cache).take(acc.len() as int) == acc,
{
    match first_cache_meeting(list, cache) {
        Some(k) => assert(gathered(acc, list, cache).take(acc.len() as int) =~= acc),
        None => assert(gathered(acc, list, cache).take(acc.len() as int) =~= acc),
    }
}

/// Without records kept from an earlier run, a page's records are all
/// gathered, after those gathered before.
pub proof fn lemma_no_cache_gathers_whole_page(acc: Seq<JsonDoc>, list: Seq<JsonDoc>)
    ensures
        gathered(acc, list, JsonDoc::Null) == acc + list,
{
    lemma_first_cache_meeting(list, JsonDoc::Null, list.len() as int);
}

/// Where a page meets the records kept from an earlier run, the records
/// gathered end with all of the kept ones.
pub proof fn lemma_cache_meeting_ends_with_cache(acc: Seq<JsonDoc>, list: Seq<JsonDoc>, cache: JsonDoc)
    requires
        first_cache_meeting(list, cache) is Some,
    ensures
        ({
            let g = gathered(acc, list, cache);
            let n = elements(cache).len();
            g.len() >= n && g.subrange(g.len() - n, g.len() as int) == elements(cache)
        }),
{
    let g = gathered(acc, list, cache);
    let n = elements(cache).len();
    assert(g.subrange(g.len() - n, g.len() as int) =~= elements(cache));
}

/// Where identifiers are texts, a record meets the kept records exactly when
/// its identifier is the newest kept record's identifier, character for
/// character.
pub proof fn lemma_meets_cache_by_id(record: JsonDoc, cache: JsonDoc, id: Seq<char>, kept_id: Seq<char>)
    requires
        cache != JsonDoc::Null,
        text_of(member(record, "id"@)) == Some(id),
        text_of(member(element(cache, 0), "id"@)) == Some(kept_id),
    ensures
        meets_cache(record, cache) <==> id == kept_id,
{
    let a = member(record, "id"@);
    let b = member(element(cache, 0), "id"@);
    match (a, b) {
        (JsonDoc::Text(x), JsonDoc::Text(y)) => {
            assert(same_json(a, b) == (x@ == y@));
        },
        _ => {},
    }
}

/// A page none of whose records has the newest kept record's identifier (all
/// of them texts) meets no kept record: all its records are gathered, in
/// order, after those before, and the walk goes on unless the page is short
/// or the walk is of one page.
pub proof fn lemma_new_ids_gathered_whole(acc: Seq<JsonDoc>, list: Seq<JsonDoc>, cache: JsonDoc, kept_id: Seq<char>)
    requires
        text_of(member(element(cache, 0), "id"@)) == Some(kept_id),
        forall|j: int|
            0 <= j < list.len() ==> (text_of(member(#[trigger] list[j], "id"@)) matches Some(id) && id != kept_id),
    ensures
        first_cache_meeting(list, cache) is None,
        gathered(acc, list, cache) == acc + list,
{
    assert forall|j: int| 0 <= j < list.len() implies !meets_cache(#[trigger] list[j], cache) by {
        if cache != JsonDoc::Null {
            let id = text_of(member(list[j], "id"@)).unwrap();
            lemma_meets_cache_by_id(list[j], cache, id, kept_id);
        }
    }
    lemma_first_cache_meeting(list, cache, list.len() as int);
}

/// Whether the value under `key` of `x` is a text.
pub fn has_text_member(x: &JsonDoc, key: &str) -> (r: bool)
    ensures
        r == (text_of(member(*x, key@)) is Some),
{
    match x.get(key) {
        Some(v) => v.as_text().is_some(),
        None => false,
    }
}

/// Past records that neither meet the kept one nor trouble the comparison,
/// whether the comparisons get through depends on the rest of the list
/// alone.
proof fn lemma_meeting_safe_skip(list: Seq<JsonDoc>, cache: JsonDoc, k: int)
    requires
        0 <= k <= list.len(),
        cache != JsonDoc::Null,
        forall|j: int|
            0 <= j < k ==> !meets_cache(#[trigger] list[j], cache) && json_eq_safe(
                member(list[j], "id"@),
                member(element(cache, 0), "id"@),
            ),
    ensures
        meeting_safe(list, cache) == meeting_safe(list.skip(k), cache),
    decreases k,
{
    if k > 0 {
        let rest = list.drop_first();
        assert forall|j: int| 0 <= j < k - 1 implies !meets_cache(#[trigger] rest[j], cache) && json_eq_safe(
            member(rest[j], "id"@),
            member(element(cache, 0), "id"@),
        ) by {
            assert(rest[j] == list[j + 1]);
        }
        lemma_meeting_safe_skip(rest, cache, k - 1);
        assert(rest.skip(k - 1) =~= list.skip(k));
        assert(!meets_cache(list[0], cache));
    } else {
        assert(list.skip(0) =~= list);
    }
}

/// The position of the first record of `list` that meets `cache`, where
/// the identifiers compare (see [`meeting_safe`]); `None` where comparing
/// one with the kept identifier would overflow in the `json` crate.
pub fn find_cache_meeting(list: &Vec<JsonDoc>, cache: &JsonDoc) -> (r: Option<Option<usize>>)
    ensures
        match r {
            Some(Some(k)) => meeting_safe(list@, *cache) && k < list@.len() && first_cache_meeting(list@, *cache)
                == Some(k as int),
            Some(None) => meeting_safe(list@, *cache) && first_cache_meeting(list@, *cache) is None,
            None => !meeting_safe(list@, *cache),
        },
{
    if cache.is_null() {
        proof {
            lemma_first_cache_meeting(list@, *cache, list@.len() as int);
        }
        return Some(None);
    }
    let null = JsonDoc::Null;
    let cache_id: &JsonDoc = match cache.at(0) {
        Some(first) => match first.get("id") {
            Some(v) => v,
            None => &null,
        },
        None => &null,
    };
    let mut k: usize = 0;
    let mut hit = false;
    while k < list.len() && !hit
        invariant
            null == JsonDoc::Null,
            k <= list@.len(),
            *cache != JsonDoc::Null,
            *cache_id == member(element(*cache, 0), "id"@),
            forall|j: int|
                0 <= j < k ==> !meets_cache(#[trigger] list@[j], *cache) && json_eq_safe(
                    member(list@[j], "id"@),
                    member(element(*cache, 0), "id"@),
                ),
            hit ==> k < list@.len() && meets_cache(list@[k as int], *cache) && json_eq_safe(
                member(list@[k as int], "id"@),
                member(element(*cache, 0), "id"@),
            ),
        decreases list.len() - k + (if hit { 0int } else { 1int }),
    {
        let elem_id: &JsonDoc = match list[k].get("id") {
            Some(v) => v,
            None => &null,
        };
        match json_eq_checked(elem_id, cache_id) {
            None => {
                proof {
                    lemma_meeting_safe_skip(list@, *cache, k as int);
                    assert(list@.skip(k as int)[0] == list@[k as int]);
                }
                return None;
            },
            Some(true) => {
                hit = true;
            },
            Some(false) => {
                k = k + 1;
            },
        }
    }
    proof {
        lemma_first_cache_meeting(list@, *cache, k as int);
        lemma_meeting_safe_skip(list@, *cache, k as int);
        if hit {
            assert(list@.skip(k as int)[0] == list@[k as int]);
        }
    }
    if hit {
        Some(Some(k))
    } else {
        Some(None)
    }
}

impl PageWalk {
    /// A walk from the first page, from no identifier (`0`).
    pub fn new(url: String, gacha_type: String, size: usize, cache: JsonDoc, run_only_once: bool) -> (r: PageWalk)
        ensures
            r.url == url,
            r.gacha_type == gacha_type,
            r.size == size,
            r.page == 1,
            r.end_id@ == "0"@,
            r.cache == cache,
            r.run_only_once == run_only_once,
            r.acc@.len() == 0,
    {
        PageWalk {
            url,
            gacha_type,
            size,
            page: 1,
            end_id: String::from_str("0"),
            cache,
            run_only_once,
            acc: Vec::new(),
        }
    }

    /// The walk that only reads a banner's account: one page of one record.
    pub fn metadata(url: String, gacha_type: String) -> (r: PageWalk)
        ensures
            r.url == url,
            r.gacha_type == gacha_type,
            r.size == 1,
            r.page == 1,
            r.end_id@ == "0"@,
            r.cache == JsonDoc::Null,
            r.run_only_once,
            r.acc@.len() == 0,
    {
        PageWalk::new(url, gacha_type, 1, JsonDoc::Null, true)
    }

    /// The walk that gathers a banner's records, five to a page, down to those
    /// that `cache` holds.
    pub fn records(url: String, gacha_type: String, cache: JsonDoc) -> (r: PageWalk)
        ensures
            r.url == url,
            r.gacha_type == gacha_type,
            r.size == 5,
            r.page == 1,
            r.end_id@ == "0"@,
            r.cache == cache,
            !r.run_only_once,
            r.acc@.len() == 0,
    {
        PageWalk::new(url, gacha_type, 5, cache, false)
    }

    /// The link of the page to ask for next.
    pub fn request_url(&self) -> (r: String)
        ensures
            r@ == page_link(self.url@, self.gacha_type@, self.size as nat, self.page as nat, self.end_id@),
    {
        urlgen(self.url.clone(), self.gacha_type.clone(), self.size, self.page, self.end_id.clone())
    }

    /// Whether the walk can go on with `answer` (see [`answer_fits`]).
    pub fn accepts(&self, answer: &JsonDoc) -> (r: bool)
        ensures
            r == answer_fits(*self, *answer),
    {
        let null = JsonDoc::Null;
        let empty: Vec<JsonDoc> = Vec::new();
        let list_doc: &JsonDoc = match answer.get("data") {
            Some(d) => match d.get("list") {
                Some(l) => l,
                None => &null,
            },
            None => &null,
        };
        assert(*list_doc == answer_list(*answer));
        let list: &Vec<JsonDoc> = match list_doc.members() {
            Some(v) => v,
            None => &empty,
        };
        let kept: &Vec<JsonDoc> = match self.cache.members() {
            Some(v) => v,
            None => &empty,
        };
        assert(list@ == elements(answer_list(*answer)));
        assert(kept@ == elements(self.cache));
        let found = match find_cache_meeting(list, &self.cache) {
            Some(f) => f,
            None => return false,
        };
        let ends = list_doc.len() != self.size || self.run_only_once || found.is_some();
        let ghost g = gathered(self.acc@, list@, self.cache);
        let n_acc: usize = self.acc.len();
        let last: Option<&JsonDoc> = match found {
            Some(k) => {
                assert(g == self.acc@ + list@.take(k as int) + kept@);
                if kept.len() > 0 {
                    Some(&kept[kept.len() - 1])
                } else if k > 0 {
                    Some(&list[k - 1])
                } else if n_acc > 0 {
                    Some(&self.acc[n_acc - 1])
                } else {
                    None
                }
            },
            None => {
                assert(g == self.acc@ + list@);
                if list.len() > 0 {
                    Some(&list[list.len() - 1])
                } else if n_acc > 0 {
                    Some(&self.acc[n_acc - 1])
                } else {
                    None
                }
            },
        };
        assert(match last {
            Some(x) => g.len() > 0 && *x == g.last(),
            None => g.len() == 0,
        });
        if ends {
            match last {
                None => true,
                Some(x) => has_text_member(x, "uid"),
            }
        } else {
            self.page < 255 && match last {
                None => false,
                Some(x) => has_text_member(x, "id"),
            }
        }
    }

    /// Takes in the answer to the page asked for: gathers its records up to
    /// the first one that the cache already holds (then the cached records in
    /// their place), and either ends the walk or moves it to the next page,
    /// which goes on from the last record gathered.
    pub fn absorb(&mut self, answer: JsonDoc) -> (r: WalkStep)
        requires
            answer_fits(*old(self), answer),
        ensures
            final(self).acc@ == gathered(old(self).acc@, elements(answer_list(answer)), old(self).cache),
            final(self).url == old(self).url,
            final(self).gacha_type == old(self).gacha_type,
            final(self).size == old(self).size,
            final(self).run_only_once == old(self).run_only_once,
            first_cache_meeting(elements(answer_list(answer)), old(self).cache) is None ==> final(self).cache
                == old(self).cache,
            first_cache_meeting(elements(answer_list(answer)), old(self).cache) is Some ==> final(self).cache
                == JsonDoc::Null,
            match r {
                WalkStep::Finished { url, uid } => {
                    &&& walk_ends(*old(self), answer)
                    &&& url@ == page_link(
                        old(self).url@,
                        old(self).gacha_type@,
                        old(self).size as nat,
                        old(self).page as nat,
                        old(self).end_id@,
                    )
                    &&& uid@ == walk_uid(final(self).acc@)
                    &&& final(self).page == old(self).page
                    &&& final(self).end_id == old(self).end_id
                },
                WalkStep::Next => {
                    &&& !walk_ends(*old(self), answer)
                    &&& final(self).page == old(self).page + 1
                    &&& final(self).end_id@ == text_of(member(final(self).acc@.last(), "id"@)).unwrap()
                },
            },
    {
        let ghost old_walk = *self;
        let req_url = self.request_url();
        let list_doc = answer.take_member("data").take_member("list");
        let listed: usize = list_doc.len();
        let mut list = list_doc.into_elements();
        let ghost page_records = list@;
        let found = match find_cache_meeting(&list, &self.cache) {
            Some(f) => f,
            None => None,
        };
        let hit = found.is_some();
        let k: usize = match found {
            Some(i) => i,
            None => list.len(),
        };
        list.truncate(k);
        self.acc.append(&mut list);
        if hit {
            let mut cache = JsonDoc::Null;
            std::mem::swap(&mut cache, &mut self.cache);
            let mut kept = cache.into_elements();
            self.acc.append(&mut kept);
        }
        assert(self.acc@ =~= gathered(old_walk.acc@, page_records, old_walk.cache));
        if listed != self.size || self.run_only_once || hit {
            let n: usize = self.acc.len();
            let uid = if n == 0 {
                String::from_str("-1")
            } else {
                match self.acc[n - 1].get("uid") {
                    Some(v) => match v.as_text() {
                        Some(t) => t.clone(),
                        None => String::new(),
                    },
                    None => String::new(),
                }
            };
            return WalkStep::Finished { url: req_url, uid };
        }
        let n: usize = self.acc.len();
        let id = match self.acc[n - 1].get("id") {
            Some(v) => match v.as_text() {
                Some(t) => t.clone(),
                None => String::new(),
            },
            None => String::new(),
        };
        self.page = self.page + 1;
        self.end_id = id;
        WalkStep::Next
    }
}

/// The link of the first page of five records of a record link.
pub open spec fn first_page_spec(data_url: Seq<char>) -> Seq<char> {
    data_url + "&page=1&size=5&end_id=0"@
}

/// The first-page link asks for page one, of five records, from no
/// identifier (`0`): the record link, then `&page=`, `&size=` and `&end_id=`
/// with the decimal notations of 1, 5 and 0.
pub proof fn lemma_first_page_link(data_url: Seq<char>)
    ensures
        first_page_spec(data_url) == data_url + "&page="@ + decimal(1) + "&size="@ + decimal(5) + "&end_id="@
            + decimal(0),
{
    reveal_strlit("&page=1&size=5&end_id=0");
    reveal_strlit("&page=");
    reveal_strlit("&size=");
    reveal_strlit("&end_id=");
    assert(decimal(1) =~= seq!['1']);
    assert(decimal(5) =~= seq!['5']);
    assert(decimal(0) =~= seq!['0']);
    assert(first_page_spec(data_url) =~= data_url + "&page="@ + decimal(1) + "&size="@ + decimal(5) + "&end_id="@
        + decimal(0));
}

/// The link of the first page of five records of a record link.
pub fn first_page_link(data_url: &str) -> (r: String)
    ensures
        r@ == first_page_spec(data_url@),
        r@ == data_url@ + "&page="@ + decimal(1) + "&size="@ + decimal(5) + "&end_id="@ + decimal(0),
{
    proof {
        lemma_first_page_link(data_url@);
    }
    let mut r = String::from_str(data_url);
    r.append("&page=1&size=5&end_id=0");
    r
}

/// How many records a page of the single-banner walk holds.
pub const DEUX_PAGE_SIZE: usize = 5;

/// Where the single-banner walk stands: it keeps the first record of each page.
pub struct DeuxWalk {
    pub url: String,
    /// The page to ask for next.
    pub page: u8,
    /// The identifier of the last record of the last page.
    pub end_id: String,
    /// The length of the last page; the walk goes on while it is the page size.
    pub last_seen_size: usize,
    /// The first record of each page read.
    pub accumulated: Vec<JsonDoc>,
}

/// The answers that the single-banner walk can go on with: the page number
/// has room, and the page's last record has a text identifier.
pub open spec fn deux_answer_fits(walk: DeuxWalk, answer: JsonDoc) -> bool {
    let list = answer_list(answer);
    &&& walk.page < u8::MAX
    &&& json_len(list) > 0
    &&& text_of(member(element(list, json_len(list) - 1), "id"@)) is Some
}

/// The single-banner walk keeps one record for each page read.
pub open spec fn one_record_per_page(w: DeuxWalk) -> bool {
    w.accumulated@.len() + 1 == w.page
}

/// What one page does to the single-banner walk: it keeps the page's first
/// record, goes on from the page's last record's identifier to the next
/// page, and notes the page's length.
pub open spec fn deux_step(before: DeuxWalk, after: DeuxWalk, answer: JsonDoc) -> bool {
    let list = answer_list(answer);
    &&& after.accumulated@ == before.accumulated@.push(element(list, 0))
    &&& after.end_id@ == text_of(member(element(list, json_len(list) - 1), "id"@)).unwrap()
    &&& after.page == before.page + 1
    &&& after.last_seen_size == json_len(list)
    &&& after.url == before.url
}

impl DeuxWalk {
    /// A walk from the first page, from no identifier (`0`).
    pub fn new(url: String) -> (r: DeuxWalk)
        ensures
            r.url == url,
            r.page == 1,
            r.end_id@ == "0"@,
            r.last_seen_size == DEUX_PAGE_SIZE,
            r.accumulated@.len() == 0,
            one_record_per_page(r),
    {
        DeuxWalk { url, page: 1, end_id: String::from_str("0"), last_seen_size: DEUX_PAGE_SIZE, accumulated: Vec::new() }
    }

    /// Whether a page is to be asked for: the last one was full.
    pub fn goes_on(&self) -> (r: bool)
        ensures
            r == (self.last_seen_size == DEUX_PAGE_SIZE),
    {
        self.last_seen_size == DEUX_PAGE_SIZE
    }

    /// The link of the page to ask for next.
    pub fn request_url(&self) -> (r: String)
        ensures
            r@ == plain_page_link(self.url@, DEUX_PAGE_SIZE as nat, self.page as nat, self.end_id@),
    {
        generate(self.url.clone(), DEUX_PAGE_SIZE, self.page, self.end_id.clone())
    }

    /// Whether the walk can go on with `answer` (see [`deux_answer_fits`]).
    pub fn accepts(&self, answer: &JsonDoc) -> (r: bool)
        ensures
            r == deux_answer_fits(*self, *answer),
    {
        let null = JsonDoc::Null;
        let list: &JsonDoc = match answer.get("data") {
            Some(d) => match d.get("list") {
                Some(l) => l,
                None => &null,
            },
            None => &null,
        };
        assert(*list == answer_list(*answer));
        let n: usize = list.len();
        if self.page == 255 || n == 0 {
            return false;
        }
        match list.at(n - 1) {
            Some(last) => has_text_member(last, "id"),
            None => false,
        }
    }

    /// Takes in the answer to the page asked for: keeps its first record, goes
    /// on from its last record's identifier, and notes the page's length.
    pub fn absorb(&mut self, answer: JsonDoc)
        requires
            deux_answer_fits(*old(self), answer),
        ensures
            deux_step(*old(self), *final(self), answer),
            one_record_per_page(*old(self)) ==> one_record_per_page(*final(self)),
    {
        let list = answer.take_member("data").take_member("list");
        let n: usize = list.len();
        let id = match list.at(n - 1) {
            Some(last) => match last.get("id") {
                Some(v) => match v.as_text() {
                    Some(t) => t.clone(),
                    None => String::new(),
                },
                None => String::new(),
            },
            None => String::new(),
        };
        let mut members = list.into_elements();
        let first = if members.len() > 0 {
            members.swap_remove(0)
        } else {
            JsonDoc::Null
        };
        self.end_id = id;
        self.page = self.page + 1;
        self.accumulated.push(first);
        self.last_seen_size = n;
    }

    /// Takes in the text of the page asked for, where it is JSON that the walk
    /// can go on with (see [`DeuxWalk::absorb`]); otherwise leaves the walk as
    /// it is and answers `false`.
    pub fn on_page(&mut self, body: &str) -> (r: bool)
        ensures
            r == (parsed_json(body@) matches Some(d) && deux_answer_fits(*old(self), d)),
            r ==> deux_step(*old(self), *final(self), parsed_json(body@).unwrap()),
            !r ==> *final(self) == *old(self),
    {
        match parse_json(body) {
            Some(answer) => if self.accepts(&answer) {
                self.absorb(answer);
                true
            } else {
                false
            },
            None => false,
        }
    }

    /// The records kept, written as one JSON array indented by two spaces.
    pub fn pretty_accumulated(&self) -> (r: String)
        ensures
            r@ == pretty_json(self.accumulated@, 2),
    {
        pretty_values(&self.accumulated, 2)
    }
}

} // verus!
