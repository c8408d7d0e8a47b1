//! Finding the wish-history link in the bytes of the game's web cache.
use vstd::prelude::*;
use crate::links::{data_url_defined, data_url_from, data_url_of, try_data_url_from};
use crate::text::{contains, has_substring, occurs_at, replace_first, replace_first_exec, texts};

verus! {

/// The shortest run of printable characters that is read from the cache.
pub const MIN_STRING_LENGTH: usize = 25;

/// A byte that `rust_strings` counts as printable ASCII: a visible character,
/// a space, a tab, a line feed or a carriage return.
pub open spec fn printable_byte(b: u8) -> bool {
    (32 <= b <= 126) || b == 9 || b == 10 || b == 13
}

/// The runs of printable bytes of `bytes` that are at least `min` bytes long,
/// each whole and as text, in order; `run` is the run under way before
/// `bytes`.
pub open spec fn printable_runs_from(bytes: Seq<u8>, run: Seq<char>, min: nat) -> Seq<Seq<char>>
    decreases bytes.len(),
{
    let done = if run.len() >= min && run.len() > 0 {
        seq![run]
    } else {
        Seq::<Seq<char>>::empty()
    };
    if bytes.len() == 0 {
        done
    } else if printable_byte(bytes[0]) {
        printable_runs_from(bytes.drop_first(), run.push(bytes[0] as char), min)
    } else {
        done + printable_runs_from(bytes.drop_first(), Seq::empty(), min)
    }
}

/// The runs of printable bytes of `bytes` that are at least `min` bytes long,
/// as text, in order.
pub open spec fn printable_runs(bytes: Seq<u8>, min: nat) -> Seq<Seq<char>> {
    printable_runs_from(bytes, Seq::empty(), min)
}

/// What `regex::Regex::new(pattern)` and then `is_match(haystack)` give:
/// `None` where the pattern does not compile.
pub uninterp spec fn regex_search(pattern: Seq<char>, haystack: Seq<char>) -> Option<bool>;

/// The pattern of the cache files below a game installation, as glob reads it.
pub open spec fn cache_glob_spec(base: Seq<char>) -> Seq<char> {
    base + "/**/webCaches/Cache/Cache_Data/data_2"@
}

/// The pattern of the cache files below the game installation at `base`.
pub fn cache_glob_pattern(base: &str) -> (r: String)
    ensures
        r@ == cache_glob_spec(base@),
{
    let mut r = String::from_str(base);
    r.append("/**/webCaches/Cache/Cache_Data/data_2");
    r
}

/// The views of an optional list of texts.
pub open spec fn opt_texts(o: Option<Vec<String>>) -> Option<Seq<Seq<char>>> {
    match o {
        Some(v) => Some(texts(v@)),
        None => None,
    }
}

/// Calls `rust_strings::strings` on a `BytesConfig` of `bytes` with the given
/// shortest length, and keeps the texts of what it finds, dropping their
/// offsets. With no encoding named the crate reads ASCII: its extractor
/// collects each run of printable bytes, and its writer keeps the runs that
/// reach the shortest length, byte by byte as characters, in order; writing
/// into its vector never fails. A shortest length of 0 would underflow in
/// the extractor.
#[verifier::external_body]
fn printable_strings(bytes: &[u8], min_length: usize) -> (r: Option<Vec<String>>)
    requires
        min_length >= 1,
    ensures
        opt_texts(r) == Some(printable_runs(bytes@, min_length as nat)),
{
    let config = rust_strings::BytesConfig::new(bytes.to_vec()).with_min_length(min_length);
    match rust_strings::strings(&config) {
        Ok(found) => Some(found.into_iter().map(|(s, _)| s).collect()),
        Err(_) => None,
    }
}

/// The pattern that a wish-history link matches.
pub open spec fn wish_link_pattern() -> Seq<char> {
    "https://.*/e.*gacha-v2/.*"@
}

/// Where the wish-history pattern finds a match: `https://`, then `/e`, then
/// `gacha-v2/`, in this order, with no line break from the first to the last.
pub open spec fn matches_wish_link_pattern(h: Seq<char>) -> bool {
    exists|a: int, b: int, c: int|
        occurs_at(h, "https://"@, a) && a + 8 <= b && occurs_at(h, "/e"@, b) && b + 2 <= c
            && occurs_at(h, "gacha-v2/"@, c) && (forall|k: int| a <= k < c + 9 ==> h[k] != '\n')
}

/// Compiles `pattern` with `regex::Regex::new` and searches `haystack` with
/// `is_match` (a match anywhere in the haystack). For the wish-history pattern
/// the contract states what regex's syntax makes of it (`.` is any character
/// but a line break); for other patterns it only names the result.
#[verifier::external_body]
fn regex_is_match(pattern: &str, haystack: &str) -> (r: Option<bool>)
    ensures
        r == regex_search(pattern@, haystack@),
        pattern@ == wish_link_pattern() ==> r == Some(matches_wish_link_pattern(haystack@)),
{
    match regex::Regex::new(pattern) {
        Ok(re) => Some(re.is_match(haystack)),
        Err(_) => None,
    }
}

/// A text that is a wish-history link of the publisher's web pages.
pub open spec fn is_wish_link(s: Seq<char>) -> bool {
    matches_wish_link_pattern(s) && has_substring(s, "webstatic-sea.hoyoverse.com"@)
}

/// A text is a wish-history link exactly when it matches the link pattern
/// and names the publisher's web host; nothing else in it counts, such as
/// the game in its path.
pub proof fn lemma_wish_link_recognised(s: Seq<char>)
    ensures
        is_wish_link(s) <==> (matches_wish_link_pattern(s) && has_substring(s, "webstatic-sea.hoyoverse.com"@)),
{
}

/// Any text made of something, `https://`, a stretch, `/e`, a stretch,
/// `gacha-v2/` and something, with no line break in the two stretches, that
/// names the publisher's web host is a wish-history link.
pub proof fn lemma_wish_link_shape(pre: Seq<char>, a: Seq<char>, b: Seq<char>, post: Seq<char>)
    requires
        forall|k: int| 0 <= k < a.len() ==> a[k] != '\n',
        forall|k: int| 0 <= k < b.len() ==> b[k] != '\n',
        has_substring(pre + "https://"@ + a + "/e"@ + b + "gacha-v2/"@ + post, "webstatic-sea.hoyoverse.com"@),
    ensures
        is_wish_link(pre + "https://"@ + a + "/e"@ + b + "gacha-v2/"@ + post),
{
    reveal_strlit("https://");
    reveal_strlit("/e");
    reveal_strlit("gacha-v2/");
    let h = "https://"@;
    let e = "/e"@;
    let g = "gacha-v2/"@;
    let s = pre + h + a + e + b + g + post;
    let i = pre.len() as int;
    let j = i + 8 + a.len();
    let k = j + 2 + b.len();
    assert(s.subrange(i, i + 8) =~= h);
    assert(s.subrange(j, j + 2) =~= e);
    assert(s.subrange(k, k + 9) =~= g);
    assert forall|m: int| i <= m < k + 9 implies s[m] != '\n' by {
        if m < i + 8 {
            assert(s[m] == h[m - i]);
        } else if m < j {
            assert(s[m] == a[m - i - 8]);
        } else if m < j + 2 {
            assert(s[m] == e[m - j]);
        } else if m < k {
            assert(s[m] == b[m - j - 2]);
        } else {
            assert(s[m] == g[m - k]);
        }
    }
    assert(occurs_at(s, h, i) && i + 8 <= j && occurs_at(s, e, j) && j + 2 <= k && occurs_at(s, g, k));
}

/// Whether `s` is a wish-history link of the publisher's web pages.
pub fn is_wish_link_exec(s: &str) -> (r: bool)
    ensures
        r == is_wish_link(s@),
        r == (matches_wish_link_pattern(s@) && has_substring(s@, "webstatic-sea.hoyoverse.com"@)),
{
    match regex_is_match("https://.*/e.*gacha-v2/.*", s) {
        Some(m) => m && contains(s, "webstatic-sea.hoyoverse.com"),
        None => false,
    }
}

/// The last wish-history link among `strings`, with the first `1/0/` in it
/// taken out.
pub open spec fn last_wish_link(strings: Seq<Seq<char>>) -> Option<Seq<char>>
    decreases strings.len(),
{
    if strings.len() == 0 {
        None
    } else if is_wish_link(strings.last()) {
        Some(replace_first(strings.last(), "1/0/"@, ""@))
    } else {
        last_wish_link(strings.drop_last())
    }
}

/// The link chosen is the last wish-history link among the texts, with its
/// first `1/0/` taken out; where none is chosen, no text is such a link.
pub proof fn lemma_last_wish_link(strings: Seq<Seq<char>>)
    ensures
        match last_wish_link(strings) {
            Some(link) => exists|i: int|
                0 <= i < strings.len() && is_wish_link(#[trigger] strings[i]) && link == replace_first(
                    strings[i],
                    "1/0/"@,
                    ""@,
                ) && forall|j: int| i < j < strings.len() ==> !is_wish_link(#[trigger] strings[j]),
            None => forall|i: int| 0 <= i < strings.len() ==> !is_wish_link(#[trigger] strings[i]),
        },
    decreases strings.len(),
{
    if strings.len() > 0 {
        let rest = strings.drop_last();
        lemma_last_wish_link(rest);
        if is_wish_link(strings.last()) {
            assert(is_wish_link(strings[strings.len() - 1]));
        } else {
            match last_wish_link(rest) {
                Some(link) => {
                    let i = choose|i: int|
                        0 <= i < rest.len() && is_wish_link(#[trigger] rest[i]) && link == replace_first(
                            rest[i],
                            "1/0/"@,
                            ""@,
                        ) && forall|j: int| i < j < rest.len() ==> !is_wish_link(#[trigger] rest[j]);
                    assert(strings[i] == rest[i]);
                    assert forall|j: int| i < j < strings.len() implies !is_wish_link(#[trigger] strings[j]) by {
                        if j < rest.len() {
                            assert(strings[j] == rest[j]);
                        }
                    }
                },
                None => {
                    assert forall|i: int| 0 <= i < strings.len() implies !is_wish_link(#[trigger] strings[i]) by {
                        if i < rest.len() {
                            assert(strings[i] == rest[i]);
                        }
                    }
                },
            }
        }
    }
}

/// The last wish-history link among `strings`, with the first `1/0/` in it
/// taken out; `None` when there is none.
pub fn select_wishes_url(strings: &Vec<String>) -> (r: Option<String>)
    ensures
        opt_text_eq(r, last_wish_link(texts(strings@))),
{
    let ghost all = texts(strings@);
    let mut i: usize = strings.len();
    assert(all.take(i as int) =~= all);
    while i > 0
        invariant
            i <= strings@.len(),
            all == texts(strings@),
            last_wish_link(all) == last_wish_link(all.take(i as int)),
        decreases i,
    {
        assert(all.take(i as int).drop_last() =~= all.take(i - 1));
        assert(all.take(i as int).last() == strings@[i - 1]@);
        if is_wish_link_exec(strings[i - 1].as_str()) {
            return Some(replace_first_exec(strings[i - 1].as_str(), "1/0/", ""));
        }
        i = i - 1;
    }
    None
}

/// `o` holds the text `t`, or both are empty.
pub open spec fn opt_text_eq(o: Option<String>, t: Option<Seq<char>>) -> bool {
    match (o, t) {
        (Some(s), Some(u)) => s@ == u,
        (None, None) => true,
        _ => false,
    }
}

/// The wish-history link that the cache bytes hold: the last one among the
/// texts that are read from them.
pub open spec fn wishes_url_of(cache: Seq<u8>) -> Option<Seq<char>> {
    last_wish_link(printable_runs(cache, MIN_STRING_LENGTH as nat))
}

/// The characters of bytes, byte by byte.
pub open spec fn byte_text(t: Seq<u8>) -> Seq<char> {
    t.map_values(|b: u8| b as char)
}

/// A block of printable bytes only lengthens the run under way, by its
/// characters.
proof fn lemma_printable_block(t: Seq<u8>, rest: Seq<u8>, run: Seq<char>, min: nat)
    requires
        forall|k: int| 0 <= k < t.len() ==> printable_byte(#[trigger] t[k]),
    ensures
        printable_runs_from(t + rest, run, min) == printable_runs_from(rest, run + byte_text(t), min),
    decreases t.len(),
{
    if t.len() == 0 {
        assert(t + rest =~= rest);
        assert(run + byte_text(t) =~= run);
    } else {
        let t1 = t.drop_first();
        assert(printable_byte(t[0]));
        lemma_printable_block(t1, rest, run.push(t[0] as char), min);
        assert((t + rest).drop_first() =~= t1 + rest);
        assert(run.push(t[0] as char) + byte_text(t1) =~= run + byte_text(t));
    }
}

/// Cache bytes that hold one run of printable bytes, as long as the texts
/// read at least, between two other bytes, hold the wish-history link that
/// the run is, with its first `1/0/` taken out, whatever game it names; and
/// no link where the run is no wish-history link.
pub proof fn lemma_cache_with_one_run(t: Seq<u8>)
    requires
        forall|k: int| 0 <= k < t.len() ==> printable_byte(#[trigger] t[k]),
        t.len() >= MIN_STRING_LENGTH,
    ensures
        wishes_url_of(seq![0u8] + t + seq![0u8]) == (if is_wish_link(byte_text(t)) {
            Some(replace_first(byte_text(t), "1/0/"@, ""@))
        } else {
            None::<Seq<char>>
        }),
{
    let cache = seq![0u8] + t + seq![0u8];
    let text = byte_text(t);
    let min = MIN_STRING_LENGTH as nat;
    assert(!printable_byte(cache[0]));
    assert(cache.drop_first() =~= t + seq![0u8]);
    lemma_printable_block(t, seq![0u8], Seq::empty(), min);
    assert(Seq::<char>::empty() + text =~= text);
    assert(seq![0u8].drop_first() =~= Seq::<u8>::empty());
    assert(!printable_byte(seq![0u8][0]));
    assert(text.len() == t.len());
    assert(printable_runs_from(Seq::<u8>::empty(), Seq::<char>::empty(), min) =~= Seq::<Seq<char>>::empty());
    assert(printable_runs_from(seq![0u8], text, min) =~= seq![text] + printable_runs_from(
        Seq::<u8>::empty(),
        Seq::<char>::empty(),
        min,
    ));
    assert(printable_runs_from(seq![0u8], text, min) =~= seq![text]);
    assert(printable_runs(cache, min) =~= seq![text]);
    assert(seq![text].drop_last() =~= Seq::<Seq<char>>::empty());
    assert(seq![text].last() == text);
    assert(last_wish_link(Seq::<Seq<char>>::empty()) is None);
    assert(wishes_url_of(cache) == last_wish_link(seq![text]));
}

/// The wish-history link that the cache bytes hold; `None` when none of the
/// texts read from them is such a link.
pub fn get_wishes_url(cache: &[u8]) -> (r: Option<String>)
    ensures
        opt_text_eq(r, wishes_url_of(cache@)),
{
    match printable_strings(cache, MIN_STRING_LENGTH) {
        Some(strings) => select_wishes_url(&strings),
        None => None,
    }
}

/// The wish-history link that the cache bytes hold, where they hold one.
pub fn wishes(cache: &[u8]) -> (r: String)
    requires
        wishes_url_of(cache@) is Some,
    ensures
        r@ == wishes_url_of(cache@).unwrap(),
{
    match get_wishes_url(cache) {
        Some(u) => u,
        None => String::new(),
    }
}

/// The inputs on which a record link can be made from cache bytes.
pub open spec fn cache_data_url_defined(cache: Seq<u8>) -> bool {
    wishes_url_of(cache) matches Some(w) && data_url_defined(w)
}

/// The record link that belongs to the wish-history link of the cache bytes.
pub fn get_data_url(cache: &[u8]) -> (r: String)
    requires
        cache_data_url_defined(cache@),
    ensures
        r@ == data_url_of(wishes_url_of(cache@).unwrap()),
{
    let w = wishes(cache);
    data_url_from(w.as_str())
}

/// The record link that belongs to the wish-history link of the cache bytes.
pub fn data(cache: &[u8]) -> (r: String)
    requires
        cache_data_url_defined(cache@),
    ensures
        r@ == data_url_of(wishes_url_of(cache@).unwrap()),
{
    get_data_url(cache)
}

/// The record link of the cache bytes, or `None` on the bytes from which
/// none can be made.
pub fn try_data(cache: &[u8]) -> (r: Option<String>)
    ensures
        r is Some <==> cache_data_url_defined(cache@),
        r matches Some(s) ==> s@ == data_url_of(wishes_url_of(cache@).unwrap()),
{
    match get_wishes_url(cache) {
        None => None,
        Some(w) => {
            if try_data_url_from(w.as_str()).is_some() {
                Some(data(cache))
            } else {
                None
            }
        },
    }
}

} // verus!
