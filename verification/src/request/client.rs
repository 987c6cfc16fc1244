//! What an HTTP client for the site is made of: the browser it presents
//! itself as, the cookies it starts with and the headers of every request.

use vstd::prelude::*;
use crate::text::{chars_of, lemma_trim_idempotent, push_char, trim, trim_str};

verus! {

/// Seconds after which a request to the site is abandoned.
pub const REQUEST_TIMEOUT_SECONDS: u64 = 10;

/// The browser whose fingerprint a client takes on.
#[derive(Debug, Clone, Copy, PartialEq, Eq, Structural)]
pub enum Emulation {
    Firefox109,
    Edge134,
    Chrome137,
}

/// ASCII lower case of one character; any other character stays.
pub open spec fn ascii_lower(c: char) -> char {
    if 'A' <= c && c <= 'Z' {
        ((c as u32) + 32) as char
    } else {
        c
    }
}

/// std's `str::to_ascii_lowercase`.
pub open spec fn ascii_lowercase(s: Seq<char>) -> Seq<char> {
    Seq::new(s.len(), |i: int| ascii_lower(s[i]))
}

/// Whether `pat` occurs in `s` as a contiguous part.
pub open spec fn has_part(s: Seq<char>, pat: Seq<char>) -> bool {
    exists|i: int| 0 <= i && i + pat.len() <= s.len() && #[trigger] s.subrange(i, i + pat.len()) == pat
}

/// The browser chosen for a user agent: Firefox when it names Firefox, Edge
/// when it names Edge (`edg`), Chrome otherwise, ignoring ASCII case.
pub open spec fn emulation_for(ua: Seq<char>) -> Emulation {
    let l = ascii_lowercase(ua);
    if has_part(l, "firefox"@) {
        Emulation::Firefox109
    } else if has_part(l, "edg"@) {
        Emulation::Edge134
    } else {
        Emulation::Chrome137
    }
}

fn lower_char(c: char) -> (r: char)
    ensures
        r == ascii_lower(c),
{
    if 'A' <= c && c <= 'Z' {
        let b = (c as u8) + 32;
        let r = b as char;
        assert(r == ((c as u32) + 32) as char);
        r
    } else {
        c
    }
}

fn lowercase_chars(s: &str) -> (r: Vec<char>)
    ensures
        r@ == ascii_lowercase(s@),
{
    let sc = chars_of(s);
    let mut out: Vec<char> = Vec::new();
    let mut i: usize = 0;
    while i < sc.len()
        invariant
            sc@ == s@,
            i <= sc@.len(),
            out@ == ascii_lowercase(sc@.take(i as int)),
        decreases sc@.len() - i,
    {
        out.push(lower_char(sc[i]));
        i = i + 1;
        assert(out@ =~= ascii_lowercase(sc@.take(i as int)));
    }
    assert(sc@.take(sc@.len() as int) =~= sc@);
    out
}

fn matches_at(s: &Vec<char>, pat: &Vec<char>, at: usize) -> (r: bool)
    requires
        at + pat@.len() <= s@.len(),
    ensures
        r == (s@.subrange(at as int, at + pat@.len()) == pat@),
{
    let mut k: usize = 0;
    assert(s@.len() == s.len());
    while k < pat.len()
        invariant
            at + pat@.len() <= s@.len(),
            s@.len() == s.len(),
            k <= pat@.len(),
            forall|j: int| 0 <= j < k ==> s@[at + j] == pat@[j],
        decreases pat@.len() - k,
    {
        if s[at + k] != pat[k] {
            assert(s@.subrange(at as int, at + pat@.len())[k as int] != pat@[k as int]);
            return false;
        }
        k = k + 1;
    }
    assert(s@.subrange(at as int, at + pat@.len()) =~= pat@);
    true
}

fn contains_part(s: &Vec<char>, pat: &Vec<char>) -> (r: bool)
    ensures
        r == has_part(s@, pat@),
{
    if pat.len() > s.len() {
        return false;
    }
    let last = s.len() - pat.len();
    let mut i: usize = 0;
    loop
        invariant
            last + pat@.len() == s@.len(),
            i <= last,
            forall|j: int| 0 <= j < i ==> #[trigger] s@.subrange(j, j + pat@.len()) != pat@,
        decreases last - i,
    {
        if matches_at(s, pat, i) {
            return true;
        }
        if i == last {
            return false;
        }
        i = i + 1;
    }
}

/// The browser a client presents itself as, chosen from the configured user
/// agent.
pub fn emulation_for_user_agent(ua: &str) -> (r: Emulation)
    ensures
        r == emulation_for(ua@),
{
    let lower = lowercase_chars(ua);
    let firefox = chars_of("firefox");
    let edge = chars_of("edg");
    if contains_part(&lower, &firefox) {
        Emulation::Firefox109
    } else if contains_part(&lower, &edge) {
        Emulation::Edge134
    } else {
        Emulation::Chrome137
    }
}

/// The pieces of `s` between semicolons, in order (one more than there are
/// semicolons).
pub open spec fn semicolon_pieces(s: Seq<char>) -> Seq<Seq<char>>
    decreases s.len(),
{
    if s.len() == 0 {
        seq![Seq::empty()]
    } else {
        let p = semicolon_pieces(s.drop_last());
        if s.last() == ';' {
            p.push(Seq::empty())
        } else {
            p.update(p.len() - 1, p.last().push(s.last()))
        }
    }
}

/// The trimmed pieces that are not empty, in order.
pub open spec fn kept_pieces(pieces: Seq<Seq<char>>) -> Seq<Seq<char>>
    decreases pieces.len(),
{
    if pieces.len() == 0 {
        Seq::empty()
    } else {
        let rest = kept_pieces(pieces.drop_last());
        let t = trim(pieces.last());
        if t.len() == 0 {
            rest
        } else {
            rest.push(t)
        }
    }
}

/// The `name=value` records of a browser `Cookie` header: the pieces between
/// semicolons, trimmed, without the empty ones.
pub open spec fn cookie_records(header: Seq<char>) -> Seq<Seq<char>> {
    kept_pieces(semicolon_pieces(header))
}

/// Kept pieces are non-empty and trimmed.
proof fn lemma_kept_pieces_trimmed(pieces: Seq<Seq<char>>)
    ensures
        forall|i: int| 0 <= i < kept_pieces(pieces).len() ==> (#[trigger] kept_pieces(pieces)[i]).len() > 0
            && trim(kept_pieces(pieces)[i]) == kept_pieces(pieces)[i],
    decreases pieces.len(),
{
    if pieces.len() > 0 {
        let rest = kept_pieces(pieces.drop_last());
        lemma_kept_pieces_trimmed(pieces.drop_last());
        lemma_trim_idempotent(pieces.last());
        let t = trim(pieces.last());
        if t.len() != 0 {
            assert forall|i: int| 0 <= i < kept_pieces(pieces).len() implies (#[trigger] kept_pieces(pieces)[i]).len() > 0
                && trim(kept_pieces(pieces)[i]) == kept_pieces(pieces)[i] by {
                if i < rest.len() {
                    assert(kept_pieces(pieces)[i] == rest[i]);
                }
            }
        }
    }
}

/// Every record of a cookie header is non-empty and has no white space
/// around it.
pub proof fn lemma_cookie_records_trimmed(header: Seq<char>)
    ensures
        forall|i: int| 0 <= i < cookie_records(header).len() ==> (#[trigger] cookie_records(header)[i]).len()
            > 0 && trim(cookie_records(header)[i]) == cookie_records(header)[i],
{
    lemma_kept_pieces_trimmed(semicolon_pieces(header));
}

proof fn lemma_pieces_nonempty(s: Seq<char>)
    ensures
        semicolon_pieces(s).len() >= 1,
    decreases s.len(),
{
    if s.len() > 0 {
        lemma_pieces_nonempty(s.drop_last());
    }
}

/// Splits a `Cookie` header into its records, one per cookie, to be added to
/// a cookie jar one at a time.
pub fn cookie_pairs(header: &str) -> (r: Vec<String>)
    ensures
        r.deep_view() == cookie_records(header@),
{
    let hc = chars_of(header);
    let mut out: Vec<String> = Vec::new();
    let mut current = String::new();
    let mut i: usize = 0;
    assert(hc@.take(0) =~= Seq::<char>::empty());
    assert(out.deep_view() =~= Seq::<Seq<char>>::empty());
    while i < hc.len()
        invariant
            hc@ == header@,
            i <= hc@.len(),
            semicolon_pieces(hc@.take(i as int)).len() >= 1,
            current@ == semicolon_pieces(hc@.take(i as int)).last(),
            out.deep_view() == kept_pieces(semicolon_pieces(hc@.take(i as int)).drop_last()),
        decreases hc@.len() - i,
    {
        let ghost prefix = hc@.take(i as int);
        let ghost p = semicolon_pieces(prefix);
        assert(hc@.take(i + 1).drop_last() =~= prefix);
        let c = hc[i];
        if c == ';' {
            let t = trim_str(current.as_str());
            let ghost before = out.deep_view();
            assert(p.push(Seq::<char>::empty()).drop_last() =~= p);
            assert(p =~= p.drop_last().push(p.last()));
            if !t.as_str().is_empty() {
                out.push(t);
                assert(out.deep_view() =~= before.push(trim(p.last())));
            } else {
                assert(t@.len() == 0);
            }
            current = String::new();
        } else {
            push_char(&mut current, c);
            assert(p.update(p.len() - 1, p.last().push(c)).drop_last() =~= p.drop_last());
        }
        i = i + 1;
    }
    assert(hc@.take(hc@.len() as int) =~= hc@);
    let ghost p = semicolon_pieces(hc@);
    let t = trim_str(current.as_str());
    let ghost before = out.deep_view();
    assert(p =~= p.drop_last().push(p.last()));
    if !t.as_str().is_empty() {
        out.push(t);
        assert(out.deep_view() =~= before.push(trim(p.last())));
    }
    out
}

/// The headers every request to the site carries, as name and value.
pub open spec fn site_headers() -> Seq<(Seq<char>, Seq<char>)> {
    seq![
        ("accept-language"@, "zh-TW,zh;q=0.9,en-US;q=0.8,en;q=0.6"@),
        ("accept"@, "text/html,application/xhtml+xml,application/xml;q=0.9,image/webp,image/apng,*/*;q=0.8"@),
        ("accept-encoding"@, "gzip, deflate"@),
        ("cache-control"@, "max-age=0"@),
        ("origin"@, "https://ani.gamer.com.tw"@),
    ]
}

/// The headers every request to the site carries, in the order they are set.
pub fn default_headers() -> (r: Vec<(String, String)>)
    ensures
        r.deep_view() == site_headers(),
{
    let mut v: Vec<(String, String)> = Vec::new();
    v.push((String::from_str("accept-language"), String::from_str("zh-TW,zh;q=0.9,en-US;q=0.8,en;q=0.6")));
    v.push((
        String::from_str("accept"),
        String::from_str("text/html,application/xhtml+xml,application/xml;q=0.9,image/webp,image/apng,*/*;q=0.8"),
    ));
    v.push((String::from_str("accept-encoding"), String::from_str("gzip, deflate")));
    v.push((String::from_str("cache-control"), String::from_str("max-age=0")));
    v.push((String::from_str("origin"), String::from_str("https://ani.gamer.com.tw")));
    assert(v.deep_view() =~= site_headers());
    v
}

} // verus!
