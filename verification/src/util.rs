//! Small helpers: site origins, the referer header and path-safe names.

use vstd::prelude::*;
use crate::text::{chars_of, decimal, push_char, push_decimal};

verus! {

/// Origin of the anime site.
pub const ORIGIN: &'static str = "https://ani.gamer.com.tw";

/// Origin of the site's JSON API.
pub const API_ORIGIN: &'static str = "https://api.gamer.com.tw";

/// The referer that the site expects for episode `sn`:
/// `{ORIGIN}/animeVideo.php?sn={sn}`.
pub open spec fn referer_spec(sn: nat) -> Seq<char> {
    "https://ani.gamer.com.tw/animeVideo.php?sn="@ + decimal(sn)
}

/// Builds the referer URL of the video page of episode `sn`.
pub fn get_referer(sn: u32) -> (r: String)
    ensures
        r@ == referer_spec(sn as nat),
{
    let mut s = String::from_str("https://ani.gamer.com.tw/animeVideo.php?sn=");
    push_decimal(&mut s, sn as u64);
    s
}


/// Characters that file systems refuse in a path segment.
pub open spec fn is_path_reserved(c: char) -> bool {
    c == '|' || c == '?' || c == '*' || c == '<' || c == '>' || c == '"' || c == ':' || c == '\\'
        || c == '/'
}

/// The full-width look-alike that stands for a reserved character; any other
/// character stands for itself.
pub open spec fn safe_char(c: char) -> char {
    if c == '|' {
        '｜'
    } else if c == '?' {
        '？'
    } else if c == '*' {
        '＊'
    } else if c == '<' {
        '＜'
    } else if c == '>' {
        '＞'
    } else if c == '"' {
        '＂'
    } else if c == ':' {
        '：'
    } else if c == '\\' {
        '＼'
    } else if c == '/' {
        '／'
    } else {
        c
    }
}

/// `s` with every reserved character replaced by its full-width look-alike.
pub open spec fn sanitized(s: Seq<char>) -> Seq<char> {
    Seq::new(s.len(), |i: int| safe_char(s[i]))
}

fn safe_char_exec(c: char) -> (r: char)
    ensures
        r == safe_char(c),
{
    if c == '|' {
        '｜'
    } else if c == '?' {
        '？'
    } else if c == '*' {
        '＊'
    } else if c == '<' {
        '＜'
    } else if c == '>' {
        '＞'
    } else if c == '"' {
        '＂'
    } else if c == ':' {
        '：'
    } else if c == '\\' {
        '＼'
    } else if c == '/' {
        '／'
    } else {
        c
    }
}

/// Makes `path` usable as one path segment: each of `| ? * < > " : \\ /` is
/// replaced by its full-width form, every other character is kept.
pub fn santitize_path_segment(path: &str) -> (r: String)
    ensures
        r@ == sanitized(path@),
{
    let pc = chars_of(path);
    let mut out = String::new();
    let mut i: usize = 0;
    while i < pc.len()
        invariant
            pc@ == path@,
            i <= pc@.len(),
            out@ == sanitized(pc@.take(i as int)),
        decreases pc@.len() - i,
    {
        push_char(&mut out, safe_char_exec(pc[i]));
        i = i + 1;
        assert(out@ =~= sanitized(pc@.take(i as int)));
    }
    assert(pc@.take(pc@.len() as int) =~= pc@);
    out
}

/// Sanitising leaves no reserved character, keeps the number of characters,
/// and changes nothing in a segment that had no reserved character.
pub proof fn lemma_sanitized_is_safe(s: Seq<char>)
    ensures
        sanitized(s).len() == s.len(),
        forall|i: int| 0 <= i < s.len() ==> !is_path_reserved(#[trigger] sanitized(s)[i]),
        (forall|i: int| 0 <= i < s.len() ==> !is_path_reserved(#[trigger] s[i])) ==> sanitized(s)
            == s,
{
    if forall|i: int| 0 <= i < s.len() ==> !is_path_reserved(#[trigger] s[i]) {
        assert(sanitized(s) =~= s);
    }
}

/// Sanitising twice gives the same segment as sanitising once.
pub proof fn lemma_sanitized_idempotent(s: Seq<char>)
    ensures
        sanitized(sanitized(s)) == sanitized(s),
{
    assert(sanitized(sanitized(s)) =~= sanitized(s));
}

/// The characters that random strings are drawn from.
pub open spec fn random_alphabet() -> Seq<char> {
    "abcdefghijklmnopqrstuvwxyz0123456789"@
}

#[verifier::external_type_specification]
#[verifier::external_body]
pub struct ExThreadRng(rand::rngs::ThreadRng);

/// `rand::rng()`: a handle to the thread-local random generator. Nothing is
/// stated of the handle.
#[verifier::external_body]
fn thread_rng() -> rand::rngs::ThreadRng {
    rand::rng()
}

/// `rand::seq::IndexedRandom::choose` on a slice of characters: `None` exactly
/// when the slice is empty, otherwise one of its elements. Which element comes
/// back rests on chance and is left unsaid.
#[verifier::external_body]
fn choose_char(choices: &[char], rng: &mut rand::rngs::ThreadRng) -> (r: Option<char>)
    ensures
        r is None <==> choices@.len() == 0,
        r matches Some(c) ==> choices@.contains(c),
{
    rand::seq::IndexedRandom::choose(choices, rng).copied()
}

/// A random string of `len` characters, each a lower-case ASCII letter or an
/// ASCII digit.
pub fn random_string(len: u32) -> (r: String)
    ensures
        r@.len() == len,
        forall|i: int| 0 <= i < r@.len() ==> random_alphabet().contains(#[trigger] r@[i]),
{
    let alphabet = chars_of("abcdefghijklmnopqrstuvwxyz0123456789");
    proof {
        reveal_strlit("abcdefghijklmnopqrstuvwxyz0123456789");
    }
    assert(alphabet@.len() == 36);
    let mut rng = thread_rng();
    let mut s = String::new();
    let mut k: u32 = 0;
    while k < len
        invariant
            alphabet@ == random_alphabet(),
            alphabet@.len() == 36,
            k <= len,
            s@.len() == k,
            forall|i: int| 0 <= i < s@.len() ==> random_alphabet().contains(#[trigger] s@[i]),
        decreases len - k,
    {
        let picked = choose_char(alphabet.as_slice(), &mut rng);
        match picked {
            Some(c) => {
                push_char(&mut s, c);
            },
            None => {},
        }
        k = k + 1;
    }
    s
}

/// What `url` makes of `input` read against the absolute URL `base`:
/// `Url::parse(base)` followed by `Url::join(input)`, as the serialisation of
/// the resulting URL, or the message of the first `ParseError`.
pub uninterp spec fn url_joined(base: Seq<char>, input: Seq<char>) -> Result<Seq<char>, Seq<char>>;

/// Parses `base` with `url::Url::parse`, resolves `input` against it with
/// `url::Url::join` and returns the result's serialisation; a `ParseError` of
/// either call becomes its message. The outcome is named, not stated.
#[verifier::external_body]
pub(crate) fn join_url(base: &str, input: &str) -> (r: Result<String, String>)
    ensures
        match url_joined(base@, input@) {
            Ok(u) => r matches Ok(s) && s@ == u,
            Err(e) => r matches Err(m) && m@ == e,
        },
{
    match url::Url::parse(base).and_then(|b| b.join(input)) {
        Ok(u) => Ok(u.to_string()),
        Err(e) => Err(e.to_string()),
    }
}

/// A file to fetch: the URL it resolved to, or why it did not resolve, and
/// the name it is stored under.
#[derive(Debug, PartialEq, Eq)]
pub struct FileTask {
    pub url: Result<String, String>,
    pub name: String,
}

impl View for FileTask {
    type V = (Result<Seq<char>, Seq<char>>, Seq<char>);

    open spec fn view(&self) -> (Result<Seq<char>, Seq<char>>, Seq<char>) {
        (
            match self.url {
                Ok(u) => Ok(u@),
                Err(m) => Err(m@),
            },
            self.name@,
        )
    }
}

/// The abstract values of a list of file tasks.
pub open spec fn tasks_view(v: Seq<FileTask>) -> Seq<(Result<Seq<char>, Seq<char>>, Seq<char>)> {
    v.map_values(|t: FileTask| t@)
}

/// Each of `inputs` resolved against `base` on its own, beside the input
/// itself, in order.
pub open spec fn joined_each(base: Seq<char>, inputs: Seq<Seq<char>>) -> Seq<(Result<Seq<char>, Seq<char>>, Seq<char>)> {
    inputs.map_values(|u: Seq<char>| (url_joined(base, u), u))
}

/// Resolves every input against `base` on its own, keeping each input as
/// the name of its file; an input that does not resolve keeps its error.
pub fn join_each(base: &str, inputs: &Vec<String>) -> (r: Vec<FileTask>)
    ensures
        tasks_view(r@) == joined_each(base@, inputs.deep_view()),
{
    let mut out: Vec<FileTask> = Vec::new();
    let mut i: usize = 0;
    while i < inputs.len()
        invariant
            i <= inputs@.len(),
            tasks_view(out@) == joined_each(base@, inputs.deep_view()).take(i as int),
        decreases inputs@.len() - i,
    {
        let ghost before = tasks_view(out@);
        let task = FileTask { url: join_url(base, inputs[i].as_str()), name: inputs[i].clone() };
        assert(task@ == (url_joined(base@, inputs@[i as int]@), inputs@[i as int]@));
        out.push(task);
        assert(tasks_view(out@) =~= before.push(task@));
        i = i + 1;
        assert(joined_each(base@, inputs.deep_view()).take(i as int) =~= before.push(task@));
    }
    assert(joined_each(base@, inputs.deep_view()).take(inputs@.len() as int) =~= joined_each(base@, inputs.deep_view()));
    out
}

/// What `url` makes of the absolute URL `base` once its path is set to
/// `path`, its query to `query`, and each name and value of `pairs` is
/// appended, in order, to the query: `Url::parse`, `Url::set_path`,
/// `Url::set_query` and `append_pair` through `Url::query_pairs_mut`, as the
/// serialisation of the result, or the message of the `ParseError`.
pub uninterp spec fn url_built(base: Seq<char>, path: Seq<char>, query: Option<Seq<char>>, pairs: Seq<(Seq<char>, Seq<char>)>) -> Result<Seq<char>, Seq<char>>;

/// Parses `base` with `url::Url::parse`, sets its path and query with
/// `Url::set_path` and `Url::set_query`, appends each pair with
/// `Url::query_pairs_mut` and returns the serialisation; a `ParseError`
/// becomes its message. The outcome is named, not stated.
#[verifier::external_body]
pub(crate) fn build_url(base: &str, path: &str, query: Option<&str>, pairs: &Vec<(String, String)>) -> (r: Result<String, String>)
    ensures
        match url_built(base@, path@, query.deep_view(), pairs.deep_view()) {
            Ok(u) => r matches Ok(s) && s@ == u,
            Err(e) => r matches Err(m) && m@ == e,
        },
{
    match url::Url::parse(base) {
        Ok(mut u) => {
            u.set_path(path);
            u.set_query(query);
            for (name, value) in pairs.iter() {
                u.query_pairs_mut().append_pair(name, value);
            }
            Ok(u.to_string())
        },
        Err(e) => Err(e.to_string()),
    }
}

} // verus!
