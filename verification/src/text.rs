//! Text building blocks shared by the library, each proved against a short
//! specification over `Seq<char>`.

use vstd::prelude::*;

verus! {

/// The ASCII digit character for `d` (0..=9).
pub open spec fn digit_char(d: nat) -> char {
    if d == 0 { '0' }
    else if d == 1 { '1' }
    else if d == 2 { '2' }
    else if d == 3 { '3' }
    else if d == 4 { '4' }
    else if d == 5 { '5' }
    else if d == 6 { '6' }
    else if d == 7 { '7' }
    else if d == 8 { '8' }
    else { '9' }
}

/// Decimal notation of a natural number, without sign or leading zeros
/// (what `Display` prints for an unsigned integer).
pub open spec fn decimal(n: nat) -> Seq<char>
    decreases n,
{
    if n < 10 {
        seq![digit_char(n)]
    } else {
        decimal(n / 10).push(digit_char(n % 10))
    }
}

/// Appends one character: std's `String::push`.
#[verifier::external_body]
pub(crate) fn push_char(s: &mut String, c: char)
    ensures
        final(s)@ == old(s)@.push(c),
{
    s.push(c);
}

fn digit(d: u64) -> (c: char)
    requires
        d < 10,
    ensures
        c == digit_char(d as nat),
{
    if d == 0 { '0' }
    else if d == 1 { '1' }
    else if d == 2 { '2' }
    else if d == 3 { '3' }
    else if d == 4 { '4' }
    else if d == 5 { '5' }
    else if d == 6 { '6' }
    else if d == 7 { '7' }
    else if d == 8 { '8' }
    else { '9' }
}

/// Appends the decimal notation of `n` to `s`.
pub fn push_decimal(s: &mut String, n: u64)
    ensures
        final(s)@ == old(s)@ + decimal(n as nat),
    decreases n,
{
    if n >= 10 {
        push_decimal(s, n / 10);
        push_char(s, digit(n % 10));
        assert(decimal(n as nat) == decimal((n / 10) as nat).push(digit_char((n % 10) as nat)));
        assert(final(s)@ =~= old(s)@ + decimal(n as nat));
    } else {
        push_char(s, digit(n));
        assert(final(s)@ =~= old(s)@ + decimal(n as nat));
    }
}

/// The decimal notation of `n` as a new string.
pub fn decimal_string(n: u64) -> (r: String)
    ensures
        r@ == decimal(n as nat),
{
    let mut s = String::new();
    push_decimal(&mut s, n);
    assert(s@ =~= decimal(n as nat));
    s
}

/// Concatenation of two strings as a new string.
pub fn concat(a: &str, b: &str) -> (r: String)
    ensures
        r@ == a@ + b@,
{
    let mut s = String::from_str(a);
    s.append(b);
    s
}

} // verus!

verus! {

/// The characters of `s`, as a vector.
pub fn chars_of(s: &str) -> (r: Vec<char>)
    ensures
        r@ == s@,
{
    let n = s.unicode_len();
    let mut v: Vec<char> = Vec::new();
    let mut i: usize = 0;
    while i < n
        invariant
            n == s@.len(),
            i <= n,
            v@ == s@.subrange(0, i as int),
        decreases n - i,
    {
        let c = s.get_char(i);
        v.push(c);
        i = i + 1;
        assert(v@ =~= s@.subrange(0, i as int));
    }
    assert(v@ =~= s@);
    v
}

/// A string made of the characters `v[from..to]`.
pub fn string_of_range(v: &Vec<char>, from: usize, to: usize) -> (r: String)
    requires
        from <= to <= v@.len(),
    ensures
        r@ == v@.subrange(from as int, to as int),
{
    let mut s = String::new();
    let mut i = from;
    while i < to
        invariant
            from <= i <= to <= v@.len(),
            s@ == v@.subrange(from as int, i as int),
        decreases to - i,
    {
        push_char(&mut s, v[i]);
        i = i + 1;
        assert(s@ =~= v@.subrange(from as int, i as int));
    }
    s
}

/// `s` with every non-overlapping occurrence of `pat`, scanned from the left,
/// replaced by `rep`; an empty `pat` matches before every character and at the
/// end. This is what std's `str::replace` documents.
pub open spec fn replace_all(s: Seq<char>, pat: Seq<char>, rep: Seq<char>) -> Seq<char>
    decreases s.len(),
{
    if pat.len() == 0 {
        if s.len() == 0 {
            rep
        } else {
            rep + seq![s[0]] + replace_all(s.skip(1), pat, rep)
        }
    } else if s.len() < pat.len() {
        s
    } else if s.take(pat.len() as int) == pat {
        rep + replace_all(s.skip(pat.len() as int), pat, rep)
    } else {
        seq![s[0]] + replace_all(s.skip(1), pat, rep)
    }
}

/// Text in which the pattern's first character never occurs is passed over
/// unchanged.
pub proof fn lemma_replace_all_skips(a: Seq<char>, b: Seq<char>, pat: Seq<char>, rep: Seq<char>)
    requires
        pat.len() > 0,
        !a.contains(pat[0]),
    ensures
        replace_all(a + b, pat, rep) == a + replace_all(b, pat, rep),
    decreases a.len(),
{
    if a.len() > 0 {
        let s = a + b;
        assert(s[0] == a[0]);
        assert(a.skip(1) + b =~= s.skip(1));
        assert forall|i: int| 0 <= i < a.skip(1).len() implies a.skip(1)[i] != pat[0] by {
            assert(a.skip(1)[i] == a[i + 1]);
        }
        lemma_replace_all_skips(a.skip(1), b, pat, rep);
        if s.len() < pat.len() {
            assert(b.len() < pat.len());
            assert(a + b =~= seq![a[0]] + (a.skip(1) + b));
            assert(s == a + b);
        } else {
            assert(s.take(pat.len() as int)[0] != pat[0]);
            assert(seq![s[0]] + (a.skip(1) + replace_all(b, pat, rep)) =~= a + replace_all(b, pat, rep));
        }
    } else {
        assert(a + b =~= b);
    }
}

/// Text in which the pattern's first character never occurs has nothing
/// replaced.
pub proof fn lemma_replace_all_none(a: Seq<char>, pat: Seq<char>, rep: Seq<char>)
    requires
        pat.len() > 0,
        !a.contains(pat[0]),
    ensures
        replace_all(a, pat, rep) == a,
{
    lemma_replace_all_skips(a, Seq::empty(), pat, rep);
    assert(a + Seq::<char>::empty() =~= a);
}

/// An occurrence at the front is replaced, and the rest follows.
pub proof fn lemma_replace_all_front(b: Seq<char>, pat: Seq<char>, rep: Seq<char>)
    requires
        pat.len() > 0,
    ensures
        replace_all(pat + b, pat, rep) == rep + replace_all(b, pat, rep),
{
    let s = pat + b;
    assert(s.take(pat.len() as int) =~= pat);
    assert(s.skip(pat.len() as int) =~= b);
}

/// Trailing white space does not change what trimming gives.
pub proof fn lemma_trim_trailing_space(x: Seq<char>, w: Seq<char>)
    requires
        forall|i: int| 0 <= i < w.len() ==> is_white_space(#[trigger] w[i]),
    ensures
        trim(x + w) == trim(x),
    decreases x.len(),
{
    lemma_trim_end_spaces(trim_start(x), w);
    if x.len() > 0 && is_white_space(x[0]) {
        assert((x + w).skip(1) =~= x.skip(1) + w);
        lemma_trim_trailing_space(x.skip(1), w);
    } else if x.len() > 0 {
        assert((x + w)[0] == x[0]);
    } else {
        assert(x + w =~= w);
        lemma_trim_start_spaces(w);
        assert(x =~= Seq::<char>::empty());
    }
}

proof fn lemma_trim_start_spaces(w: Seq<char>)
    requires
        forall|i: int| 0 <= i < w.len() ==> is_white_space(#[trigger] w[i]),
    ensures
        trim_start(w) == Seq::<char>::empty(),
    decreases w.len(),
{
    if w.len() > 0 {
        assert(is_white_space(w[0]));
        assert forall|i: int| 0 <= i < w.skip(1).len() implies is_white_space(#[trigger] w.skip(1)[i]) by {
            assert(w.skip(1)[i] == w[i + 1]);
        }
        lemma_trim_start_spaces(w.skip(1));
    }
}

proof fn lemma_trim_end_spaces(y: Seq<char>, w: Seq<char>)
    requires
        forall|i: int| 0 <= i < w.len() ==> is_white_space(#[trigger] w[i]),
    ensures
        trim_end(y + w) == trim_end(y),
    decreases w.len(),
{
    if w.len() > 0 {
        assert(is_white_space((y + w).last()));
        assert((y + w).drop_last() =~= y + w.drop_last());
        assert forall|i: int| 0 <= i < w.drop_last().len() implies is_white_space(#[trigger] w.drop_last()[i]) by {
            assert(w.drop_last()[i] == w[i]);
        }
        lemma_trim_end_spaces(y, w.drop_last());
    } else {
        assert(y + w =~= y);
    }
}

fn matches_at(sc: &Vec<char>, pc: &Vec<char>, i: usize) -> (r: bool)
    requires
        i + pc@.len() <= sc@.len(),
    ensures
        r == (sc@.skip(i as int).take(pc@.len() as int) == pc@),
{
    let total = sc.len();
    let mut j: usize = 0;
    while j < pc.len()
        invariant
            total == sc@.len(),
            i + pc@.len() <= sc@.len(),
            j <= pc@.len(),
            forall|k: int| 0 <= k < j ==> sc@[i + k] == pc@[k],
        decreases pc@.len() - j,
    {
        if sc[i + j] != pc[j] {
            assert(sc@.skip(i as int).take(pc@.len() as int)[j as int] != pc@[j as int]);
            return false;
        }
        j = j + 1;
    }
    assert(sc@.skip(i as int).take(pc@.len() as int) =~= pc@);
    true
}

fn push_all(s: &mut String, v: &Vec<char>)
    ensures
        final(s)@ == old(s)@ + v@,
{
    let mut i: usize = 0;
    while i < v.len()
        invariant
            i <= v@.len(),
            s@ == old(s)@ + v@.take(i as int),
        decreases v@.len() - i,
    {
        push_char(s, v[i]);
        i = i + 1;
        assert(s@ =~= old(s)@ + v@.take(i as int));
    }
    assert(v@.take(v@.len() as int) =~= v@);
}

/// std's `str::replace`: every occurrence of `pat` in `s` replaced by `rep`.
pub fn replace_str(s: &str, pat: &str, rep: &str) -> (r: String)
    ensures
        r@ == replace_all(s@, pat@, rep@),
{
    let sc = chars_of(s);
    let pc = chars_of(pat);
    let rc = chars_of(rep);
    let n = sc.len();
    let m = pc.len();
    let mut out = String::new();
    let mut i: usize = 0;
    assert(sc@.skip(0) =~= sc@);
    assert(out@ + replace_all(sc@.skip(0), pc@, rc@) =~= replace_all(sc@, pc@, rc@));
    while i < n
        invariant
            sc@ == s@,
            pc@ == pat@,
            rc@ == rep@,
            n == sc@.len(),
            m == pc@.len(),
            i <= n,
            out@ + replace_all(sc@.skip(i as int), pc@, rc@) == replace_all(sc@, pc@, rc@),
        decreases n - i,
    {
        let ghost rest = sc@.skip(i as int);
        let ghost out0 = out@;
        if m == 0 {
            push_all(&mut out, &rc);
            push_char(&mut out, sc[i]);
            assert(rest.skip(1) =~= sc@.skip(i + 1));
            assert(replace_all(rest, pc@, rc@) == rc@ + seq![rest[0]] + replace_all(rest.skip(1), pc@, rc@));
            assert(out@ + replace_all(sc@.skip(i + 1), pc@, rc@) =~= out0 + replace_all(rest, pc@, rc@));
            i = i + 1;
        } else if n - i >= m && matches_at(&sc, &pc, i) {
            push_all(&mut out, &rc);
            assert(rest.skip(m as int) =~= sc@.skip(i + m));
            assert(rest.take(m as int) == pc@);
            assert(out@ + replace_all(sc@.skip(i + m), pc@, rc@) =~= out0 + replace_all(rest, pc@, rc@));
            i = i + m;
        } else {
            push_char(&mut out, sc[i]);
            assert(rest.skip(1) =~= sc@.skip(i + 1));
            assert(out@ + replace_all(sc@.skip(i + 1), pc@, rc@) =~= out0 + replace_all(rest, pc@, rc@));
            i = i + 1;
        }
    }
    assert(sc@.skip(n as int) =~= Seq::<char>::empty());
    if m == 0 {
        push_all(&mut out, &rc);
    }
    assert(out@ =~= replace_all(sc@, pc@, rc@));
    out
}

} // verus!

verus! {

/// Unicode `White_Space`, the property that std's `char::is_whitespace`
/// tests.
pub open spec fn is_white_space(c: char) -> bool {
    let u = c as u32;
    ||| 0x09 <= u <= 0x0D
    ||| u == 0x20
    ||| u == 0x85
    ||| u == 0xA0
    ||| u == 0x1680
    ||| 0x2000 <= u <= 0x200A
    ||| u == 0x2028
    ||| u == 0x2029
    ||| u == 0x202F
    ||| u == 0x205F
    ||| u == 0x3000
}

/// Whether `c` is Unicode white space.
pub fn white_space(c: char) -> (r: bool)
    ensures
        r == is_white_space(c),
{
    let u = c as u32;
    (0x09 <= u && u <= 0x0D) || u == 0x20 || u == 0x85 || u == 0xA0 || u == 0x1680 || (0x2000
        <= u && u <= 0x200A) || u == 0x2028 || u == 0x2029 || u == 0x202F || u == 0x205F || u
        == 0x3000
}

/// `s` without its leading white space.
pub open spec fn trim_start(s: Seq<char>) -> Seq<char>
    decreases s.len(),
{
    if s.len() > 0 && is_white_space(s[0]) {
        trim_start(s.skip(1))
    } else {
        s
    }
}

/// `s` without its trailing white space.
pub open spec fn trim_end(s: Seq<char>) -> Seq<char>
    decreases s.len(),
{
    if s.len() > 0 && is_white_space(s.last()) {
        trim_end(s.drop_last())
    } else {
        s
    }
}

/// `s` without leading and trailing white space: std's `str::trim`.
pub open spec fn trim(s: Seq<char>) -> Seq<char> {
    trim_end(trim_start(s))
}

/// Trimming the start leaves no white space in front.
proof fn lemma_trim_start_clean(s: Seq<char>)
    ensures
        trim_start(s).len() == 0 || !is_white_space(trim_start(s)[0]),
    decreases s.len(),
{
    if s.len() > 0 && is_white_space(s[0]) {
        lemma_trim_start_clean(s.skip(1));
    }
}

/// Trimming the end leaves no white space behind, and keeps a prefix.
proof fn lemma_trim_end_clean(s: Seq<char>)
    ensures
        trim_end(s).len() == 0 || !is_white_space(trim_end(s).last()),
        trim_end(s).len() <= s.len(),
        trim_end(s) == s.take(trim_end(s).len() as int),
    decreases s.len(),
{
    if s.len() > 0 && is_white_space(s.last()) {
        lemma_trim_end_clean(s.drop_last());
        let n = trim_end(s).len() as int;
        assert(s.drop_last().take(n) =~= s.take(n));
    } else {
        assert(s.take(s.len() as int) =~= s);
    }
}

/// Trimming twice gives what trimming once gives.
pub proof fn lemma_trim_idempotent(s: Seq<char>)
    ensures
        trim(trim(s)) == trim(s),
{
    let a = trim_start(s);
    let b = trim_end(a);
    lemma_trim_start_clean(s);
    lemma_trim_end_clean(a);
    if b.len() > 0 {
        assert(b[0] == a[0]);
    }
    assert(trim_start(b) == b);
}

/// std's `str::trim`, as a new string.
pub fn trim_str(s: &str) -> (r: String)
    ensures
        r@ == trim(s@),
{
    let sc = chars_of(s);
    let n = sc.len();
    let mut i: usize = 0;
    assert(sc@.skip(0) =~= sc@);
    while i < n && white_space(sc[i])
        invariant
            sc@ == s@,
            n == sc@.len(),
            i <= n,
            trim_start(sc@) == trim_start(sc@.skip(i as int)),
        decreases n - i,
    {
        assert(sc@.skip(i as int).skip(1) =~= sc@.skip(i + 1));
        i = i + 1;
    }
    let ghost front = sc@.skip(i as int);
    assert(trim_start(sc@) == front);
    let mut j: usize = n;
    assert(sc@.subrange(i as int, n as int) =~= front);
    while j > i && white_space(sc[j - 1])
        invariant
            sc@ == s@,
            n == sc@.len(),
            i <= j <= n,
            front == sc@.skip(i as int),
            trim_end(front) == trim_end(sc@.subrange(i as int, j as int)),
        decreases j,
    {
        assert(sc@.subrange(i as int, j as int).drop_last() =~= sc@.subrange(i as int, j - 1));
        j = j - 1;
    }
    assert(trim_end(sc@.subrange(i as int, j as int)) == sc@.subrange(i as int, j as int));
    string_of_range(&sc, i, j)
}

} // verus!

verus! {

/// Whether two strings hold the same characters.
pub fn str_equal(a: &str, b: &str) -> (r: bool)
    ensures
        r == (a@ == b@),
{
    let ac = chars_of(a);
    let bc = chars_of(b);
    if ac.len() != bc.len() {
        return false;
    }
    let mut i: usize = 0;
    while i < ac.len()
        invariant
            ac@ == a@,
            bc@ == b@,
            ac@.len() == bc@.len(),
            i <= ac@.len(),
            forall|k: int| 0 <= k < i ==> ac@[k] == bc@[k],
        decreases ac@.len() - i,
    {
        if ac[i] != bc[i] {
            return false;
        }
        i = i + 1;
    }
    assert(ac@ =~= bc@);
    true
}

/// `[x]`: `x` between square brackets.
pub open spec fn bracketed(x: Seq<char>) -> Seq<char> {
    seq!['['] + x + seq![']']
}

/// Builds `[x]`.
pub fn bracket(x: &str) -> (r: String)
    ensures
        r@ == bracketed(x@),
{
    let mut s = String::new();
    push_char(&mut s, '[');
    s.append(x);
    push_char(&mut s, ']');
    assert(s@ =~= bracketed(x@));
    s
}

} // verus!

verus! {

/// Whether `c` is an ASCII digit.
pub open spec fn is_digit(c: char) -> bool {
    '0' <= c <= '9'
}

/// The value of an ASCII digit.
pub open spec fn digit_value(c: char) -> nat {
    ((c as u32) - ('0' as u32)) as nat
}

/// The value of a string of decimal digits.
pub open spec fn digits_value(s: Seq<char>) -> nat
    decreases s.len(),
{
    if s.len() == 0 {
        0
    } else {
        digits_value(s.drop_last()) * 10 + digit_value(s.last())
    }
}

/// The digits part of a number: the text after an optional leading `+`.
pub open spec fn unsigned_digits(s: Seq<char>) -> Seq<char> {
    if s.len() > 0 && s[0] == '+' {
        s.skip(1)
    } else {
        s
    }
}

/// The value of `d` when it is a non-empty run of decimal digits whose value
/// fits in 32 bits.
pub open spec fn digits_u32(d: Seq<char>) -> Option<u32> {
    if d.len() > 0 && (forall|i: int| 0 <= i < d.len() ==> is_digit(#[trigger] d[i]))
        && digits_value(d) <= u32::MAX {
        Some(digits_value(d) as u32)
    } else {
        None
    }
}

/// What std's `str::parse::<u32>` gives: an optional `+` followed by at least
/// one decimal digit and nothing else, with a value that fits in 32 bits.
pub open spec fn parsed_u32(s: Seq<char>) -> Option<u32> {
    digits_u32(unsigned_digits(s))
}

proof fn lemma_digits_value_grows(d: Seq<char>, i: int)
    requires
        0 <= i <= d.len(),
        forall|k: int| 0 <= k < d.len() ==> is_digit(#[trigger] d[k]),
    ensures
        digits_value(d) >= digits_value(d.take(i)),
    decreases d.len() - i,
{
    if i < d.len() {
        lemma_digits_value_grows(d, i + 1);
        assert(d.take(i + 1).drop_last() =~= d.take(i));
    } else {
        assert(d.take(i) =~= d);
    }
}

/// Parses a decimal `u32` as std's `str::parse::<u32>` does.
pub fn parse_u32(s: &str) -> (r: Option<u32>)
    ensures
        r == parsed_u32(s@),
{
    let sc = chars_of(s);
    let n = sc.len();
    let start: usize = if n > 0 && sc[0] == '+' { 1 } else { 0 };
    let ghost d = unsigned_digits(s@);
    assert(d =~= sc@.skip(start as int));
    if start >= n {
        return None;
    }
    let mut acc: u64 = 0;
    let mut i: usize = start;
    assert(d.take(0) =~= Seq::<char>::empty());
    while i < n
        invariant
            sc@ == s@,
            n == sc@.len(),
            start <= i <= n,
            d == sc@.skip(start as int),
            d == unsigned_digits(s@),
            forall|k: int| 0 <= k < i - start ==> is_digit(#[trigger] d[k]),
            acc == digits_value(d.take(i - start)),
            acc <= u32::MAX,
        decreases n - i,
    {
        let c = sc[i];
        assert(d[i - start] == c);
        if !('0' <= c && c <= '9') {
            assert(!is_digit(d[i - start]));
            assert(!(forall|q: int| 0 <= q < d.len() ==> is_digit(#[trigger] d[q])));
            assert(parsed_u32(s@) is None);
            return None;
        }
        let ghost k = i - start;
        assert(d.take(k + 1).drop_last() =~= d.take(k));
        assert(d.take(k + 1).last() == c);
        acc = acc * 10 + ((c as u32) - ('0' as u32)) as u64;
        assert(acc == digits_value(d.take(k + 1)));
        i = i + 1;
        if acc > 0xFFFF_FFFF {
            proof {
                if forall|q: int| 0 <= q < d.len() ==> is_digit(#[trigger] d[q]) {
                    lemma_digits_value_grows(d, k + 1);
                    assert(digits_value(d) > u32::MAX);
                }
                assert(parsed_u32(s@) is None);
            }
            return None;
        }
    }
    assert(d.take(n - start) =~= d);
    Some(acc as u32)
}

} // verus!
