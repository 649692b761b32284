//! Text helpers: trimming, searching, case-insensitive comparison and decimal
//! rendering, each stated over the characters of a string.

use vstd::prelude::*;

verus! {

/// The Unicode `White_Space` property.
pub open spec fn is_white_space_spec(c: char) -> bool {
    let u = c as u32;
    ||| 0x9 <= u <= 0xd
    ||| u == 0x20
    ||| u == 0x85
    ||| u == 0xa0
    ||| u == 0x1680
    ||| 0x2000 <= u <= 0x200a
    ||| u == 0x2028
    ||| u == 0x2029
    ||| u == 0x202f
    ||| u == 0x205f
    ||| u == 0x3000
}

/// `s` without its leading white space.
pub open spec fn trimmed_start(s: Seq<char>) -> Seq<char>
    decreases s.len(),
{
    if s.len() > 0 && is_white_space_spec(s[0]) {
        trimmed_start(s.drop_first())
    } else {
        s
    }
}

/// `s` without its trailing white space.
pub open spec fn trimmed_end(s: Seq<char>) -> Seq<char>
    decreases s.len(),
{
    if s.len() > 0 && is_white_space_spec(s.last()) {
        trimmed_end(s.drop_last())
    } else {
        s
    }
}

/// `s` without leading and trailing white space.
pub open spec fn trimmed(s: Seq<char>) -> Seq<char> {
    trimmed_end(trimmed_start(s))
}

/// Whether nothing but white space is in `s`.
pub open spec fn is_blank_spec(s: Seq<char>) -> bool {
    trimmed(s).len() == 0
}

/// `s` without any trailing `c`.
pub open spec fn without_trailing(s: Seq<char>, c: char) -> Seq<char>
    decreases s.len(),
{
    if s.len() > 0 && s.last() == c {
        without_trailing(s.drop_last(), c)
    } else {
        s
    }
}

/// Whether `pat` stands in `s` at position `i`.
pub open spec fn stands_at(s: Seq<char>, pat: Seq<char>, i: int) -> bool {
    &&& 0 <= i
    &&& i + pat.len() <= s.len()
    &&& s.subrange(i, i + pat.len()) == pat
}

/// The first position at or after `k` where `pat` stands in `s`.
pub open spec fn find_from_spec(s: Seq<char>, pat: Seq<char>, k: int) -> Option<int>
    decreases s.len() - k + 1,
{
    if k < 0 || k + pat.len() > s.len() {
        None
    } else if stands_at(s, pat, k) {
        Some(k)
    } else {
        find_from_spec(s, pat, k + 1)
    }
}

/// What `find_from_spec` finds stands there, and nowhere before.
pub proof fn lemma_found(s: Seq<char>, pat: Seq<char>, k: int)
    requires
        0 <= k,
    ensures
        match find_from_spec(s, pat, k) {
            Some(i) => {
                &&& k <= i
                &&& stands_at(s, pat, i)
                &&& forall|m: int| k <= m < i ==> !#[trigger] stands_at(s, pat, m)
            },
            None => forall|m: int| k <= m ==> !#[trigger] stands_at(s, pat, m),
        },
    decreases s.len() - k + 1,
{
    if k + pat.len() <= s.len() && !stands_at(s, pat, k) {
        lemma_found(s, pat, k + 1);
    }
}

/// The first place where a text stands is the one that is found.
pub proof fn lemma_first_is_found(s: Seq<char>, pat: Seq<char>, k: int, i: int)
    requires
        0 <= k <= i,
        stands_at(s, pat, i),
        forall|m: int| k <= m < i ==> !#[trigger] stands_at(s, pat, m),
    ensures
        find_from_spec(s, pat, k) == Some(i),
{
    lemma_found(s, pat, k);
}

/// ASCII lower case of one character; other characters are unchanged.
pub open spec fn ascii_lower(c: char) -> u32 {
    let u = c as u32;
    if 0x41 <= u <= 0x5a {
        (u + 0x20) as u32
    } else {
        u
    }
}

/// ASCII upper case of one character; other characters are unchanged.
pub open spec fn ascii_upper(c: char) -> char {
    if 'a' <= c <= 'z' {
        ((c as u32) - 0x20) as char
    } else {
        c
    }
}

/// A text with its ASCII letters in upper case.
pub open spec fn ascii_uppercase(s: Seq<char>) -> Seq<char> {
    s.map_values(|c: char| ascii_upper(c))
}

/// Equality up to ASCII case.
pub open spec fn same_ignoring_ascii_case(a: Seq<char>, b: Seq<char>) -> bool {
    &&& a.len() == b.len()
    &&& forall|i: int| #![trigger a[i]] 0 <= i < a.len() ==> ascii_lower(a[i]) == ascii_lower(b[i])
}

/// The character of a decimal digit.
pub open spec fn digit_char(d: nat) -> char {
    (('0' as u32) + d) as char
}

/// A number in decimal, without leading zeros.
pub open spec fn decimal(n: nat) -> Seq<char>
    decreases n,
{
    if n < 10 {
        seq![digit_char(n)]
    } else {
        decimal(n / 10).push(digit_char(n % 10))
    }
}

/// The views of a list of strings.
pub open spec fn texts(v: Seq<String>) -> Seq<Seq<char>> {
    v.map_values(|s: String| s@)
}

/// The view of an optional string.
pub open spec fn opt_text(s: Option<String>) -> Option<Seq<char>> {
    match s {
        Some(t) => Some(t@),
        None => None,
    }
}

/// A text or nothing, by its view.
pub open spec fn opt_str(s: Option<&str>) -> Option<Seq<char>> {
    match s {
        Some(t) => Some(t@),
        None => None,
    }
}

pub fn is_white_space(c: char) -> (r: bool)
    ensures
        r == is_white_space_spec(c),
{
    let u: u32 = c as u32;
    (0x9 <= u && u <= 0xd) || u == 0x20 || u == 0x85 || u == 0xa0 || u == 0x1680 || (0x2000 <= u && u
        <= 0x200a) || u == 0x2028 || u == 0x2029 || u == 0x202f || u == 0x205f || u == 0x3000
}

/// The characters of `s`.
pub fn chars_of(s: &str) -> (r: Vec<char>)
    ensures
        r@ == s@,
{
    let mut out: Vec<char> = Vec::new();
    for c in it: s.chars()
        invariant
            it.seq() == s@,
            out@ == s@.take(it.index() as int),
    {
        out.push(c);
        assert(s@.take(it.index() + 1) =~= s@.take(it.index() as int).push(c));
    }
    assert(s@.take(s@.len() as int) =~= s@);
    out
}

/// Whether two strings hold the same characters.
pub fn same_text(a: &str, b: &str) -> (r: bool)
    ensures
        r == (a@ == b@),
{
    a.to_owned() == b.to_owned()
}

proof fn lemma_trimmed_start_skips(s: Seq<char>, i: int)
    requires
        0 <= i <= s.len(),
        forall|j: int| 0 <= j < i ==> is_white_space_spec(s[j]),
    ensures
        trimmed_start(s) == trimmed_start(s.skip(i)),
    decreases i,
{
    if i == 0 {
        assert(s.skip(0) =~= s);
    } else {
        lemma_trimmed_start_skips(s.drop_first(), i - 1);
        assert(s.drop_first().skip(i - 1) =~= s.skip(i));
    }
}

/// `s` without leading and trailing white space.
pub fn trim<'a>(s: &'a str) -> (r: &'a str)
    ensures
        r@ == trimmed(s@),
{
    let cs = chars_of(s);
    let mut i: usize = 0;
    while i < cs.len() && is_white_space(cs[i])
        invariant
            i <= cs.len(),
            forall|j: int| 0 <= j < i ==> is_white_space_spec(cs@[j]),
        decreases cs.len() - i,
    {
        i = i + 1;
    }
    proof {
        lemma_trimmed_start_skips(s@, i as int);
    }
    let mut n: usize = cs.len();
    while n > i && is_white_space(cs[n - 1])
        invariant
            i <= n <= cs.len(),
            cs@ == s@,
            trimmed_end(s@.skip(i as int)) == trimmed_end(s@.subrange(i as int, n as int)),
        decreases n,
    {
        assert(s@.subrange(i as int, n as int).drop_last() =~= s@.subrange(i as int, n - 1));
        n = n - 1;
    }
    s.substring_char(i, n)
}

/// Whether `s` holds nothing but white space.
pub fn is_blank(s: &str) -> (r: bool)
    ensures
        r == is_blank_spec(s@),
{
    let t = trim(s);
    t.is_empty()
}

/// `s` without any trailing `c`.
pub fn trim_end_char<'a>(s: &'a str, c: char) -> (r: &'a str)
    ensures
        r@ == without_trailing(s@, c),
{
    let cs = chars_of(s);
    let mut n: usize = cs.len();
    assert(s@.take(n as int) =~= s@);
    while n > 0 && cs[n - 1] == c
        invariant
            n <= cs.len(),
            cs@ == s@,
            without_trailing(s@, c) == without_trailing(s@.take(n as int), c),
        decreases n,
    {
        assert(s@.take(n as int).drop_last() =~= s@.take(n - 1));
        n = n - 1;
    }
    assert(s@.subrange(0, n as int) =~= s@.take(n as int));
    s.substring_char(0, n)
}

/// The first position at or after `from` where `pat` stands in `s`, in characters.
pub fn find_from(s: &str, pat: &str, from: usize) -> (r: Option<usize>)
    ensures
        match r {
            Some(i) => find_from_spec(s@, pat@, from as int) == Some(i as int) && from <= i && stands_at(
                s@,
                pat@,
                i as int,
            ),
            None => find_from_spec(s@, pat@, from as int) is None,
        },
{
    let cs = chars_of(s);
    let ps = chars_of(pat);
    let mut k: usize = from;
    while k <= cs.len() && ps.len() <= cs.len() - k
        invariant
            cs@ == s@,
            ps@ == pat@,
            from <= k,
            find_from_spec(s@, pat@, from as int) == find_from_spec(s@, pat@, k as int),
        decreases cs.len() + 1 - k,
    {
        let mut j: usize = 0;
        while j < ps.len() && cs[k + j] == ps[j]
            invariant
                j <= ps.len(),
                k <= cs.len(),
                ps.len() <= cs.len() - k,
                forall|m: int| 0 <= m < j ==> cs@[k + m] == ps@[m],
            decreases ps.len() - j,
        {
            j = j + 1;
        }
        if j == ps.len() {
            assert(s@.subrange(k as int, k + pat@.len()) =~= pat@);
            return Some(k);
        }
        proof {
            if stands_at(s@, pat@, k as int) {
                assert(s@.subrange(k as int, k + pat@.len())[j as int] == pat@[j as int]);
            }
        }
        if k == cs.len() {
            return None;
        }
        k = k + 1;
    }
    None
}

/// Equality up to ASCII case.
pub fn eq_ignore_ascii_case(a: &str, b: &str) -> (r: bool)
    ensures
        r == same_ignoring_ascii_case(a@, b@),
{
    let xs = chars_of(a);
    let ys = chars_of(b);
    if xs.len() != ys.len() {
        return false;
    }
    let mut i: usize = 0;
    while i < xs.len()
        invariant
            i <= xs.len(),
            xs.len() == ys.len(),
            xs@ == a@,
            ys@ == b@,
            forall|j: int| #![trigger a@[j]] 0 <= j < i ==> ascii_lower(a@[j]) == ascii_lower(b@[j]),
        decreases xs.len() - i,
    {
        if to_ascii_lower(xs[i]) != to_ascii_lower(ys[i]) {
            assert(ascii_lower(a@[i as int]) != ascii_lower(b@[i as int]));
            return false;
        }
        i = i + 1;
    }
    true
}

fn to_ascii_lower(c: char) -> (r: u32)
    ensures
        r == ascii_lower(c),
{
    let u: u32 = c as u32;
    if 0x41 <= u && u <= 0x5a {
        u + 0x20
    } else {
        u
    }
}

/// A single decimal digit as text.
fn digit_text(d: u64) -> (r: &'static str)
    requires
        d < 10,
    ensures
        r@ == seq![digit_char(d as nat)],
{
    proof {
        reveal_strlit("0");
        reveal_strlit("1");
        reveal_strlit("2");
        reveal_strlit("3");
        reveal_strlit("4");
        reveal_strlit("5");
        reveal_strlit("6");
        reveal_strlit("7");
        reveal_strlit("8");
        reveal_strlit("9");
    }
    let r = match d {
        0 => "0",
        1 => "1",
        2 => "2",
        3 => "3",
        4 => "4",
        5 => "5",
        6 => "6",
        7 => "7",
        8 => "8",
        _ => "9",
    };
    assert(r@ =~= seq![digit_char(d as nat)]);
    r
}

/// `n` in decimal.
pub fn decimal_text(n: u64) -> (r: String)
    ensures
        r@ == decimal(n as nat),
    decreases n,
{
    if n < 10 {
        digit_text(n).to_owned()
    } else {
        let head = decimal_text(n / 10);
        let d: u64 = n % 10;
        let out = head.concat(digit_text(d));
        assert(out@ =~= decimal(n as nat / 10).push(digit_char(n as nat % 10)));
        out
    }
}

/// The texts `a` and `b`, one after the other.
pub fn join(a: &str, b: &str) -> (r: String)
    ensures
        r@ == a@ + b@,
{
    let mut out = a.to_owned();
    out.append(b);
    out
}

/// What is left of a text once it is trimmed does not begin with white space, and is no
/// longer than the text. A text that neither begins nor ends with white space stays as
/// it is; one that ends with white space becomes shorter.
pub proof fn lemma_trimmed(s: Seq<char>)
    ensures
        trimmed(s).len() <= s.len(),
        trimmed(s).len() > 0 ==> !is_white_space_spec(trimmed(s)[0]),
        s.len() > 0 && !is_white_space_spec(s[0]) && !is_white_space_spec(s.last()) ==> trimmed(s)
            == s,
        s.len() > 0 && is_white_space_spec(s.last()) ==> trimmed(s).len() < s.len(),
{
    lemma_trimmed_start(s);
    lemma_trimmed_end(trimmed_start(s));
}

proof fn lemma_trimmed_start(s: Seq<char>)
    ensures
        trimmed_start(s).len() <= s.len(),
        trimmed_start(s).len() > 0 ==> !is_white_space_spec(trimmed_start(s)[0])
            && trimmed_start(s).last() == s.last(),
    decreases s.len(),
{
    if s.len() > 0 && is_white_space_spec(s[0]) {
        lemma_trimmed_start(s.drop_first());
    }
}

proof fn lemma_trimmed_end(s: Seq<char>)
    ensures
        trimmed_end(s).len() <= s.len(),
        trimmed_end(s).len() > 0 ==> trimmed_end(s)[0] == s[0],
        s.len() > 0 && is_white_space_spec(s.last()) ==> trimmed_end(s).len() < s.len(),
    decreases s.len(),
{
    if s.len() > 0 && is_white_space_spec(s.last()) {
        lemma_trimmed_end(s.drop_last());
    }
}

/// What is left of a text without its trailing `c` is its beginning and does not end
/// with `c`.
pub proof fn lemma_without_trailing(s: Seq<char>, c: char)
    ensures
        without_trailing(s, c).len() <= s.len(),
        without_trailing(s, c).len() > 0 ==> without_trailing(s, c)[0] == s[0]
            && without_trailing(s, c).last() != c,
        s.len() > 0 && s.last() == c ==> without_trailing(s, c).len() < s.len(),
    decreases s.len(),
{
    if s.len() > 0 && s.last() == c {
        lemma_without_trailing(s.drop_last(), c);
    }
}

/// A text where there is one, as a copy.
pub fn clone_opt(s: &Option<String>) -> (r: Option<String>)
    ensures
        opt_text(r) == opt_text(*s),
{
    match s {
        Some(t) => Some(t.clone()),
        None => None,
    }
}

/// A copy of a list of strings.
pub fn clone_texts(v: &Vec<String>) -> (r: Vec<String>)
    ensures
        r@ == v@,
{
    let mut out: Vec<String> = Vec::new();
    for i in 0..v.len()
        invariant
            out@ == v@.take(i as int),
    {
        out.push(v[i].clone());
        assert(v@.take(i + 1) =~= v@.take(i as int).push(v@[i as int]));
    }
    assert(v@.take(v@.len() as int) =~= v@);
    out
}

} // verus!
