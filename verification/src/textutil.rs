use vstd::prelude::*;
use vstd::string::{StrSliceExecFns, StringExecFns};

verus! {

/// Character-wise string equality; `==` on `&str` carries no meaning for the
/// verifier, so the comparison is spelled out.
pub fn str_eq(a: &str, b: &str) -> (r: bool)
    ensures
        r == (a@ == b@),
{
    let n = a.unicode_len();
    if n != b.unicode_len() {
        return false;
    }
    let mut i: usize = 0;
    while i < n
        invariant
            n == a@.len(),
            n == b@.len(),
            i <= n,
            forall|k: int| 0 <= k < i ==> a@[k] == b@[k],
        decreases n - i,
    {
        if a.get_char(i) != b.get_char(i) {
            return false;
        }
        i += 1;
    }
    proof {
        assert(a@ =~= b@);
    }
    true
}

/// Whether an optional owned string holds exactly the given text.
pub fn opt_string_is(o: &Option<String>, s: &str) -> (r: bool)
    ensures
        r == (o matches Some(v) && v@ == s@),
{
    match o {
        Some(v) => str_eq(v.as_str(), s),
        None => false,
    }
}

pub open spec fn spec_digit_char(d: int) -> char {
    if d == 0 {
        '0'
    } else if d == 1 {
        '1'
    } else if d == 2 {
        '2'
    } else if d == 3 {
        '3'
    } else if d == 4 {
        '4'
    } else if d == 5 {
        '5'
    } else if d == 6 {
        '6'
    } else if d == 7 {
        '7'
    } else if d == 8 {
        '8'
    } else {
        '9'
    }
}

/// The decimal rendering of a non-negative number.
pub open spec fn spec_u64_string(n: int) -> Seq<char>
    decreases n,
{
    if n < 10 {
        seq![spec_digit_char(n)]
    } else {
        spec_u64_string(n / 10).push(spec_digit_char(n % 10))
    }
}

/// The decimal rendering of a signed number.
pub open spec fn spec_i64_string(n: int) -> Seq<char> {
    if n >= 0 {
        spec_u64_string(n)
    } else {
        seq!['-'] + spec_u64_string(-n)
    }
}

fn digit_str(d: u64) -> (r: &'static str)
    requires
        d < 10,
    ensures
        r@ == seq![spec_digit_char(d as int)],
{
    proof {
        reveal_strlit("0");
        reveal_strlit("1");
        reveal_strlit("2");
        reveal_strlit("3");
        reveal_strlit("4");
        reveal_strlit("5");
        reveal_strlit("6");
        reveal_strlit("7");
        reveal_strlit("8");
        reveal_strlit("9");
    }
    let r = match d {
        0 => "0",
        1 => "1",
        2 => "2",
        3 => "3",
        4 => "4",
        5 => "5",
        6 => "6",
        7 => "7",
        8 => "8",
        _ => "9",
    };
    proof {
        assert(r@ =~= seq![spec_digit_char(d as int)]);
    }
    r
}

/// Renders an unsigned number in decimal.
pub fn u64_to_string(n: u64) -> (r: String)
    ensures
        r@ == spec_u64_string(n as int),
    decreases n,
{
    if n < 10 {
        String::from_str(digit_str(n))
    } else {
        let mut s = u64_to_string(n / 10);
        s.append(digit_str(n % 10));
        proof {
            assert(s@ =~= spec_u64_string(n as int));
        }
        s
    }
}

/// Renders a signed number in decimal.
pub fn i64_to_string(n: i64) -> (r: String)
    ensures
        r@ == spec_i64_string(n as int),
{
    if n >= 0 {
        u64_to_string(n as u64)
    } else {
        let mag: u64 = if n == i64::MIN {
            9_223_372_036_854_775_808u64
        } else {
            (-n) as u64
        };
        proof {
            reveal_strlit("-");
        }
        let mut s = String::from_str("-");
        s.append(u64_to_string(mag).as_str());
        proof {
            assert(s@ =~= spec_i64_string(n as int));
        }
        s
    }
}

/// The first index at or after `from` where `pat` occurs in `s`, or -1.
pub open spec fn spec_find(s: Seq<char>, pat: Seq<char>, from: int) -> int
    decreases s.len() - from,
{
    if from < 0 || from + pat.len() > s.len() {
        -1
    } else if pat.len() == 0 {
        from
    } else if s.subrange(from, from + pat.len() as int) == pat {
        from
    } else {
        spec_find(s, pat, from + 1)
    }
}

/// Finds the first occurrence of `pat` in `s` at or after `from`.
pub fn find_sub_from(s: &str, pat: &str, from: usize) -> (r: Option<usize>)
    ensures
        match r {
            Some(i) => from <= i && spec_find(s@, pat@, from as int) == i,
            None => spec_find(s@, pat@, from as int) == -1,
        },
{
    let n = s.unicode_len();
    let m = pat.unicode_len();
    if from > n || m > n - from {
        return None;
    }
    if m == 0 {
        return Some(from);
    }
    let last = n - m;
    let mut i: usize = from;
    while i <= last
        invariant
            from <= i <= last + 1,
            last == n - m,
            1 <= m <= n,
            n == s@.len(),
            m == pat@.len(),
            spec_find(s@, pat@, from as int) == spec_find(s@, pat@, i as int),
        decreases last + 1 - i,
    {
        let piece = s.substring_char(i, i + m);
        if str_eq(piece, pat) {
            return Some(i);
        }
        i += 1;
    }
    None
}

/// The first index at or after `from` holding the character, or -1.
pub open spec fn spec_find_char(s: Seq<char>, c: char, from: int) -> int
    decreases s.len() - from,
{
    if from < 0 || from >= s.len() {
        -1
    } else if s[from] == c {
        from
    } else {
        spec_find_char(s, c, from + 1)
    }
}

/// Finds the first occurrence of the character at or after `from`.
pub fn find_char_from(s: &str, c: char, from: usize) -> (r: Option<usize>)
    ensures
        match r {
            Some(i) => from <= i && spec_find_char(s@, c, from as int) == i,
            None => spec_find_char(s@, c, from as int) == -1,
        },
{
    let n = s.unicode_len();
    let mut i: usize = from;
    if from > n {
        return None;
    }
    while i < n
        invariant
            from <= i <= n,
            n == s@.len(),
            spec_find_char(s@, c, from as int) == spec_find_char(s@, c, i as int),
        decreases n - i,
    {
        if s.get_char(i) == c {
            return Some(i);
        }
        i += 1;
    }
    None
}

/// A found pattern index lies within the text and marks an occurrence.
pub proof fn lemma_find_props(s: Seq<char>, pat: Seq<char>, from: int)
    ensures
        spec_find(s, pat, from) >= 0 ==> from <= spec_find(s, pat, from)
            && spec_find(s, pat, from) + pat.len() <= s.len(),
    decreases s.len() - from,
{
    if !(from < 0 || from + pat.len() > s.len()) {
        if pat.len() == 0 {
        } else if s.subrange(from, from + pat.len() as int) == pat {
        } else {
            lemma_find_props(s, pat, from + 1);
        }
    }
}

/// A found character index lies within the text.
pub proof fn lemma_find_char_props(s: Seq<char>, c: char, from: int)
    ensures
        spec_find_char(s, c, from) >= 0 ==> from <= spec_find_char(s, c, from)
            && spec_find_char(s, c, from) < s.len() && s[spec_find_char(s, c, from)] == c,
    decreases s.len() - from,
{
    if 0 <= from < s.len() {
        if s[from] != c {
            lemma_find_char_props(s, c, from + 1);
        }
    }
}

/// What `str::to_lowercase` yields: a function of the characters alone.
pub uninterp spec fn lower_of(s: Seq<char>) -> Seq<char>;

/// Relies on str::to_lowercase: the lowercased text; an empty string stays
/// empty. The result depends on the characters alone.
#[verifier::external_body]
pub fn lowercase(s: &str) -> (r: String)
    ensures
        r@ == lower_of(s@),
        s@.len() == 0 ==> r@.len() == 0,
{
    s.to_lowercase()
}

/// What `char::is_alphanumeric` decides: a function of the character alone.
pub uninterp spec fn is_alnum_of(c: char) -> bool;

/// Relies on char::is_alphanumeric: within ASCII exactly the letters and
/// digits are alphanumeric.
pub assume_specification[ char::is_alphanumeric ](c: char) -> (r: bool)
    ensures
        r == is_alnum_of(c),
        ('a' <= c <= 'z' || 'A' <= c <= 'Z' || '0' <= c <= '9') ==> r,
        (c == '_' || c == ' ' || c == '-' || c == '.' || c == ',' || c == '&') ==> !r,
;

/// Relies on String::push: appends exactly the one character.
pub assume_specification[ String::push ](s: &mut String, c: char)
    ensures
        final(s)@ == old(s)@.push(c),
;

/// The slug a display name becomes: its lowercased characters, with every
/// non-alphanumeric one replaced by an underscore.
pub open spec fn spec_slug_of(name: Seq<char>) -> Seq<char> {
    Seq::new(lower_of(name).len(), |i: int| if is_alnum_of(lower_of(name)[i]) {
        lower_of(name)[i]
    } else {
        '_'
    })
}

/// Builds the slug used in output file names.
pub fn slug_of(name: &str) -> (r: String)
    ensures
        r@ == spec_slug_of(name@),
{
    let lowered = lowercase(name);
    let n = lowered.as_str().unicode_len();
    let mut out = String::new();
    let mut i: usize = 0;
    while i < n
        invariant
            i <= n,
            n == lowered@.len(),
            lowered@ == lower_of(name@),
            out@ =~= spec_slug_of(name@).subrange(0, i as int),
        decreases n - i,
    {
        let c = lowered.as_str().get_char(i);
        if c.is_alphanumeric() {
            out.push(c);
        } else {
            out.push('_');
        }
        proof {
            assert(out@ =~= spec_slug_of(name@).subrange(0, i + 1 as int));
        }
        i += 1;
    }
    proof {
        assert(spec_slug_of(name@).subrange(0, n as int) =~= spec_slug_of(name@));
    }
    out
}

} // verus!
