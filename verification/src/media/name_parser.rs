use crate::text::{all_digits, digits_val, parse_usize, str_eq};
use vstd::prelude::*;

verus! {

/// The separators that split a file name into words: blank characters, after
/// every dot has been turned into a space.
pub open spec fn is_space(c: char) -> bool {
    c == ' ' || c == '\t' || c == '\n' || c == '\r'
}

/// The text with every dot turned into a space.
pub open spec fn dots_to_spaces(s: Seq<char>) -> Seq<char> {
    s.map_values(
        |c: char|
            if c == '.' {
                ' '
            } else {
                c
            },
    )
}

/// The first position at or after `k` holding a non-blank character; the
/// length when there is none.
pub open spec fn next_word_start(t: Seq<char>, k: int) -> int
    decreases t.len() - k when 0 <= k <= t.len()
{
    if k >= t.len() {
        t.len() as int
    } else if !is_space(t[k]) {
        k
    } else {
        next_word_start(t, k + 1)
    }
}

/// The first position at or after `k` holding a blank character; the length
/// when there is none.
pub open spec fn word_end(t: Seq<char>, k: int) -> int
    decreases t.len() - k when 0 <= k <= t.len()
{
    if k >= t.len() {
        t.len() as int
    } else if is_space(t[k]) {
        k
    } else {
        word_end(t, k + 1)
    }
}

pub proof fn lemma_next_word_start(t: Seq<char>, k: int)
    requires
        0 <= k <= t.len(),
    ensures
        k <= next_word_start(t, k) <= t.len(),
        next_word_start(t, k) < t.len() ==> !is_space(t[next_word_start(t, k)]),
        forall|j: int| k <= j < next_word_start(t, k) ==> is_space(t[j]),
    decreases t.len() - k,
{
    if k < t.len() && is_space(t[k]) {
        lemma_next_word_start(t, k + 1);
    }
}

pub proof fn lemma_word_end(t: Seq<char>, k: int)
    requires
        0 <= k <= t.len(),
    ensures
        k <= word_end(t, k) <= t.len(),
        word_end(t, k) < t.len() ==> is_space(t[word_end(t, k)]),
        forall|j: int| k <= j < word_end(t, k) ==> !is_space(t[j]),
    decreases t.len() - k,
{
    if k < t.len() && !is_space(t[k]) {
        lemma_word_end(t, k + 1);
    }
}

/// The words of `t` at or after position `k`: the maximal runs of non-blank
/// characters, in order.
pub open spec fn words_from(t: Seq<char>, k: int) -> Seq<Seq<char>>
    decreases t.len() - k when 0 <= k <= t.len() via words_from_decreases
{
    let i = next_word_start(t, k);
    if i >= t.len() {
        Seq::empty()
    } else {
        seq![t.subrange(i, word_end(t, i))] + words_from(t, word_end(t, i))
    }
}

#[via_fn]
proof fn words_from_decreases(t: Seq<char>, k: int) {
    if 0 <= k <= t.len() {
        lemma_next_word_start(t, k);
        let i = next_word_start(t, k);
        if i < t.len() {
            lemma_word_end(t, i);
            assert(word_end(t, i) >= i + 1);
        }
    }
}

/// The words of `t`.
pub open spec fn words(t: Seq<char>) -> Seq<Seq<char>> {
    words_from(t, 0)
}

pub open spec fn is_paren(c: char) -> bool {
    c == '(' || c == ')'
}

pub open spec fn trim_front(w: Seq<char>) -> Seq<char>
    decreases w.len(),
{
    if w.len() == 0 {
        Seq::empty()
    } else if is_paren(w[0]) {
        trim_front(w.drop_first())
    } else {
        w
    }
}

pub open spec fn trim_back(w: Seq<char>) -> Seq<char>
    decreases w.len(),
{
    if w.len() == 0 {
        Seq::empty()
    } else if is_paren(w.last()) {
        trim_back(w.drop_last())
    } else {
        w
    }
}

/// The word with every leading and trailing parenthesis removed.
pub open spec fn trim_parens(w: Seq<char>) -> Seq<char> {
    trim_back(trim_front(w))
}

proof fn lemma_trim_front(w: Seq<char>, a: int)
    requires
        0 <= a <= w.len(),
        forall|j: int| 0 <= j < a ==> is_paren(w[j]),
        a < w.len() ==> !is_paren(w[a]),
    ensures
        trim_front(w) =~= w.skip(a),
    decreases a,
{
    if a == 0 {
    } else {
        assert(is_paren(w[0]));
        lemma_trim_front(w.drop_first(), a - 1);
        assert(w.drop_first().skip(a - 1) =~= w.skip(a));
    }
}

proof fn lemma_trim_back(w: Seq<char>, b: int)
    requires
        0 <= b <= w.len(),
        forall|j: int| b <= j < w.len() ==> is_paren(w[j]),
        b > 0 ==> !is_paren(w[b - 1]),
    ensures
        trim_back(w) =~= w.take(b),
    decreases w.len() - b,
{
    if b == w.len() {
        if w.len() > 0 {
            assert(trim_back(w) =~= w);
        }
    } else {
        assert(is_paren(w.last()));
        lemma_trim_back(w.drop_last(), b);
        assert(w.drop_last().take(b) =~= w.take(b));
    }
}

/// Whether a word reads as a plausible release year: digits (parentheses
/// around them allowed) denoting a number above 1850 that fits the machine
/// word.
pub open spec fn is_year_word(w: Seq<char>) -> bool {
    let d = trim_parens(w);
    d.len() > 0 && all_digits(d) && digits_val(d) <= usize::MAX && digits_val(d) > 1850
}

/// The position of the first word at or after `k` that reads as a year.
pub open spec fn first_year_from(ws: Seq<Seq<char>>, k: int) -> Option<int>
    decreases ws.len() - k when 0 <= k <= ws.len()
{
    if k >= ws.len() {
        None
    } else if is_year_word(ws[k]) {
        Some(k)
    } else {
        first_year_from(ws, k + 1)
    }
}

/// Whether a word is one of the resolution markers that usually end the
/// relevant part of a file name.
pub open spec fn is_marker_word(w: Seq<char>) -> bool {
    w == "720p"@ || w == "1080p"@ || w == "2160p"@
}

/// The position of the first word at or after `k` that is a resolution
/// marker.
pub open spec fn first_marker_from(ws: Seq<Seq<char>>, k: int) -> Option<int>
    decreases ws.len() - k when 0 <= k <= ws.len()
{
    if k >= ws.len() {
        None
    } else if is_marker_word(ws[k]) {
        Some(k)
    } else {
        first_marker_from(ws, k + 1)
    }
}

/// The words joined with single spaces.
pub open spec fn join_space(ws: Seq<Seq<char>>) -> Seq<char>
    decreases ws.len(),
{
    if ws.len() == 0 {
        Seq::empty()
    } else if ws.len() == 1 {
        ws[0]
    } else {
        join_space(ws.drop_last()) + seq![' '] + ws.last()
    }
}

/// A title guess and an optional year guess read from a file name.
#[derive(Debug)]
pub struct ParsedName {
    pub title: String,
    pub year: Option<usize>,
}

impl PartialEq for ParsedName {
    fn eq(&self, other: &Self) -> (r: bool) {
        let years_eq = match (&self.year, &other.year) {
            (Some(a), Some(b)) => *a == *b,
            (None, None) => true,
            _ => false,
        };
        years_eq && str_eq(self.title.as_str(), other.title.as_str())
    }
}

impl vstd::std_specs::cmp::PartialEqSpecImpl for ParsedName {
    open spec fn obeys_eq_spec() -> bool {
        true
    }

    open spec fn eq_spec(&self, other: &Self) -> bool {
        self.title@ == other.title@ && self.year == other.year
    }
}

impl Eq for ParsedName {

}

/// Reads a title and an optional release year out of a media file's name
/// (without its extension), as such names are commonly written: dots stand
/// for spaces, the year — possibly parenthesised — or a resolution marker
/// ends the relevant part.
pub struct NameParser;

/// What parsing promises: with `t` the file name after dots become spaces,
/// the year is the value of the first year-like word, if any; the title is
/// the words before the year — or, with no year, before the first
/// resolution marker — joined by single spaces, and the whole of `t` when
/// neither bound is found.
pub open spec fn parsed_name_ok(filename: Seq<char>, p: ParsedName) -> bool {
    let t = dots_to_spaces(filename);
    let ws = words(t);
    let year_at = first_year_from(ws, 0);
    let cut_at = if year_at is Some {
        year_at
    } else {
        first_marker_from(ws, 0)
    };
    &&& match year_at {
        Some(i) => p.year == Some(digits_val(trim_parens(ws[i])) as usize),
        None => p.year is None,
    }
    &&& match cut_at {
        Some(i) => p.title@ == join_space(ws.take(i)),
        None => p.title@ == t,
    }
}

impl NameParser {
    /// Expects the file name without its extension.
    pub fn parse(filename: &str) -> (p: ParsedName)
        ensures
            parsed_name_ok(filename@, p),
    {
        let replaced = replace_dots(filename);
        let year = Self::guess_year(replaced.as_str());

        let cut_index = match &year {
            Some(iy) => Some(iy.0),
            None => Self::find_known_separator(replaced.as_str()),
        };

        let title = match cut_index {
            Some(index) => join_words(replaced.as_str(), index),
            None => replaced,
        };

        let year = match year {
            Some(iy) => Some(iy.1),
            None => None,
        };

        ParsedName { title, year }
    }

    /// The position and value of the first word that reads as a year.
    fn guess_year(title: &str) -> (r: Option<(usize, usize)>)
        ensures
            r matches Some(iy) ==> {
                &&& first_year_from(words(title@), 0) == Some(iy.0 as int)
                &&& iy.0 < words(title@).len()
                &&& iy.1 == digits_val(trim_parens(words(title@)[iy.0 as int]))
            },
            r is None ==> first_year_from(words(title@), 0) is None,
    {
        let ghost t = title@;
        let ghost ws = words(t);
        let n = title.unicode_len();
        let mut pos: usize = 0;
        let mut wi: usize = 0;

        loop
            invariant
                n == t.len(),
                t == title@,
                ws == words(t),
                pos <= n,
                wi <= pos,
                wi <= ws.len(),
                words_from(t, pos as int) =~= ws.skip(wi as int),
                first_year_from(ws, 0) == first_year_from(ws, wi as int),
            decreases n - pos,
        {
            let start = next_word_start_exec(title, pos);
            proof {
                lemma_next_word_start(t, pos as int);
            }
            if start == n {
                proof {
                    assert(words_from(t, pos as int) =~= Seq::<Seq<char>>::empty());
                    assert(wi == ws.len());
                }
                return None;
            }
            let end = word_end_exec(title, start);
            proof {
                lemma_word_end(t, start as int);
                assert(words_from(t, pos as int)[0] == t.subrange(start as int, end as int));
                assert(ws.skip(wi as int).len() > 0);
                assert(ws.skip(wi as int)[0] == ws[wi as int]);
                assert(ws[wi as int] == t.subrange(start as int, end as int));
                assert(words_from(t, end as int) =~= ws.skip(wi as int).drop_first());
                assert(ws.skip(wi as int).drop_first() =~= ws.skip(wi + 1));
            }
            let word = title.substring_char(start, end);
            let trimmed = trim_parens_exec(word);
            match parse_usize(trimmed.as_str()) {
                Some(num) if num > 1850 => {
                    proof {
                        assert(is_year_word(ws[wi as int]));
                        assert(first_year_from(ws, wi as int) == Some(wi as int));
                    }
                    return Some((wi, num));
                }
                _ => {
                    proof {
                        assert(!is_year_word(ws[wi as int]));
                        assert(first_year_from(ws, wi as int) == first_year_from(ws, wi + 1));
                    }
                }
            }
            pos = end;
            wi = wi + 1;
        }
    }

    /// The position of the first word that is a resolution marker.
    fn find_known_separator(title: &str) -> (r: Option<usize>)
        ensures
            r matches Some(i) ==> first_marker_from(words(title@), 0) == Some(i as int) && i
                < words(title@).len(),
            r is None ==> first_marker_from(words(title@), 0) is None,
    {
        let ghost t = title@;
        let ghost ws = words(t);
        let n = title.unicode_len();
        let mut pos: usize = 0;
        let mut wi: usize = 0;

        loop
            invariant
                n == t.len(),
                t == title@,
                ws == words(t),
                pos <= n,
                wi <= pos,
                wi <= ws.len(),
                words_from(t, pos as int) =~= ws.skip(wi as int),
                first_marker_from(ws, 0) == first_marker_from(ws, wi as int),
            decreases n - pos,
        {
            let start = next_word_start_exec(title, pos);
            proof {
                lemma_next_word_start(t, pos as int);
            }
            if start == n {
                proof {
                    assert(words_from(t, pos as int) =~= Seq::<Seq<char>>::empty());
                    assert(wi == ws.len());
                }
                return None;
            }
            let end = word_end_exec(title, start);
            proof {
                lemma_word_end(t, start as int);
                assert(words_from(t, pos as int)[0] == t.subrange(start as int, end as int));
                assert(ws.skip(wi as int).len() > 0);
                assert(ws.skip(wi as int)[0] == ws[wi as int]);
                assert(ws[wi as int] == t.subrange(start as int, end as int));
                assert(words_from(t, end as int) =~= ws.skip(wi as int).drop_first());
                assert(ws.skip(wi as int).drop_first() =~= ws.skip(wi + 1));
            }
            let word = title.substring_char(start, end);
            if str_eq(word, "720p") || str_eq(word, "1080p") || str_eq(word, "2160p") {
                proof {
                    assert(is_marker_word(ws[wi as int]));
                    assert(first_marker_from(ws, wi as int) == Some(wi as int));
                }
                return Some(wi);
            }
            proof {
                assert(!is_marker_word(ws[wi as int]));
                assert(first_marker_from(ws, wi as int) == first_marker_from(ws, wi + 1));
            }
            pos = end;
            wi = wi + 1;
        }
    }
}

/// The file name with every dot turned into a space.
fn replace_dots(s: &str) -> (r: String)
    ensures
        r@ == dots_to_spaces(s@),
{
    proof {
        reveal_strlit(" ");
        assert(" "@ =~= seq![' ']);
    }
    let n = s.unicode_len();
    let mut out = String::new();
    let mut i: usize = 0;
    while i < n
        invariant
            i <= n,
            n == s@.len(),
            out@ =~= dots_to_spaces(s@.take(i as int)),
        decreases n - i,
    {
        if s.get_char(i) == '.' {
            out.append(" ");
            proof {
                reveal_strlit(" ");
                assert(" "@ =~= seq![' ']);
                assert(out@ =~= dots_to_spaces(s@.take(i + 1)));
            }
        } else {
            let piece = s.substring_char(i, i + 1);
            out.append(piece);
            proof {
                assert(piece@ =~= seq![s@[i as int]]);
                assert(out@ =~= dots_to_spaces(s@.take(i + 1)));
            }
        }
        i = i + 1;
    }
    proof {
        assert(s@.take(n as int) =~= s@);
    }
    out
}

fn next_word_start_exec(s: &str, from: usize) -> (r: usize)
    requires
        from <= s@.len(),
    ensures
        r == next_word_start(s@, from as int),
        from <= r <= s@.len(),
{
    let n = s.unicode_len();
    let mut i: usize = from;
    while i < n
        invariant
            from <= i <= n,
            n == s@.len(),
            next_word_start(s@, from as int) == next_word_start(s@, i as int),
        decreases n - i,
    {
        let c = s.get_char(i);
        if !(c == ' ' || c == '\t' || c == '\n' || c == '\r') {
            return i;
        }
        i = i + 1;
    }
    i
}

fn word_end_exec(s: &str, from: usize) -> (r: usize)
    requires
        from <= s@.len(),
    ensures
        r == word_end(s@, from as int),
        from <= r <= s@.len(),
{
    let n = s.unicode_len();
    let mut i: usize = from;
    while i < n
        invariant
            from <= i <= n,
            n == s@.len(),
            word_end(s@, from as int) == word_end(s@, i as int),
        decreases n - i,
    {
        let c = s.get_char(i);
        if c == ' ' || c == '\t' || c == '\n' || c == '\r' {
            return i;
        }
        i = i + 1;
    }
    i
}

fn paren_start(w: &str) -> (a: usize)
    ensures
        a <= w@.len(),
        forall|j: int| 0 <= j < a ==> is_paren(w@[j]),
        a < w@.len() ==> !is_paren(w@[a as int]),
{
    let n = w.unicode_len();
    let mut a: usize = 0;
    while a < n
        invariant
            a <= n,
            n == w@.len(),
            forall|j: int| 0 <= j < a ==> is_paren(w@[j]),
        decreases n - a,
    {
        let c = w.get_char(a);
        if !(c == '(' || c == ')') {
            return a;
        }
        a = a + 1;
    }
    a
}

fn paren_end(w: &str, a: usize) -> (b: usize)
    requires
        a < w@.len(),
        !is_paren(w@[a as int]),
    ensures
        a < b <= w@.len(),
        forall|j: int| b <= j < w@.len() ==> is_paren(w@[j]),
        !is_paren(w@[b - 1]),
{
    let n = w.unicode_len();
    let mut b: usize = n;
    while b > a + 1
        invariant
            a < n,
            a + 1 <= b <= n,
            n == w@.len(),
            !is_paren(w@[a as int]),
            forall|j: int| b <= j < n ==> is_paren(w@[j]),
        decreases b,
    {
        let c = w.get_char(b - 1);
        if !(c == '(' || c == ')') {
            return b;
        }
        b = b - 1;
    }
    b
}

/// The word with every leading and trailing parenthesis removed.
fn trim_parens_exec(w: &str) -> (r: String)
    ensures
        r@ == trim_parens(w@),
{
    let a = paren_start(w);
    proof {
        lemma_trim_front(w@, a as int);
    }
    if a == w.unicode_len() {
        proof {
            assert(w@.skip(a as int) =~= Seq::<char>::empty());
            assert(trim_back(Seq::<char>::empty()) =~= Seq::<char>::empty());
        }
        return String::new();
    }
    let b = paren_end(w, a);
    let ghost f = w@.skip(a as int);
    proof {
        assert(forall|j: int| b - a <= j < f.len() ==> is_paren(#[trigger] f[j]));
        assert(!is_paren(f[b - a - 1]));
        lemma_trim_back(f, b - a);
        assert(f.take(b - a) =~= w@.subrange(a as int, b as int));
    }
    let r = w.substring_char(a, b);
    String::from_str(r)
}

/// The first `count` words of `s`, joined with single spaces.
fn join_words(s: &str, count: usize) -> (r: String)
    requires
        count <= words(s@).len(),
    ensures
        r@ == join_space(words(s@).take(count as int)),
{
    proof {
        reveal_strlit(" ");
        assert(" "@ =~= seq![' ']);
    }
    let ghost t = s@;
    let ghost ws = words(t);
    let n = s.unicode_len();
    let mut out = String::new();
    let mut pos: usize = 0;
    let mut wi: usize = 0;

    while wi < count
        invariant
            n == t.len(),
            t == s@,
            ws == words(t),
            count <= ws.len(),
            pos <= n,
            wi <= count,
            words_from(t, pos as int) =~= ws.skip(wi as int),
            out@ == join_space(ws.take(wi as int)),
        decreases count - wi,
    {
        let start = next_word_start_exec(s, pos);
        proof {
            lemma_next_word_start(t, pos as int);
            if start == n {
                assert(words_from(t, pos as int) =~= Seq::<Seq<char>>::empty());
                assert(wi == ws.len());
                assert(false);
            }
        }
        let end = word_end_exec(s, start);
        proof {
            lemma_word_end(t, start as int);
            assert(words_from(t, pos as int)[0] == t.subrange(start as int, end as int));
            assert(ws.skip(wi as int).len() > 0);
            assert(ws.skip(wi as int)[0] == ws[wi as int]);
            assert(ws[wi as int] == t.subrange(start as int, end as int));
            assert(words_from(t, end as int) =~= ws.skip(wi as int).drop_first());
            assert(ws.skip(wi as int).drop_first() =~= ws.skip(wi + 1));
        }
        if wi > 0 {
            out.append(" ");
        }
        let word = s.substring_char(start, end);
        out.append(word);
        proof {
            reveal_strlit(" ");
            assert(" "@ =~= seq![' ']);
            assert(word@ == ws[wi as int]);
            let w1 = ws.take(wi + 1);
            assert(w1.drop_last() =~= ws.take(wi as int));
            assert(w1.last() == ws[wi as int]);
            if wi == 0 {
                assert(join_space(w1) == w1[0]);
                assert(out@ =~= join_space(w1));
            } else {
                assert(join_space(w1) == join_space(ws.take(wi as int)) + seq![' ']
                    + ws[wi as int]);
                assert(out@ =~= join_space(w1));
            }
        }
        pos = end;
        wi = wi + 1;
    }
    out
}

} // verus!
