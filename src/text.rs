//! Character-level scanning of command output: whitespace, lines and words.
use vstd::prelude::*;

verus! {

/// The characters that Unicode classifies as `White_Space`.
pub open spec fn is_ws(c: char) -> bool {
    let u = c as u32;
    (0x09 <= u && u <= 0x0D) || u == 0x20 || u == 0x85 || u == 0xA0 || u == 0x1680 || (0x2000
        <= u && u <= 0x200A) || u == 0x2028 || u == 0x2029 || u == 0x202F || u == 0x205F || u
        == 0x3000
}

pub fn is_whitespace(c: char) -> (r: bool)
    ensures
        r == is_ws(c),
{
    let u = c as u32;
    (0x09 <= u && u <= 0x0D) || u == 0x20 || u == 0x85 || u == 0xA0 || u == 0x1680 || (0x2000
        <= u && u <= 0x200A) || u == 0x2028 || u == 0x2029 || u == 0x202F || u == 0x205F || u
        == 0x3000
}

/// Scanning the first `n` characters of `s` for words: the finished words and
/// the start of the word still open, if any.
pub open spec fn word_scan(s: Seq<char>, n: int) -> (Seq<Seq<char>>, Option<int>)
    decreases n,
{
    if n <= 0 {
        (seq![], None)
    } else {
        let (done, open) = word_scan(s, n - 1);
        if is_ws(s[n - 1]) {
            match open {
                Some(st) => (done.push(s.subrange(st, n - 1)), None),
                None => (done, None),
            }
        } else {
            match open {
                Some(st) => (done, Some(st)),
                None => (done, Some(n - 1)),
            }
        }
    }
}

/// The maximal runs of non-whitespace characters of `s`, in order.
pub open spec fn words(s: Seq<char>) -> Seq<Seq<char>> {
    let (done, open) = word_scan(s, s.len() as int);
    match open {
        Some(st) => done.push(s.subrange(st, s.len() as int)),
        None => done,
    }
}

/// Scanning the first `n` characters of `s` for pieces between `sep`
/// characters: the finished pieces and the start of the piece still open.
pub open spec fn split_scan(s: Seq<char>, sep: char, n: int) -> (Seq<Seq<char>>, int)
    decreases n,
{
    if n <= 0 {
        (seq![], 0)
    } else {
        let (done, st) = split_scan(s, sep, n - 1);
        if s[n - 1] == sep {
            (done.push(s.subrange(st, n - 1)), n)
        } else {
            (done, st)
        }
    }
}

/// The pieces of `s` between `sep` characters; the last piece may be empty.
pub open spec fn pieces(s: Seq<char>, sep: char) -> Seq<Seq<char>> {
    let (done, st) = split_scan(s, sep, s.len() as int);
    done.push(s.subrange(st, s.len() as int))
}

/// The pieces of `s` between line feeds; the last piece may be empty.
pub open spec fn lines(s: Seq<char>) -> Seq<Seq<char>> {
    pieces(s, '\n')
}

/// `ws` joined with a single space between neighbours.
pub open spec fn join_spaced(ws: Seq<Seq<char>>) -> Seq<char>
    decreases ws.len(),
{
    if ws.len() == 0 {
        seq![]
    } else if ws.len() == 1 {
        ws[0]
    } else {
        join_spaced(ws.drop_last()) + seq![' '] + ws.last()
    }
}

pub open spec fn views(v: Seq<String>) -> Seq<Seq<char>> {
    v.map_values(|t: String| t@)
}

proof fn lemma_word_scan_bounds(s: Seq<char>, n: int)
    requires
        0 <= n <= s.len(),
    ensures
        match word_scan(s, n).1 {
            Some(st) => 0 <= st < n,
            None => true,
        },
    decreases n,
{
    if n > 0 {
        lemma_word_scan_bounds(s, n - 1);
    }
}

proof fn lemma_split_scan_bounds(s: Seq<char>, sep: char, n: int)
    requires
        0 <= n <= s.len(),
    ensures
        0 <= split_scan(s, sep, n).1 <= n,
    decreases n,
{
    if n > 0 {
        lemma_split_scan_bounds(s, sep, n - 1);
    }
}

/// The words of `s`, each as its own string.
pub fn split_words(s: &str) -> (r: Vec<String>)
    ensures
        views(r@) == words(s@),
{
    let len = s.unicode_len();
    let mut out: Vec<String> = Vec::new();
    let mut open: Option<usize> = None;
    let mut i: usize = 0;
    while i < len
        invariant
            len == s@.len(),
            i <= len,
            views(out@) == word_scan(s@, i as int).0,
            match open {
                Some(st) => word_scan(s@, i as int).1 == Some(st as int),
                None => word_scan(s@, i as int).1 == None::<int>,
            },
        decreases len - i,
    {
        proof {
            lemma_word_scan_bounds(s@, i as int);
        }
        let c = s.get_char(i);
        if is_whitespace(c) {
            if let Some(st) = open {
                let w = String::from_str(s.substring_char(st, i));
                let ghost prev = out@;
                out.push(w);
                proof {
                    assert(out@.drop_last() == prev);
                    assert(views(out@) =~= views(prev).push(w@));
                }
                open = None;
            }
        } else if open.is_none() {
            open = Some(i);
        }
        i = i + 1;
        proof {
            assert(views(out@) == word_scan(s@, i as int).0);
        }
    }
    proof {
        lemma_word_scan_bounds(s@, len as int);
    }
    if let Some(st) = open {
        let w = String::from_str(s.substring_char(st, len));
        let ghost prev = out@;
        out.push(w);
        proof {
            assert(out@.drop_last() == prev);
            assert(views(out@) =~= views(prev).push(w@));
        }
    }
    out
}

/// `s` without its leading whitespace.
pub open spec fn trim_start(s: Seq<char>) -> Seq<char>
    decreases s.len(),
{
    if s.len() > 0 && is_ws(s[0]) {
        trim_start(s.drop_first())
    } else {
        s
    }
}

/// `s` without its trailing whitespace.
pub open spec fn trim_end(s: Seq<char>) -> Seq<char>
    decreases s.len(),
{
    if s.len() > 0 && is_ws(s.last()) {
        trim_end(s.drop_last())
    } else {
        s
    }
}

/// `s` without leading and trailing whitespace.
pub open spec fn trimmed(s: Seq<char>) -> Seq<char> {
    trim_end(trim_start(s))
}

proof fn lemma_trim_start_from(s: Seq<char>, i: int)
    requires
        0 <= i <= s.len(),
        forall|j: int| 0 <= j < i ==> is_ws(s[j]),
    ensures
        trim_start(s) == trim_start(s.subrange(i, s.len() as int)),
    decreases i,
{
    if i > 0 {
        assert(s.drop_first().subrange(i - 1, s.drop_first().len() as int) =~= s.subrange(
            i,
            s.len() as int,
        ));
        lemma_trim_start_from(s.drop_first(), i - 1);
    } else {
        assert(s.subrange(0, s.len() as int) =~= s);
    }
}

proof fn lemma_trim_end_to(s: Seq<char>, e: int)
    requires
        0 <= e <= s.len(),
        forall|j: int| e <= j < s.len() ==> is_ws(s[j]),
    ensures
        trim_end(s) == trim_end(s.subrange(0, e)),
    decreases s.len() - e,
{
    if e < s.len() {
        assert(s.drop_last().subrange(0, e) =~= s.subrange(0, e));
        lemma_trim_end_to(s.drop_last(), e);
    } else {
        assert(s.subrange(0, e) =~= s);
    }
}

/// `s` with leading and trailing whitespace removed.
pub fn trim(s: &str) -> (r: String)
    ensures
        r@ == trimmed(s@),
{
    let n = s.unicode_len();
    let mut a: usize = 0;
    while a < n && is_whitespace(s.get_char(a))
        invariant
            n == s@.len(),
            a <= n,
            forall|j: int| 0 <= j < a ==> is_ws(s@[j]),
        decreases n - a,
    {
        a = a + 1;
    }
    proof {
        lemma_trim_start_from(s@, a as int);
    }
    let ghost t = s@.subrange(a as int, n as int);
    let mut b: usize = n;
    while b > a && is_whitespace(s.get_char(b - 1))
        invariant
            n == s@.len(),
            a <= b <= n,
            t == s@.subrange(a as int, n as int),
            forall|j: int| b - a <= j < t.len() ==> is_ws(t[j]),
        decreases b,
    {
        b = b - 1;
    }
    proof {
        lemma_trim_end_to(t, (b - a) as int);
        assert(t.subrange(0, (b - a) as int) =~= s@.subrange(a as int, b as int));
        let u = s@.subrange(a as int, b as int);
        if u.len() > 0 {
            assert(u[0] == s@[a as int]);
            assert(u.last() == s@[b - 1]);
        }
        assert(trim_start(u) == u);
        assert(trim_end(u) == u);
    }
    String::from_str(s.substring_char(a, b))
}

/// Whether `p` occurs in `s` starting at index `i`.
pub open spec fn occurs_at(s: Seq<char>, p: Seq<char>, i: int) -> bool {
    0 <= i && i + p.len() <= s.len() && s.subrange(i, i + p.len()) == p
}

pub open spec fn contains_text(s: Seq<char>, p: Seq<char>) -> bool {
    exists|i: int| occurs_at(s, p, i)
}

/// Whether `p` occurs in `s` starting at index `i`.
fn matches_at(s: &str, p: &str, i: usize) -> (r: bool)
    requires
        i <= s@.len(),
    ensures
        r == occurs_at(s@, p@, i as int),
{
    let n = s.unicode_len();
    let m = p.unicode_len();
    if m > n - i {
        return false;
    }
    let mut k: usize = 0;
    while k < m
        invariant
            n == s@.len(),
            m == p@.len(),
            i + m <= n,
            k <= m,
            forall|j: int| 0 <= j < k ==> s@[i + j] == p@[j],
        decreases m - k,
    {
        if s.get_char(i + k) != p.get_char(k) {
            proof {
                assert(s@.subrange(i as int, i + m)[k as int] != p@[k as int]);
            }
            return false;
        }
        k = k + 1;
    }
    proof {
        assert(s@.subrange(i as int, i + m) =~= p@);
    }
    true
}

/// Whether `p` occurs anywhere in `s`.
pub fn contains(s: &str, p: &str) -> (r: bool)
    ensures
        r == contains_text(s@, p@),
{
    let n = s.unicode_len();
    let mut i: usize = 0;
    while i < n
        invariant
            n == s@.len(),
            i <= n,
            forall|j: int| 0 <= j < i ==> !occurs_at(s@, p@, j),
        decreases n - i,
    {
        if matches_at(s, p, i) {
            return true;
        }
        i = i + 1;
    }
    if matches_at(s, p, n) {
        return true;
    }
    proof {
        assert forall|j: int| !occurs_at(s@, p@, j) by {
            if 0 <= j && j < n {
                assert(!occurs_at(s@, p@, j));
            }
        }
    }
    false
}

/// Whether two texts hold the same characters.
pub fn text_eq(a: &str, b: &str) -> (r: bool)
    ensures
        r == (a@ == b@),
{
    let n = a.unicode_len();
    if n != b.unicode_len() {
        return false;
    }
    let mut i: usize = 0;
    while i < n
        invariant
            n == a@.len() == b@.len(),
            i <= n,
            forall|j: int| 0 <= j < i ==> a@[j] == b@[j],
        decreases n - i,
    {
        if a.get_char(i) != b.get_char(i) {
            return false;
        }
        i = i + 1;
    }
    proof {
        assert(a@ =~= b@);
    }
    true
}

/// The pieces of `s` between `sep` characters, each as its own string.
pub fn split_on(s: &str, sep: char) -> (r: Vec<String>)
    ensures
        views(r@) == pieces(s@, sep),
{
    let len = s.unicode_len();
    let mut out: Vec<String> = Vec::new();
    let mut start: usize = 0;
    let mut i: usize = 0;
    while i < len
        invariant
            len == s@.len(),
            i <= len,
            start as int == split_scan(s@, sep, i as int).1,
            views(out@) == split_scan(s@, sep, i as int).0,
        decreases len - i,
    {
        proof {
            lemma_split_scan_bounds(s@, sep, i as int);
        }
        if s.get_char(i) == sep {
            let piece = String::from_str(s.substring_char(start, i));
            let ghost prev = out@;
            out.push(piece);
            proof {
                assert(out@.drop_last() == prev);
                assert(views(out@) =~= views(prev).push(piece@));
            }
            start = i + 1;
        }
        i = i + 1;
    }
    proof {
        lemma_split_scan_bounds(s@, sep, len as int);
    }
    let last = String::from_str(s.substring_char(start, len));
    let ghost prev = out@;
    out.push(last);
    proof {
        assert(out@.drop_last() == prev);
        assert(views(out@) =~= views(prev).push(last@));
    }
    out
}

/// The pieces of `s` between line feeds, each as its own string.
pub fn split_lines(s: &str) -> (r: Vec<String>)
    ensures
        views(r@) == lines(s@),
{
    split_on(s, '\n')
}

} // verus!
