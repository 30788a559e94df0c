//! Character- and sequence-level text helpers: lower-casing, character
//! classes, trimming, substring search, substring removal and decimal
//! parsing/rendering. All card- and set-name normalization is built on
//! these functions.
use vstd::prelude::*;

verus! {

// ---------------------------------------------------------------------
// Character classes
// ---------------------------------------------------------------------

pub open spec fn is_upper_char(c: char) -> bool {
    'A' <= c && c <= 'Z'
}

/// Lower-casing maps the ASCII upper-case letters to their lower-case
/// counterparts and leaves every other character unchanged.
pub open spec fn lower_char(c: char) -> char {
    if is_upper_char(c) {
        (((c as u32) + 32) as char)
    } else {
        c
    }
}

pub open spec fn lower_seq(s: Seq<char>) -> Seq<char> {
    s.map_values(|c: char| lower_char(c))
}

pub open spec fn is_digit_char(c: char) -> bool {
    '0' <= c && c <= '9'
}

/// Letter-or-digit test used by the name cleaners. ASCII letters and
/// digits count, and so does every character above the ASCII range,
/// so that accented letters in card names survive cleaning.
pub open spec fn is_alnum_char(c: char) -> bool {
    ('a' <= c && c <= 'z') || ('A' <= c && c <= 'Z') || is_digit_char(c) || (c as u32) > 127
}

/// ASCII whitespace.
pub open spec fn is_space_char(c: char) -> bool {
    c == ' ' || c == '\t' || c == '\n' || c == '\r' || c == '\u{c}'
}

fn lower_char_exec(c: char) -> (r: char)
    ensures
        r == lower_char(c),
{
    match c {
        'A' => 'a',
        'B' => 'b',
        'C' => 'c',
        'D' => 'd',
        'E' => 'e',
        'F' => 'f',
        'G' => 'g',
        'H' => 'h',
        'I' => 'i',
        'J' => 'j',
        'K' => 'k',
        'L' => 'l',
        'M' => 'm',
        'N' => 'n',
        'O' => 'o',
        'P' => 'p',
        'Q' => 'q',
        'R' => 'r',
        'S' => 's',
        'T' => 't',
        'U' => 'u',
        'V' => 'v',
        'W' => 'w',
        'X' => 'x',
        'Y' => 'y',
        'Z' => 'z',
        _ => c,
    }
}

fn is_digit_char_exec(c: char) -> (r: bool)
    ensures
        r == is_digit_char(c),
{
    '0' <= c && c <= '9'
}

fn is_alnum_char_exec(c: char) -> (r: bool)
    ensures
        r == is_alnum_char(c),
{
    ('a' <= c && c <= 'z') || ('A' <= c && c <= 'Z') || ('0' <= c && c <= '9') || (c as u32) > 127
}

fn is_space_char_exec(c: char) -> (r: bool)
    ensures
        r == is_space_char(c),
{
    c == ' ' || c == '\t' || c == '\n' || c == '\r' || c == '\u{c}'
}

// ---------------------------------------------------------------------
// String <-> character vector conversions
// ---------------------------------------------------------------------

pub fn str_chars(s: &str) -> (r: Vec<char>)
    ensures
        r@ == s@,
{
    let n: usize = s.unicode_len();
    let mut r: Vec<char> = Vec::new();
    let mut i: usize = 0;
    while i < n
        invariant
            n == s@.len(),
            i <= n,
            r@ == s@.subrange(0, i as int),
        decreases n - i,
    {
        r.push(s.get_char(i));
        assert(r@ =~= s@.subrange(0, i + 1 as int));
        i = i + 1;
    }
    assert(r@ =~= s@);
    r
}

/// Relies on String::push: appends exactly the given character.
#[verifier::external_body]
fn push_char(s: &mut String, c: char)
    ensures
        final(s)@ == old(s)@.push(c),
{
    s.push(c)
}

pub fn chars_to_string(v: &Vec<char>) -> (r: String)
    ensures
        r@ == v@,
{
    let mut r = String::new();
    let mut i: usize = 0;
    while i < v.len()
        invariant
            i <= v@.len(),
            r@ == v@.subrange(0, i as int),
        decreases v@.len() - i,
    {
        push_char(&mut r, v[i]);
        assert(r@ =~= v@.subrange(0, i + 1 as int));
        i = i + 1;
    }
    assert(r@ =~= v@);
    r
}

// ---------------------------------------------------------------------
// Lower-casing and filtering of character vectors
// ---------------------------------------------------------------------

pub fn lower_chars(v: &Vec<char>) -> (r: Vec<char>)
    ensures
        r@ == lower_seq(v@),
{
    let mut r: Vec<char> = Vec::new();
    let mut i: usize = 0;
    while i < v.len()
        invariant
            i <= v@.len(),
            r@ == lower_seq(v@.subrange(0, i as int)),
        decreases v@.len() - i,
    {
        r.push(lower_char_exec(v[i]));
        assert(r@ =~= lower_seq(v@.subrange(0, i + 1 as int))) by {
            assert(v@.subrange(0, i + 1 as int) =~= v@.subrange(0, i as int).push(v@[i as int]));
        }
        i = i + 1;
    }
    assert(v@.subrange(0, v@.len() as int) =~= v@);
    r
}

/// Keeps the characters satisfying `is_alnum_char` or equal to a plain
/// space; used by the card-name cleaner.
pub open spec fn is_name_char(c: char) -> bool {
    is_alnum_char(c) || c == ' '
}

pub open spec fn filter_name_seq(s: Seq<char>) -> Seq<char> {
    s.filter(|c: char| is_name_char(c))
}

pub fn filter_name_chars(v: &Vec<char>) -> (r: Vec<char>)
    ensures
        r@ == filter_name_seq(v@),
{
    reveal(Seq::filter);
    let mut r: Vec<char> = Vec::new();
    let mut i: usize = 0;
    while i < v.len()
        invariant
            i <= v@.len(),
            r@ == filter_name_seq(v@.subrange(0, i as int)),
        decreases v@.len() - i,
    {
        let c = v[i];
        if is_alnum_char_exec(c) || c == ' ' {
            r.push(c);
        }
        proof {
            reveal(Seq::filter);
            let pre = v@.subrange(0, i as int);
            let cur = v@.subrange(0, i + 1 as int);
            assert(cur.drop_last() =~= pre);
            assert(cur.last() == v@[i as int]);
        }
        i = i + 1;
    }
    assert(v@.subrange(0, v@.len() as int) =~= v@);
    r
}

/// Keeps alphanumerics and whitespace; used by the set-name cleaner and
/// by `clean_string`.
pub open spec fn is_alnum_ws_char(c: char) -> bool {
    is_alnum_char(c) || is_space_char(c)
}

pub open spec fn filter_alnum_ws_seq(s: Seq<char>) -> Seq<char> {
    s.filter(|c: char| is_alnum_ws_char(c))
}

pub fn filter_alnum_ws_chars(v: &Vec<char>) -> (r: Vec<char>)
    ensures
        r@ == filter_alnum_ws_seq(v@),
{
    reveal(Seq::filter);
    let mut r: Vec<char> = Vec::new();
    let mut i: usize = 0;
    while i < v.len()
        invariant
            i <= v@.len(),
            r@ == filter_alnum_ws_seq(v@.subrange(0, i as int)),
        decreases v@.len() - i,
    {
        let c = v[i];
        if is_alnum_char_exec(c) || is_space_char_exec(c) {
            r.push(c);
        }
        proof {
            reveal(Seq::filter);
            let pre = v@.subrange(0, i as int);
            let cur = v@.subrange(0, i + 1 as int);
            assert(cur.drop_last() =~= pre);
            assert(cur.last() == v@[i as int]);
        }
        i = i + 1;
    }
    assert(v@.subrange(0, v@.len() as int) =~= v@);
    r
}

// ---------------------------------------------------------------------
// Trimming
// ---------------------------------------------------------------------

pub open spec fn trim_start_spec(s: Seq<char>) -> Seq<char>
    decreases s.len(),
{
    if s.len() > 0 && is_space_char(s[0]) {
        trim_start_spec(s.skip(1))
    } else {
        s
    }
}

pub open spec fn trim_end_spec(s: Seq<char>) -> Seq<char>
    decreases s.len(),
{
    if s.len() > 0 && is_space_char(s.last()) {
        trim_end_spec(s.drop_last())
    } else {
        s
    }
}

/// Whitespace trimmed from both ends, as str::trim does.
pub open spec fn trim_spec(s: Seq<char>) -> Seq<char> {
    trim_end_spec(trim_start_spec(s))
}

proof fn lemma_trim_start_skip(s: Seq<char>, i: int)
    requires
        0 <= i <= s.len(),
        forall|j: int| 0 <= j < i ==> is_space_char(s[j]),
    ensures
        trim_start_spec(s) == trim_start_spec(s.skip(i)),
    decreases i,
{
    if i > 0 {
        assert(trim_start_spec(s) == trim_start_spec(s.skip(1)));
        assert(s.skip(1).skip(i - 1) =~= s.skip(i));
        lemma_trim_start_skip(s.skip(1), i - 1);
    } else {
        assert(s.skip(0) =~= s);
    }
}

proof fn lemma_trim_end_take(s: Seq<char>, i: int)
    requires
        0 <= i <= s.len(),
        forall|j: int| i <= j < s.len() ==> is_space_char(s[j]),
    ensures
        trim_end_spec(s) == trim_end_spec(s.take(i)),
    decreases s.len() - i,
{
    if i < s.len() {
        assert(trim_end_spec(s) == trim_end_spec(s.drop_last()));
        assert(s.drop_last().take(i) =~= s.take(i));
        lemma_trim_end_take(s.drop_last(), i);
    } else {
        assert(s.take(i) =~= s);
    }
}

pub fn trim_chars(v: &Vec<char>) -> (r: Vec<char>)
    ensures
        r@ == trim_spec(v@),
{
    let n = v.len();
    let mut start: usize = 0;
    while start < n && is_space_char_exec(v[start])
        invariant
            n == v@.len(),
            start <= n,
            forall|j: int| 0 <= j < start ==> is_space_char(v@[j]),
        decreases n - start,
    {
        start = start + 1;
    }
    proof {
        lemma_trim_start_skip(v@, start as int);
    }
    let mut end: usize = n;
    while end > start && is_space_char_exec(v[end - 1])
        invariant
            n == v@.len(),
            start <= end <= n,
            forall|j: int| end <= j < n ==> is_space_char(v@[j]),
        decreases end,
    {
        end = end - 1;
    }
    let ghost tail = v@.skip(start as int);
    proof {
        assert(trim_start_spec(v@) == tail) by {
            if tail.len() > 0 {
                assert(tail[0] == v@[start as int]);
            }
        }
        lemma_trim_end_take(tail, end - start);
        if end > start {
            assert(tail.take(end - start).last() == v@[end - 1]);
        }
        assert(trim_end_spec(tail.take(end - start)) == tail.take(end - start));
    }
    let mut r: Vec<char> = Vec::new();
    let mut i: usize = start;
    while i < end
        invariant
            start <= i <= end <= v@.len(),
            r@ == v@.subrange(start as int, i as int),
        decreases end - i,
    {
        r.push(v[i]);
        assert(r@ =~= v@.subrange(start as int, i + 1 as int));
        i = i + 1;
    }
    proof {
        assert(r@ =~= v@.skip(start as int).take(end - start));
    }
    r
}

// ---------------------------------------------------------------------
// Substring search
// ---------------------------------------------------------------------

/// The needle `n` occurs in `h` starting at position `i`.
pub open spec fn contains_at(h: Seq<char>, n: Seq<char>, i: int) -> bool {
    0 <= i && i + n.len() <= h.len() && h.subrange(i, i + n.len()) == n
}

pub open spec fn seq_contains(h: Seq<char>, n: Seq<char>) -> bool {
    exists|i: int| contains_at(h, n, i)
}

fn matches_at(h: &Vec<char>, n: &Vec<char>, i: usize) -> (r: bool)
    requires
        i + n@.len() <= h@.len(),
    ensures
        r == contains_at(h@, n@, i as int),
{
    let hl = h.len();
    let mut j: usize = 0;
    while j < n.len()
        invariant
            i + n@.len() <= h@.len(),
            hl == h@.len(),
            j <= n@.len(),
            forall|k: int| 0 <= k < j ==> h@[i + k] == n@[k],
        decreases n@.len() - j,
    {
        assert(i + j < h@.len());
        if h[i + j] != n[j] {
            assert(h@.subrange(i as int, i + n@.len()) != n@) by {
                assert(h@.subrange(i as int, i + n@.len())[j as int] == h@[i + j]);
            }
            return false;
        }
        j = j + 1;
    }
    assert(h@.subrange(i as int, i + n@.len()) =~= n@);
    true
}

pub fn contains_chars(h: &Vec<char>, n: &Vec<char>) -> (r: bool)
    ensures
        r == seq_contains(h@, n@),
{
    if n.len() > h.len() {
        assert(!seq_contains(h@, n@));
        return false;
    }
    let last = h.len() - n.len();
    let mut i: usize = 0;
    loop
        invariant
            n@.len() <= h@.len(),
            last == h@.len() - n@.len(),
            i <= last,
            forall|k: int| 0 <= k < i ==> !contains_at(h@, n@, k),
        decreases last - i,
    {
        if matches_at(h, n, i) {
            return true;
        }
        if i == last {
            assert(forall|k: int| contains_at(h@, n@, k) ==> 0 <= k <= last);
            return false;
        }
        i = i + 1;
    }
}

// ---------------------------------------------------------------------
// Removal of every occurrence of a pattern
// ---------------------------------------------------------------------

/// `s` with every occurrence of `p` removed, scanning from the left,
/// as str::replace(p, "") does.
pub open spec fn remove_all_spec(s: Seq<char>, p: Seq<char>) -> Seq<char>
    decreases s.len(),
    when p.len() > 0
{
    if s.len() < p.len() {
        s
    } else if s.subrange(0, p.len() as int) == p {
        remove_all_spec(s.skip(p.len() as int), p)
    } else {
        seq![s[0]] + remove_all_spec(s.skip(1), p)
    }
}

proof fn lemma_remove_all_step(s: Seq<char>, p: Seq<char>, i: int)
    requires
        p.len() > 0,
        0 <= i <= s.len(),
    ensures
        i + p.len() <= s.len() && s.subrange(i, i + p.len()) == p ==> remove_all_spec(
            s.skip(i),
            p,
        ) == remove_all_spec(s.skip(i + p.len()), p),
        !(i + p.len() <= s.len() && s.subrange(i, i + p.len()) == p) && i < s.len()
            ==> remove_all_spec(s.skip(i), p) == seq![s[i]] + remove_all_spec(s.skip(i + 1), p),
{
    let t = s.skip(i);
    if i + p.len() <= s.len() && s.subrange(i, i + p.len()) == p {
        assert(t.subrange(0, p.len() as int) =~= s.subrange(i, i + p.len()));
        assert(t.skip(p.len() as int) =~= s.skip(i + p.len()));
    } else if i < s.len() {
        if t.len() >= p.len() {
            assert(t.subrange(0, p.len() as int) =~= s.subrange(i, i + p.len()));
        }
        assert(t.skip(1) =~= s.skip(i + 1));
        if t.len() < p.len() {
            assert(t =~= seq![s[i]] + s.skip(i + 1));
            assert(remove_all_spec(t, p) == t);
            assert(s.skip(i + 1).len() < p.len());
            assert(remove_all_spec(s.skip(i + 1), p) == s.skip(i + 1));
        } else {
            assert(t[0] == s[i]);
            assert(remove_all_spec(t, p) == seq![t[0]] + remove_all_spec(t.skip(1), p));
        }
    }
}

#[verifier::rlimit(50)]
pub fn remove_all_chars(v: &Vec<char>, p: &Vec<char>) -> (r: Vec<char>)
    requires
        p@.len() > 0,
    ensures
        r@ == remove_all_spec(v@, p@),
{
    let mut r: Vec<char> = Vec::new();
    let mut i: usize = 0;
    proof {
        assert(v@.skip(0) =~= v@);
        assert(Seq::<char>::empty() + remove_all_spec(v@, p@) =~= remove_all_spec(v@, p@));
    }
    while i < v.len()
        invariant
            p@.len() > 0,
            i <= v@.len(),
            remove_all_spec(v@, p@) == r@ + remove_all_spec(v@.skip(i as int), p@),
        decreases v@.len() - i,
    {
        proof {
            lemma_remove_all_step(v@, p@, i as int);
        }
        if v.len() - i >= p.len() && matches_at(v, p, i) {
            assert(v@.subrange(i as int, i + p@.len()) == p@);
            i = i + p.len();
        } else {
            r.push(v[i]);
            proof {
                assert(r@ + remove_all_spec(v@.skip(i + 1 as int), p@) =~= r@.drop_last() + (seq![
                    v@[i as int],
                ] + remove_all_spec(v@.skip(i + 1 as int), p@)));
            }
            i = i + 1;
        }
    }
    proof {
        assert(v@.skip(v@.len() as int) =~= Seq::<char>::empty());
        assert(remove_all_spec(Seq::<char>::empty(), p@) == Seq::<char>::empty());
        assert(r@ + Seq::<char>::empty() =~= r@);
    }
    r
}

// ---------------------------------------------------------------------
// Decimal parsing and rendering
// ---------------------------------------------------------------------

pub open spec fn all_digits(s: Seq<char>) -> bool {
    forall|i: int| 0 <= i < s.len() ==> is_digit_char(#[trigger] s[i])
}

pub open spec fn digit_val(c: char) -> nat {
    ((c as u32) - ('0' as u32)) as nat
}

/// The numeric value of a digit string read in base ten.
pub open spec fn digits_val(s: Seq<char>) -> nat
    decreases s.len(),
{
    if s.len() == 0 {
        0
    } else {
        digits_val(s.drop_last()) * 10 + digit_val(s.last())
    }
}

proof fn lemma_digits_val_grows(s: Seq<char>, i: int)
    requires
        0 <= i <= s.len(),
    ensures
        digits_val(s) >= digits_val(s.subrange(0, i)),
    decreases s.len() - i,
{
    if i < s.len() {
        lemma_digits_val_grows(s, i + 1);
        let a = s.subrange(0, i);
        let b = s.subrange(0, i + 1);
        assert(b.drop_last() =~= a);
        assert(digits_val(b) == digits_val(a) * 10 + digit_val(b.last()));
    } else {
        assert(s.subrange(0, i) =~= s);
    }
}

pub fn parse_u64_chars(v: &Vec<char>) -> (r: Option<u64>)
    ensures
        r is Some <==> v@.len() > 0 && all_digits(v@) && digits_val(v@) <= u64::MAX,
        r is Some ==> r->0 == digits_val(v@),
{
    if v.len() == 0 {
        return None;
    }
    let mut acc: u64 = 0;
    let mut i: usize = 0;
    while i < v.len()
        invariant
            i <= v@.len(),
            all_digits(v@.subrange(0, i as int)),
            acc == digits_val(v@.subrange(0, i as int)),
        decreases v@.len() - i,
    {
        let c = v[i];
        if !is_digit_char_exec(c) {
            assert(!all_digits(v@));
            return None;
        }
        let d: u64 = (c as u32 - '0' as u32) as u64;
        proof {
            let cur = v@.subrange(0, i + 1 as int);
            assert(cur.drop_last() =~= v@.subrange(0, i as int));
            assert(cur.last() == v@[i as int]);
        }
        if acc > (u64::MAX - d) / 10 {
            proof {
                lemma_digits_val_grows(v@, i + 1 as int);
                if all_digits(v@) {
                    assert(digits_val(v@.subrange(0, i + 1 as int)) > u64::MAX);
                }
            }
            return None;
        }
        acc = acc * 10 + d;
        i = i + 1;
    }
    assert(v@.subrange(0, v@.len() as int) =~= v@);
    Some(acc)
}

pub open spec fn digit_char(d: nat) -> char
    recommends
        d < 10,
{
    ((('0' as u32) + d as u32) as char)
}

/// The shortest decimal rendering of `n` (a single '0' for zero).
pub open spec fn dec_rep(n: nat) -> Seq<char>
    decreases n,
{
    if n < 10 {
        seq![digit_char(n)]
    } else {
        dec_rep(n / 10).push(digit_char(n % 10))
    }
}

fn digit_char_exec(d: u64) -> (r: char)
    requires
        d < 10,
    ensures
        r == digit_char(d as nat),
{
    match d {
        0 => '0',
        1 => '1',
        2 => '2',
        3 => '3',
        4 => '4',
        5 => '5',
        6 => '6',
        7 => '7',
        8 => '8',
        _ => '9',
    }
}

pub fn u64_to_chars(n: u64) -> (r: Vec<char>)
    ensures
        r@ == dec_rep(n as nat),
    decreases n,
{
    if n < 10 {
        let mut r: Vec<char> = Vec::new();
        r.push(digit_char_exec(n));
        assert(r@ =~= dec_rep(n as nat));
        r
    } else {
        let mut r = u64_to_chars(n / 10);
        r.push(digit_char_exec(n % 10));
        r
    }
}

pub fn u64_to_string(n: u64) -> (r: String)
    ensures
        r@ == dec_rep(n as nat),
{
    let v = u64_to_chars(n);
    chars_to_string(&v)
}

// ---------------------------------------------------------------------
// Collapsing repeated spaces
// ---------------------------------------------------------------------

/// Left fold that keeps every non-space character and keeps a space
/// only when the output so far is non-empty and does not already end
/// in one. The result has no leading space and no two adjacent spaces;
/// at most one space can remain at the very end.
pub open spec fn squeeze_spec(s: Seq<char>) -> Seq<char>
    decreases s.len(),
{
    if s.len() == 0 {
        Seq::empty()
    } else {
        let pre = squeeze_spec(s.drop_last());
        let c = s.last();
        if c != ' ' {
            pre.push(c)
        } else if pre.len() > 0 && pre.last() != ' ' {
            pre.push(' ')
        } else {
            pre
        }
    }
}

pub open spec fn drop_trailing_space(s: Seq<char>) -> Seq<char> {
    if s.len() > 0 && s.last() == ' ' {
        s.drop_last()
    } else {
        s
    }
}

/// Repeated spaces collapsed to one, leading and trailing spaces gone.
pub open spec fn collapse_spaces(s: Seq<char>) -> Seq<char> {
    drop_trailing_space(squeeze_spec(s))
}

/// Shape of a space-collapsed sequence: no space at the start and no
/// space right after another space.
pub open spec fn space_collapsed(s: Seq<char>) -> bool {
    (s.len() > 0 ==> s[0] != ' ') && (forall|i: int|
        0 < i < s.len() && #[trigger] s[i] == ' ' ==> s[i - 1] != ' ')
}

pub proof fn lemma_squeeze_shape(s: Seq<char>)
    ensures
        space_collapsed(squeeze_spec(s)),
    decreases s.len(),
{
    if s.len() > 0 {
        lemma_squeeze_shape(s.drop_last());
        let pre = squeeze_spec(s.drop_last());
        let out = squeeze_spec(s);
        assert forall|i: int| 0 < i < out.len() && #[trigger] out[i] == ' ' implies out[i - 1]
            != ' ' by {
            if i < pre.len() {
                assert(pre[i] == ' ' ==> pre[i - 1] != ' ');
            }
        }
    }
}

pub proof fn lemma_squeeze_fixed(s: Seq<char>)
    requires
        space_collapsed(s),
    ensures
        squeeze_spec(s) == s,
    decreases s.len(),
{
    if s.len() > 0 {
        let pre = s.drop_last();
        assert(space_collapsed(pre)) by {
            if pre.len() > 0 {
                assert(pre[0] == s[0]);
            }
        }
        lemma_squeeze_fixed(pre);
        if s.last() == ' ' {
            assert(pre.len() > 0) by {
                assert(s[0] != ' ');
            }
            assert(pre.last() != ' ') by {
                assert(s[s.len() - 1] == ' ' ==> s[s.len() - 2] != ' ');
            }
            assert(squeeze_spec(s) =~= s);
        } else {
            assert(squeeze_spec(s) =~= s);
        }
    } else {
        assert(squeeze_spec(s) =~= s);
    }
}

pub fn squeeze_chars(v: &Vec<char>) -> (r: Vec<char>)
    ensures
        r@ == collapse_spaces(v@),
{
    let mut r: Vec<char> = Vec::new();
    let mut i: usize = 0;
    while i < v.len()
        invariant
            i <= v@.len(),
            r@ == squeeze_spec(v@.subrange(0, i as int)),
        decreases v@.len() - i,
    {
        let c = v[i];
        proof {
            let cur = v@.subrange(0, i + 1 as int);
            assert(cur.drop_last() =~= v@.subrange(0, i as int));
            assert(cur.last() == v@[i as int]);
        }
        if c != ' ' {
            r.push(c);
        } else {
            if r.len() > 0 && r[r.len() - 1] != ' ' {
                r.push(' ');
            }
        }
        i = i + 1;
    }
    assert(v@.subrange(0, v@.len() as int) =~= v@);
    if r.len() > 0 && r[r.len() - 1] == ' ' {
        let _ = r.pop();
    }
    r
}

// ---------------------------------------------------------------------
// The part of a string before its first opening parenthesis
// ---------------------------------------------------------------------

pub open spec fn before_first_paren(s: Seq<char>) -> Seq<char>
    decreases s.len(),
{
    if s.len() == 0 {
        s
    } else if s[0] == '(' {
        Seq::empty()
    } else {
        seq![s[0]] + before_first_paren(s.skip(1))
    }
}

pub open spec fn has_char(s: Seq<char>, c: char) -> bool {
    exists|i: int| 0 <= i < s.len() && s[i] == c
}

/// What `CardName` construction does first: when the string holds a
/// `(`, everything from it on is dropped and the rest is trimmed;
/// otherwise the string is returned unchanged.
pub open spec fn strip_parens_spec(s: Seq<char>) -> Seq<char> {
    if has_char(s, '(') {
        trim_spec(before_first_paren(s))
    } else {
        s
    }
}

pub proof fn lemma_bfp_prefix(s: Seq<char>, i: int)
    requires
        0 <= i <= s.len(),
        forall|j: int| 0 <= j < i ==> s[j] != '(',
    ensures
        before_first_paren(s) == s.take(i) + before_first_paren(s.skip(i)),
    decreases i,
{
    if i == 0 {
        assert(s.skip(0) =~= s);
        assert(s.take(0) + before_first_paren(s) =~= before_first_paren(s));
    } else {
        lemma_bfp_prefix(s, i - 1);
        let t = s.skip(i - 1);
        assert(t[0] == s[i - 1]);
        assert(t.skip(1) =~= s.skip(i));
        assert(before_first_paren(t) == seq![t[0]] + before_first_paren(s.skip(i)));
        assert(s.take(i - 1) + (seq![s[i - 1]] + before_first_paren(s.skip(i))) =~= s.take(i)
            + before_first_paren(s.skip(i)));
    }
}

pub fn strip_parens_chars(v: &Vec<char>) -> (r: Vec<char>)
    ensures
        r@ == strip_parens_spec(v@),
{
    let mut i: usize = 0;
    while i < v.len() && v[i] != '('
        invariant
            i <= v@.len(),
            forall|j: int| 0 <= j < i ==> v@[j] != '(',
        decreases v@.len() - i,
    {
        i = i + 1;
    }
    proof {
        lemma_bfp_prefix(v@, i as int);
    }
    if i == v.len() {
        proof {
            assert(!has_char(v@, '('));
        }
        let mut r: Vec<char> = Vec::new();
        let mut k: usize = 0;
        while k < v.len()
            invariant
                k <= v@.len(),
                r@ == v@.subrange(0, k as int),
            decreases v@.len() - k,
        {
            r.push(v[k]);
            assert(r@ =~= v@.subrange(0, k + 1 as int));
            k = k + 1;
        }
        assert(r@ =~= v@);
        r
    } else {
        proof {
            assert(v@[i as int] == '(');
            assert(has_char(v@, '('));
            let t = v@.skip(i as int);
            assert(t[0] == v@[i as int]);
            assert(before_first_paren(t) =~= Seq::<char>::empty());
            assert(v@.take(i as int) + Seq::<char>::empty() =~= v@.take(i as int));
        }
        let mut pre: Vec<char> = Vec::new();
        let mut k: usize = 0;
        while k < i
            invariant
                k <= i <= v@.len(),
                pre@ == v@.subrange(0, k as int),
            decreases i - k,
        {
            pre.push(v[k]);
            assert(pre@ =~= v@.subrange(0, k + 1 as int));
            k = k + 1;
        }
        assert(pre@ =~= v@.take(i as int));
        trim_chars(&pre)
    }
}

// ---------------------------------------------------------------------
// Lemmas used by the idempotence proof of name normalization
// ---------------------------------------------------------------------

/// Every character of the squeezed sequence is a character of the
/// input or a plain space.
pub proof fn lemma_squeeze_membership(s: Seq<char>)
    ensures
        forall|x: char| squeeze_spec(s).contains(x) ==> s.contains(x) || x == ' ',
    decreases s.len(),
{
    if s.len() > 0 {
        lemma_squeeze_membership(s.drop_last());
        let pre = squeeze_spec(s.drop_last());
        let out = squeeze_spec(s);
        assert forall|x: char| out.contains(x) implies s.contains(x) || x == ' ' by {
            if x != ' ' {
                let i = choose|i: int| 0 <= i < out.len() && out[i] == x;
                if i < pre.len() {
                    assert(pre.contains(x));
                    assert(s.drop_last().contains(x) || x == ' ');
                    if s.drop_last().contains(x) {
                        let j = choose|j: int| 0 <= j < s.drop_last().len() && s.drop_last()[j]
                            == x;
                        assert(s[j] == x);
                    }
                } else {
                    assert(out[i] == s.last());
                    assert(s.contains(x)) by {
                        assert(s[s.len() - 1] == x);
                    }
                }
            }
        }
    }
}

/// Filtering is the identity on a sequence whose characters all
/// satisfy the predicate.
pub proof fn lemma_filter_fixed(s: Seq<char>, pred: spec_fn(char) -> bool)
    requires
        forall|i: int| 0 <= i < s.len() ==> pred(#[trigger] s[i]),
    ensures
        s.filter(pred) == s,
    decreases s.len(),
{
    reveal(Seq::filter);
    if s.len() > 0 {
        assert(forall|i: int| 0 <= i < s.drop_last().len() ==> pred(#[trigger] s.drop_last()[i]));
        lemma_filter_fixed(s.drop_last(), pred);
        assert(s.filter(pred) =~= s);
    } else {
        assert(s.filter(pred) =~= s);
    }
}

/// The output of `collapse_spaces` is itself space-collapsed, with no
/// trailing space, so collapsing it again changes nothing.
pub proof fn lemma_collapse_idempotent(s: Seq<char>)
    ensures
        collapse_spaces(collapse_spaces(s)) == collapse_spaces(s),
{
    lemma_squeeze_shape(s);
    let sq = squeeze_spec(s);
    let t = collapse_spaces(s);
    assert(space_collapsed(t)) by {
        if t.len() > 0 {
            assert(t[0] == sq[0]);
        }
        assert forall|i: int| 0 < i < t.len() && #[trigger] t[i] == ' ' implies t[i - 1] != ' ' by {
            assert(sq[i] == ' ' ==> sq[i - 1] != ' ');
        }
    }
    lemma_squeeze_fixed(t);
    assert(drop_trailing_space(t) == t) by {
        if t.len() > 0 && t.last() == ' ' {
            if sq.len() > 0 && sq.last() == ' ' {
                assert(t == sq.drop_last());
                assert(sq[sq.len() - 1] == ' ' ==> sq[sq.len() - 2] != ' ');
            }
        }
    }
}

/// Character-for-character equality between a character vector and a
/// string slice.
pub fn chars_eq_str(v: &Vec<char>, s: &str) -> (r: bool)
    ensures
        r == (v@ == s@),
{
    let n = s.unicode_len();
    if v.len() != n {
        return false;
    }
    let mut i: usize = 0;
    while i < n
        invariant
            n == s@.len(),
            v@.len() == n,
            i <= n,
            forall|j: int| 0 <= j < i ==> v@[j] == s@[j],
        decreases n - i,
    {
        if v[i] != s.get_char(i) {
            return false;
        }
        i = i + 1;
    }
    proof {
        assert(v@ =~= s@);
    }
    true
}

/// Character-for-character equality of two character vectors.
pub fn chars_eq_chars(a: &Vec<char>, b: &Vec<char>) -> (r: bool)
    ensures
        r == (a@ == b@),
{
    if a.len() != b.len() {
        return false;
    }
    let mut i: usize = 0;
    while i < a.len()
        invariant
            a@.len() == b@.len(),
            i <= a@.len(),
            forall|j: int| 0 <= j < i ==> a@[j] == b@[j],
        decreases a@.len() - i,
    {
        if a[i] != b[i] {
            return false;
        }
        i = i + 1;
    }
    proof {
        assert(a@ =~= b@);
    }
    true
}

/// Removing a pattern that does not occur changes nothing.
pub proof fn lemma_remove_all_absent(s: Seq<char>, p: Seq<char>)
    requires
        p.len() > 0,
        !seq_contains(s, p),
    ensures
        remove_all_spec(s, p) == s,
    decreases s.len(),
{
    if s.len() < p.len() {
    } else {
        assert(!contains_at(s, p, 0));
        assert(s.subrange(0, p.len() as int) != p);
        assert(!seq_contains(s.skip(1), p)) by {
            if seq_contains(s.skip(1), p) {
                let i = choose|i: int| contains_at(s.skip(1), p, i);
                assert(s.skip(1).subrange(i, i + p.len()) =~= s.subrange(i + 1, i + 1 + p.len()));
                assert(contains_at(s, p, i + 1));
            }
        }
        lemma_remove_all_absent(s.skip(1), p);
        assert(remove_all_spec(s, p) == seq![s[0]] + s.skip(1));
        assert(seq![s[0]] + s.skip(1) =~= s);
    }
}

/// Whether the sequence opens with the prefix.
pub open spec fn starts_with_spec(s: Seq<char>, p: Seq<char>) -> bool {
    s.len() >= p.len() && s.subrange(0, p.len() as int) == p
}

pub fn starts_with_chars(v: &Vec<char>, p: &Vec<char>) -> (r: bool)
    ensures
        r == starts_with_spec(v@, p@),
{
    if v.len() < p.len() {
        return false;
    }
    let mut j: usize = 0;
    while j < p.len()
        invariant
            p@.len() <= v@.len(),
            j <= p@.len(),
            forall|k: int| 0 <= k < j ==> v@[k] == p@[k],
        decreases p@.len() - j,
    {
        if v[j] != p[j] {
            assert(v@.subrange(0, p@.len() as int)[j as int] == v@[j as int]);
            return false;
        }
        j = j + 1;
    }
    assert(v@.subrange(0, p@.len() as int) =~= p@);
    true
}

/// A pattern whose first character never occurs in the sequence does
/// not occur in it.
pub proof fn lemma_pattern_absent_by_first_char(s: Seq<char>, p: Seq<char>)
    requires
        p.len() >= 1,
        forall|i: int| 0 <= i < s.len() ==> s[i] != p[0],
    ensures
        !seq_contains(s, p),
{
    if seq_contains(s, p) {
        let i = choose|i: int| contains_at(s, p, i);
        assert(s.subrange(i, i + p.len())[0] == s[i]);
    }
}

} // verus!
