//! Text helpers shared by the log, error and path code: decimal numbers,
//! whitespace trimming, line splitting and path joining.

use vstd::prelude::*;
use vstd::string::*;

verus! {

broadcast use vstd::string::group_string_axioms;

/// The character of a decimal digit.
pub open spec fn digit_char(d: nat) -> char {
    if d == 0 { '0' }
    else if d == 1 { '1' }
    else if d == 2 { '2' }
    else if d == 3 { '3' }
    else if d == 4 { '4' }
    else if d == 5 { '5' }
    else if d == 6 { '6' }
    else if d == 7 { '7' }
    else if d == 8 { '8' }
    else { '9' }
}

/// Decimal notation of a natural number, without leading zeros.
pub open spec fn decimal(n: nat) -> Seq<char>
    decreases n,
{
    if n < 10 {
        seq![digit_char(n)]
    } else {
        decimal(n / 10) + seq![digit_char(n % 10)]
    }
}

/// Decimal notation of an integer, with a leading minus sign when negative.
pub open spec fn signed_decimal(n: int) -> Seq<char> {
    if n < 0 {
        seq!['-'] + decimal((-n) as nat)
    } else {
        decimal(n as nat)
    }
}

/// Decimal notation padded with leading zeros to at least `width` characters.
pub open spec fn padded_decimal(n: nat, width: nat) -> Seq<char> {
    let d = decimal(n);
    if d.len() >= width {
        d
    } else {
        Seq::new((width - d.len()) as nat, |i: int| '0') + d
    }
}

fn digit_text(d: u64) -> (r: &'static str)
    requires
        d < 10,
    ensures
        r@ == seq![digit_char(d as nat)],
{
    proof {
        reveal_strlit("0");
        reveal_strlit("1");
        reveal_strlit("2");
        reveal_strlit("3");
        reveal_strlit("4");
        reveal_strlit("5");
        reveal_strlit("6");
        reveal_strlit("7");
        reveal_strlit("8");
        reveal_strlit("9");
    }
    if d == 0 { "0" }
    else if d == 1 { "1" }
    else if d == 2 { "2" }
    else if d == 3 { "3" }
    else if d == 4 { "4" }
    else if d == 5 { "5" }
    else if d == 6 { "6" }
    else if d == 7 { "7" }
    else if d == 8 { "8" }
    else { "9" }
}

/// Decimal text of an unsigned number.
pub fn decimal_text(n: u64) -> (r: String)
    ensures
        r@ == decimal(n as nat),
    decreases n,
{
    if n < 10 {
        String::from_str(digit_text(n))
    } else {
        let head = decimal_text(n / 10);
        head.concat(digit_text(n % 10))
    }
}

/// Decimal text of a signed number.
pub fn signed_decimal_text(n: i64) -> (r: String)
    ensures
        r@ == signed_decimal(n as int),
{
    if n < 0 {
        let magnitude: u64 = if n == i64::MIN {
            9223372036854775808u64
        } else {
            (-n) as u64
        };
        proof {
            reveal_strlit("-");
        }
        String::from_str("-").concat(decimal_text(magnitude).as_str())
    } else {
        decimal_text(n as u64)
    }
}

/// Decimal text of `n`, zero-padded on the left to `width` characters.
pub fn padded_decimal_text(n: u64, width: usize) -> (r: String)
    ensures
        r@ == padded_decimal(n as nat, width as nat),
{
    let digits = decimal_text(n);
    let len = digits.as_str().unicode_len();
    if len >= width {
        return digits;
    }
    let mut out = String::new();
    let mut k: usize = 0;
    proof {
        reveal_strlit("0");
    }
    while k < width - len
        invariant
            len == digits@.len(),
            len < width,
            k <= width - len,
            out@ == Seq::new(k as nat, |i: int| '0'),
        decreases width - len - k,
    {
        proof {
            reveal_strlit("0");
        }
        out.append("0");
        k = k + 1;
        assert(out@ =~= Seq::new(k as nat, |i: int| '0'));
    }
    out.concat(digits.as_str())
}

/// The concatenation of two texts.
pub fn join2(a: &str, b: &str) -> (r: String)
    ensures
        r@ == a@ + b@,
{
    String::from_str(a).concat(b)
}

/// The concatenation of three texts.
pub fn join3(a: &str, b: &str, c: &str) -> (r: String)
    ensures
        r@ == a@ + b@ + c@,
{
    String::from_str(a).concat(b).concat(c)
}

/// The concatenation of four texts.
pub fn join4(a: &str, b: &str, c: &str, d: &str) -> (r: String)
    ensures
        r@ == a@ + b@ + c@ + d@,
{
    String::from_str(a).concat(b).concat(c).concat(d)
}

/// The characters of a text, in order.
pub fn chars_of(s: &str) -> (r: Vec<char>)
    ensures
        r@ == s@,
{
    let mut out: Vec<char> = Vec::new();
    for c in it: s.chars()
        invariant
            out@ == it.seq().take(it.index() as int),
    {
        out.push(c);
        assert(out@ =~= it.seq().take(it.index() as int + 1));
    }
    assert(out@ =~= s@);
    out
}

/// Whitespace in the sense of Unicode's `White_Space` property.
pub open spec fn is_white(c: char) -> bool {
    c == '\t' || c == '\n' || c == '\u{0B}' || c == '\u{0C}' || c == '\r' || c == ' '
        || c == '\u{85}' || c == '\u{A0}' || c == '\u{1680}'
        || ('\u{2000}' <= c && c <= '\u{200A}')
        || c == '\u{2028}' || c == '\u{2029}' || c == '\u{202F}' || c == '\u{205F}'
        || c == '\u{3000}'
}

fn white(c: char) -> (r: bool)
    ensures
        r == is_white(c),
{
    c == '\t' || c == '\n' || c == '\u{0B}' || c == '\u{0C}' || c == '\r' || c == ' '
        || c == '\u{85}' || c == '\u{A0}' || c == '\u{1680}'
        || ('\u{2000}' <= c && c <= '\u{200A}')
        || c == '\u{2028}' || c == '\u{2029}' || c == '\u{202F}' || c == '\u{205F}'
        || c == '\u{3000}'
}

/// Number of whitespace characters that open `s`.
pub open spec fn lead_white(s: Seq<char>) -> nat
    decreases s.len(),
{
    if s.len() > 0 && is_white(s[0]) {
        1 + lead_white(s.drop_first())
    } else {
        0
    }
}

/// Number of whitespace characters that close `s`.
pub open spec fn trail_white(s: Seq<char>) -> nat
    decreases s.len(),
{
    if s.len() > 0 && is_white(s.last()) {
        1 + trail_white(s.drop_last())
    } else {
        0
    }
}

/// `s` without its leading and trailing whitespace.
pub open spec fn trimmed(s: Seq<char>) -> Seq<char> {
    let a = lead_white(s);
    if a == s.len() {
        Seq::empty()
    } else {
        s.subrange(a as int, s.len() - trail_white(s))
    }
}

proof fn lemma_lead_white(s: Seq<char>, k: int)
    requires
        0 <= k <= s.len(),
        forall|j: int| 0 <= j < k ==> is_white(s[j]),
    ensures
        lead_white(s) >= k,
        lead_white(s) <= s.len(),
        k < s.len() && !is_white(s[k]) ==> lead_white(s) == k,
    decreases k,
{
    reveal_with_fuel(lead_white, 2);
    if k > 0 {
        lemma_lead_white(s.drop_first(), k - 1);
    } else {
        lemma_lead_white_bound(s);
    }
}

proof fn lemma_lead_white_bound(s: Seq<char>)
    ensures
        lead_white(s) <= s.len(),
        lead_white(s) < s.len() ==> !is_white(s[lead_white(s) as int]),
        forall|j: int| 0 <= j < lead_white(s) ==> is_white(#[trigger] s[j]),
    decreases s.len(),
{
    if s.len() > 0 && is_white(s[0]) {
        lemma_lead_white_bound(s.drop_first());
        assert forall|j: int| 0 <= j < lead_white(s) implies is_white(#[trigger] s[j]) by {
            if j > 0 {
                assert(s[j] == s.drop_first()[j - 1]);
            }
        }
    }
}

proof fn lemma_trail_white_bound(s: Seq<char>)
    ensures
        trail_white(s) <= s.len(),
        trail_white(s) < s.len() ==> !is_white(s[s.len() - 1 - trail_white(s)]),
        forall|j: int| s.len() - trail_white(s) <= j < s.len() ==> is_white(#[trigger] s[j]),
    decreases s.len(),
{
    if s.len() > 0 && is_white(s.last()) {
        lemma_trail_white_bound(s.drop_last());
        assert forall|j: int| s.len() - trail_white(s) <= j < s.len() implies is_white(
            #[trigger] s[j],
        ) by {
            if j < s.len() - 1 {
                assert(s[j] == s.drop_last()[j]);
            }
        }
    }
}

proof fn lemma_trail_white_exact(s: Seq<char>, t: nat)
    requires
        t <= s.len(),
        forall|j: int| s.len() - t <= j < s.len() ==> is_white(#[trigger] s[j]),
        t < s.len() ==> !is_white(s[s.len() - 1 - t]),
    ensures
        trail_white(s) == t,
    decreases t,
{
    if t > 0 {
        assert(is_white(s.last()));
        let d = s.drop_last();
        assert forall|j: int| d.len() - (t - 1) <= j < d.len() implies is_white(#[trigger] d[j]) by {
            assert(d[j] == s[j]);
        }
        if t - 1 < d.len() {
            assert(d[d.len() - 1 - (t - 1)] == s[s.len() - 1 - t]);
        }
        lemma_trail_white_exact(d, (t - 1) as nat);
    } else {
        if s.len() > 0 {
            assert(!is_white(s.last()));
        }
    }
}

/// `s` without its leading and trailing whitespace.
pub fn trim_text(s: &str) -> (r: String)
    ensures
        r@ == trimmed(s@),
{
    let cs = chars_of(s);
    let n = cs.len();
    let mut a: usize = 0;
    while a < n && white(cs[a])
        invariant
            cs@ == s@,
            n == cs@.len(),
            a <= n,
            forall|j: int| 0 <= j < a ==> is_white(cs@[j]),
        decreases n - a,
    {
        a = a + 1;
    }
    proof {
        lemma_lead_white(s@, a as int);
        lemma_lead_white_bound(s@);
    }
    if a == n {
        assert(lead_white(s@) == s@.len());
        return String::new();
    }
    let mut b: usize = n;
    while b > a && white(cs[b - 1])
        invariant
            cs@ == s@,
            n == cs@.len(),
            a < n,
            !is_white(cs@[a as int]),
            a <= b <= n,
            forall|j: int| b <= j < n ==> is_white(#[trigger] cs@[j]),
        decreases b,
    {
        b = b - 1;
    }
    proof {
        lemma_trail_white_exact(s@, (n - b) as nat);
    }
    String::from_str(s.substring_char(a, b))
}

/// `s` with one trailing carriage return removed.
pub open spec fn strip_cr(s: Seq<char>) -> Seq<char> {
    if s.len() > 0 && s.last() == '\r' {
        s.drop_last()
    } else {
        s
    }
}

/// Index of the first line feed in `s`, or its length when there is none.
pub open spec fn line_end(s: Seq<char>) -> nat
    decreases s.len(),
{
    if s.len() == 0 {
        0
    } else if s[0] == '\n' {
        0
    } else {
        1 + line_end(s.drop_first())
    }
}

/// The lines of a text: split at line feeds, each without a closing carriage
/// return, and no empty last line after a closing line feed.
pub open spec fn text_lines(s: Seq<char>) -> Seq<Seq<char>>
    decreases s.len(),
{
    if s.len() == 0 {
        Seq::empty()
    } else {
        let e = line_end(s);
        if e < s.len() {
            seq![strip_cr(s.subrange(0, e as int))] + text_lines(s.subrange(e as int + 1, s.len() as int))
        } else {
            seq![strip_cr(s)]
        }
    }
}

proof fn lemma_line_end(s: Seq<char>, k: int)
    requires
        0 <= k <= s.len(),
        forall|j: int| 0 <= j < k ==> s[j] != '\n',
        k == s.len() || s[k] == '\n',
    ensures
        line_end(s) == k,
    decreases k,
{
    if k > 0 {
        let d = s.drop_first();
        assert forall|j: int| 0 <= j < k - 1 implies d[j] != '\n' by {
            assert(d[j] == s[j + 1]);
        }
        if k < s.len() {
            assert(d[k - 1] == s[k]);
        }
        lemma_line_end(d, k - 1);
    }
}

/// The lines of `s` (see `text_lines`).
pub fn split_lines(s: &str) -> (r: Vec<String>)
    ensures
        r@.map_values(|l: String| l@) == text_lines(s@),
{
    let cs = chars_of(s);
    let n = cs.len();
    let mut out: Vec<String> = Vec::new();
    let mut start: usize = 0;
    assert(s@.subrange(0, n as int) =~= s@);
    assert(out@.map_values(|l: String| l@) =~= Seq::<Seq<char>>::empty());
    while start < n
        invariant
            cs@ == s@,
            n == s@.len(),
            start <= n,
            text_lines(s@) == out@.map_values(|l: String| l@) + text_lines(
                s@.subrange(start as int, n as int),
            ),
        decreases n - start,
    {
        let ghost rest = s@.subrange(start as int, n as int);
        let mut end: usize = start;
        while end < n && cs[end] != '\n'
            invariant
                cs@ == s@,
                n == s@.len(),
                start <= end <= n,
                forall|j: int| start <= j < end ==> cs@[j] != '\n',
            decreases n - end,
        {
            end = end + 1;
        }
        proof {
            assert forall|j: int| 0 <= j < end - start implies rest[j] != '\n' by {
                assert(rest[j] == s@[start + j]);
            }
            if end < n {
                assert(rest[end - start] == s@[end as int]);
            }
            lemma_line_end(rest, end - start);
        }
        let mut stop = end;
        if stop > start && cs[stop - 1] == '\r' {
            stop = stop - 1;
        }
        let piece = String::from_str(s.substring_char(start, stop));
        proof {
            assert(rest.subrange(0, end - start) =~= s@.subrange(start as int, end as int));
            assert(piece@ =~= strip_cr(rest.subrange(0, end - start)));
        }
        let ghost before = out@;
        out.push(piece);
        assert(out@.map_values(|l: String| l@) =~= before.map_values(|l: String| l@) + seq![
            piece@,
        ]);
        if end < n {
            assert(rest.subrange(end - start + 1, rest.len() as int) =~= s@.subrange(
                end + 1,
                n as int,
            ));
            start = end + 1;
        } else {
            assert(s@.subrange(n as int, n as int) =~= Seq::<char>::empty());
            start = n;
        }
    }
    assert(s@.subrange(n as int, n as int) =~= Seq::<char>::empty());
    assert(out@.map_values(|l: String| l@) + Seq::<Seq<char>>::empty() =~= out@.map_values(
        |l: String| l@,
    ));
    out
}

/// The final path component of a slash-separated path: what follows its last `/`.
pub open spec fn base_name(p: Seq<char>) -> Seq<char>
    decreases p.len(),
{
    if p.len() == 0 {
        p
    } else if p.last() == '/' {
        Seq::empty()
    } else {
        base_name(p.drop_last()) + seq![p.last()]
    }
}

/// `name` placed under the directory `dir`: an absolute `name` stands alone,
/// an empty `dir` adds nothing, and exactly one `/` separates the two.
pub open spec fn joined_path(dir: Seq<char>, name: Seq<char>) -> Seq<char> {
    if name.len() > 0 && name[0] == '/' {
        name
    } else if dir.len() == 0 {
        name
    } else if dir.last() == '/' {
        dir + name
    } else {
        dir + seq!['/'] + name
    }
}

/// See `joined_path`.
pub fn join_path(dir: &str, name: &str) -> (r: String)
    ensures
        r@ == joined_path(dir@, name@),
{
    let nl = name.unicode_len();
    let dl = dir.unicode_len();
    if nl > 0 && name.get_char(0) == '/' {
        String::from_str(name)
    } else if dl == 0 {
        String::from_str(name)
    } else if dir.get_char(dl - 1) == '/' {
        join2(dir, name)
    } else {
        proof {
            reveal_strlit("/");
        }
        join3(dir, "/", name)
    }
}

/// See `base_name`.
pub fn base_name_of(p: &str) -> (r: String)
    ensures
        r@ == base_name(p@),
{
    let cs = chars_of(p);
    let n = cs.len();
    let mut k: usize = n;
    assert(p@.subrange(0, n as int) =~= p@);
    assert(p@.subrange(n as int, n as int) =~= Seq::<char>::empty());
    while k > 0 && cs[k - 1] != '/'
        invariant
            cs@ == p@,
            n == p@.len(),
            k <= n,
            base_name(p@) == base_name(p@.subrange(0, k as int)) + p@.subrange(k as int, n as int),
        decreases k,
    {
        let ghost pre = p@.subrange(0, k as int);
        assert(pre.drop_last() =~= p@.subrange(0, k - 1));
        assert(p@.subrange(k - 1, n as int) =~= seq![pre.last()] + p@.subrange(k as int, n as int));
        k = k - 1;
    }
    proof {
        let pre = p@.subrange(0, k as int);
        if k > 0 {
            assert(pre.last() == '/');
        } else {
            assert(pre.len() == 0);
        }
        assert(base_name(pre) =~= Seq::<char>::empty());
    }
    String::from_str(p.substring_char(k, n))
}

} // verus!
