//! Small verified helpers shared across the crate: sorting and sums over
//! samples, integer square roots, decimal rendering and parsing, and
//! character-level string utilities (comparison, case folding, search,
//! trimming and line splitting).

use vstd::prelude::*;
use vstd::relations::sorted_by;
use vstd::seq_lib::lemma_sorted_unique;
use vstd::seq_lib::lemma_multiset_commutative;
use vstd::multiset::Multiset;

verus! {

/// The ordering by which latency samples are sorted.
pub open spec fn u32_leq() -> spec_fn(u32, u32) -> bool {
    |x: u32, y: u32| x <= y
}

/// The canonical ascending ordering of a sequence of samples.
pub open spec fn sorted_of(s: Seq<u32>) -> Seq<u32> {
    s.sort_by(u32_leq())
}

pub proof fn lemma_u32_leq_total_order()
    ensures
        vstd::relations::total_ordering(u32_leq()),
{
}

/// Sort a sequence of samples ascending.
pub fn sort_u32s(v: &Vec<u32>) -> (r: Vec<u32>)
    ensures
        r@ == sorted_of(v@),
        r@.len() == v@.len(),
{
    broadcast use vstd::seq_lib::group_to_multiset_ensures;

    let ghost leq = u32_leq();
    let mut out: Vec<u32> = Vec::new();
    let mut i: usize = 0;
    while i < v.len()
        invariant
            i <= v@.len(),
            out@.len() == i,
            sorted_by(out@, u32_leq()),
            out@.to_multiset() == v@.subrange(0, i as int).to_multiset(),
        decreases v@.len() - i,
    {
        let x = v[i];
        let mut j: usize = 0;
        while j < out.len() && out[j] < x
            invariant
                j <= out@.len(),
                forall|k: int| 0 <= k < j ==> out@[k] < x,
            decreases out@.len() - j,
        {
            j += 1;
        }
        let ghost old_out = out@;
        out.insert(j, x);
        proof {
            broadcast use vstd::multiset::group_multiset_axioms;
            broadcast use vstd::seq_lib::group_to_multiset_ensures;

            old_out.insert_ensures(j as int, x);
            assert(out@ == old_out.insert(j as int, x));
            assert forall|p: int, q: int| 0 <= p < q < out@.len() implies u32_leq()(
                out@[p],
                out@[q],
            ) by {
                if q < j {
                    assert(out@[p] == old_out[p]);
                    assert(out@[q] == old_out[q]);
                    assert(u32_leq()(old_out[p], old_out[q]));
                } else if q == j {
                    assert(out@[p] == old_out[p]);
                    assert(old_out[p] < x);
                } else {
                    assert(out@[q] == old_out[q - 1]);
                    if p < j {
                        assert(out@[p] == old_out[p]);
                        if p < q - 1 {
                            assert(u32_leq()(old_out[p], old_out[q - 1]));
                        }
                    } else if p == j {
                        assert(x <= old_out[j as int]);
                        if j < q - 1 {
                            assert(u32_leq()(old_out[j as int], old_out[q - 1]));
                        }
                    } else {
                        assert(out@[p] == old_out[p - 1]);
                        if p - 1 < q - 1 {
                            assert(u32_leq()(old_out[p - 1], old_out[q - 1]));
                        }
                    }
                }
            }
            assert(sorted_by(out@, u32_leq()));
            let pre = old_out.subrange(0, j as int);
            let post = old_out.subrange(j as int, old_out.len() as int);
            assert(out@ =~= pre.push(x) + post);
            lemma_multiset_commutative(pre.push(x), post);
            lemma_multiset_commutative(pre, post);
            assert(old_out =~= pre + post);
            assert(pre.push(x).to_multiset() =~= pre.to_multiset().insert(x));
            assert(out@.to_multiset() =~= old_out.to_multiset().insert(x));
            assert(v@.subrange(0, i as int + 1) =~= v@.subrange(0, i as int).push(x));
            assert(v@.subrange(0, i as int + 1).to_multiset() =~= v@.subrange(
                0,
                i as int,
            ).to_multiset().insert(x));
            assert(out@.to_multiset() =~= v@.subrange(0, i as int + 1).to_multiset());
        }
        i += 1;
    }
    proof {
        lemma_u32_leq_total_order();
        assert(v@.subrange(0, v@.len() as int) =~= v@);
        v@.lemma_sort_by_ensures(u32_leq());
        lemma_sorted_unique(out@, v@.sort_by(u32_leq()), u32_leq());
        assert(out@ =~= v@.sort_by(u32_leq()));
    }
    out
}

/// Sum of a sequence of samples, as a mathematical integer.
pub open spec fn spec_sum(s: Seq<u32>) -> int
    decreases s.len(),
{
    if s.len() == 0 {
        0
    } else {
        spec_sum(s.drop_last()) + s.last()
    }
}

pub proof fn lemma_sum_bounds(s: Seq<u32>)
    ensures
        0 <= spec_sum(s) <= s.len() * (u32::MAX as int),
    decreases s.len(),
{
    if s.len() > 0 {
        lemma_sum_bounds(s.drop_last());
        assert((s.len() - 1) * (u32::MAX as int) + (u32::MAX as int) == s.len() * (
        u32::MAX as int)) by (nonlinear_arith);
    }
}

/// Floor of the square root: the greatest `r` with `r * r <= v`.
pub fn isqrt64(v: u64) -> (r: u32)
    ensures
        (r as int) * (r as int) <= v as int,
        (v as int) < ((r as int) + 1) * ((r as int) + 1),
{
    let mut lo: u64 = 0;
    let mut hi: u64 = 0x1_0000_0000;
    while lo + 1 < hi
        invariant
            lo < hi <= 0x1_0000_0000,
            (lo as int) * (lo as int) <= v as int,
            (v as int) < (hi as int) * (hi as int),
        decreases hi - lo,
    {
        let mid = lo + (hi - lo) / 2;
        assert(lo < mid < hi);
        assert((mid as int) * (mid as int) < 0x1_0000_0000_0000_0000) by (nonlinear_arith)
            requires
                mid < 0x1_0000_0000,
        ;
        if mid * mid <= v {
            lo = mid;
        } else {
            hi = mid;
        }
    }
    lo as u32
}

/// The character for one decimal digit.
pub open spec fn spec_digit(d: int) -> char {
    if d == 0 {
        '0'
    } else if d == 1 {
        '1'
    } else if d == 2 {
        '2'
    } else if d == 3 {
        '3'
    } else if d == 4 {
        '4'
    } else if d == 5 {
        '5'
    } else if d == 6 {
        '6'
    } else if d == 7 {
        '7'
    } else if d == 8 {
        '8'
    } else {
        '9'
    }
}

/// Decimal representation of a non-negative integer, most significant digit first.
pub open spec fn spec_dec(n: int) -> Seq<char>
    decreases n,
{
    if n < 10 {
        seq![spec_digit(n)]
    } else {
        spec_dec(n / 10).push(spec_digit(n % 10))
    }
}

fn digit_str(d: u64) -> (r: &'static str)
    requires
        d < 10,
    ensures
        r@ == seq![spec_digit(d as int)],
{
    proof {
        reveal_strlit("0");
        reveal_strlit("1");
        reveal_strlit("2");
        reveal_strlit("3");
        reveal_strlit("4");
        reveal_strlit("5");
        reveal_strlit("6");
        reveal_strlit("7");
        reveal_strlit("8");
        reveal_strlit("9");
    }
    match d {
        0 => "0",
        1 => "1",
        2 => "2",
        3 => "3",
        4 => "4",
        5 => "5",
        6 => "6",
        7 => "7",
        8 => "8",
        _ => "9",
    }
}

/// ASCII lower-casing of one character; other characters are unchanged.
pub open spec fn spec_lower_char(c: char) -> char {
    if 'A' <= c && c <= 'Z' {
        (((c as u8) + 32) as char)
    } else {
        c
    }
}

/// ASCII lower-casing of a character sequence.
pub open spec fn spec_lower(s: Seq<char>) -> Seq<char> {
    s.map_values(|c: char| spec_lower_char(c))
}

fn lower_char(c: char) -> (r: char)
    ensures
        r == spec_lower_char(c),
{
    if c >= 'A' && c <= 'Z' {
        ((c as u8) + 32) as char
    } else {
        c
    }
}

/// Exact string equality, by characters.
pub fn str_eq(a: &str, b: &str) -> (r: bool)
    ensures
        r == (a@ == b@),
{
    let an = a.unicode_len();
    let bn = b.unicode_len();
    if an != bn {
        proof {
            assert(a@.len() != b@.len());
        }
        return false;
    }
    let mut i: usize = 0;
    while i < an
        invariant
            an == a@.len(),
            an == b@.len(),
            i <= an,
            forall|k: int| 0 <= k < i ==> a@[k] == b@[k],
        decreases an - i,
    {
        if a.get_char(i) != b.get_char(i) {
            return false;
        }
        i += 1;
    }
    proof {
        assert(a@ =~= b@);
    }
    true
}

/// Case-insensitive string equality: equal after ASCII lower-casing.
pub fn str_eq_ignore_ascii_case(a: &str, b: &str) -> (r: bool)
    ensures
        r == (spec_lower(a@) == spec_lower(b@)),
{
    let an = a.unicode_len();
    let bn = b.unicode_len();
    if an != bn {
        proof {
            assert(spec_lower(a@).len() != spec_lower(b@).len());
        }
        return false;
    }
    let mut i: usize = 0;
    while i < an
        invariant
            an == a@.len(),
            an == b@.len(),
            i <= an,
            forall|k: int| 0 <= k < i ==> spec_lower(a@)[k] == spec_lower(b@)[k],
        decreases an - i,
    {
        let ca = lower_char(a.get_char(i));
        let cb = lower_char(b.get_char(i));
        if ca != cb {
            proof {
                assert(spec_lower(a@)[i as int] == spec_lower_char(a@[i as int]));
                assert(spec_lower(b@)[i as int] == spec_lower_char(b@[i as int]));
            }
            return false;
        }
        i += 1;
    }
    proof {
        assert(spec_lower(a@) =~= spec_lower(b@));
    }
    true
}

/// Whether `n` occurs in `h` starting at position `at`.
pub open spec fn spec_match_at(h: Seq<char>, n: Seq<char>, at: int) -> bool {
    &&& 0 <= at
    &&& at + n.len() <= h.len()
    &&& h.subrange(at, at + n.len()) == n
}

/// Whether `n` occurs anywhere in `h`.
pub open spec fn spec_contains(h: Seq<char>, n: Seq<char>) -> bool {
    exists|at: int| spec_match_at(h, n, at)
}

fn match_at(h: &str, n: &str, at: usize) -> (r: bool)
    requires
        at + n@.len() <= h@.len(),
        h@.len() <= usize::MAX,
    ensures
        r == spec_match_at(h@, n@, at as int),
{
    let nn = n.unicode_len();
    let mut i: usize = 0;
    while i < nn
        invariant
            nn == n@.len(),
            at + nn <= h@.len(),
            h@.len() <= usize::MAX,
            i <= nn,
            forall|k: int| 0 <= k < i ==> h@[at + k] == n@[k],
        decreases nn - i,
    {
        if h.get_char(at + i) != n.get_char(i) {
            proof {
                assert(h@.subrange(at as int, at as int + n@.len())[i as int] != n@[i as int]);
            }
            return false;
        }
        i += 1;
    }
    proof {
        assert(h@.subrange(at as int, at as int + n@.len()) =~= n@);
    }
    true
}

/// The first position at which `n` occurs in `h`, if any.
pub open spec fn spec_find(h: Seq<char>, n: Seq<char>) -> Option<int> {
    if spec_contains(h, n) {
        Some(choose|at: int| spec_match_at(h, n, at) && forall|b: int| 0 <= b < at ==> !spec_match_at(h, n, b))
    } else {
        None
    }
}

/// Find the first occurrence of `n` in `h`.
pub fn find_str(h: &str, n: &str) -> (r: Option<usize>)
    ensures
        match r {
            Some(at) => spec_match_at(h@, n@, at as int) && forall|b: int|
                0 <= b < at ==> !spec_match_at(h@, n@, b),
            None => !spec_contains(h@, n@),
        },
{
    let hn = h.unicode_len();
    let nn = n.unicode_len();
    if nn > hn {
        proof {
            assert forall|at: int| !spec_match_at(h@, n@, at) by {}
        }
        return None;
    }
    if nn == 0 {
        proof {
            assert(h@.subrange(0, 0) =~= n@);
        }
        return Some(0);
    }
    let mut at: usize = 0;
    while at <= hn - nn
        invariant
            hn == h@.len(),
            nn == n@.len(),
            1 <= nn <= hn,
            at <= hn - nn + 1,
            forall|b: int| 0 <= b < at ==> !spec_match_at(h@, n@, b),
        decreases hn - nn + 1 - at,
    {
        if match_at(h, n, at) {
            return Some(at);
        }
        at += 1;
    }
    proof {
        assert forall|b: int| !spec_match_at(h@, n@, b) by {
            if 0 <= b && b + n@.len() <= h@.len() {
                assert(b < at);
            }
        }
    }
    None
}

/// Whether the string `h` contains `n`.
pub fn contains_str(h: &str, n: &str) -> (r: bool)
    ensures
        r == spec_contains(h@, n@),
{
    match find_str(h, n) {
        Some(_) => true,
        None => false,
    }
}

/// Whether `h` starts with `n`.
pub fn starts_with_str(h: &str, n: &str) -> (r: bool)
    ensures
        r == (n@.len() <= h@.len() && h@.subrange(0, n@.len() as int) == n@),
{
    let hn = h.unicode_len();
    let nn = n.unicode_len();
    if nn > hn {
        return false;
    }
    match_at(h, n, 0)
}

/// Parse a decimal unsigned integer, as `str::parse::<u64>` accepts it:
/// optional leading `+`, then one or more ASCII digits, rejecting overflow.
pub open spec fn spec_digit_val(c: char) -> int {
    (c as int) - ('0' as int)
}

pub open spec fn spec_is_digit(c: char) -> bool {
    '0' <= c && c <= '9'
}

/// The value of a pure digit string, most significant first.
pub open spec fn spec_digits_val(s: Seq<char>) -> int
    decreases s.len(),
{
    if s.len() == 0 {
        0
    } else {
        spec_digits_val(s.drop_last()) * 10 + spec_digit_val(s.last())
    }
}

pub open spec fn spec_all_digits(s: Seq<char>) -> bool {
    forall|i: int| 0 <= i < s.len() ==> spec_is_digit(#[trigger] s[i])
}

/// The digit part of a candidate number: everything after one leading `+`.
pub open spec fn spec_num_body(s: Seq<char>) -> Seq<char> {
    if s.len() > 0 && s[0] == '+' {
        s.drop_first()
    } else {
        s
    }
}

/// Whether a string is a well-formed decimal `u64` with value within range.
pub open spec fn spec_is_u64_string(s: Seq<char>) -> bool {
    &&& spec_num_body(s).len() > 0
    &&& spec_all_digits(spec_num_body(s))
    &&& spec_digits_val(spec_num_body(s)) <= u64::MAX
}

/// Parse a decimal `u64`; `None` exactly on malformed input or overflow.
pub fn parse_u64(s: &str) -> (r: Option<u64>)
    ensures
        match r {
            Some(v) => spec_is_u64_string(s@) && v as int == spec_digits_val(spec_num_body(s@)),
            None => !spec_is_u64_string(s@),
        },
{
    let n = s.unicode_len();
    let start: usize = if n > 0 && s.get_char(0) == '+' {
        1
    } else {
        0
    };
    if start >= n {
        return None;
    }
    let ghost body = spec_num_body(s@);
    proof {
        assert(body =~= s@.subrange(start as int, n as int));
    }
    let mut acc: u64 = 0;
    let mut i: usize = start;
    while i < n
        invariant
            n == s@.len(),
            start <= i <= n,
            body == s@.subrange(start as int, n as int),
            body == spec_num_body(s@),
            spec_all_digits(s@.subrange(start as int, i as int)),
            acc as int == spec_digits_val(s@.subrange(start as int, i as int)),
        decreases n - i,
    {
        let c = s.get_char(i);
        if !(c >= '0' && c <= '9') {
            proof {
                assert(body[i - start] == c);
                assert(!spec_is_digit(body[i - start]));
                assert(!spec_all_digits(body));
            }
            return None;
        }
        let d: u64 = (c as u64) - 48;
        proof {
            let pre = s@.subrange(start as int, i as int);
            let ext = s@.subrange(start as int, i as int + 1);
            assert(ext.drop_last() =~= pre);
            assert(ext.last() == c);
            assert forall|k: int| 0 <= k < ext.len() implies spec_is_digit(#[trigger] ext[k]) by {
                if k < pre.len() {
                    assert(ext[k] == pre[k]);
                }
            }
        }
        if acc > (u64::MAX - d) / 10 {
            proof {
                let pre = s@.subrange(start as int, i as int + 1);
                assert(spec_digits_val(pre) > u64::MAX) by (nonlinear_arith)
                    requires
                        spec_digits_val(pre) == (acc as int) * 10 + d,
                        acc as int > ((u64::MAX as int) - d) / 10,
                        0 <= d <= 9,
                ;
                if spec_all_digits(body) {
                    assert(pre =~= body.subrange(0, pre.len() as int));
                    lemma_digits_val_monotonic(body, pre.len() as int);
                    assert(spec_digits_val(body) > u64::MAX);
                }
            }
            return None;
        }
        acc = acc * 10 + d;
        i += 1;
    }
    proof {
        assert(s@.subrange(start as int, n as int) =~= body);
    }
    Some(acc)
}

/// A digit string is worth at least its prefixes: extending a digit string
/// never lowers its value.
proof fn lemma_digits_val_monotonic(s: Seq<char>, k: int)
    requires
        0 <= k <= s.len(),
        spec_all_digits(s),
    ensures
        spec_digits_val(s.subrange(0, k)) <= spec_digits_val(s),
    decreases s.len() - k,
{
    lemma_digits_val_nonneg(s.subrange(0, k));
    if k == s.len() {
        assert(s.subrange(0, k) =~= s);
    }
    if k < s.len() {
        lemma_digits_val_monotonic(s, k + 1);
        let a = s.subrange(0, k);
        let b = s.subrange(0, k + 1);
        assert(b.drop_last() =~= a);
        assert(spec_all_digits(a)) by {
            assert forall|t: int| 0 <= t < a.len() implies spec_is_digit(#[trigger] a[t]) by {
                assert(a[t] == s[t]);
            }
        }
        lemma_digits_val_nonneg(a);
        assert(spec_is_digit(b.last())) by {
            assert(b.last() == s[k]);
        }
        assert(spec_digits_val(a) <= spec_digits_val(a) * 10 + spec_digit_val(b.last()))
            by (nonlinear_arith)
            requires
                0 <= spec_digits_val(a),
                0 <= spec_digit_val(b.last()),
        ;
        assert(spec_digits_val(b) <= spec_digits_val(s));
    }
}

proof fn lemma_digits_val_nonneg(s: Seq<char>)
    ensures
        spec_all_digits(s) ==> 0 <= spec_digits_val(s),
    decreases s.len(),
{
    if s.len() > 0 {
        lemma_digits_val_nonneg(s.drop_last());
        if spec_all_digits(s) {
            assert(spec_all_digits(s.drop_last()));
            assert(spec_digits_val(s.drop_last()) * 10 >= 0) by (nonlinear_arith)
                requires
                    spec_digits_val(s.drop_last()) >= 0,
            ;
        }
    }
}

/// Shorten to at most `max_len` characters, ellipsizing the tail.
pub open spec fn spec_truncate(s: Seq<char>, max_len: int) -> Seq<char> {
    if s.len() <= max_len {
        s
    } else {
        s.subrange(0, max_len - 3) + "..."@
    }
}

/// Shorten a string to at most `max_len` characters; longer strings keep
/// their first `max_len - 3` characters and gain a three-dot ellipsis.
pub fn truncate_chars(s: &str, max_len: usize) -> (r: String)
    requires
        max_len >= 3,
    ensures
        r@ == spec_truncate(s@, max_len as int),
{
    let n = s.unicode_len();
    if n <= max_len {
        s.to_owned()
    } else {
        let head = s.substring_char(0, max_len - 3);
        let mut t = String::from_str(head);
        t.append("...");
        t
    }
}

/// ASCII whitespace, as these parsers strip it.
pub open spec fn spec_is_ws(c: char) -> bool {
    c == ' ' || c == '\t' || c == '\r' || c == '\n'
}

pub open spec fn spec_trim_start(s: Seq<char>) -> Seq<char>
    decreases s.len(),
{
    if s.len() > 0 && spec_is_ws(s[0]) {
        spec_trim_start(s.drop_first())
    } else {
        s
    }
}

pub open spec fn spec_trim_end(s: Seq<char>) -> Seq<char>
    decreases s.len(),
{
    if s.len() > 0 && spec_is_ws(s.last()) {
        spec_trim_end(s.drop_last())
    } else {
        s
    }
}

/// The string without leading or trailing ASCII whitespace.
pub open spec fn spec_trim(s: Seq<char>) -> Seq<char> {
    spec_trim_end(spec_trim_start(s))
}

proof fn lemma_trim_start_at(s: Seq<char>, a: int)
    requires
        0 <= a <= s.len(),
        forall|k: int| 0 <= k < a ==> spec_is_ws(#[trigger] s[k]),
        a < s.len() ==> !spec_is_ws(s[a]),
    ensures
        spec_trim_start(s) == s.subrange(a, s.len() as int),
    decreases a,
{
    if a == 0 {
        assert(s.subrange(0, s.len() as int) =~= s);
        if s.len() > 0 {
            assert(!spec_is_ws(s[0]));
        }
    } else {
        assert(spec_is_ws(s[0]));
        let t = s.drop_first();
        assert(forall|k: int| 0 <= k < a - 1 ==> spec_is_ws(#[trigger] t[k]));
        lemma_trim_start_at(t, a - 1);
        assert(t.subrange(a - 1, t.len() as int) =~= s.subrange(a, s.len() as int));
    }
}

proof fn lemma_trim_end_at(s: Seq<char>, b: int)
    requires
        0 <= b <= s.len(),
        forall|k: int| b <= k < s.len() ==> spec_is_ws(#[trigger] s[k]),
        b > 0 ==> !spec_is_ws(s[b - 1]),
    ensures
        spec_trim_end(s) == s.subrange(0, b),
    decreases s.len() - b,
{
    if b == s.len() {
        assert(s.subrange(0, b) =~= s);
        if s.len() > 0 {
            assert(!spec_is_ws(s.last()));
        }
    } else {
        assert(spec_is_ws(s.last()));
        let t = s.drop_last();
        assert(forall|k: int| b <= k < t.len() ==> spec_is_ws(#[trigger] t[k]));
        lemma_trim_end_at(t, b);
        assert(t.subrange(0, b) =~= s.subrange(0, b));
    }
}

fn is_ws_char(c: char) -> (r: bool)
    ensures
        r == spec_is_ws(c),
{
    c == ' ' || c == '\t' || c == '\r' || c == '\n'
}

/// Strip leading and trailing ASCII whitespace.
pub fn trim_ascii(s: &str) -> (r: String)
    ensures
        r@ == spec_trim(s@),
{
    let n = s.unicode_len();
    let mut a: usize = 0;
    while a < n && is_ws_char(s.get_char(a))
        invariant
            n == s@.len(),
            a <= n,
            forall|k: int| 0 <= k < a ==> spec_is_ws(#[trigger] s@[k]),
        decreases n - a,
    {
        a += 1;
    }
    let mut b: usize = n;
    while b > a && is_ws_char(s.get_char(b - 1))
        invariant
            n == s@.len(),
            a <= b <= n,
            forall|k: int| 0 <= k < a ==> spec_is_ws(#[trigger] s@[k]),
            a < n ==> !spec_is_ws(s@[a as int]),
            forall|k: int| b <= k < n ==> spec_is_ws(#[trigger] s@[k]),
        decreases b,
    {
        b -= 1;
    }
    proof {
        lemma_trim_start_at(s@, a as int);
        let t = s@.subrange(a as int, n as int);
        if b == a {
            lemma_trim_end_at(t, 0);
        } else {
            assert(forall|k: int|
                b - a <= k < t.len() ==> spec_is_ws(#[trigger] t[k]));
            assert(t[b - a - 1] == s@[b - 1]);
            lemma_trim_end_at(t, b - a);
        }
        assert(t.subrange(0, b - a) =~= s@.subrange(a as int, b as int));
    }
    let piece = s.substring_char(a, b);
    piece.to_owned()
}

/// The position of the first newline, or the length if there is none.
pub open spec fn spec_line_break(s: Seq<char>) -> int
    decreases s.len(),
{
    if s.len() == 0 {
        0
    } else if s[0] == '\n' {
        0
    } else {
        1 + spec_line_break(s.drop_first())
    }
}

proof fn lemma_line_break_at(s: Seq<char>, i: int)
    requires
        0 <= i <= s.len(),
        forall|k: int| 0 <= k < i ==> (#[trigger] s[k]) != '\n',
        i < s.len() ==> s[i] == '\n',
    ensures
        spec_line_break(s) == i,
    decreases i,
{
    if s.len() == 0 {
    } else if i == 0 {
    } else {
        let t = s.drop_first();
        assert(forall|k: int| 0 <= k < i - 1 ==> (#[trigger] t[k]) != '\n');
        lemma_line_break_at(t, i - 1);
    }
}

/// One line's text: a trailing carriage return is stripped.
pub open spec fn spec_strip_cr(l: Seq<char>) -> Seq<char> {
    if l.len() > 0 && l.last() == '\r' {
        l.drop_last()
    } else {
        l
    }
}

/// The lines of a string, split at newlines, each with a trailing carriage
/// return stripped; the final line ending is optional.
pub open spec fn spec_split_lines(s: Seq<char>) -> Seq<Seq<char>>
    decreases s.len(),
    via spec_split_lines_decreases
{
    if s.len() == 0 {
        Seq::empty()
    } else {
        let i = spec_line_break(s);
        if i >= s.len() {
            seq![spec_strip_cr(s)]
        } else {
            seq![spec_strip_cr(s.subrange(0, i))] + spec_split_lines(
                s.subrange(i + 1, s.len() as int),
            )
        }
    }
}

proof fn lemma_line_break_nonneg(s: Seq<char>)
    ensures
        0 <= spec_line_break(s) <= s.len(),
    decreases s.len(),
{
    if s.len() > 0 && s[0] != '\n' {
        lemma_line_break_nonneg(s.drop_first());
    }
}

#[via_fn]
proof fn spec_split_lines_decreases(s: Seq<char>) {
    lemma_line_break_nonneg(s);
}

fn strip_cr_of(l: &str) -> (r: String)
    ensures
        r@ == spec_strip_cr(l@),
{
    let n = l.unicode_len();
    if n > 0 && l.get_char(n - 1) == '\r' {
        let head = l.substring_char(0, n - 1);
        proof {
            assert(l@.subrange(0, n - 1) =~= l@.drop_last());
        }
        head.to_owned()
    } else {
        l.to_owned()
    }
}

/// Split into lines at newlines, stripping one trailing carriage return
/// from each line; the final line ending is optional.
pub fn split_lines(s: &str) -> (r: Vec<String>)
    ensures
        r@.map_values(|l: String| l@) == spec_split_lines(s@),
    decreases s@.len(),
{
    let n = s.unicode_len();
    if n == 0 {
        let r: Vec<String> = Vec::new();
        proof {
            assert(r@.map_values(|l: String| l@) =~= spec_split_lines(s@));
        }
        return r;
    }
    let mut i: usize = 0;
    while i < n && s.get_char(i) != '\n'
        invariant
            n == s@.len(),
            i <= n,
            forall|k: int| 0 <= k < i ==> (#[trigger] s@[k]) != '\n',
        decreases n - i,
    {
        i += 1;
    }
    proof {
        lemma_line_break_at(s@, i as int);
    }
    if i >= n {
        let line = strip_cr_of(s);
        let mut r: Vec<String> = Vec::new();
        r.push(line);
        proof {
            assert(r@.map_values(|l: String| l@) =~= spec_split_lines(s@));
        }
        r
    } else {
        let head = s.substring_char(0, i);
        let line = strip_cr_of(head);
        let tail = s.substring_char(i + 1, n);
        let mut rest = split_lines(tail);
        let mut r: Vec<String> = Vec::new();
        r.push(line);
        r.append(&mut rest);
        proof {
            assert(r@.map_values(|l: String| l@) =~= spec_split_lines(s@));
        }
        r
    }
}

/// Render an integer in decimal.
pub fn u64_to_dec_string(n: u64) -> (r: String)
    ensures
        r@ == spec_dec(n as int),
    decreases n,
{
    if n < 10 {
        String::from_str(digit_str(n))
    } else {
        let mut s = u64_to_dec_string(n / 10);
        s.append(digit_str(n % 10));
        s
    }
}

} // verus!
