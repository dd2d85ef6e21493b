//! Which accounts of the password database may log in.
use vstd::prelude::*;
use vstd::string::{StrSliceExecFns, StringExecFns};

verus! {

/// The positions of the `:` separators of a line, in increasing order.
pub open spec fn colon_positions(s: Seq<char>) -> Seq<int>
    decreases s.len(),
{
    if s.len() == 0 {
        Seq::empty()
    } else {
        let p = colon_positions(s.drop_last());
        if s.last() == ':' {
            p.push(s.len() - 1)
        } else {
            p
        }
    }
}

/// The number of `:`-separated fields of a line.
pub open spec fn field_count(s: Seq<char>) -> nat {
    colon_positions(s).len() + 1
}

/// Field `k` of a line: the text after the `k`-th separator and before the next one.
pub open spec fn field(s: Seq<char>, k: int) -> Seq<char> {
    let p = colon_positions(s);
    let start = if k == 0 { 0 } else { p[k - 1] + 1 };
    let end = if k < p.len() { p[k] } else { s.len() as int };
    s.subrange(start, end)
}

pub open spec fn is_digit(c: char) -> bool {
    '0' <= c && c <= '9'
}

/// The number that a sequence of decimal digits writes.
pub open spec fn digits_value(d: Seq<char>) -> int
    decreases d.len(),
{
    if d.len() == 0 {
        0
    } else {
        digits_value(d.drop_last()) * 10 + (d.last() as int - '0' as int)
    }
}

/// The text after an optional leading `+`.
pub open spec fn unsigned_part(t: Seq<char>) -> Seq<char> {
    if t.len() > 0 && t[0] == '+' {
        t.drop_first()
    } else {
        t
    }
}

pub open spec fn all_digits(d: Seq<char>) -> bool {
    forall|i: int| 0 <= i < d.len() ==> is_digit(#[trigger] d[i])
}

/// How std reads a `u32` from text: an optional `+`, then at least one
/// decimal digit and nothing else, for a value that fits.
pub open spec fn parse_u32(t: Seq<char>) -> Option<u32> {
    let d = unsigned_part(t);
    if d.len() > 0 && all_digits(d) && digits_value(d) <= u32::MAX {
        Some(digits_value(d) as u32)
    } else {
        None
    }
}

pub const NOLOGIN: &'static str = "nologin";

pub const FALSE_SHELL: &'static str = "/bin/false";

/// Whether an account with user id `uid` and login shell `shell` may log in:
/// root or a regular user (id 1000 or more), with a shell that accepts logins.
pub open spec fn may_log_in(uid: u32, shell: Seq<char>) -> bool {
    &&& (uid == 0 || uid >= 1000)
    &&& !(shell.len() >= NOLOGIN@.len() && shell.subrange(
        shell.len() - NOLOGIN@.len(),
        shell.len() as int,
    ) == NOLOGIN@)
    &&& shell != FALSE_SHELL@
}

/// The user id of an account: field 2, read as a number, or 1 where it is not one.
pub open spec fn uid_of(line: Seq<char>) -> u32 {
    match parse_u32(field(line, 2)) {
        Some(n) => n,
        None => 1,
    }
}

/// Whether a line of the password database names an account that may log in.
pub open spec fn is_login_account(line: Seq<char>) -> bool {
    field_count(line) >= 7 && may_log_in(uid_of(line), field(line, 6))
}

/// The positions of the separators of `line`.
fn separators(line: &str) -> (r: Vec<usize>)
    ensures
        r@.map_values(|i: usize| i as int) == colon_positions(line@),
        forall|k: int| 0 <= k < r@.len() ==> #[trigger] r@[k] < line@.len(),
{
    let n = line.unicode_len();
    let mut cuts: Vec<usize> = Vec::new();
    let mut i: usize = 0;
    while i < n
        invariant
            n == line@.len(),
            i <= n,
            cuts@.map_values(|i: usize| i as int) == colon_positions(line@.subrange(0, i as int)),
            forall|k: int| 0 <= k < cuts@.len() ==> #[trigger] cuts@[k] < i,
        decreases n - i,
    {
        let c = line.get_char(i);
        proof {
            assert(line@.subrange(0, i + 1).drop_last() =~= line@.subrange(0, i as int));
        }
        if c == ':' {
            cuts.push(i);
        }
        i = i + 1;
        assert(cuts@.map_values(|i: usize| i as int) =~= colon_positions(line@.subrange(0, i as int)));
    }
    assert(line@.subrange(0, n as int) =~= line@);
    cuts
}

/// Reads field `t` as std reads a `u32`.
fn parse_uid(t: &str) -> (r: Option<u32>)
    ensures
        r == parse_u32(t@),
{
    let n = t.unicode_len();
    let mut start: usize = 0;
    if n > 0 && t.get_char(0) == '+' {
        start = 1;
    }
    let ghost d = unsigned_part(t@);
    assert(d =~= t@.subrange(start as int, n as int));
    if start >= n {
        assert(d.len() == 0);
        return None;
    }
    let cap: u64 = 0x1_0000_0000;
    let mut acc: u64 = 0;
    let mut i: usize = start;
    while i < n
        invariant
            start <= i <= n,
            n == t@.len(),
            d == t@.subrange(start as int, n as int),
            d == unsigned_part(t@),
            forall|j: int| start <= j < i ==> is_digit(#[trigger] t@[j]),
            acc as int == if digits_value(t@.subrange(start as int, i as int)) < cap {
                digits_value(t@.subrange(start as int, i as int))
            } else {
                cap as int
            },
            digits_value(t@.subrange(start as int, i as int)) >= 0,
            cap == 0x1_0000_0000u64,
        decreases n - i,
    {
        let c = t.get_char(i);
        if c < '0' || c > '9' {
            assert(!is_digit(d[i - start]));
            return None;
        }
        let ghost prev = t@.subrange(start as int, i as int);
        let ghost next = t@.subrange(start as int, i + 1);
        assert(next.drop_last() =~= prev);
        let digit = (c as u32 - '0' as u32) as u64;
        proof {
            let v = digits_value(prev);
            assert(digits_value(next) == v * 10 + digit);
            if v >= cap {
                assert(v * 10 + digit >= cap) by (nonlinear_arith)
                    requires v >= cap, digit >= 0;
            }
        }
        if acc >= cap {
            acc = cap;
        } else {
            let grown = acc * 10 + digit;
            acc = if grown < cap { grown } else { cap };
        }
        i = i + 1;
    }
    assert(t@.subrange(start as int, n as int) == d);
    if acc < cap {
        Some(acc as u32)
    } else {
        None
    }
}

/// Whether `s` ends with `suffix`.
fn ends_with(s: &str, suffix: &str) -> (r: bool)
    ensures
        r == (s@.len() >= suffix@.len() && s@.subrange(s@.len() - suffix@.len(), s@.len() as int)
            == suffix@),
{
    let n = s.unicode_len();
    let m = suffix.unicode_len();
    if n < m {
        return false;
    }
    let mut i: usize = 0;
    while i < m
        invariant
            n == s@.len(),
            m == suffix@.len(),
            m <= n,
            i <= m,
            forall|j: int| 0 <= j < i ==> s@[n - m + j] == suffix@[j],
        decreases m - i,
    {
        if s.get_char(n - m + i) != suffix.get_char(i) {
            assert(s@.subrange(n - m, n as int)[i as int] != suffix@[i as int]);
            return false;
        }
        i = i + 1;
    }
    assert(s@.subrange(n - m, n as int) =~= suffix@);
    true
}

/// Whether `a` and `b` hold the same characters.
fn same_text(a: &str, b: &str) -> (r: bool)
    ensures
        r == (a@ == b@),
{
    let n = a.unicode_len();
    if n != b.unicode_len() {
        return false;
    }
    assert(a@.subrange(0, a@.len() as int) =~= a@);
    ends_with(a, b)
}

/// The user name of a line of the password database, if the account may
/// log in: the line has at least seven fields, its user id (field 2, read as
/// a number, 1 where it is not one) is 0 or at least 1000, and its shell
/// (field 6) neither ends with `nologin` nor is `/bin/false`.
pub fn login_user(line: &str) -> (r: Option<String>)
    ensures
        r is Some <==> is_login_account(line@),
        r matches Some(u) ==> u@ == field(line@, 0),
{
    let n = line.unicode_len();
    let cuts = separators(line);
    let ghost p = colon_positions(line@);
    assert(forall|k: int| 0 <= k < cuts@.len() ==> cuts@[k] as int == #[trigger] p[k]) by {
        assert forall|k: int| 0 <= k < cuts@.len() implies cuts@[k] as int == #[trigger] p[k] by {
            assert(cuts@.map_values(|i: usize| i as int)[k] == cuts@[k] as int);
        }
    }
    if cuts.len() < 6 {
        return None;
    }
    proof {
        lemma_positions_increase(line@);
        assert(cuts@[1] as int == p[1] && cuts@[2] as int == p[2] && cuts@[5] as int == p[5]);
        if cuts@.len() > 6 {
            assert(cuts@[6] as int == p[6]);
        }
    }
    let uid_text = line.substring_char(cuts[1] + 1, cuts[2]);
    let uid = match parse_uid(uid_text) {
        Some(n) => n,
        None => 1,
    };
    let shell_end = if cuts.len() > 6 { cuts[6] } else { n };
    let shell = line.substring_char(cuts[5] + 1, shell_end);
    let allowed = (uid == 0 || uid >= 1000) && !ends_with(shell, NOLOGIN) && !same_text(shell, FALSE_SHELL);
    if allowed {
        let name = line.substring_char(0, cuts[0]);
        Some(String::from_str(name))
    } else {
        None
    }
}

/// The separators stand in increasing order within the line.
proof fn lemma_positions_increase(s: Seq<char>)
    ensures
        forall|k: int|
            0 <= k < colon_positions(s).len() ==> 0 <= #[trigger] colon_positions(s)[k] < s.len(),
        forall|j: int, k: int|
            0 <= j < k < colon_positions(s).len() ==> colon_positions(s)[j] < colon_positions(s)[k],
    decreases s.len(),
{
    if s.len() > 0 {
        let p = colon_positions(s.drop_last());
        lemma_positions_increase(s.drop_last());
        if s.last() == ':' {
            assert(colon_positions(s) == p.push(s.len() - 1));
            assert forall|j: int, k: int|
                0 <= j < k < colon_positions(s).len() implies colon_positions(s)[j] < colon_positions(
                s,
            )[k] by {
                if k == p.len() {
                    assert(p[j] < s.drop_last().len());
                }
            }
        } else {
            assert(colon_positions(s) == p);
        }
    }
}

} // verus!
