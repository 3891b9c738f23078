//! Calendar date strings in the `YYYY-MM-DD` form used by the archive API.

use vstd::prelude::*;
use vstd::string::*;

verus! {

/// `c` is one of the ASCII digits `0`..`9`.
pub open spec fn is_ascii_digit(c: char) -> bool {
    '0' <= c && c <= '9'
}

/// The numeric value of an ASCII digit.
pub open spec fn digit_value(c: char) -> int {
    c as int - '0' as int
}

/// The number written by the two digits at positions `i` and `i + 1`.
pub open spec fn two_digit_number(s: Seq<char>, i: int) -> int {
    10 * digit_value(s[i]) + digit_value(s[i + 1])
}

/// Position `i` of a date string holds what the `YYYY-MM-DD` layout asks for:
/// a hyphen at positions 4 and 7, an ASCII digit everywhere else.
pub open spec fn date_char_fits(s: Seq<char>, i: int) -> bool {
    if i == 4 || i == 7 {
        s[i] == '-'
    } else {
        is_ascii_digit(s[i])
    }
}

/// `s` is four digits, a hyphen, two digits, a hyphen and two digits.
pub open spec fn has_date_layout(s: Seq<char>) -> bool {
    &&& s.len() == 10
    &&& forall|i: int| 0 <= i < 10 ==> #[trigger] date_char_fits(s, i)
}

/// The month written in a date string (characters 5 and 6).
pub open spec fn date_month(s: Seq<char>) -> int {
    two_digit_number(s, 5)
}

/// The day written in a date string (characters 8 and 9).
pub open spec fn date_day(s: Seq<char>) -> int {
    two_digit_number(s, 8)
}

/// `s` is a date `YYYY-MM-DD` whose month is 1..=12 and whose day is 1..=31.
pub open spec fn is_valid_date(s: Seq<char>) -> bool {
    &&& has_date_layout(s)
    &&& 1 <= date_month(s) <= 12
    &&& 1 <= date_day(s) <= 31
}

fn digit_at(s: &str, i: usize) -> (v: u32)
    requires
        i < s@.len(),
        is_ascii_digit(s@[i as int]),
    ensures
        v == digit_value(s@[i as int]),
        v <= 9,
{
    let c = s.get_char(i);
    (c as u32) - ('0' as u32)
}

/// Checks that `date_str` is a `YYYY-MM-DD` date with month 1..=12 and
/// day 1..=31. The year may be any four digits; the day is not checked
/// against the length of the month.
pub fn is_valid_date_format(date_str: &str) -> (valid: bool)
    ensures
        valid == is_valid_date(date_str@),
{
    let n = date_str.unicode_len();
    if n != 10 {
        return false;
    }
    let mut i: usize = 0;
    while i < 10
        invariant
            n == 10,
            date_str@.len() == 10,
            i <= 10,
            forall|j: int| 0 <= j < i ==> #[trigger] date_char_fits(date_str@, j),
        decreases 10 - i,
    {
        let c = date_str.get_char(i);
        if i == 4 || i == 7 {
            if c != '-' {
                assert(!date_char_fits(date_str@, i as int));
                return false;
            }
        } else {
            let code = c as u32;
            if code < 48 || code > 57 {
                assert(!date_char_fits(date_str@, i as int));
                return false;
            }
        }
        i = i + 1;
    }
    assert(has_date_layout(date_str@));
    assert(date_char_fits(date_str@, 5) && date_char_fits(date_str@, 6));
    assert(date_char_fits(date_str@, 8) && date_char_fits(date_str@, 9));
    let month = 10 * digit_at(date_str, 5) + digit_at(date_str, 6);
    let day = 10 * digit_at(date_str, 8) + digit_at(date_str, 9);
    month >= 1 && month <= 12 && day >= 1 && day <= 31
}

/// The pieces of `s` between hyphens, as `str::split('-')` yields them: an
/// empty piece before a leading hyphen, between two hyphens and after a
/// trailing one.
pub open spec fn split_on_hyphen(s: Seq<char>) -> Seq<Seq<char>>
    decreases s.len(),
{
    if s.len() == 0 {
        seq![Seq::empty()]
    } else {
        let rest = split_on_hyphen(s.drop_first());
        if s[0] == '-' {
            seq![Seq::empty()] + rest
        } else {
            rest.update(0, seq![s[0]] + rest[0])
        }
    }
}

/// Every character of `p` is an ASCII digit.
pub open spec fn all_digits(p: Seq<char>) -> bool {
    forall|i: int| 0 <= i < p.len() ==> is_ascii_digit(#[trigger] p[i])
}

/// The check read piece by piece: `s` splits on hyphens into a year of four
/// digits, a month of two digits in 1..=12 and a day of two digits in
/// 1..=31.
pub open spec fn valid_date_by_pieces(s: Seq<char>) -> bool {
    let parts = split_on_hyphen(s);
    &&& parts.len() == 3
    &&& parts[0].len() == 4 && all_digits(parts[0])
    &&& parts[1].len() == 2 && all_digits(parts[1])
    &&& parts[2].len() == 2 && all_digits(parts[2])
    &&& 1 <= two_digit_number(parts[1], 0) <= 12
    &&& 1 <= two_digit_number(parts[2], 0) <= 31
}

/// The pieces joined again with hyphens between them.
pub open spec fn join_with_hyphens(parts: Seq<Seq<char>>) -> Seq<char>
    decreases parts.len(),
{
    if parts.len() <= 1 {
        if parts.len() == 1 {
            parts[0]
        } else {
            Seq::empty()
        }
    } else {
        parts[0] + seq!['-'] + join_with_hyphens(parts.drop_first())
    }
}

proof fn lemma_split_nonempty(s: Seq<char>)
    ensures
        split_on_hyphen(s).len() >= 1,
    decreases s.len(),
{
    if s.len() > 0 {
        lemma_split_nonempty(s.drop_first());
    }
}

proof fn lemma_join_split(s: Seq<char>)
    ensures
        join_with_hyphens(split_on_hyphen(s)) == s,
    decreases s.len(),
{
    if s.len() > 0 {
        let t = s.drop_first();
        lemma_join_split(t);
        lemma_split_nonempty(t);
        let rest = split_on_hyphen(t);
        if s[0] == '-' {
            let parts = seq![Seq::<char>::empty()] + rest;
            assert(parts.drop_first() =~= rest);
            assert(join_with_hyphens(parts) =~= Seq::<char>::empty() + seq!['-'] + join_with_hyphens(rest));
            assert(s =~= seq!['-'] + t);
        } else {
            let parts = rest.update(0, seq![s[0]] + rest[0]);
            if rest.len() == 1 {
                assert(join_with_hyphens(parts) == parts[0]);
                assert(join_with_hyphens(rest) == rest[0]);
                assert(s =~= seq![s[0]] + t);
            } else {
                assert(parts.drop_first() =~= rest.drop_first());
                assert(s =~= seq![s[0]] + t);
                assert(join_with_hyphens(parts) =~= seq![s[0]] + (rest[0] + seq!['-'] + join_with_hyphens(rest.drop_first())));
            }
        }
    }
}

/// Splitting a hyphen-free prefix `a` followed by `t` extends the first piece
/// of `t`.
proof fn lemma_split_prefix(a: Seq<char>, t: Seq<char>)
    requires
        forall|i: int| 0 <= i < a.len() ==> a[i] != '-',
    ensures
        split_on_hyphen(a + t) == split_on_hyphen(t).update(0, a + split_on_hyphen(t)[0]),
    decreases a.len(),
{
    lemma_split_nonempty(t);
    if a.len() == 0 {
        assert(a + t =~= t);
        assert(a + split_on_hyphen(t)[0] =~= split_on_hyphen(t)[0]);
        assert(split_on_hyphen(t).update(0, split_on_hyphen(t)[0]) =~= split_on_hyphen(t));
    } else {
        let a1 = a.drop_first();
        lemma_split_prefix(a1, t);
        assert((a + t).drop_first() =~= a1 + t);
        assert((a + t)[0] == a[0]);
        let r = split_on_hyphen(a1 + t);
        assert(r[0] =~= a1 + split_on_hyphen(t)[0]);
        assert(seq![a[0]] + r[0] =~= a + split_on_hyphen(t)[0]);
        assert(r.update(0, seq![a[0]] + r[0]) =~= split_on_hyphen(t).update(
            0,
            a + split_on_hyphen(t)[0],
        ));
    }
}

/// A hyphen-free piece `a`, a hyphen and then `t` split into `a` followed by
/// the pieces of `t`.
proof fn lemma_split_piece(a: Seq<char>, t: Seq<char>)
    requires
        forall|i: int| 0 <= i < a.len() ==> a[i] != '-',
    ensures
        split_on_hyphen(a + seq!['-'] + t) == seq![a] + split_on_hyphen(t),
{
    let u = seq!['-'] + t;
    assert(a + seq!['-'] + t =~= a + u);
    lemma_split_prefix(a, u);
    assert(u.drop_first() =~= t);
    let su = split_on_hyphen(u);
    assert(su =~= seq![Seq::<char>::empty()] + split_on_hyphen(t));
    assert(a + su[0] =~= a);
    assert(su.update(0, a) =~= seq![a] + split_on_hyphen(t));
}

/// The date check agrees with the piece-by-piece reading: splitting on
/// hyphens and checking each piece accepts exactly the strings that have the
/// `YYYY-MM-DD` layout with month 1..=12 and day 1..=31.
pub proof fn lemma_date_check_matches_pieces(s: Seq<char>)
    ensures
        is_valid_date(s) <==> valid_date_by_pieces(s),
{
    if is_valid_date(s) {
        let y = s.subrange(0, 4);
        let m = s.subrange(5, 7);
        let d = s.subrange(8, 10);
        assert forall|i: int| 0 <= i < 4 implies y[i] != '-' && is_ascii_digit(y[i]) by {
            assert(date_char_fits(s, i));
        }
        assert forall|i: int| 0 <= i < 2 implies m[i] != '-' && is_ascii_digit(m[i]) by {
            assert(date_char_fits(s, i + 5));
        }
        assert forall|i: int| 0 <= i < 2 implies d[i] != '-' && is_ascii_digit(d[i]) by {
            assert(date_char_fits(s, i + 8));
        }
        assert(date_char_fits(s, 4) && date_char_fits(s, 7));
        assert(s =~= y + seq!['-'] + (m + seq!['-'] + d));
        lemma_split_piece(y, m + seq!['-'] + d);
        lemma_split_piece(m, d);
        lemma_split_prefix(d, Seq::empty());
        assert(d + Seq::<char>::empty() =~= d);
        assert(split_on_hyphen(d) =~= seq![d]);
        assert(split_on_hyphen(s) =~= seq![y, m, d]);
    }
    if valid_date_by_pieces(s) {
        let parts = split_on_hyphen(s);
        lemma_join_split(s);
        let p0 = parts[0];
        let p1 = parts[1];
        let p2 = parts[2];
        assert(parts.drop_first().drop_first() =~= seq![p2]);
        assert(join_with_hyphens(parts.drop_first().drop_first()) == p2);
        assert(join_with_hyphens(parts.drop_first()) == p1 + seq!['-'] + join_with_hyphens(
            parts.drop_first().drop_first(),
        ));
        assert(join_with_hyphens(parts) == p0 + seq!['-'] + join_with_hyphens(parts.drop_first()));
        assert(s =~= p0 + seq!['-'] + (p1 + seq!['-'] + p2));
        assert forall|i: int| 0 <= i < 10 implies #[trigger] date_char_fits(s, i) by {
            if i < 4 {
                assert(s[i] == p0[i]);
            } else if 4 < i < 7 {
                assert(s[i] == p1[i - 5]);
            } else if 7 < i {
                assert(s[i] == p2[i - 8]);
            }
        }
        assert(s[5] == p1[0] && s[6] == p1[1] && s[8] == p2[0] && s[9] == p2[1]);
    }
}

} // verus!
