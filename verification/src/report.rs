//! Rendering of account snapshots.
//!
//! The spec functions below define, character by character, the tabular form
//! of a set of accounts: a header line, then one comma-separated line per
//! account with the client id, the three balances (at most four fractional
//! digits, trailing fractional zeros dropped) and the locked flag. The
//! executable helpers build a `String` proved equal to that definition.

use vstd::prelude::*;

use crate::account::Account;
use crate::money::{Money, MINOR_PER_UNIT};

verus! {

/// The header line of a snapshot.
pub open spec fn header_chars() -> Seq<char> {
    "client,available,held,total,locked\n"@
}

/// The decimal digit `d` as a character (meaningful for `0 <= d <= 9`).
pub open spec fn digit_char(d: int) -> char {
    if d == 0 {
        '0'
    } else if d == 1 {
        '1'
    } else if d == 2 {
        '2'
    } else if d == 3 {
        '3'
    } else if d == 4 {
        '4'
    } else if d == 5 {
        '5'
    } else if d == 6 {
        '6'
    } else if d == 7 {
        '7'
    } else if d == 8 {
        '8'
    } else {
        '9'
    }
}

/// The usual decimal digits of `n`, most significant first, no leading
/// zeros (a single `0` for zero).
pub open spec fn nat_digits(n: nat) -> Seq<char>
    decreases n,
{
    if n < 10 {
        seq![digit_char(n as int)]
    } else {
        nat_digits(n / 10) + seq![digit_char((n % 10) as int)]
    }
}

/// The fractional part of a money value: `f` is the count of minor units
/// past the whole units, `0 <= f < 10000`. Zero renders as nothing; other
/// values as a point and four digits with trailing zeros dropped.
pub open spec fn frac_chars(f: int) -> Seq<char> {
    let d1 = digit_char(f / 1000);
    let d2 = digit_char((f / 100) % 10);
    let d3 = digit_char((f / 10) % 10);
    let d4 = digit_char(f % 10);
    if f == 0 {
        Seq::<char>::empty()
    } else if f % 10 != 0 {
        seq!['.', d1, d2, d3, d4]
    } else if f % 100 != 0 {
        seq!['.', d1, d2, d3]
    } else if f % 1000 != 0 {
        seq!['.', d1, d2]
    } else {
        seq!['.', d1]
    }
}

/// A money count of `v` minor units as text: optional minus sign, whole
/// units, fractional part.
pub open spec fn money_chars(v: int) -> Seq<char> {
    let sign: Seq<char> = if v < 0 {
        seq!['-']
    } else {
        Seq::<char>::empty()
    };
    let abs = if v < 0 {
        -v
    } else {
        v
    };
    sign + nat_digits((abs / (MINOR_PER_UNIT as int)) as nat) + frac_chars(abs % (MINOR_PER_UNIT as int))
}

/// The locked flag as text.
pub open spec fn bool_chars(b: bool) -> Seq<char> {
    if b {
        seq!['t', 'r', 'u', 'e']
    } else {
        seq!['f', 'a', 'l', 's', 'e']
    }
}

/// One snapshot line: client id, available, held, total, locked.
pub open spec fn row_chars(client: u16, a: Account) -> Seq<char> {
    nat_digits(client as nat) + seq![','] + money_chars(a.available@) + seq![','] + money_chars(
        a.held@,
    ) + seq![','] + money_chars(a.total@) + seq![','] + bool_chars(a.locked) + seq!['\n']
}

/// A whole snapshot: the header, then the rows in the given order.
pub open spec fn report_chars(rows: Seq<(u16, Account)>) -> Seq<char>
    decreases rows.len(),
{
    if rows.len() == 0 {
        header_chars()
    } else {
        report_chars(rows.drop_last()) + row_chars(rows.last().0, rows.last().1)
    }
}

/// `rows` lists exactly the accounts of `m`, each client once, in some order.
pub open spec fn rows_match(m: Map<u16, Account>, rows: Seq<(u16, Account)>) -> bool {
    &&& rows.len() == m.dom().len()
    &&& forall|i: int|
        0 <= i < rows.len() ==> m.contains_pair((#[trigger] rows[i]).0, rows[i].1)
    &&& forall|i: int, j: int|
        0 <= i < j < rows.len() ==> (#[trigger] rows[i]).0 != (#[trigger] rows[j]).0
    &&& forall|k: u16| #[trigger]
        m.contains_key(k) ==> exists|i: int| 0 <= i < rows.len() && (#[trigger] rows[i]).0 == k
}

/// Append the single digit `d`.
pub fn append_digit(out: &mut String, d: u64)
    requires
        d < 10,
    ensures
        final(out)@ == old(out)@ + seq![digit_char(d as int)],
{
    proof {
        reveal_strlit("0");
        reveal_strlit("1");
        reveal_strlit("2");
        reveal_strlit("3");
        reveal_strlit("4");
        reveal_strlit("5");
        reveal_strlit("6");
        reveal_strlit("7");
        reveal_strlit("8");
        reveal_strlit("9");
    }
    let s: &str = if d == 0 {
        "0"
    } else if d == 1 {
        "1"
    } else if d == 2 {
        "2"
    } else if d == 3 {
        "3"
    } else if d == 4 {
        "4"
    } else if d == 5 {
        "5"
    } else if d == 6 {
        "6"
    } else if d == 7 {
        "7"
    } else if d == 8 {
        "8"
    } else {
        "9"
    };
    assert(s@ =~= seq![digit_char(d as int)]);
    out.append(s);
}

/// Append the decimal digits of `n`, most significant first.
pub fn append_number(out: &mut String, n: u64)
    ensures
        final(out)@ == old(out)@ + nat_digits(n as nat),
    decreases n,
{
    if n >= 10 {
        append_number(out, n / 10);
    }
    append_digit(out, n % 10);
    assert(out@ =~= old(out)@ + nat_digits(n as nat));
}

/// Append the textual form of the money value `m`.
pub fn append_money(out: &mut String, m: Money)
    ensures
        final(out)@ == old(out)@ + money_chars(m@),
{
    let negative = m.minor < 0;
    if negative {
        proof {
            reveal_strlit("-");
        }
        out.append("-");
        assert(out@ =~= old(out)@ + seq!['-']);
    }
    let abs: u128 = if negative {
        (-(m.minor as i128)) as u128
    } else {
        m.minor as u128
    };
    let units: u64 = (abs / (MINOR_PER_UNIT as u128)) as u64;
    let frac: u64 = (abs % (MINOR_PER_UNIT as u128)) as u64;

    append_number(out, units);

    if frac != 0 {
        proof {
            reveal_strlit(".");
        }
        out.append(".");
        let d1 = frac / 1000;
        let d2 = (frac / 100) % 10;
        let d3 = (frac / 10) % 10;
        let d4 = frac % 10;
        if frac % 10 != 0 {
            append_digit(out, d1);
            append_digit(out, d2);
            append_digit(out, d3);
            append_digit(out, d4);
        } else if frac % 100 != 0 {
            append_digit(out, d1);
            append_digit(out, d2);
            append_digit(out, d3);
        } else if frac % 1000 != 0 {
            append_digit(out, d1);
            append_digit(out, d2);
        } else {
            append_digit(out, d1);
        }
    }
    assert(out@ =~= old(out)@ + money_chars(m@));
}

/// Append the locked flag.
pub fn append_bool(out: &mut String, b: bool)
    ensures
        final(out)@ == old(out)@ + bool_chars(b),
{
    if b {
        proof {
            reveal_strlit("true");
        }
        out.append("true");
        assert(out@ =~= old(out)@ + bool_chars(b));
    } else {
        proof {
            reveal_strlit("false");
        }
        out.append("false");
        assert(out@ =~= old(out)@ + bool_chars(b));
    }
}

/// Append one snapshot row for `account`, listed under `client`.
pub fn append_row(out: &mut String, client: u16, account: &Account)
    ensures
        final(out)@ == old(out)@ + row_chars(client, *account),
{
    proof {
        reveal_strlit(",");
        reveal_strlit("\n");
    }
    append_number(out, client as u64);
    out.append(",");
    append_money(out, account.available);
    out.append(",");
    append_money(out, account.held);
    out.append(",");
    append_money(out, account.total);
    out.append(",");
    append_bool(out, account.locked);
    out.append("\n");
    assert(","@ =~= seq![',']);
    assert("\n"@ =~= seq!['\n']);
    assert(out@ =~= old(out)@ + row_chars(client, *account));
}

} // verus!
