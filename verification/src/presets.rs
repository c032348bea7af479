//! Collecting the voices of a preset file: the file loads only when every
//! preset in it parses; otherwise the first preset that fails is reported by
//! its index, and the status message says so.
use vstd::prelude::*;

verus! {

/// Every outcome in `s` is a success.
pub open spec fn all_parsed<T, E>(s: Seq<Result<T, E>>) -> bool {
    forall|i: int| 0 <= i < s.len() ==> (#[trigger] s[i]) is Ok
}

/// Collects the parsed presets in file order. Returns them all where every
/// outcome is a success; otherwise the index and the error of the first failure.
pub fn collect_presets<T, E>(outcomes: Vec<Result<T, E>>) -> (r: Result<Vec<T>, (usize, E)>)
    ensures
        r is Ok <==> all_parsed(outcomes@),
        r matches Ok(vs) ==> vs@.len() == outcomes@.len() && forall|i: int|
            0 <= i < outcomes@.len() ==> outcomes@[i] == Ok::<T, E>(#[trigger] vs@[i]),
        r matches Err(fail) ==> fail.0 < outcomes@.len() && outcomes@[fail.0 as int] == Err::<T, E>(
            fail.1,
        ) && all_parsed(outcomes@.take(fail.0 as int)),
{
    let ghost all = outcomes@;
    let total = outcomes.len();
    let mut rest = outcomes;
    let mut parsed: Vec<T> = Vec::new();
    let mut k: usize = 0;
    while rest.len() > 0
        invariant
            k + rest@.len() == all.len(),
            all.len() == total,
            all == outcomes@,
            rest@ == all.skip(k as int),
            parsed@.len() == k,
            forall|i: int| 0 <= i < k ==> all[i] == Ok::<T, E>(#[trigger] parsed@[i]),
        decreases rest@.len(),
    {
        let first = rest.remove(0);
        assert(first == all[k as int]);
        assert(rest@ =~= all.skip(k + 1));
        match first {
            Ok(v) => {
                parsed.push(v);
                k = k + 1;
            },
            Err(e) => {
                assert forall|i: int| 0 <= i < k implies (#[trigger] all.take(k as int)[i]) is Ok by {
                    assert(all.take(k as int)[i] == all[i]);
                    assert(all[i] == Ok::<T, E>(parsed@[i]));
                }
                assert(!(all[k as int] is Ok));
                return Err((k, e));
            },
        }
    }
    assert(forall|i: int| 0 <= i < all.len() ==> (#[trigger] all[i]) is Ok) by {
        assert forall|i: int| 0 <= i < all.len() implies (#[trigger] all[i]) is Ok by {
            assert(all[i] == Ok::<T, E>(parsed@[i]));
        }
    }
    Ok(parsed)
}

/// The character of the decimal digit `d`.
pub open spec fn digit_char(d: int) -> char {
    if d == 0 {
        '0'
    } else if d == 1 {
        '1'
    } else if d == 2 {
        '2'
    } else if d == 3 {
        '3'
    } else if d == 4 {
        '4'
    } else if d == 5 {
        '5'
    } else if d == 6 {
        '6'
    } else if d == 7 {
        '7'
    } else if d == 8 {
        '8'
    } else {
        '9'
    }
}

/// The decimal notation of `n`, without leading zeros.
pub open spec fn decimal(n: nat) -> Seq<char>
    decreases n,
{
    if n < 10 {
        seq![digit_char(n as int)]
    } else {
        decimal(n / 10).push(digit_char((n % 10) as int))
    }
}

/// The number a sequence of decimal digit characters stands for.
pub open spec fn digits_value(s: Seq<char>) -> int
    decreases s.len(),
{
    if s.len() == 0 {
        0
    } else {
        digits_value(s.drop_last()) * 10 + (s.last() as int - '0' as int)
    }
}

proof fn lemma_digit_char_value(d: int)
    requires
        0 <= d < 10,
    ensures
        digit_char(d) as int - '0' as int == d,
        '0' <= digit_char(d) <= '9',
{
}

/// `decimal(n)` is the usual decimal notation of `n`: it is made of the digits
/// '0' to '9', it stands for `n`, and it has no leading zero.
pub proof fn lemma_decimal_is_notation(n: nat)
    ensures
        decimal(n).len() > 0,
        forall|i: int| 0 <= i < decimal(n).len() ==> '0' <= #[trigger] decimal(n)[i] <= '9',
        digits_value(decimal(n)) == n,
        decimal(n)[0] == '0' ==> n == 0,
    decreases n,
{
    lemma_digit_char_value((n % 10) as int);
    if n < 10 {
        assert(n % 10 == n);
        assert(decimal(n).drop_last() =~= Seq::<char>::empty());
        assert(digits_value(decimal(n)) == digits_value(decimal(n).drop_last()) * 10 + (
        decimal(n).last() as int - '0' as int));
    } else {
        lemma_decimal_is_notation(n / 10);
        let d = decimal(n);
        assert(d.drop_last() =~= decimal(n / 10));
        assert(d[0] == decimal(n / 10)[0]);
        assert(d.last() == digit_char((n % 10) as int));
        assert(digits_value(d) == digits_value(d.drop_last()) * 10 + (d.last() as int - '0' as int));
        assert(n == (n / 10) * 10 + n % 10) by (nonlinear_arith);
        assert forall|i: int| 0 <= i < d.len() implies '0' <= #[trigger] d[i] <= '9' by {
            if i < d.len() - 1 {
                assert(d[i] == decimal(n / 10)[i]);
            }
        }
    }
}

fn digit_text(d: usize) -> (t: &'static str)
    requires
        d < 10,
    ensures
        t@ == seq![digit_char(d as int)],
{
    if d == 0 {
        proof { reveal_strlit("0"); }
        "0"
    } else if d == 1 {
        proof { reveal_strlit("1"); }
        "1"
    } else if d == 2 {
        proof { reveal_strlit("2"); }
        "2"
    } else if d == 3 {
        proof { reveal_strlit("3"); }
        "3"
    } else if d == 4 {
        proof { reveal_strlit("4"); }
        "4"
    } else if d == 5 {
        proof { reveal_strlit("5"); }
        "5"
    } else if d == 6 {
        proof { reveal_strlit("6"); }
        "6"
    } else if d == 7 {
        proof { reveal_strlit("7"); }
        "7"
    } else if d == 8 {
        proof { reveal_strlit("8"); }
        "8"
    } else {
        proof { reveal_strlit("9"); }
        "9"
    }
}

fn push_decimal(s: &mut String, n: usize)
    ensures
        final(s)@ == old(s)@ + decimal(n as nat),
    decreases n,
{
    if n >= 10 {
        push_decimal(s, n / 10);
    }
    s.append(digit_text(n % 10));
}

/// The status message of a preset file that loaded.
pub fn loaded_message() -> (m: String)
    ensures
        m@ == "✔"@,
{
    String::from_str("✔")
}

/// The status message of a preset file whose preset number `index` (counted
/// from 0) failed to parse with the error text `detail`:
/// "in tb № ", the index in decimal, a space and the error text.
pub fn failure_message(index: usize, detail: &str) -> (m: String)
    ensures
        m@ == "in tb № "@ + decimal(index as nat) + " "@ + detail@,
{
    let mut m = String::from_str("in tb № ");
    push_decimal(&mut m, index);
    m.append(" ");
    m.append(detail);
    m
}

} // verus!
