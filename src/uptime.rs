//! Rendering an elapsed-seconds count as `"1h 0m 5s"`-style text.

use vstd::prelude::*;
use vstd::string::*;

verus! {

/// The decimal digit character for `d`, which is below ten.
pub open spec fn digit_char(d: nat) -> char {
    if d == 0 {
        '0'
    } else if d == 1 {
        '1'
    } else if d == 2 {
        '2'
    } else if d == 3 {
        '3'
    } else if d == 4 {
        '4'
    } else if d == 5 {
        '5'
    } else if d == 6 {
        '6'
    } else if d == 7 {
        '7'
    } else if d == 8 {
        '8'
    } else {
        '9'
    }
}

/// `n` written in base ten, most significant digit first, without leading zeros.
pub open spec fn decimal(n: nat) -> Seq<char>
    decreases n,
{
    if n < 10 {
        seq![digit_char(n)]
    } else {
        decimal(n / 10).push(digit_char(n % 10))
    }
}

/// The uptime text for `total` seconds.
///
/// Zero is written `"0m"`. Otherwise the hours appear only when non-zero,
/// followed by a space. The minutes always appear: they are shown when
/// non-zero, when hours were shown, or when nothing has been written yet,
/// and one of the three always holds. The seconds, after a space, appear
/// only when non-zero, since the minutes were always written before them.
pub open spec fn uptime_text(total: nat) -> Seq<char> {
    let hours = total / 3600;
    let minutes = (total % 3600) / 60;
    let seconds = total % 60;
    if total == 0 {
        seq!['0', 'm']
    } else {
        (if hours > 0 {
            decimal(hours) + seq!['h', ' ']
        } else {
            Seq::empty()
        }) + decimal(minutes) + seq!['m'] + (if seconds > 0 {
            seq![' '] + decimal(seconds) + seq!['s']
        } else {
            Seq::empty()
        })
    }
}

/// `c` is one of the ten decimal digit characters.
pub open spec fn is_digit(c: char) -> bool {
    exists|d: nat| d < 10 && c == #[trigger] digit_char(d)
}

proof fn lemma_decimal_starts_with_digit(n: nat)
    ensures
        decimal(n).len() > 0,
        is_digit(decimal(n)[0]),
    decreases n,
{
    if n < 10 {
        assert(decimal(n)[0] == digit_char(n));
    } else {
        lemma_decimal_starts_with_digit(n / 10);
        assert(decimal(n)[0] == decimal(n / 10)[0]);
    }
}

/// The uptime text is never empty and is never padded with whitespace: it
/// starts with a digit and ends with the `m` or `s` suffix.
pub proof fn lemma_uptime_text_trimmed(total: nat)
    ensures
        uptime_text(total).len() > 0,
        is_digit(uptime_text(total)[0]),
        uptime_text(total).last() == 'm' || uptime_text(total).last() == 's',
{
    let t = uptime_text(total);
    let hours = total / 3600;
    let minutes = (total % 3600) / 60;
    let seconds = total % 60;
    if total == 0 {
        assert(t[0] == digit_char(0));
    } else {
        lemma_decimal_starts_with_digit(hours);
        lemma_decimal_starts_with_digit(minutes);
        let head = if hours > 0 {
            decimal(hours) + seq!['h', ' ']
        } else {
            Seq::<char>::empty()
        };
        let mid = head + decimal(minutes) + seq!['m'];
        if hours > 0 {
            assert(t[0] == decimal(hours)[0]);
        } else {
            assert(t[0] == decimal(minutes)[0]);
        }
        if seconds > 0 {
            let tail = seq![' '] + decimal(seconds) + seq!['s'];
            assert(t == mid + tail);
            assert(t.last() == tail.last());
        } else {
            assert(t =~= mid);
        }
    }
}

fn digit_str(d: u64) -> (r: &'static str)
    requires
        d < 10,
    ensures
        r@ == seq![digit_char(d as nat)],
{
    proof {
        reveal_strlit("0");
        reveal_strlit("1");
        reveal_strlit("2");
        reveal_strlit("3");
        reveal_strlit("4");
        reveal_strlit("5");
        reveal_strlit("6");
        reveal_strlit("7");
        reveal_strlit("8");
        reveal_strlit("9");
    }
    if d == 0 {
        "0"
    } else if d == 1 {
        "1"
    } else if d == 2 {
        "2"
    } else if d == 3 {
        "3"
    } else if d == 4 {
        "4"
    } else if d == 5 {
        "5"
    } else if d == 6 {
        "6"
    } else if d == 7 {
        "7"
    } else if d == 8 {
        "8"
    } else {
        "9"
    }
}

/// Appends `n` in base ten to `s`.
pub fn push_decimal(s: &mut String, n: u64)
    ensures
        final(s)@ == old(s)@ + decimal(n as nat),
    decreases n,
{
    if n >= 10 {
        push_decimal(s, n / 10);
    }
    s.append(digit_str(n % 10));
    proof {
        if n >= 10 {
            assert(old(s)@ + decimal((n / 10) as nat) + seq![digit_char((n % 10) as nat)]
                =~= old(s)@ + decimal(n as nat));
        } else {
            assert(old(s)@ + seq![digit_char(n as nat)] =~= old(s)@ + decimal(n as nat));
        }
    }
}

/// Formats `total_seconds` as hours, minutes and seconds, e.g. `"1h 1m 1s"`.
pub fn format_uptime(total_seconds: u64) -> (r: String)
    ensures
        r@ == uptime_text(total_seconds as nat),
{
    let mut result = String::new();
    if total_seconds == 0 {
        result.append("0m");
        proof {
            reveal_strlit("0m");
            assert(result@ =~= uptime_text(0));
        }
        return result;
    }
    let hours: u64 = total_seconds / 3600;
    let minutes: u64 = (total_seconds % 3600) / 60;
    let seconds: u64 = total_seconds % 60;
    proof {
        reveal_strlit("h ");
        reveal_strlit("m");
        reveal_strlit(" ");
        reveal_strlit("s");
    }
    if hours > 0 {
        push_decimal(&mut result, hours);
        result.append("h ");
    }
    let ghost hours_part = result@;
    push_decimal(&mut result, minutes);
    result.append("m");
    let ghost minutes_part = result@;
    if seconds > 0 {
        result.append(" ");
        push_decimal(&mut result, seconds);
        result.append("s");
    }
    proof {
        let t = total_seconds as nat;
        if hours > 0 {
            assert(hours_part =~= decimal(hours as nat) + seq!['h', ' ']);
        } else {
            assert(hours_part =~= Seq::<char>::empty());
        }
        assert(minutes_part =~= hours_part + decimal(minutes as nat) + seq!['m']);
        if seconds > 0 {
            assert(result@ =~= minutes_part + (seq![' '] + decimal(seconds as nat) + seq!['s']));
        } else {
            assert(result@ =~= minutes_part + Seq::<char>::empty());
        }
        assert(result@ =~= uptime_text(t));
    }
    result
}

} // verus!
