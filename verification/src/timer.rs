//! Human-readable duration labels such as `1h 5m`.

use vstd::prelude::*;

use vstd::arithmetic::div_mod::lemma_fundamental_div_mod_converse;

use crate::text::{all_digits, decimal, decimal_reads_back, decimal_text, digits_value};

verus! {

/// Whole hours in a span of seconds.
pub open spec fn hours_of(total_seconds: nat) -> nat {
    total_seconds / 3600
}

/// Whole minutes left over after the whole hours.
pub open spec fn minutes_of(total_seconds: nat) -> nat {
    (total_seconds % 3600) / 60
}

/// The label `"{h}h {m}m"` for `h` hours and `m` minutes.
pub open spec fn hm_label(h: nat, m: nat) -> Seq<char> {
    decimal(h) + seq!['h', ' '] + decimal(m) + seq!['m']
}

/// The label of a span of seconds: its whole hours, then the minutes left
/// over; leftover seconds are dropped.
pub open spec fn duration_label(total_seconds: nat) -> Seq<char> {
    hm_label(hours_of(total_seconds), minutes_of(total_seconds))
}

/// A span of `h` hours, `m` minutes and `r` seconds (`m`, `r` under 60) is
/// labelled with exactly `h` and `m`: the label keeps hours and minutes and
/// drops the leftover seconds.
pub proof fn label_shows_hours_and_minutes(h: nat, m: nat, r: nat)
    requires
        m < 60,
        r < 60,
    ensures
        duration_label(h * 3600 + m * 60 + r) == hm_label(h, m),
{
    let t: nat = h * 3600 + m * 60 + r;
    lemma_fundamental_div_mod_converse(t as int, 3600, h as int, (m * 60 + r) as int);
    lemma_fundamental_div_mod_converse((m * 60 + r) as int, 60, m as int, r as int);
}

/// The label reads back: it is the hours as base-10 digits, then `h`, a
/// space, the leftover minutes as base-10 digits, and `m`; reading the two
/// digit fields gives `total_seconds / 3600` and `(total_seconds % 3600) / 60`.
pub proof fn label_reads_back(total_seconds: nat)
    ensures
        ({
            let l = duration_label(total_seconds);
            exists|i: int|
                #![trigger l[i]]
                0 < i && i + 2 < l.len() - 1 && l[i] == 'h' && l[i + 1] == ' ' && l[l.len() - 1]
                    == 'm' && all_digits(l.subrange(0, i)) && all_digits(l.subrange(i + 2, l.len() - 1))
                    && digits_value(l.subrange(0, i)) == total_seconds / 3600 && digits_value(
                    l.subrange(i + 2, l.len() - 1),
                ) == (total_seconds % 3600) / 60
        }),
{
    let h = hours_of(total_seconds);
    let m = minutes_of(total_seconds);
    decimal_reads_back(h);
    decimal_reads_back(m);
    let l = duration_label(total_seconds);
    let i = decimal(h).len() as int;
    assert(l.subrange(0, i) =~= decimal(h));
    assert(l.subrange(i + 2, l.len() - 1) =~= decimal(m));
    assert(l[i] == 'h');
    assert(l[i + 1] == ' ');
    assert(l[l.len() - 1] == 'm');
}

/// Format a span of seconds as a human label like "1h 5m".
pub fn format_duration(total_seconds: u64) -> (label: String)
    ensures
        label@ == duration_label(total_seconds as nat),
{
    let hours: u64 = total_seconds / 3600;
    let minutes: u64 = (total_seconds % 3600) / 60;
    let mut label = decimal_text(hours);
    label.append("h ");
    let minutes_text = decimal_text(minutes);
    label.append(minutes_text.as_str());
    label.append("m");
    proof {
        reveal_strlit("h ");
        reveal_strlit("m");
        assert(label@ =~= duration_label(total_seconds as nat));
    }
    label
}

} // verus!
