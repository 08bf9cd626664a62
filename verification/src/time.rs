//! ISO 8601 (UTC) rendering of Unix timestamps.
use vstd::prelude::*;
use crate::text::{decimal, push_decimal_padded, push_str_chars, string_from_chars, zero_pad};

verus! {

/// Day number (days since 1970-01-01) of the proleptic Gregorian date
/// `y-m-d`, counted with years starting in March so that the leap day ends
/// the year.
pub open spec fn days_from_civil(y: int, m: int, d: int) -> int {
    let y2 = if m <= 2 {
        y - 1
    } else {
        y
    };
    let era = y2 / 400;
    let yoe = y2 - era * 400;
    let mp = if m > 2 {
        m - 3
    } else {
        m + 9
    };
    let doy = (153 * mp + 2) / 5 + d - 1;
    let doe = yoe * 365 + yoe / 4 - yoe / 100 + doy;
    era * 146097 + doe - 719468
}

/// A Gregorian leap year.
pub open spec fn is_leap_year(y: int) -> bool {
    (y % 4 == 0 && y % 100 != 0) || y % 400 == 0
}

/// The number of days of month `m` of year `y`.
pub open spec fn month_len(y: int, m: int) -> int {
    if m == 2 {
        if is_leap_year(y) {
            29
        } else {
            28
        }
    } else if m == 4 || m == 6 || m == 9 || m == 11 {
        30
    } else {
        31
    }
}

/// `(year, month, day)` is the date of day number `days`: a valid date
/// whose day number is `days`.
pub open spec fn is_civil_date_of(days: int, date: (int, int, int)) -> bool {
    1 <= date.1 <= 12 && 1 <= date.2 <= month_len(date.0, date.1) && days_from_civil(
        date.0,
        date.1,
        date.2,
    ) == days
}

/// `YYYY-MM-DDTHH:MM:SSZ` for the given fields.
pub open spec fn iso_text(y: nat, mo: nat, d: nat, h: nat, mi: nat, s: nat) -> Seq<char> {
    zero_pad(decimal(y), 4) + "-"@ + zero_pad(decimal(mo), 2) + "-"@ + zero_pad(decimal(d), 2)
        + "T"@ + zero_pad(decimal(h), 2) + ":"@ + zero_pad(decimal(mi), 2) + ":"@ + zero_pad(
        decimal(s),
        2,
    ) + "Z"@
}

/// `text` is the ISO 8601 text of `secs` seconds after the Unix epoch:
/// the date of its day, then its hour, minute and second.
pub open spec fn is_iso_of_secs(secs: int, text: Seq<char>) -> bool {
    exists|y: u64, mo: u64, d: u64|
        #[trigger] is_civil_date_of(secs / 86400, (y as int, mo as int, d as int)) && text
            == iso_text(
            y as nat,
            mo as nat,
            d as nat,
            ((secs % 86400) / 3600) as nat,
            ((secs % 3600) / 60) as nat,
            (secs % 60) as nat,
        )
}

/// The year of its era and the day of that year are the right ones: the
/// year starts on or before the day and the day falls within it.
proof fn lemma_year_of_era(doe: int)
    requires
        0 <= doe <= 146096,
    ensures
        ({
            let yoe = (doe - doe / 1460 + doe / 36524 - doe / 146096) / 365;
            let doy = doe - (365 * yoe + yoe / 4 - yoe / 100);
            &&& 0 <= yoe <= 399
            &&& 0 <= doy <= 365
            &&& doy == 365 ==> ((yoe + 1) % 4 == 0 && ((yoe + 1) % 100 != 0 || yoe == 399))
        }),
{
}

/// Month and day of a day of the (March-based) year.
proof fn lemma_month_day(doy: int)
    requires
        0 <= doy <= 365,
    ensures
        ({
            let mp = (5 * doy + 2) / 153;
            let d = doy - (153 * mp + 2) / 5 + 1;
            0 <= mp <= 11 && 1 <= d <= 31 && (153 * mp + 2) / 5 + d - 1 == doy
        }),
{
}

/// The civil date, hour, minute and second of a Unix timestamp in seconds.
pub fn civil_from_secs(total_secs: u64) -> (r: (u64, u64, u64, u64, u64, u64))
    ensures
        is_civil_date_of((total_secs / 86400) as int, (r.0 as int, r.1 as int, r.2 as int)),
        r.3 == (total_secs % 86400) / 3600,
        r.4 == (total_secs % 3600) / 60,
        r.5 == total_secs % 60,
{
    let sec_of_day = total_secs % 86_400;
    let hour = sec_of_day / 3_600;
    let minute = (sec_of_day % 3_600) / 60;
    let second = sec_of_day % 60;
    assert((total_secs % 86400) % 3600 == total_secs % 3600) by (nonlinear_arith);
    assert((total_secs % 86400) % 60 == total_secs % 60) by (nonlinear_arith);
    let shifted_days = total_secs / 86_400 + 719_468;
    let era = shifted_days / 146_097;
    let day_of_era = shifted_days - era * 146_097;
    proof {
        lemma_year_of_era(day_of_era as int);
    }
    let year_of_era = (day_of_era - day_of_era / 1_460 + day_of_era / 36_524 - day_of_era
        / 146_096) / 365;
    let year_base = year_of_era + era * 400;
    let day_of_year = day_of_era - (365 * year_of_era + year_of_era / 4 - year_of_era / 100);
    proof {
        lemma_month_day(day_of_year as int);
    }
    let month_prime = (5 * day_of_year + 2) / 153;
    let day = day_of_year - (153 * month_prime + 2) / 5 + 1;
    let month = if month_prime < 10 {
        month_prime + 3
    } else {
        month_prime - 9
    };
    let year = if month <= 2 {
        year_base + 1
    } else {
        year_base
    };
    proof {
        let y2 = year_base as int;
        assert(y2 / 400 == era as int) by (nonlinear_arith)
            requires
                y2 == year_of_era + era * 400,
                0 <= year_of_era <= 399,
        ;
        assert(days_from_civil(year as int, month as int, day as int) == (total_secs / 86400)
            as int);
    }
    (year, month, day, hour, minute, second)
}

/// `YYYY-MM-DDTHH:MM:SSZ` (UTC) for seconds since the Unix epoch.
pub fn iso8601_from_secs(total_secs: u64) -> (r: String)
    ensures
        is_iso_of_secs(total_secs as int, r@),
{
    let (year, month, day, hour, minute, second) = civil_from_secs(total_secs);
    let mut out: Vec<char> = Vec::new();
    push_decimal_padded(&mut out, year, 4);
    push_str_chars(&mut out, "-");
    push_decimal_padded(&mut out, month, 2);
    push_str_chars(&mut out, "-");
    push_decimal_padded(&mut out, day, 2);
    push_str_chars(&mut out, "T");
    push_decimal_padded(&mut out, hour, 2);
    push_str_chars(&mut out, ":");
    push_decimal_padded(&mut out, minute, 2);
    push_str_chars(&mut out, ":");
    push_decimal_padded(&mut out, second, 2);
    push_str_chars(&mut out, "Z");
    assert(out@ =~= iso_text(
        year as nat,
        month as nat,
        day as nat,
        hour as nat,
        minute as nat,
        second as nat,
    ));
    string_from_chars(out.as_slice())
}

/// `YYYY-MM-DDTHH:MM:SSZ` (UTC) for a point in time given as whole seconds
/// since the Unix epoch; `None`, a time before the epoch, is rendered as the
/// epoch.
pub fn system_time_to_iso8601(since_epoch: Option<u64>) -> (r: String)
    ensures
        match since_epoch {
            None => r@ == "1970-01-01T00:00:00Z"@,
            Some(s) => is_iso_of_secs(s as int, r@),
        },
{
    match since_epoch {
        None => String::from_str("1970-01-01T00:00:00Z"),
        Some(s) => iso8601_from_secs(s),
    }
}

/// The modification time of a remote file as ISO 8601, when it is known.
pub fn mtime_to_iso8601(mtime: Option<u32>) -> (r: Option<String>)
    ensures
        match mtime {
            None => r is None,
            Some(t) => r matches Some(s) && is_iso_of_secs(t as int, s@),
        },
{
    match mtime {
        None => None,
        Some(t) => Some(iso8601_from_secs(t as u64)),
    }
}

// ── The date of a day number is unique ─────────────────────────────────────

/// The year, counted from March, that a civil month belongs to.
spec fn march_year(y: int, m: int) -> int {
    if m <= 2 {
        y - 1
    } else {
        y
    }
}

/// The month counted from March (0) to February (11).
spec fn march_month(m: int) -> int {
    if m > 2 {
        m - 3
    } else {
        m + 9
    }
}

/// Days before March 1 of the March-based year `y2`, up to a constant.
spec fn days_before_year(y2: int) -> int {
    let era = y2 / 400;
    let yoe = y2 - era * 400;
    era * 146097 + yoe * 365 + yoe / 4 - yoe / 100
}

/// Days of a March-based year before its month `mp`.
spec fn days_before_month(mp: int) -> int {
    (153 * mp + 2) / 5
}

/// The closed form of `days_before_year`.
proof fn lemma_days_before_year(y2: int)
    ensures
        days_before_year(y2) == 365 * y2 + y2 / 4 - y2 / 100 + y2 / 400,
{
    let era = y2 / 400;
    let yoe = y2 - era * 400;
    assert(yoe / 4 == y2 / 4 - era * 100);
    assert(yoe / 100 == y2 / 100 - era * 4);
}

/// A March-based year has 366 days when the civil year it ends in is a
/// leap year, else 365.
proof fn lemma_year_length(y2: int)
    ensures
        days_before_year(y2 + 1) - days_before_year(y2) == 365 + (if is_leap_year(y2 + 1) {
            1int
        } else {
            0int
        }),
{
    lemma_days_before_year(y2);
    lemma_days_before_year(y2 + 1);
}

/// Later years start later.
proof fn lemma_years_ordered(a: int, b: int)
    requires
        a < b,
    ensures
        days_before_year(a + 1) <= days_before_year(b),
{
    lemma_days_before_year(a + 1);
    lemma_days_before_year(b);
}

/// The day of a valid date falls inside its March-based year.
proof fn lemma_offset_in_year(y: int, m: int, d: int)
    requires
        1 <= m <= 12,
        1 <= d <= month_len(y, m),
    ensures
        0 <= days_before_month(march_month(m)) + d - 1,
        days_before_month(march_month(m)) + d - 1 < days_before_year(march_year(y, m) + 1)
            - days_before_year(march_year(y, m)),
{
    lemma_year_length(march_year(y, m));
}

/// A day number has one date: two valid dates with the same day number are
/// the same date.
pub proof fn law_civil_date_unique(days: int, a: (int, int, int), b: (int, int, int))
    requires
        is_civil_date_of(days, a),
        is_civil_date_of(days, b),
    ensures
        a == b,
{
    let ya = march_year(a.0, a.1);
    let yb = march_year(b.0, b.1);
    let oa = days_before_month(march_month(a.1)) + a.2 - 1;
    let ob = days_before_month(march_month(b.1)) + b.2 - 1;
    assert(days == days_before_year(ya) + oa - 719468);
    assert(days == days_before_year(yb) + ob - 719468);
    lemma_offset_in_year(a.0, a.1, a.2);
    lemma_offset_in_year(b.0, b.1, b.2);
    if ya < yb {
        lemma_years_ordered(ya, yb);
    }
    if yb < ya {
        lemma_years_ordered(yb, ya);
    }
    assert(ya == yb);
    assert(oa == ob);
    assert(a.1 == b.1);
}

/// A number of seconds has one ISO 8601 text: the contracts of the
/// rendering functions pin their result.
pub proof fn law_iso_text_unique(secs: int, t1: Seq<char>, t2: Seq<char>)
    requires
        is_iso_of_secs(secs, t1),
        is_iso_of_secs(secs, t2),
    ensures
        t1 == t2,
{
    let (y1, m1, d1) = choose|y: u64, mo: u64, d: u64|
        #[trigger] is_civil_date_of(secs / 86400, (y as int, mo as int, d as int)) && t1
            == iso_text(
            y as nat,
            mo as nat,
            d as nat,
            ((secs % 86400) / 3600) as nat,
            ((secs % 3600) / 60) as nat,
            (secs % 60) as nat,
        );
    let (y2, m2, d2) = choose|y: u64, mo: u64, d: u64|
        #[trigger] is_civil_date_of(secs / 86400, (y as int, mo as int, d as int)) && t2
            == iso_text(
            y as nat,
            mo as nat,
            d as nat,
            ((secs % 86400) / 3600) as nat,
            ((secs % 3600) / 60) as nat,
            (secs % 60) as nat,
        );
    law_civil_date_unique(
        secs / 86400,
        (y1 as int, m1 as int, d1 as int),
        (y2 as int, m2 as int, d2 as int),
    );
}

} // verus!
