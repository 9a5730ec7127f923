use vstd::prelude::*;
use crate::convert::{completed_text, date_string_instant, query_instant, MIDNIGHT};
use crate::instant::{instant_of_millis, millis_of, Instant, NANOS_PER_MILLI};
use crate::output::outputs_of;
use crate::text::{
    all_digits, digits_value, has_char, is_date_only, is_digit, lemma_digits_bounded, pow10,
};
use crate::workflow::workflow_outputs;

verus! {

/// Two instants with the same whole seconds and the same millisecond count
/// are displayed alike.
pub proof fn lemma_outputs_by_seconds_and_millis(a: Instant, b: Instant)
    requires
        a.secs == b.secs,
        millis_of(a) == millis_of(b),
    ensures
        outputs_of(a) == outputs_of(b),
{
}

/// A date-time string, a ten-digit seconds string and a thirteen-digit string
/// that begins with those ten digits give the same displayed values, when the
/// date-time string denotes that second (to within a millisecond).
pub proof fn lemma_same_instant_same_outputs(date_time: Seq<char>, secs: Seq<char>, millis: Seq<char>)
    requires
        date_time.len() > 0,
        !all_digits(date_time),
        date_string_instant(date_time) is Ok,
        date_string_instant(date_time)->Ok_0.secs == digits_value(secs),
        date_string_instant(date_time)->Ok_0.nanos < NANOS_PER_MILLI,
        secs.len() == 10,
        all_digits(secs),
        millis.len() == 13,
        all_digits(millis),
        millis.subrange(0, 10) == secs,
    ensures
        workflow_outputs(date_time) == workflow_outputs(secs),
        workflow_outputs(secs) == workflow_outputs(millis),
{
    lemma_digits_bounded(secs);
    lemma_digits_bounded(millis.subrange(11, 13));
    reveal_with_fuel(pow10, 11);
    let a = date_string_instant(date_time)->Ok_0;
    let b = query_instant(secs)->Ok_0;
    let c = query_instant(millis)->Ok_0;
    assert(b.secs == a.secs && b.nanos == 0);
    assert(c.secs == a.secs && c.nanos < 100);
    lemma_outputs_by_seconds_and_millis(a, b);
    lemma_outputs_by_seconds_and_millis(b, c);
}

/// A date alone is read as midnight of that date: `YYYY-MM-DD` and
/// `YYYY-MM-DD 00:00:00` give the same instant and the same displayed values.
pub proof fn lemma_date_is_midnight(date: Seq<char>)
    requires
        is_date_only(date),
    ensures
        query_instant(date) == query_instant(date + MIDNIGHT@),
        workflow_outputs(date) == workflow_outputs(date + MIDNIGHT@),
{
    reveal_strlit(" 00:00:00");
    let full = date + MIDNIGHT@;
    let k = choose|k: int| 0 <= k < date.len() && date[k] == '-';
    assert(!is_digit(date[k]));
    assert(full[k] == '-');
    assert(!is_digit(full[k]));
    assert(full[date.len() as int + 3] == ':');
    assert(has_char(full, ':'));
    assert(!is_date_only(full));
    assert(completed_text(date) =~= completed_text(full));
}

/// A millisecond count turned back into an instant is displayed as the
/// instant it came from, and has the same millisecond count.
pub proof fn lemma_millis_round_trip(i: Instant)
    requires
        i.nanos < 1_000_000_000,
    ensures
        instant_of_millis(millis_of(i)) is Some,
        instant_of_millis(millis_of(i))->Some_0.secs == i.secs,
        millis_of(instant_of_millis(millis_of(i))->Some_0) == millis_of(i),
        outputs_of(instant_of_millis(millis_of(i))->Some_0) == outputs_of(i),
{
    let m = millis_of(i);
    let s = i.secs as int;
    let sub = (i.nanos as int) / (NANOS_PER_MILLI as int);
    assert(0 <= sub < 1000);
    assert(m / 1000 == s && m % 1000 == sub) by (nonlinear_arith)
        requires
            m == s * 1000 + sub,
            0 <= sub < 1000,
    ;
    let j = instant_of_millis(m)->Some_0;
    assert(j.nanos as int == sub * 1_000_000);
    assert((sub * 1_000_000) / 1_000_000 == sub) by (nonlinear_arith);
    lemma_outputs_by_seconds_and_millis(j, i);
}

} // verus!
