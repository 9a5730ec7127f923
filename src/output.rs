use vstd::prelude::*;
use std::fmt::Write;
use chrono::{DateTime, FixedOffset};
use crate::convert::{ConvertError, UTC_PLUS_8_SECS};
use crate::instant::{millis_of, Instant};

verus! {

/// The layout of a displayed civil time.
pub const OUTPUT_FMT: &'static str = "%Y-%m-%d %H:%M:%S";

pub const MILLIS_TITLE: &'static str = "timestamp (milliseconds)";

pub const LOCAL_TITLE: &'static str = "UTC+8";

pub const UTC_TITLE: &'static str = "UTC";

/// One displayed value and its label.
#[derive(Clone, Debug)]
pub struct Output {
    pub title: String,
    pub value: String,
}

impl View for Output {
    type V = (Seq<char>, Seq<char>);

    open spec fn view(&self) -> (Seq<char>, Seq<char>) {
        (self.title@, self.value@)
    }
}

pub open spec fn digit_char(d: nat) -> char {
    ('0' as u32 + d) as char
}

pub open spec fn natural_text(n: nat) -> Seq<char>
    decreases n,
{
    if n < 10 {
        seq![digit_char(n)]
    } else {
        natural_text(n / 10).push(digit_char(n % 10))
    }
}

/// The decimal text of an integer, with a leading `-` when it is negative.
pub open spec fn decimal_text(n: int) -> Seq<char> {
    if n < 0 {
        seq!['-'] + natural_text((-n) as nat)
    } else {
        natural_text(n as nat)
    }
}

/// Relies on `i128::to_string`: the decimal text of the integer.
#[verifier::external_body]
fn decimal_string(n: i128) -> (r: String)
    ensures
        r@ == decimal_text(n as int),
{
    n.to_string()
}

/// What chrono gives when the instant `secs` seconds after the epoch is
/// seen at the fixed offset `offset` (seconds east of UTC) and formatted with
/// `fmt`; `None` where the instant or the offset is out of range or the
/// layout cannot be written.
pub uninterp spec fn formatted_time(secs: i64, offset: i32, fmt: Seq<char>) -> Option<Seq<char>>;

/// Relies on chrono's `DateTime::from_timestamp`, `FixedOffset::east_opt`,
/// `DateTime::with_timezone` and `DateTime::format`: the text depends on the
/// three arguments alone.
#[verifier::external_body]
fn format_time(secs: i64, offset: i32, fmt: &str) -> (r: Option<String>)
    ensures
        formatted_time(secs, offset, fmt@) == match r {
            Some(t) => Some(t@),
            None => None::<Seq<char>>,
        },
{
    let t = DateTime::from_timestamp(secs, 0)?;
    let zone = FixedOffset::east_opt(offset)?;
    let mut out = String::new();
    match write!(out, "{}", t.with_timezone(&zone).format(fmt)) {
        Ok(()) => Some(out),
        Err(_) => None,
    }
}

/// The three displayed values of an instant, as (label, value) pairs: its
/// millisecond timestamp, its civil time at UTC+8 and its civil time at UTC,
/// to the second. `None` where chrono cannot show it.
pub open spec fn outputs_of(i: Instant) -> Option<Seq<(Seq<char>, Seq<char>)>> {
    match (formatted_time(i.secs, UTC_PLUS_8_SECS, OUTPUT_FMT@), formatted_time(i.secs, 0, OUTPUT_FMT@)) {
        (Some(local), Some(utc)) => Some(
            seq![
                (MILLIS_TITLE@, decimal_text(millis_of(i))),
                (LOCAL_TITLE@, local),
                (UTC_TITLE@, utc),
            ],
        ),
        _ => None,
    }
}

pub open spec fn views_of(v: Seq<Output>) -> Seq<(Seq<char>, Seq<char>)> {
    v.map_values(|o: Output| o@)
}

/// The three displayed values of an instant, in this order: the millisecond
/// timestamp, the UTC+8 civil time and the UTC civil time.
pub fn alfred_time_workflow_output(time: &Instant) -> (r: Result<Vec<Output>, ConvertError>)
    ensures
        match r {
            Ok(v) => outputs_of(*time) == Some(views_of(v@)),
            Err(e) => outputs_of(*time) is None && e == ConvertError::OutOfRange,
        },
{
    let local = format_time(time.secs, UTC_PLUS_8_SECS, OUTPUT_FMT);
    let utc = format_time(time.secs, 0, OUTPUT_FMT);
    match (local, utc) {
        (Some(local), Some(utc)) => {
            let millis = decimal_string(time.timestamp_millis());
            let v = vec![
                Output { title: MILLIS_TITLE.to_string(), value: millis },
                Output { title: LOCAL_TITLE.to_string(), value: local },
                Output { title: UTC_TITLE.to_string(), value: utc },
            ];
            assert(views_of(v@) =~= outputs_of(*time)->Some_0);
            Ok(v)
        },
        _ => Err(ConvertError::OutOfRange),
    }
}

} // verus!
