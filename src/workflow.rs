use vstd::prelude::*;
use crate::convert::{convert_to_date_time, query_instant, ConvertError};
use crate::instant::{epoch, Instant};
use crate::output::{alfred_time_workflow_output, outputs_of, views_of, Output};

verus! {

/// The arguments of one run.
#[derive(Clone, Debug)]
pub struct Args {
    pub query: String,
}

/// The index of the last `-q` among the first `n` arguments.
pub open spec fn last_flag_before(args: Seq<Seq<char>>, n: int) -> Option<int>
    decreases n,
{
    if n <= 0 {
        None
    } else if args[n - 1] == "-q"@ {
        Some(n - 1)
    } else {
        last_flag_before(args, n - 1)
    }
}

/// The query that the arguments give: the one after the last `-q`, or the
/// empty string where there is no `-q`; `None` where the last `-q` has no
/// argument after it.
pub open spec fn query_of(args: Seq<Seq<char>>) -> Option<Seq<char>> {
    match last_flag_before(args, args.len() as int) {
        None => Some(Seq::<char>::empty()),
        Some(i) => if i + 1 < args.len() {
            Some(args[i + 1])
        } else {
            None
        },
    }
}

pub open spec fn strings_view(v: Seq<String>) -> Seq<Seq<char>> {
    v.map_values(|s: String| s@)
}

fn is_query_flag(s: &String) -> (r: bool)
    ensures
        r == (s@ == "-q"@),
{
    proof {
        reveal_strlit("-q");
    }
    let t = s.as_str();
    if t.unicode_len() != 2 {
        return false;
    }
    let r = t.get_char(0) == '-' && t.get_char(1) == 'q';
    proof {
        if r {
            assert(s@ =~= "-q"@);
        }
    }
    r
}

/// Reads the query from the command-line arguments: the argument that
/// follows the last `-q`, or the empty string where there is none. `None`
/// where the last `-q` is the last argument.
pub fn parse_args(args: &Vec<String>) -> (r: Option<Args>)
    ensures
        match r {
            Some(a) => query_of(strings_view(args@)) == Some(a.query@),
            None => query_of(strings_view(args@)) is None,
        },
{
    let ghost view = strings_view(args@);
    let mut found: Option<usize> = None;
    let mut i: usize = 0;
    while i < args.len()
        invariant
            i <= args.len(),
            view == strings_view(args@),
            view.len() == args.len(),
            match found {
                Some(k) => last_flag_before(view, i as int) == Some(k as int) && k < i,
                None => last_flag_before(view, i as int) is None,
            },
        decreases args.len() - i,
    {
        if is_query_flag(&args[i]) {
            found = Some(i);
        }
        i = i + 1;
    }
    match found {
        None => Some(Args { query: String::new() }),
        Some(k) => if k + 1 < args.len() {
            Some(Args { query: args[k + 1].clone() })
        } else {
            None
        },
    }
}

/// The instant shown for a query: a date string that cannot be parsed is
/// shown as the epoch.
pub open spec fn shown_instant(q: Seq<char>) -> Result<Instant, ConvertError> {
    match query_instant(q) {
        Err(ConvertError::Unparsable) => Ok(epoch()),
        other => other,
    }
}

/// The displayed values for a query.
pub open spec fn workflow_outputs(q: Seq<char>) -> Result<Seq<(Seq<char>, Seq<char>)>, ConvertError> {
    match shown_instant(q) {
        Ok(i) => match outputs_of(i) {
            Some(o) => Ok(o),
            None => Err(ConvertError::OutOfRange),
        },
        Err(e) => Err(e),
    }
}

/// Converts the query of one run into its three displayed values.
pub fn alfred_time_workflow(args: Args) -> (r: Result<Vec<Output>, ConvertError>)
    ensures
        match r {
            Ok(v) => workflow_outputs(args.query@) == Ok::<_, ConvertError>(views_of(v@)),
            Err(e) => workflow_outputs(args.query@) == Err::<Seq<(Seq<char>, Seq<char>)>, _>(e),
        },
{
    let time = match convert_to_date_time(&args.query) {
        Ok(t) => t,
        Err(ConvertError::Unparsable) => Instant::epoch(),
        Err(e) => return Err(e),
    };
    alfred_time_workflow_output(&time)
}

/// The sum of two integers.
pub fn sum(a: i32, b: i32) -> (r: i32)
    requires
        i32::MIN <= a + b <= i32::MAX,
    ensures
        r == a + b,
{
    a + b
}

} // verus!
