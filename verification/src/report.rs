//! The text that the pipelines report through their side effects: the
//! worker start/finish lines and the dispatcher's completion line.
use vstd::prelude::*;
use vstd::string::StringExecFns;

verus! {

/// The single character rendering a decimal digit.
pub open spec fn spec_digit(d: int) -> Seq<char> {
    if d == 0 {
        "0"@
    } else if d == 1 {
        "1"@
    } else if d == 2 {
        "2"@
    } else if d == 3 {
        "3"@
    } else if d == 4 {
        "4"@
    } else if d == 5 {
        "5"@
    } else if d == 6 {
        "6"@
    } else if d == 7 {
        "7"@
    } else if d == 8 {
        "8"@
    } else {
        "9"@
    }
}

/// The decimal rendering of a non-negative integer, without leading
/// zeroes (a single zero for 0).
pub open spec fn spec_decimal(n: int) -> Seq<char>
    decreases n,
{
    if n < 10 {
        spec_digit(n)
    } else {
        spec_decimal(n / 10) + spec_digit(n % 10)
    }
}

fn digit_str(d: usize) -> (r: &'static str)
    requires
        d < 10,
    ensures
        r@ == spec_digit(d as int),
{
    match d {
        0 => "0",
        1 => "1",
        2 => "2",
        3 => "3",
        4 => "4",
        5 => "5",
        6 => "6",
        7 => "7",
        8 => "8",
        _ => "9",
    }
}

/// Renders a non-negative integer in decimal.
pub fn decimal_string(n: usize) -> (r: String)
    ensures
        r@ == spec_decimal(n as int),
    decreases n,
{
    let d = n % 10;
    if n < 10 {
        digit_str(d).to_owned()
    } else {
        let mut r = decimal_string(n / 10);
        r.append(digit_str(d));
        r
    }
}

/// The line a worker reports when it starts a job.
pub open spec fn spec_worker_start_line(worker: usize, job_id: usize) -> Seq<char> {
    "Worker-"@ + spec_decimal(worker as int) + " processing Job-"@ + spec_decimal(job_id as int)
}

/// The line a worker reports when it finishes a job.
pub open spec fn spec_worker_finish_line(worker: usize, job_id: usize) -> Seq<char> {
    "Worker-"@ + spec_decimal(worker as int) + " finished Job-"@ + spec_decimal(job_id as int)
}

/// Renders the report of a worker starting its job.
pub fn worker_start_line(worker: usize, job_id: usize) -> (r: String)
    ensures
        r@ == spec_worker_start_line(worker, job_id),
{
    let mut line = String::new();
    line.append("Worker-");
    let w = decimal_string(worker);
    line.append(w.as_str());
    line.append(" processing Job-");
    let j = decimal_string(job_id);
    line.append(j.as_str());
    proof {
        assert(line@ =~= spec_worker_start_line(worker, job_id));
    }
    line
}

/// Renders the report of a worker finishing its job.
pub fn worker_finish_line(worker: usize, job_id: usize) -> (r: String)
    ensures
        r@ == spec_worker_finish_line(worker, job_id),
{
    let mut line = String::new();
    line.append("Worker-");
    let w = decimal_string(worker);
    line.append(w.as_str());
    line.append(" finished Job-");
    let j = decimal_string(job_id);
    line.append(j.as_str());
    proof {
        assert(line@ =~= spec_worker_finish_line(worker, job_id));
    }
    line
}

} // verus!
