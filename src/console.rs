use vstd::prelude::*;

verus! {

/// `errno` value for an invalid argument, the code reported when a failed
/// terminal query carries no native error code of its own.
pub const EINVAL: i32 = 22;

/// Dimensions of a terminal, in character cells.
#[derive(Debug, PartialEq, Eq, Clone, Copy, Structural)]
pub struct ConsoleSize {
    pub cols: u32,
    pub rows: u32,
}

/// Why one descriptor could not report its dimensions.
#[derive(Debug, PartialEq, Eq, Clone, Copy, Structural)]
pub enum ProbeError {
    /// The handle does not name a resource with a descriptor.
    BadResource,
    /// The size query failed with this native error code.
    Os(i32),
}

/// The code reported for a failed size query: the native one when there is
/// one, else `EINVAL`.
pub fn os_error_code(raw: Option<i32>) -> (r: i32)
    ensures
        r == match raw {
            Some(c) => c,
            None => EINVAL,
        },
{
    match raw {
        Some(c) => c,
        None => EINVAL,
    }
}

/// Widens the 16-bit column and row counts of a window-size record.
pub fn console_size_from_winsize(ws_col: u16, ws_row: u16) -> (r: ConsoleSize)
    ensures
        r.cols == ws_col as u32,
        r.rows == ws_row as u32,
{
    ConsoleSize { cols: ws_col as u32, rows: ws_row as u32 }
}

/// The outcome of probing standard input, output and error in that order:
/// the first success, or, when all three fail, the last failure.
pub open spec fn probe_result(
    stdin: Result<ConsoleSize, ProbeError>,
    stdout: Result<ConsoleSize, ProbeError>,
    stderr: Result<ConsoleSize, ProbeError>,
) -> Result<ConsoleSize, ProbeError> {
    if stdin is Ok {
        stdin
    } else if stdout is Ok {
        stdout
    } else {
        stderr
    }
}

/// Combines the attempts on descriptors 0, 1 and 2, taken in that order.
pub fn console_size_probe(
    stdin: Result<ConsoleSize, ProbeError>,
    stdout: Result<ConsoleSize, ProbeError>,
    stderr: Result<ConsoleSize, ProbeError>,
) -> (r: Result<ConsoleSize, ProbeError>)
    ensures
        r == probe_result(stdin, stdout, stderr),
        stdin is Err && stdout is Err ==> r == stderr,
{
    let attempts = [stdin, stdout, stderr];
    let mut last = stdin;
    let mut i: usize = 0;
    while i < 3
        invariant
            0 <= i <= 3,
            attempts@ == seq![stdin, stdout, stderr],
            i > 0 ==> last == attempts@[i - 1],
            forall|j: int| 0 <= j < i ==> attempts@[j] is Err,
        decreases 3 - i,
    {
        last = attempts[i];
        if last.is_ok() {
            return last;
        }
        i = i + 1;
    }
    last
}

} // verus!
