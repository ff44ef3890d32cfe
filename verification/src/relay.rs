//! The output relay: turns the lines the worker writes into tagged event
//! payloads for the event bridge.
//!
//! One listener per stream drains the worker's standard output and standard
//! error line by line and forwards every line, newline-terminated, as an
//! event. Error-stream lines carry a distinguishing tag so a consumer can
//! tell severity apart. The listeners themselves live in the host (they block
//! on the stream); the tagging below fixes exactly what each of them
//! forwards, in the order the lines were read.

use vstd::prelude::*;
use vstd::string::StringExecFns;

verus! {

/// The event payload for one line of worker output: the line itself,
/// newline-terminated, prefixed by the error tag when it came from the error
/// stream.
pub open spec fn tagged_line(line: Seq<char>, from_err: bool) -> Seq<char> {
    if from_err {
        "[ERROR] "@ + line + "\n"@
    } else {
        line + "\n"@
    }
}

/// Builds the event payload for one line read from the worker's output or
/// error stream.
pub fn tag_line(line: &str, from_err: bool) -> (payload: String)
    ensures
        payload@ == tagged_line(line@, from_err),
{
    if from_err {
        let mut payload = "[ERROR] ".to_owned();
        payload.append(line);
        payload.append("\n");
        payload
    } else {
        let mut payload = line.to_owned();
        payload.append("\n");
        payload
    }
}

/// Tags a batch of lines read from one stream, keeping their order: the
/// payload at each position is the tagged line that was read at that
/// position, so a listener that forwards them in order delivers every line
/// of its stream, in stream order.
pub fn tag_lines(lines: &Vec<String>, from_err: bool) -> (payloads: Vec<String>)
    ensures
        payloads.len() == lines.len(),
        forall|i: int|
            0 <= i < lines.len() ==> payloads[i]@ == tagged_line(lines[i]@, from_err),
{
    let mut payloads: Vec<String> = Vec::new();
    let mut k: usize = 0;
    while k < lines.len()
        invariant
            k <= lines.len(),
            payloads.len() == k,
            forall|i: int| 0 <= i < k ==> payloads[i]@ == tagged_line(lines[i]@, from_err),
        decreases lines.len() - k,
    {
        let payload = tag_line(lines[k].as_str(), from_err);
        payloads.push(payload);
        k = k + 1;
    }
    payloads
}

} // verus!
