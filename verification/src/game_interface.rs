//! The scrolling log of the packet-sniffer screen.

use vstd::prelude::*;

verus! {

/// The most lines the log keeps.
pub const LOG_LIMIT: usize = 20;

/// The log after a line arrives: the line goes to the end and, once the log
/// would hold more than `LOG_LIMIT` lines, the oldest one goes.
pub open spec fn log_after(log: Seq<String>, line: String) -> Seq<String> {
    if log.len() + 1 > LOG_LIMIT {
        log.push(line).drop_first()
    } else {
        log.push(line)
    }
}

/// Appends a line to the log, dropping the oldest line once it holds more
/// than `LOG_LIMIT`.
pub fn push_log(log: &mut Vec<String>, line: String)
    ensures
        final(log)@ == log_after(old(log)@, line),
{
    log.push(line);
    if log.len() > LOG_LIMIT {
        log.remove(0);
    }
}

/// The log never grows past its limit, and the newest line is always last.
pub proof fn lemma_log_bounded(log: Seq<String>, line: String)
    requires
        log.len() <= LOG_LIMIT,
    ensures
        log_after(log, line).len() <= LOG_LIMIT,
        log_after(log, line).last() == line,
        log_after(log, line).len() == if log.len() < LOG_LIMIT { log.len() + 1 } else { LOG_LIMIT as nat },
{
}


/// Below the limit the log keeps every line in order and adds the new one at
/// the end; at the limit it drops exactly the oldest line.
pub proof fn lemma_log_order(log: Seq<String>, line: String, i: int)
    requires
        log.len() <= LOG_LIMIT,
        0 <= i < log.len(),
    ensures
        log.len() < LOG_LIMIT ==> log_after(log, line)[i] == log[i],
        log.len() == LOG_LIMIT && i >= 1 ==> log_after(log, line)[i - 1] == log[i],
{
}

} // verus!
