use vstd::prelude::*;
use crate::text::{decimal, decimal_text, push_text, str_equals};

verus! {

/// Number of the standard termination signal.
pub const SIGTERM: i32 = 15;

/// Number of the signal that cannot be caught.
pub const SIGKILL: i32 = 9;

/// The POSIX signals known by name, with their numbers.
pub open spec fn signal_number_of(name: Seq<char>) -> Option<i32> {
    if name == "SIGHUP"@ { Some(1) }
    else if name == "SIGINT"@ { Some(2) }
    else if name == "SIGQUIT"@ { Some(3) }
    else if name == "SIGILL"@ { Some(4) }
    else if name == "SIGABRT"@ { Some(6) }
    else if name == "SIGFPE"@ { Some(8) }
    else if name == "SIGKILL"@ { Some(9) }
    else if name == "SIGSEGV"@ { Some(11) }
    else if name == "SIGPIPE"@ { Some(13) }
    else if name == "SIGALRM"@ { Some(14) }
    else if name == "SIGTERM"@ { Some(15) }
    else { None }
}

/// The name of a known signal number.
pub open spec fn signal_name_of(n: i32) -> Option<Seq<char>> {
    if n == 1 { Some("SIGHUP"@) }
    else if n == 2 { Some("SIGINT"@) }
    else if n == 3 { Some("SIGQUIT"@) }
    else if n == 4 { Some("SIGILL"@) }
    else if n == 6 { Some("SIGABRT"@) }
    else if n == 8 { Some("SIGFPE"@) }
    else if n == 9 { Some("SIGKILL"@) }
    else if n == 11 { Some("SIGSEGV"@) }
    else if n == 13 { Some("SIGPIPE"@) }
    else if n == 14 { Some("SIGALRM"@) }
    else if n == 15 { Some("SIGTERM"@) }
    else { None }
}

/// Looks up a signal number by its name ("SIGTERM").
pub fn process_signal_from_str(signal: &str) -> (r: Option<i32>)
    ensures
        r == signal_number_of(signal@),
{
    if str_equals(signal, "SIGHUP") { Some(1) }
    else if str_equals(signal, "SIGINT") { Some(2) }
    else if str_equals(signal, "SIGQUIT") { Some(3) }
    else if str_equals(signal, "SIGILL") { Some(4) }
    else if str_equals(signal, "SIGABRT") { Some(6) }
    else if str_equals(signal, "SIGFPE") { Some(8) }
    else if str_equals(signal, "SIGKILL") { Some(9) }
    else if str_equals(signal, "SIGSEGV") { Some(11) }
    else if str_equals(signal, "SIGPIPE") { Some(13) }
    else if str_equals(signal, "SIGALRM") { Some(14) }
    else if str_equals(signal, "SIGTERM") { Some(15) }
    else { None }
}

/// Looks up the name of a signal number.
pub fn signal_str_from_i32(signal: i32) -> (r: Option<&'static str>)
    ensures
        match r {
            Some(s) => signal_name_of(signal) == Some(s@),
            None => signal_name_of(signal) is None,
        },
{
    if signal == 1 { Some("SIGHUP") }
    else if signal == 2 { Some("SIGINT") }
    else if signal == 3 { Some("SIGQUIT") }
    else if signal == 4 { Some("SIGILL") }
    else if signal == 6 { Some("SIGABRT") }
    else if signal == 8 { Some("SIGFPE") }
    else if signal == 9 { Some("SIGKILL") }
    else if signal == 11 { Some("SIGSEGV") }
    else if signal == 13 { Some("SIGPIPE") }
    else if signal == 14 { Some("SIGALRM") }
    else if signal == 15 { Some("SIGTERM") }
    else { None }
}

/// The signal table reads the same in both directions: a name maps to a
/// number exactly when that number maps back to the name.
pub proof fn lemma_signal_table_bidirectional(name: Seq<char>, n: i32)
    ensures
        signal_number_of(name) == Some(n) <==> signal_name_of(n) == Some(name),
{
    reveal_strlit("SIGHUP");
    reveal_strlit("SIGINT");
    reveal_strlit("SIGQUIT");
    reveal_strlit("SIGILL");
    reveal_strlit("SIGABRT");
    reveal_strlit("SIGFPE");
    reveal_strlit("SIGKILL");
    reveal_strlit("SIGSEGV");
    reveal_strlit("SIGPIPE");
    reveal_strlit("SIGALRM");
    reveal_strlit("SIGTERM");
    assert("SIGHUP"@[3] == 'H' && "SIGHUP"@[4] == 'U');
    assert("SIGINT"@[3] == 'I' && "SIGINT"@[4] == 'N');
    assert("SIGQUIT"@[3] == 'Q' && "SIGQUIT"@[4] == 'U');
    assert("SIGILL"@[3] == 'I' && "SIGILL"@[4] == 'L');
    assert("SIGABRT"@[3] == 'A' && "SIGABRT"@[4] == 'B');
    assert("SIGFPE"@[3] == 'F' && "SIGFPE"@[4] == 'P');
    assert("SIGKILL"@[3] == 'K' && "SIGKILL"@[4] == 'I');
    assert("SIGSEGV"@[3] == 'S' && "SIGSEGV"@[4] == 'E');
    assert("SIGPIPE"@[3] == 'P' && "SIGPIPE"@[4] == 'I');
    assert("SIGALRM"@[3] == 'A' && "SIGALRM"@[4] == 'L');
    assert("SIGTERM"@[3] == 'T' && "SIGTERM"@[4] == 'E');
}

/// The message of a signal that could not be delivered to a process group.
pub open spec fn delivery_failure_text(signal: i32, pid: u32) -> Seq<char> {
    "Failed to send signal "@ + decimal_text(signal as int) + " to process "@ + decimal_text(
        pid as int,
    )
}

/// Builds the message of a signal that could not be delivered to a process group.
pub fn delivery_failure_message(signal: i32, pid: u32) -> (r: String)
    ensures
        r@ == delivery_failure_text(signal, pid),
{
    let mut m = String::from_str("Failed to send signal ");
    let sig_text = decimal(signal as i64);
    push_text(&mut m, sig_text.as_str());
    push_text(&mut m, " to process ");
    let pid_text = decimal(pid as i64);
    push_text(&mut m, pid_text.as_str());
    m
}

} // verus!
