//! The process inspector: which process holds the port, and is it ours?
//!
//! The caller lists the listeners on the port and asks for the command line of
//! each; this module reads the listing and decides which listener is the
//! expected backend.
//!
//! A listener is taken for the backend when its command line names the runtime
//! and holds the entry path as a literal substring. This is a heuristic, kept
//! on purpose: it is cheap and needs no protocol with the backend. It misses a
//! backend whose command line spells the entry path differently (through a
//! symbolic link, say), and it accepts an unrelated process whose command line
//! happens to hold both strings.

use vstd::prelude::*;
use crate::text::{
    contains,
    line_bounds,
    parse_digits,
    push_decimal,
    push_signed_decimal,
    spec_contains,
    spec_cut,
    spec_decimal,
    spec_lines,
    spec_parse_digits,
    spec_signed_decimal,
    spec_strip_plus,
    spec_trim,
    to_chars,
    trim,
    trim_bounds,
};

verus! {

/// The name of the runtime that runs the backend, as it shows in a command
/// line: `node`.
pub open spec fn spec_runtime_name() -> Seq<char> {
    "node"@
}

/// The heuristic itself: the command line names the runtime and holds the
/// entry path.
pub open spec fn spec_matches_expected_backend(
    command_line: Seq<char>,
    entry_path: Seq<char>,
) -> bool {
    spec_contains(command_line, spec_runtime_name()) && spec_contains(command_line, entry_path)
}

/// What one line of the listing means as a process id: a decimal number
/// between 1 and 2147483647, with white space around it and one plus sign
/// before it allowed.
pub open spec fn spec_parse_pid(line: Seq<char>) -> Option<i32> {
    match spec_parse_digits(spec_strip_plus(spec_trim(line)), 0x7FFF_FFFF) {
        Some(n) => if n > 0 {
            Some(n as i32)
        } else {
            None
        },
        None => None,
    }
}

/// The process ids that a sequence of lines names, in order. Lines that name
/// none are passed over.
pub open spec fn spec_pids_of(lines: Seq<Seq<char>>) -> Seq<i32>
    decreases lines.len(),
{
    if lines.len() == 0 {
        Seq::empty()
    } else {
        let before = spec_pids_of(lines.drop_last());
        match spec_parse_pid(lines.last()) {
            Some(pid) => before.push(pid),
            None => before,
        }
    }
}

/// The process ids that a listing of listeners names.
pub open spec fn spec_listener_pids(listing: Seq<char>) -> Seq<i32> {
    spec_pids_of(spec_lines(listing))
}

/// A process that listens on the port, with what the process table printed
/// for its command line.
#[derive(Debug)]
pub struct Listener {
    /// The process id.
    pub pid: i32,
    /// The command line as printed; white space around it does not count.
    pub command_line: String,
}

/// Whether `listener` is taken for the backend with entry path `entry_path`.
pub open spec fn spec_is_expected(listener: Listener, entry_path: Seq<char>) -> bool {
    spec_matches_expected_backend(spec_trim(listener.command_line@), entry_path)
}

/// The first of `listeners` that is taken for the backend.
pub open spec fn spec_find_listener(listeners: Seq<Listener>, entry_path: Seq<char>) -> Option<i32>
    decreases listeners.len(),
{
    if listeners.len() == 0 {
        None
    } else if spec_is_expected(listeners[0], entry_path) {
        Some(listeners[0].pid)
    } else {
        spec_find_listener(listeners.drop_first(), entry_path)
    }
}

/// All of `listeners` that are taken for the backend, in order.
pub open spec fn spec_matching_listeners(listeners: Seq<Listener>, entry_path: Seq<char>) -> Seq<
    i32,
>
    decreases listeners.len(),
{
    if listeners.len() == 0 {
        Seq::empty()
    } else {
        let before = spec_matching_listeners(listeners.drop_last(), entry_path);
        if spec_is_expected(listeners.last(), entry_path) {
            before.push(listeners.last().pid)
        } else {
            before
        }
    }
}

/// The arguments with which `lsof` lists the ids of the processes that listen
/// on TCP port `port`.
pub open spec fn spec_listener_query(port: u16) -> Seq<Seq<char>> {
    seq!["-nP"@, "-iTCP:"@ + spec_decimal(port as nat), "-sTCP:LISTEN"@, "-t"@]
}

/// The arguments with which `ps` prints the command line of process `pid`.
pub open spec fn spec_command_line_query(pid: i32) -> Seq<Seq<char>> {
    seq!["-p"@, spec_signed_decimal(pid as int), "-o"@, "command="@]
}

/// The name of the runtime, which is also the program that a launch runs.
pub fn runtime_name() -> (name: &'static str)
    ensures
        name@ == spec_runtime_name(),
{
    "node"
}

/// The arguments for `lsof` that list the listeners on `port`, one process id
/// per line.
pub fn listener_query(port: u16) -> (args: Vec<String>)
    ensures
        args.deep_view() == spec_listener_query(port),
{
    let mut selector = String::from_str("-iTCP:");
    push_decimal(&mut selector, port as u64);
    let mut args: Vec<String> = Vec::new();
    args.push(String::from_str("-nP"));
    args.push(selector);
    args.push(String::from_str("-sTCP:LISTEN"));
    args.push(String::from_str("-t"));
    assert(args.deep_view() =~= spec_listener_query(port));
    args
}

/// The arguments for `ps` that print the command line of the listener `pid`.
pub fn command_line_query(pid: i32) -> (args: Vec<String>)
    ensures
        args.deep_view() == spec_command_line_query(pid),
{
    let mut number = String::new();
    push_signed_decimal(&mut number, pid as i64);
    let mut args: Vec<String> = Vec::new();
    args.push(String::from_str("-p"));
    args.push(number);
    args.push(String::from_str("-o"));
    args.push(String::from_str("command="));
    assert(args.deep_view() =~= spec_command_line_query(pid)) by {
        assert(args@[1]@ =~= spec_signed_decimal(pid as int));
    }
    args
}

fn parse_pid_within(chars: &Vec<char>, lo: usize, hi: usize) -> (pid: Option<i32>)
    requires
        lo <= hi <= chars.len(),
    ensures
        pid == spec_parse_pid(chars@.subrange(lo as int, hi as int)),
{
    let (a, b) = trim_bounds(chars, lo, hi);
    let start = if a < b && chars[a] == '+' {
        a + 1
    } else {
        a
    };
    proof {
        let trimmed = chars@.subrange(a as int, b as int);
        assert(spec_strip_plus(trimmed) =~= chars@.subrange(start as int, b as int));
    }
    match parse_digits(chars, start, b, 0x7FFF_FFFF) {
        Some(n) => if n > 0 {
            Some(n as i32)
        } else {
            None
        },
        None => None,
    }
}

/// The ids of the listeners that `listing` names, one line each, in order.
/// A line that is no process id (blank, not a number, zero, negative, too
/// large) is passed over.
pub fn listener_pids(listing: &str) -> (pids: Vec<i32>)
    ensures
        pids@ == spec_listener_pids(listing@),
        forall|i: int| 0 <= i < pids.len() ==> #[trigger] pids@[i] > 0,
{
    let chars = to_chars(listing);
    let bounds = line_bounds(&chars);
    let ghost lines = spec_lines(chars@);
    let mut pids: Vec<i32> = Vec::new();
    let mut i: usize = 0;
    proof {
        assert(lines.take(0) =~= Seq::<Seq<char>>::empty());
    }
    while i < bounds.len()
        invariant
            i <= bounds.len(),
            lines == spec_lines(chars@),
            spec_cut(chars@, bounds@) == lines,
            forall|k: int|
                0 <= k < bounds.len() ==> (#[trigger] bounds@[k]).0 <= bounds@[k].1 <= chars.len(),
            pids@ == spec_pids_of(lines.take(i as int)),
            forall|k: int| 0 <= k < pids.len() ==> #[trigger] pids@[k] > 0,
        decreases bounds.len() - i,
    {
        let (a, b) = bounds[i];
        proof {
            assert(lines.len() == bounds.len());
            assert(lines.take(i + 1).drop_last() =~= lines.take(i as int));
            assert(lines.take(i + 1).last() == spec_cut(chars@, bounds@)[i as int]);
        }
        match parse_pid_within(&chars, a, b) {
            Some(pid) => {
                pids.push(pid);
            },
            None => {},
        }
        i += 1;
    }
    proof {
        assert(lines.len() == bounds.len());
        assert(lines.take(i as int) =~= lines);
    }
    pids
}

/// Whether `command_line` is the command line of the backend with entry path
/// `entry_path`: it names the runtime and holds the entry path.
pub fn matches_expected_backend(command_line: &str, entry_path: &str) -> (yes: bool)
    ensures
        yes == spec_matches_expected_backend(command_line@, entry_path@),
{
    contains(command_line, runtime_name()) && contains(command_line, entry_path)
}

fn is_expected(listener: &Listener, entry_path: &str) -> (yes: bool)
    ensures
        yes == spec_is_expected(*listener, entry_path@),
{
    let command_line = trim(listener.command_line.as_str());
    matches_expected_backend(command_line.as_str(), entry_path)
}

/// The process inspector's answer: the id of the first listener that is
/// taken for the backend, or `None` where no listener is.
pub fn find_listener(listeners: &Vec<Listener>, entry_path: &str) -> (found: Option<i32>)
    ensures
        found == spec_find_listener(listeners@, entry_path@),
{
    let mut i: usize = 0;
    proof {
        assert(listeners@.subrange(0, listeners.len() as int) =~= listeners@);
    }
    while i < listeners.len()
        invariant
            i <= listeners.len(),
            spec_find_listener(listeners@, entry_path@) == spec_find_listener(
                listeners@.subrange(i as int, listeners.len() as int),
                entry_path@,
            ),
        decreases listeners.len() - i,
    {
        let ghost rest = listeners@.subrange(i as int, listeners.len() as int);
        proof {
            assert(rest[0] == listeners@[i as int]);
            assert(rest.drop_first() =~= listeners@.subrange(i + 1, listeners.len() as int));
        }
        if is_expected(&listeners[i], entry_path) {
            return Some(listeners[i].pid);
        }
        i += 1;
    }
    None
}

/// The variant that serves termination: the ids of all listeners that are
/// taken for the backend, in order. The caller signals each of them.
pub fn matching_listeners(listeners: &Vec<Listener>, entry_path: &str) -> (pids: Vec<i32>)
    ensures
        pids@ == spec_matching_listeners(listeners@, entry_path@),
{
    let mut pids: Vec<i32> = Vec::new();
    let mut i: usize = 0;
    proof {
        assert(listeners@.take(0) =~= Seq::<Listener>::empty());
    }
    while i < listeners.len()
        invariant
            i <= listeners.len(),
            pids@ == spec_matching_listeners(listeners@.take(i as int), entry_path@),
        decreases listeners.len() - i,
    {
        proof {
            assert(listeners@.take(i + 1).drop_last() =~= listeners@.take(i as int));
            assert(listeners@.take(i + 1).last() == listeners@[i as int]);
        }
        if is_expected(&listeners[i], entry_path) {
            pids.push(listeners[i].pid);
        }
        i += 1;
    }
    proof {
        assert(listeners@.take(i as int) =~= listeners@);
    }
    pids
}

/// What `spec_find_listener` finds is the first expected listener: it returns
/// the id of a listener that is expected and before which none is, and it
/// returns `None` exactly where no listener is expected.
pub proof fn law_find_listener_is_first_match(listeners: Seq<Listener>, entry_path: Seq<char>)
    ensures
        match spec_find_listener(listeners, entry_path) {
            Some(pid) => exists|i: int|
                0 <= i < listeners.len() && spec_is_expected(#[trigger] listeners[i], entry_path)
                    && listeners[i].pid == pid && forall|j: int|
                    0 <= j < i ==> !spec_is_expected(#[trigger] listeners[j], entry_path),
            None => forall|i: int|
                0 <= i < listeners.len() ==> !spec_is_expected(
                    #[trigger] listeners[i],
                    entry_path,
                ),
        },
    decreases listeners.len(),
{
    if listeners.len() == 0 {
    } else if spec_is_expected(listeners[0], entry_path) {
        assert(spec_is_expected(listeners[0], entry_path) && listeners[0].pid == listeners[0].pid);
    } else {
        let rest = listeners.drop_first();
        law_find_listener_is_first_match(rest, entry_path);
        match spec_find_listener(rest, entry_path) {
            Some(pid) => {
                let i = choose|i: int|
                    0 <= i < rest.len() && spec_is_expected(#[trigger] rest[i], entry_path)
                        && rest[i].pid == pid && forall|j: int|
                        0 <= j < i ==> !spec_is_expected(#[trigger] rest[j], entry_path);
                assert(listeners[i + 1] == rest[i]);
                assert forall|j: int| 0 <= j < i + 1 implies !spec_is_expected(
                    #[trigger] listeners[j],
                    entry_path,
                ) by {
                    if j > 0 {
                        assert(listeners[j] == rest[j - 1]);
                    }
                }
                assert(spec_is_expected(listeners[i + 1], entry_path) && listeners[i + 1].pid
                    == pid);
            },
            None => {
                assert forall|i: int| 0 <= i < listeners.len() implies !spec_is_expected(
                    #[trigger] listeners[i],
                    entry_path,
                ) by {
                    if i > 0 {
                        assert(listeners[i] == rest[i - 1]);
                    }
                }
            },
        }
    }
}

/// Port signature matching: of a listener whose command line names the
/// runtime, the inspector reports a match exactly where the command line holds
/// the entry path. Of two listeners on one port, one with the entry path in its
/// command line and one without, it reports the first and never the second.
pub proof fn law_signature_decides_the_match(
    with_signature: Listener,
    without_signature: Listener,
    entry_path: Seq<char>,
)
    requires
        spec_contains(spec_trim(with_signature.command_line@), spec_runtime_name()),
        spec_contains(spec_trim(with_signature.command_line@), entry_path),
        !spec_contains(spec_trim(without_signature.command_line@), entry_path),
    ensures
        spec_find_listener(seq![with_signature], entry_path) == Some(with_signature.pid),
        spec_find_listener(seq![without_signature], entry_path) == None::<i32>,
        spec_find_listener(seq![with_signature, without_signature], entry_path) == Some(
            with_signature.pid,
        ),
        spec_find_listener(seq![without_signature, with_signature], entry_path) == Some(
            with_signature.pid,
        ),
        spec_matching_listeners(seq![without_signature, with_signature], entry_path) == seq![
            with_signature.pid,
        ],
{
    reveal_with_fuel(spec_find_listener, 3);
    reveal_with_fuel(spec_matching_listeners, 3);
    let a = with_signature;
    let b = without_signature;
    assert(seq![b, a].drop_first() =~= seq![a]);
    assert(seq![a].drop_first() =~= Seq::<Listener>::empty());
    assert(seq![b].drop_first() =~= Seq::<Listener>::empty());
    assert(seq![b, a].drop_last() =~= seq![b]);
    assert(seq![b].drop_last() =~= Seq::<Listener>::empty());
    assert(spec_matching_listeners(seq![b, a], entry_path) =~= seq![a.pid]);
}

} // verus!
