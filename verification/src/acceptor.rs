//! Connection acceptor: turn a stream of raw inbound connection attempts into
//! live connections only.
//!
//! Each attempt either produced a live connection or failed on its own (a peer
//! that aborted its handshake, a torn-down listening resource). A failure is
//! absorbed: it becomes a log line and the attempt is skipped, because one bad
//! inbound attempt must not take down the listening process. The acceptor
//! itself never raises an error and never reorders: the live connections come
//! out in the order their attempts came in. The caller performs the actual
//! accepting and the printing of log lines; the connection payload is opaque
//! to the logic here.
use vstd::prelude::*;
use vstd::string::StringExecFns;

verus! {

/// One raw inbound connection attempt: a live connection of the caller's
/// type, or the description of why the attempt failed.
pub enum Attempt<C> {
    Live(C),
    Failed(String),
}

/// The live connections among `attempts`, in order.
pub open spec fn live_connections<C>(attempts: Seq<Attempt<C>>) -> Seq<C>
    decreases attempts.len(),
{
    if attempts.len() == 0 {
        Seq::empty()
    } else {
        let rest = live_connections(attempts.drop_first());
        match attempts[0] {
            Attempt::Live(c) => seq![c] + rest,
            Attempt::Failed(_) => rest,
        }
    }
}

/// The log lines for the failed attempts among `attempts`, in order.
pub open spec fn failure_logs<C>(attempts: Seq<Attempt<C>>) -> Seq<Seq<char>>
    decreases attempts.len(),
{
    if attempts.len() == 0 {
        Seq::empty()
    } else {
        let rest = failure_logs(attempts.drop_first());
        match attempts[0] {
            Attempt::Live(_) => rest,
            Attempt::Failed(m) => seq![log_line(m@)] + rest,
        }
    }
}

/// The log line reported for one failed attempt.
pub open spec fn log_line(detail: Seq<char>) -> Seq<char> {
    "incoming connection failed: "@ + detail
}

/// Absorb one connection attempt: a live connection is handed on, a failure
/// is turned into a log line appended to `log` and the attempt yields no
/// connection. No failure is ever surfaced as an error.
pub fn handle_socket_error<C>(attempt: Attempt<C>, log: &mut Vec<String>) -> (r: Option<C>)
    ensures
        match attempt {
            Attempt::Live(c) => r == Some(c) && final(log)@ == old(log)@,
            Attempt::Failed(m) => {
                &&& r is None
                &&& final(log)@.len() == old(log)@.len() + 1
                &&& final(log)@.last()@ == log_line(m@)
                &&& final(log)@.subrange(0, old(log)@.len() as int) == old(log)@
            },
        },
{
    match attempt {
        Attempt::Live(c) => Some(c),
        Attempt::Failed(m) => {
            let mut line = String::from_str("incoming connection failed: ");
            line.append(m.as_str());
            log.push(line);
            proof {
                assert(final(log)@.subrange(0, old(log)@.len() as int) =~= old(log)@);
            }
            None
        },
    }
}

/// Law: the acceptor is resilient and order-preserving. Filtering a whole
/// sequence of attempts yields exactly the live connections, in their
/// original order, and one log line per failed attempt, in order; nothing
/// else is produced and nothing is dropped.
pub fn filter_attempts<C>(attempts: Vec<Attempt<C>>) -> (r: (Vec<C>, Vec<String>))
    ensures
        r.0@ == live_connections(attempts@),
        r.1@.map_values(|s: String| s@) == failure_logs(attempts@),
{
    let mut rest = attempts;
    let mut conns: Vec<C> = Vec::new();
    let mut log: Vec<String> = Vec::new();
    proof {
        assert(conns@ + live_connections(rest@) =~= live_connections(attempts@));
        assert(log@.map_values(|s: String| s@) + failure_logs(rest@) =~= failure_logs(attempts@));
    }
    while rest.len() > 0
        invariant
            conns@ + live_connections(rest@) == live_connections(attempts@),
            log@.map_values(|s: String| s@) + failure_logs(rest@) == failure_logs(attempts@),
        decreases rest.len(),
    {
        let ghost prev_rest = rest@;
        let ghost prev_conns = conns@;
        let ghost prev_log = log@;
        let attempt = rest.remove(0);
        proof {
            assert(rest@ =~= prev_rest.drop_first());
        }
        let got = handle_socket_error(attempt, &mut log);
        match got {
            Some(c) => conns.push(c),
            None => (),
        }
        proof {
            assert(conns@ + live_connections(rest@) =~= live_connections(attempts@)) by {
                match prev_rest[0] {
                    Attempt::Live(c) => {
                        assert(conns@ =~= prev_conns.push(c));
                        assert(live_connections(prev_rest) =~= seq![c] + live_connections(rest@));
                    },
                    Attempt::Failed(_) => {
                        assert(conns@ == prev_conns);
                    },
                }
            }
            assert(log@.map_values(|s: String| s@) + failure_logs(rest@) =~= failure_logs(
                attempts@,
            )) by {
                match prev_rest[0] {
                    Attempt::Live(_) => {
                        assert(log@ == prev_log);
                    },
                    Attempt::Failed(m) => {
                        assert(log@.map_values(|s: String| s@) =~= prev_log.map_values(
                            |s: String| s@,
                        ).push(log@.last()@));
                        assert(failure_logs(prev_rest) =~= seq![log_line(m@)] + failure_logs(
                            rest@,
                        ));
                    },
                }
            }
        }
    }
    proof {
        assert(conns@ + live_connections(rest@) =~= conns@);
        assert(log@.map_values(|s: String| s@) + failure_logs(rest@) =~= log@.map_values(
            |s: String| s@,
        ));
    }
    (conns, log)
}

} // verus!
