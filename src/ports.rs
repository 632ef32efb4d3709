use vstd::prelude::*;
use crate::error::HtMcpError;

verus! {

/// First port tried for a session's live preview.
pub const PORT_RANGE_START: u16 = 3618;

/// End of the preview port range; this port itself is not tried.
pub const PORT_RANGE_END: u16 = 3999;

/// What the port scan asks for next.
#[derive(Debug, Clone, Copy, PartialEq, Eq, Structural)]
pub enum PortProbe {
    /// Try to bind this port exclusively and report whether that worked.
    Try(u16),
    /// This port could be bound: it is the allocated one.
    Found(u16),
    /// No port in the range could be bound.
    Exhausted,
}

pub open spec fn probe_at(next: int) -> PortProbe {
    if next < PORT_RANGE_END { PortProbe::Try(next as u16) } else { PortProbe::Exhausted }
}

/// One step of the scan at `next`, given whether binding `next` worked.
pub open spec fn port_step(next: int, bindable: bool) -> (int, PortProbe) {
    if bindable {
        (next, PortProbe::Found(next as u16))
    } else {
        (next + 1, probe_at(next + 1))
    }
}

/// Where a scan standing at `next` ends when the bind attempts answer `answers`, in order.
pub open spec fn run_ports(next: int, answers: Seq<bool>) -> PortProbe
    decreases answers.len(),
{
    if next >= PORT_RANGE_END {
        PortProbe::Exhausted
    } else if answers.len() == 0 {
        PortProbe::Try(next as u16)
    } else {
        let (n, p) = port_step(next, answers[0]);
        match p {
            PortProbe::Found(_) => p,
            _ => run_ports(n, answers.drop_first()),
        }
    }
}

/// A linear scan of the preview port range, from the low end up.
pub struct PortScan {
    pub next: u16,
}

impl PortScan {
    pub open spec fn wf(&self) -> bool {
        PORT_RANGE_START <= self.next <= PORT_RANGE_END
    }

    pub fn new() -> (r: PortScan)
        ensures
            r.wf(),
            r.next == PORT_RANGE_START,
    {
        PortScan { next: PORT_RANGE_START }
    }

    /// The first request of the scan, or the current one.
    pub fn current(&self) -> (r: PortProbe)
        requires
            self.wf(),
        ensures
            r == probe_at(self.next as int),
    {
        if self.next < PORT_RANGE_END {
            PortProbe::Try(self.next)
        } else {
            PortProbe::Exhausted
        }
    }

    /// Records whether the port asked for by `Try` could be bound.
    pub fn record(&mut self, bindable: bool) -> (r: PortProbe)
        requires
            old(self).wf(),
            old(self).next < PORT_RANGE_END,
        ensures
            final(self).wf(),
            (final(self).next as int, r) == port_step(old(self).next as int, bindable),
    {
        if bindable {
            PortProbe::Found(self.next)
        } else {
            self.next = self.next + 1;
            self.current()
        }
    }
}

/// The error when no port of the range could be bound.
pub fn no_port_error() -> (r: HtMcpError)
    ensures
        r matches HtMcpError::Internal(m) && m@ == "No available ports found"@,
{
    HtMcpError::Internal("No available ports found".to_string())
}

pub open spec fn all_taken(answers: Seq<bool>, n: int) -> bool {
    forall|j: int| 0 <= j < n ==> !#[trigger] answers[j]
}

proof fn lemma_run_ports(next: int, answers: Seq<bool>)
    requires
        PORT_RANGE_START <= next <= PORT_RANGE_END,
        answers.len() >= PORT_RANGE_END - next,
    ensures
        run_ports(next, answers) matches PortProbe::Found(p) ==> next <= p < PORT_RANGE_END
            && answers[p - next] && all_taken(answers, p - next),
        run_ports(next, answers) is Exhausted <==> all_taken(answers, PORT_RANGE_END - next),
        !(run_ports(next, answers) is Try),
    decreases answers.len(),
{
    if next < PORT_RANGE_END {
        let rest = answers.drop_first();
        if !answers[0] {
            lemma_run_ports(next + 1, rest);
            assert forall|j: int| 0 <= j < rest.len() implies rest[j] == answers[j + 1] by {}
            if all_taken(answers, PORT_RANGE_END - next) {
                assert(all_taken(rest, PORT_RANGE_END - (next + 1))) by {
                    assert forall|j: int| 0 <= j < PORT_RANGE_END - (next + 1) implies !#[trigger] rest[j] by {
                        assert(rest[j] == answers[j + 1]);
                    }
                }
            }
            if all_taken(rest, PORT_RANGE_END - (next + 1)) {
                assert(all_taken(answers, PORT_RANGE_END - next)) by {
                    assert forall|j: int| 0 <= j < PORT_RANGE_END - next implies !#[trigger] answers[j] by {
                        if j > 0 {
                            assert(rest[j - 1] == answers[j]);
                        }
                    }
                }
            }
            if run_ports(next, answers) is Found {
                let p = run_ports(next, answers)->Found_0 as int;
                assert(rest[p - next - 1] == answers[p - next]);
                assert(all_taken(answers, p - next)) by {
                    assert forall|j: int| 0 <= j < p - next implies !#[trigger] answers[j] by {
                        if j > 0 {
                            assert(rest[j - 1] == answers[j]);
                        }
                    }
                }
            }
        }
    }
}

/// Allocation by the scan: driven from the start of the range by the bind
/// attempts' answers, it ends with the first port whose bind succeeded, or it
/// reports exhaustion, and that exactly when no bind in the range succeeded.
pub proof fn lemma_port_allocation(answers: Seq<bool>)
    requires
        answers.len() == PORT_RANGE_END - PORT_RANGE_START,
    ensures
        run_ports(PORT_RANGE_START as int, answers) matches PortProbe::Found(p) ==>
            PORT_RANGE_START <= p < PORT_RANGE_END
            && answers[p - PORT_RANGE_START]
            && all_taken(answers, p - PORT_RANGE_START),
        run_ports(PORT_RANGE_START as int, answers) is Exhausted
            <==> all_taken(answers, PORT_RANGE_END - PORT_RANGE_START),
        !(run_ports(PORT_RANGE_START as int, answers) is Try),
{
    lemma_run_ports(PORT_RANGE_START as int, answers);
}

} // verus!
