//! The running tunnel as a group of tasks: it has stopped when the last
//! of them has come to its end, and not before.

use vstd::prelude::*;

verus! {

/// The tasks that a running tunnel is made of.
#[derive(Clone, Copy, Debug, PartialEq, Eq, Hash, Structural)]
pub enum Task {
    /// Forwards frames from the stack to the interface.
    StackToDevice,
    /// Forwards frames from the interface to the stack.
    DeviceToStack,
    /// Accepts TCP connections from the stack, one task for each.
    TcpAccept,
    /// Runs the UDP adapter.
    UdpAdapter,
}

/// Which tasks of a tunnel are still running.
#[derive(Clone, Copy, Debug, PartialEq, Eq, Structural)]
pub struct Tunnel {
    stack_to_device: bool,
    device_to_stack: bool,
    tcp_accept: bool,
    udp_adapter: bool,
}

impl Tunnel {
    /// Whether `task` is still running.
    pub closed spec fn runs(self, task: Task) -> bool {
        match task {
            Task::StackToDevice => self.stack_to_device,
            Task::DeviceToStack => self.device_to_stack,
            Task::TcpAccept => self.tcp_accept,
            Task::UdpAdapter => self.udp_adapter,
        }
    }

    /// No task is running any more.
    pub open spec fn stopped(self) -> bool {
        &&& !self.runs(Task::StackToDevice)
        &&& !self.runs(Task::DeviceToStack)
        &&& !self.runs(Task::TcpAccept)
        &&& !self.runs(Task::UdpAdapter)
    }

    /// The tunnel after the tasks `exits` have come to their end, in that
    /// order.
    pub open spec fn after(self, exits: Seq<Task>) -> Tunnel
        decreases exits.len(),
    {
        if exits.len() == 0 {
            self
        } else {
            self.after(exits.drop_last()).without(exits.last())
        }
    }

    /// The tunnel with `task` at its end and the others as they were.
    pub closed spec fn without(self, task: Task) -> Tunnel {
        match task {
            Task::StackToDevice => Tunnel { stack_to_device: false, ..self },
            Task::DeviceToStack => Tunnel { device_to_stack: false, ..self },
            Task::TcpAccept => Tunnel { tcp_accept: false, ..self },
            Task::UdpAdapter => Tunnel { udp_adapter: false, ..self },
        }
    }

    /// The fresh tunnel, in which every task runs.
    pub closed spec fn spec_started() -> Tunnel {
        Tunnel { stack_to_device: true, device_to_stack: true, tcp_accept: true, udp_adapter: true }
    }

    /// The end of one task ends that task and no other.
    pub proof fn lemma_without(self, task: Task)
        ensures
            forall|other: Task| self.without(task).runs(other) == (self.runs(other) && other != task),
    {
    }

    /// In a fresh tunnel every task runs.
    pub proof fn lemma_started()
        ensures
            forall|task: Task| Tunnel::spec_started().runs(task),
    {
    }

    /// A tunnel with all its tasks spawned.
    pub fn started() -> (r: Tunnel)
        ensures
            r == Tunnel::spec_started(),
            forall|task: Task| r.runs(task),
    {
        Tunnel { stack_to_device: true, device_to_stack: true, tcp_accept: true, udp_adapter: true }
    }

    /// Records that `task` has come to its end, and says whether the
    /// tunnel has stopped with it. The other tasks are not touched.
    pub fn task_exited(&mut self, task: Task) -> (r: bool)
        ensures
            *final(self) == old(self).without(task),
            forall|other: Task| final(self).runs(other) == (old(self).runs(other) && other != task),
            r == final(self).stopped(),
    {
        match task {
            Task::StackToDevice => {
                self.stack_to_device = false;
            },
            Task::DeviceToStack => {
                self.device_to_stack = false;
            },
            Task::TcpAccept => {
                self.tcp_accept = false;
            },
            Task::UdpAdapter => {
                self.udp_adapter = false;
            },
        }
        self.is_stopped()
    }

    /// Whether every task has come to its end.
    pub fn is_stopped(&self) -> (r: bool)
        ensures
            r == self.stopped(),
    {
        !self.stack_to_device && !self.device_to_stack && !self.tcp_accept && !self.udp_adapter
    }
}

/// After some tasks have come to their end, those still run that ran
/// before and are not among them.
pub proof fn lemma_runs_after(tunnel: Tunnel, exits: Seq<Task>, task: Task)
    ensures
        tunnel.after(exits).runs(task) == (tunnel.runs(task) && !exits.contains(task)),
    decreases exits.len(),
{
    if exits.len() > 0 {
        lemma_runs_after(tunnel, exits.drop_last(), task);
        tunnel.after(exits.drop_last()).lemma_without(exits.last());
        assert(exits.contains(task) == (exits.drop_last().contains(task) || exits.last() == task))
            by {
            if exits.drop_last().contains(task) {
                let i = choose|i: int| 0 <= i < exits.drop_last().len() && exits.drop_last()[i] == task;
                assert(exits[i] == task);
            }
            if exits.contains(task) {
                let i = choose|i: int| 0 <= i < exits.len() && exits[i] == task;
                if i < exits.len() - 1 {
                    assert(exits.drop_last()[i] == task);
                }
            }
        }
    }
}

/// A tunnel has stopped when all its tasks have come to their end, and
/// only then: the end of one task, or of three, stops nothing.
pub proof fn lemma_stops_with_the_last_task(exits: Seq<Task>)
    ensures
        Tunnel::spec_started().after(exits).stopped() <==> (forall|task: Task| exits.contains(task)),
{
    let end = Tunnel::spec_started().after(exits);
    Tunnel::lemma_started();
    assert forall|task: Task| #[trigger] end.runs(task) == !exits.contains(task) by {
        lemma_runs_after(Tunnel::spec_started(), exits, task);
    }
    if end.stopped() {
        assert forall|task: Task| exits.contains(task) by {
            assert(!end.runs(task)) by {
                match task {
                    Task::StackToDevice => {},
                    Task::DeviceToStack => {},
                    Task::TcpAccept => {},
                    Task::UdpAdapter => {},
                }
            }
        }
    }
    if forall|task: Task| exits.contains(task) {
        assert(exits.contains(Task::StackToDevice));
        assert(exits.contains(Task::DeviceToStack));
        assert(exits.contains(Task::TcpAccept));
        assert(exits.contains(Task::UdpAdapter));
    }
}

} // verus!
