//! The storage command processor: the single owner of the backend connection's
//! schedule. Commands are accepted from any number of callers, each under a
//! ticket, and executed one at a time, in the order they were accepted.
//!
//! The processor decides; whoever holds the connection acts. It asks for the
//! next command with `start_next`, performs it against the backend, and hands
//! the backend's answer to `complete`, which says whose reply it is.
use vstd::prelude::*;

use crate::command::{
    backend_reply_view, kind_of, reply_for, reply_model, BackendReply, Command, CommandKind,
    CommandModel, Reply,
};

verus! {

/// The processor as values: every command accepted, in order; how many of
/// them have started; the ones waiting, with their tickets; the one in
/// execution, if any; the ticket the next command gets.
pub ghost struct ProcessorModel {
    pub accepted: Seq<CommandModel>,
    pub started: nat,
    pub pending: Seq<(u64, CommandModel)>,
    pub in_flight: Option<(u64, CommandKind)>,
    pub next_ticket: u64,
}

impl ProcessorModel {
    /// A command's ticket is its place among the commands accepted; those
    /// that have not started wait in that order; the one in execution is the
    /// last that started.
    pub open spec fn inv(self) -> bool {
        &&& self.started <= self.accepted.len()
        &&& self.next_ticket == self.accepted.len()
        &&& self.pending.len() == self.accepted.len() - self.started
        &&& forall|i: int|
            0 <= i < self.pending.len() ==> #[trigger] self.pending[i] == (
                (self.started + i) as u64,
                self.accepted[self.started + i],
            )
        &&& self.in_flight matches Some((t, kind)) ==> {
            &&& self.started > 0
            &&& t == self.started - 1
            &&& kind == kind_of(self.accepted[t as int])
        }
    }

    /// Ready to start the next command: none is in execution.
    pub open spec fn is_idle(self) -> bool {
        self.in_flight is None
    }

    /// The commands that have reached the backend, in the order they did.
    pub open spec fn executed(self) -> Seq<CommandModel> {
        self.accepted.take(self.started as int)
    }
}

pub struct Processor {
    accepted: Ghost<Seq<CommandModel>>,
    started: Ghost<nat>,
    queue: Vec<(u64, Command)>,
    in_flight: Option<(u64, CommandKind)>,
    next_ticket: u64,
}

impl View for Processor {
    type V = ProcessorModel;

    closed spec fn view(&self) -> ProcessorModel {
        ProcessorModel {
            accepted: self.accepted@,
            started: self.started@,
            pending: self.queue@.map_values(|e: (u64, Command)| (e.0, e.1@)),
            in_flight: self.in_flight,
            next_ticket: self.next_ticket,
        }
    }
}

impl Processor {
    /// An idle processor with nothing waiting.
    pub fn new() -> (r: Processor)
        ensures
            r@.accepted == Seq::<CommandModel>::empty(),
            r@.started == 0,
            r@.pending == Seq::<(u64, CommandModel)>::empty(),
            r@.in_flight is None,
            r@.next_ticket == 0,
            r@.inv(),
    {
        let r = Processor {
            accepted: Ghost(Seq::empty()),
            started: Ghost(0),
            queue: Vec::new(),
            in_flight: None,
            next_ticket: 0,
        };
        assert(r@.pending =~= Seq::<(u64, CommandModel)>::empty());
        r
    }

    /// Whether no command is in execution.
    pub fn is_idle(&self) -> (r: bool)
        ensures
            r == self@.is_idle(),
    {
        self.in_flight.is_none()
    }

    /// The number of commands waiting.
    pub fn pending_len(&self) -> (r: usize)
        ensures
            r == self@.pending.len(),
    {
        self.queue.len()
    }

    /// Accepts `command` at the back of the queue and returns its ticket. Once
    /// every ticket has been handed out no command is accepted any more, and
    /// nothing changes.
    pub fn accept(&mut self, command: Command) -> (r: Option<u64>)
        requires
            old(self)@.inv(),
        ensures
            final(self)@.inv(),
            old(self)@.next_ticket == u64::MAX ==> r is None && final(self)@ == old(self)@,
            old(self)@.next_ticket < u64::MAX ==> {
                &&& r == Some(old(self)@.next_ticket)
                &&& final(self)@.accepted == old(self)@.accepted.push(command@)
                &&& final(self)@.started == old(self)@.started
                &&& final(self)@.pending == old(self)@.pending.push(
                    (old(self)@.next_ticket, command@),
                )
                &&& final(self)@.in_flight == old(self)@.in_flight
                &&& final(self)@.next_ticket == old(self)@.next_ticket + 1
            },
    {
        if self.next_ticket == u64::MAX {
            return None;
        }
        let t = self.next_ticket;
        proof {
            self.accepted@ = self.accepted@.push(command@);
        }
        self.queue.push((t, command));
        self.next_ticket = t + 1;
        assert(self@.pending =~= old(self)@.pending.push((t, command@)));
        Some(t)
    }

    /// Takes the command that waited longest and puts it in execution, with
    /// its ticket. Nothing starts while a command is in execution or when none
    /// waits.
    pub fn start_next(&mut self) -> (r: Option<(u64, Command)>)
        requires
            old(self)@.inv(),
        ensures
            final(self)@.inv(),
            !old(self)@.is_idle() || old(self)@.pending.len() == 0 ==> {
                &&& r is None
                &&& final(self)@ == old(self)@
            },
            old(self)@.is_idle() && old(self)@.pending.len() > 0 ==> {
                &&& r matches Some((t, c))
                &&& t == old(self)@.pending[0].0
                &&& c@ == old(self)@.pending[0].1
                &&& t == old(self)@.started
                &&& c@ == old(self)@.accepted[old(self)@.started as int]
                &&& final(self)@.accepted == old(self)@.accepted
                &&& final(self)@.started == old(self)@.started + 1
                &&& final(self)@.pending == old(self)@.pending.drop_first()
                &&& final(self)@.in_flight == Some(
                    (old(self)@.pending[0].0, kind_of(old(self)@.pending[0].1)),
                )
                &&& final(self)@.next_ticket == old(self)@.next_ticket
            },
    {
        if self.in_flight.is_some() || self.queue.len() == 0 {
            return None;
        }
        let (t, c) = self.queue.remove(0);
        let kind = c.kind();
        self.in_flight = Some((t, kind));
        proof {
            self.started@ = self.started@ + 1;
        }
        assert(self@.pending =~= old(self)@.pending.drop_first());
        assert(t == old(self)@.pending[0].0);
        Some((t, c))
    }

    /// Ends the command in execution with the backend's answer `b`, and returns
    /// its ticket and its caller's reply. With no command in execution there is
    /// no one to answer, and nothing changes.
    pub fn complete(&mut self, b: BackendReply) -> (r: Option<(u64, Reply)>)
        requires
            old(self)@.inv(),
        ensures
            final(self)@.inv(),
            old(self)@.in_flight is None ==> r is None && final(self)@ == old(self)@,
            old(self)@.in_flight matches Some((t, kind)) ==> {
                &&& r matches Some((rt, reply))
                &&& rt == t
                &&& reply@ == reply_model(kind, backend_reply_view(b))
                &&& final(self)@.accepted == old(self)@.accepted
                &&& final(self)@.started == old(self)@.started
                &&& final(self)@.pending == old(self)@.pending
                &&& final(self)@.in_flight is None
                &&& final(self)@.next_ticket == old(self)@.next_ticket
            },
    {
        match self.in_flight {
            None => None,
            Some((t, kind)) => {
                self.in_flight = None;
                assert(self@.pending == old(self)@.pending);
                Some((t, reply_for(kind, b)))
            },
        }
    }
}

} // verus!
