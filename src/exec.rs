use vstd::prelude::*;

verus! {

/// Why the vCPU stopped running the guest, as the dispatch loop sees it.
#[derive(Debug)]
pub enum ExitReason {
    /// The guest executed a halt instruction.
    Halt,
    /// The guest wrote `data` to I/O port `port`.
    PortWrite { port: u16, data: Vec<u8> },
    /// The hardware could not enter the guest; `reason` is its failure code.
    EntryFailure { reason: u64, cpu: u32 },
    /// Any other exit, with a description of it.
    Other { description: String },
}

/// The states of the dispatch loop. `Running` is initial; `Halted` is entered
/// on a guest halt and never left; `Faulted` and `Stopped` end the loop.
#[derive(Debug)]
pub enum LoopState {
    Running,
    Halted,
    Faulted { reason: u64, cpu: u32 },
    Stopped { description: String },
}

/// The state that the loop enters from `Running` on `exit`.
pub open spec fn next_state(exit: ExitReason) -> LoopState {
    match exit {
        ExitReason::Halt => LoopState::Halted,
        ExitReason::PortWrite { .. } => LoopState::Running,
        ExitReason::EntryFailure { reason, cpu } => LoopState::Faulted { reason, cpu },
        ExitReason::Other { description } => LoopState::Stopped { description },
    }
}

/// The bytes that `exit` hands to the console: whatever the guest wrote to a
/// port, whichever port it was; nothing for any other exit.
pub open spec fn console_bytes(exit: ExitReason) -> Seq<u8> {
    match exit {
        ExitReason::PortWrite { data, .. } => data@,
        _ => Seq::empty(),
    }
}

/// The dispatch loop's own state, apart from the vCPU that it resumes.
#[derive(Debug)]
pub struct ExecutionLoop {
    pub state: LoopState,
}

impl ExecutionLoop {
    /// A loop that has not resumed the vCPU yet.
    pub fn new() -> (r: ExecutionLoop)
        ensures
            r.state is Running,
    {
        ExecutionLoop { state: LoopState::Running }
    }

    /// Whether the vCPU is to be resumed next: only while `Running`. A halted
    /// loop idles instead, and a faulted or stopped one is over.
    pub fn should_resume(&self) -> (r: bool)
        ensures
            r == (self.state is Running),
    {
        match self.state {
            LoopState::Running => true,
            _ => false,
        }
    }

    /// Whether the loop has ended, in `Faulted` or `Stopped`.
    pub fn is_finished(&self) -> (r: bool)
        ensures
            r == (self.state is Faulted || self.state is Stopped),
    {
        match self.state {
            LoopState::Faulted { .. } | LoopState::Stopped { .. } => true,
            _ => false,
        }
    }

    /// Dispatches on the reason the vCPU stopped, and returns the bytes for
    /// the console, in the order the guest wrote them.
    pub fn record_exit(&mut self, exit: ExitReason) -> (console: Vec<u8>)
        requires
            old(self).state is Running,
        ensures
            final(self).state == next_state(exit),
            console@ == console_bytes(exit),
    {
        match exit {
            ExitReason::Halt => {
                self.state = LoopState::Halted;
                Vec::new()
            },
            ExitReason::PortWrite { port: _, data } => data,
            ExitReason::EntryFailure { reason, cpu } => {
                self.state = LoopState::Faulted { reason, cpu };
                Vec::new()
            },
            ExitReason::Other { description } => {
                self.state = LoopState::Stopped { description };
                Vec::new()
            },
        }
    }
}

/// Where a run of the loop over a scripted sequence of exits ends: the state,
/// the console bytes in order, and how many times the vCPU was resumed. The
/// script is read one exit per resume, as long as the loop is `Running`.
pub open spec fn scripted(exits: Seq<ExitReason>) -> (LoopState, Seq<u8>, nat)
    decreases exits.len(),
{
    if exits.len() == 0 {
        (LoopState::Running, Seq::empty(), 0)
    } else if next_state(exits[0]) is Running {
        let rest = scripted(exits.drop_first());
        (rest.0, console_bytes(exits[0]) + rest.1, rest.2 + 1)
    } else {
        (next_state(exits[0]), console_bytes(exits[0]), 1)
    }
}

/// What a run of the loop produced.
#[derive(Debug)]
pub struct LoopOutcome {
    pub state: LoopState,
    pub console: Vec<u8>,
    pub resumes: usize,
}

/// Drives the loop against a scripted vCPU whose successive resumes stop for
/// the reasons in `exits`, until the loop leaves `Running` or the script ends.
pub fn run_script(exits: Vec<ExitReason>) -> (r: LoopOutcome)
    ensures
        (r.state, r.console@, r.resumes as nat) == scripted(exits@),
{
    let ghost all = exits@;
    let mut exits = exits;
    let mut lp = ExecutionLoop::new();
    let mut console: Vec<u8> = Vec::new();
    let total: usize = exits.len();
    while lp.should_resume() && exits.len() > 0
        invariant
            all.len() == total,
            exits@.len() <= total,
            lp.state is Running ==> ({
                let rest = scripted(exits@);
                scripted(all) == (rest.0, console@ + rest.1, (rest.2 + total - exits@.len()) as nat)
            }),
            !(lp.state is Running) ==> scripted(all) == (lp.state, console@, (total - exits@.len()) as nat),
        decreases exits@.len(),
    {
        let ghost before = exits@;
        let exit = exits.remove(0);
        assert(exits@ =~= before.drop_first());
        let mut out = lp.record_exit(exit);
        proof {
            let rest = scripted(exits@);
            assert(console@ + (out@ + rest.1) =~= (console@ + out@) + rest.1);
        }
        console.append(&mut out);
    }
    proof {
        if lp.state is Running {
            assert(console@ + Seq::<u8>::empty() =~= console@);
        }
    }
    let resumes: usize = total - exits.len();
    LoopOutcome { state: lp.state, console, resumes }
}

/// The bytes that the exits `exits` hand to the console, in order.
pub open spec fn console_of_all(exits: Seq<ExitReason>) -> Seq<u8>
    decreases exits.len(),
{
    if exits.len() == 0 {
        Seq::empty()
    } else {
        console_bytes(exits[0]) + console_of_all(exits.drop_first())
    }
}

/// A guest that halts at once takes the loop from `Running` to `Halted` in
/// exactly one resume, and hands nothing to the console.
pub proof fn lemma_halt_first(exits: Seq<ExitReason>)
    requires
        exits.len() > 0,
        exits[0] is Halt,
    ensures
        scripted(exits) == (LoopState::Halted, Seq::<u8>::empty(), 1nat),
{
}

/// A guest that writes to ports and then halts hands the console exactly the
/// bytes it wrote, in order, and the loop ends up `Halted`, after one resume
/// per write and one for the halt.
pub proof fn lemma_writes_then_halt(writes: Seq<ExitReason>, rest: Seq<ExitReason>)
    requires
        forall|i: int| 0 <= i < writes.len() ==> (#[trigger] writes[i]) is PortWrite,
    ensures
        scripted(writes + seq![ExitReason::Halt] + rest) == (
            LoopState::Halted,
            console_of_all(writes),
            (writes.len() + 1) as nat,
        ),
    decreases writes.len(),
{
    let exits = writes + seq![ExitReason::Halt] + rest;
    if writes.len() == 0 {
        assert(exits[0] is Halt);
        assert(console_bytes(exits[0]) =~= Seq::<u8>::empty());
    } else {
        let tail = writes.drop_first();
        assert(exits.drop_first() =~= tail + seq![ExitReason::Halt] + rest);
        assert(exits[0] == writes[0]);
        assert forall|i: int| 0 <= i < tail.len() implies (#[trigger] tail[i]) is PortWrite by {
            assert(tail[i] == writes[i + 1]);
        }
        lemma_writes_then_halt(tail, rest);
    }
}

/// A guest whose entry the hardware rejects ends the loop in `Faulted` on the
/// first resume, with the hardware's reason, which no normal exit produces.
pub proof fn lemma_entry_failure_first(exits: Seq<ExitReason>, reason: u64, cpu: u32)
    requires
        exits.len() > 0,
        exits[0] == (ExitReason::EntryFailure { reason, cpu }),
    ensures
        scripted(exits) == (LoopState::Faulted { reason, cpu }, Seq::<u8>::empty(), 1nat),
        !(scripted(exits).0 is Halted) && !(scripted(exits).0 is Running),
{
}

} // verus!
