use crate::isa::Opcode;
use crate::machine::{Emulator, Halt, Machine};
use crate::step::spec_fetched;
use crossbeam::channel::Receiver;
use parking_lot::lock_api::RwLock;
use parking_lot::RawRwLock;
use std::sync::Arc;
use vstd::prelude::*;

verus! {

/// The receiving end of a channel of `crossbeam`, which verified code holds and hands on
/// without looking inside.
#[verifier::external_type_specification]
#[verifier::external_body]
#[verifier::reject_recursive_types(T)]
pub struct ExReceiver<T>(crossbeam::channel::Receiver<T>);

/// The reader-writer lock of `lock_api`, which `parking_lot` builds its `RwLock` of. Verified
/// code holds it and hands it on without looking inside.
#[verifier::external_type_specification]
#[verifier::external_body]
#[verifier::reject_recursive_types(R)]
#[verifier::reject_recursive_types(T)]
pub struct ExRwLock<R, T: ?Sized>(parking_lot::lock_api::RwLock<R, T>);

/// The raw lock of `parking_lot` that its `RwLock` is built on.
#[verifier::external_type_specification]
#[verifier::external_body]
pub struct ExRawRwLock(parking_lot::RawRwLock);

/// The emulator's links to the tasks that run beside it: the display and the source of
/// input.
pub struct Console {
    /// The frame buffers as the display sees them.
    pub v_ram: Arc<RwLock<RawRwLock, Vec<u16>>>,
    /// Where the frame buffer that the display shows starts.
    pub frame_buffer_ptr: Arc<RwLock<RawRwLock, usize>>,
    /// The input ports as the source of input fills them.
    pub io_in_ports: Arc<RwLock<RawRwLock, Vec<(u16, bool)>>>,
    /// Signals the start of a blanking interval of the display.
    pub display_v_blank: Receiver<()>,
    /// Signals that the machine is to stop.
    pub kill_recv: Receiver<()>,
}

/// How a run beside the display and the source of input ended.
#[derive(Clone, Copy, Debug, PartialEq, Eq, Structural)]
pub enum RunEnd {
    /// The machine stopped.
    Halted(Halt),
    /// The signal to stop arrived.
    Killed,
    /// The steps were used up.
    OutOfSteps,
}

/// Asks a channel whether a signal is waiting, without blocking; a waiting signal is
/// taken. Calls `crossbeam::channel::Receiver::try_recv`. Nothing is claimed of the answer:
/// it depends on the task at the other end.
#[verifier::external_body]
fn poll(signal: &Receiver<()>) -> (arrived: bool) {
    signal.try_recv().is_ok()
}

/// Takes a copy of the input ports under the lock that the source of input writes them
/// under. Calls `parking_lot::RwLock::read`. Nothing is claimed of the copy: the ports are
/// what the source of input made them.
#[verifier::external_body]
fn snapshot(ports: &Arc<RwLock<RawRwLock, Vec<(u16, bool)>>>) -> (copy: Vec<(u16, bool)>) {
    ports.read().clone()
}

/// Puts a value where the task at the other side of a lock reads it, under that lock. Calls
/// `parking_lot::RwLock::write`.
#[verifier::external_body]
fn publish<T: Clone>(shared: &Arc<RwLock<RawRwLock, T>>, value: &T) {
    *shared.write() = value.clone();
}

impl Machine {
    /// Whether the next step reads an input port: the machine is privileged and its
    /// instruction is `ReadIn` or `ReadInFlag`.
    pub open spec fn wants_input(self) -> bool {
        self.privileged() && (spec_fetched(self) == Some(Opcode::ReadIn) || spec_fetched(self)
            == Some(Opcode::ReadInFlag))
    }

    /// Whether the next step asks the display for a blanking interval: the machine is
    /// privileged and its instruction is `VBlank`.
    pub open spec fn wants_v_blank(self) -> bool {
        self.privileged() && spec_fetched(self) == Some(Opcode::VBlank)
    }

    /// Whether the next step shows the other frame buffer: the machine is privileged and
    /// its instruction is `SwapFrameBuf`.
    pub open spec fn swaps_frame(self) -> bool {
        self.privileged() && spec_fetched(self) == Some(Opcode::SwapFrameBuf)
    }

    /// One step of a machine with a display and a source of input: the input ports are
    /// first set to what has arrived, if anything has.
    pub open spec fn attended_step(self, arrived: Option<Seq<(u16, bool)>>, v_blank: bool) -> (
        Machine,
        Option<Halt>,
    ) {
        match arrived {
            Some(ports) => self.receive(ports).step(v_blank),
            None => self.step(v_blank),
        }
    }
}

/// What the tasks beside the machine answer in one turn of a run: whether the signal to
/// stop has arrived, what the input ports hold, and whether the display has signalled a
/// blanking interval. The last two count only where the machine asks for them.
pub struct Answers {
    pub killed: bool,
    pub ports: Seq<(u16, bool)>,
    pub v_blank: bool,
}

impl Machine {
    /// One turn of a run beside a display and a source of input. The signal to stop ends
    /// the run and leaves the machine as it is. Otherwise the machine takes one step: with
    /// the input ports as the source of input left them if the step reads a port, and with
    /// the display's answer if the step is `VBlank`. The result is the new state and, if the
    /// run ends with this turn, how.
    pub open spec fn attended_turn(self, answers: Answers) -> (Machine, Option<RunEnd>) {
        if answers.killed {
            (self, Some(RunEnd::Killed))
        } else {
            let stepped = self.attended_step(
                if self.wants_input() {
                    Some(answers.ports)
                } else {
                    None
                },
                self.wants_v_blank() && answers.v_blank,
            );
            (
                stepped.0,
                match stepped.1 {
                    Some(halt) => Some(RunEnd::Halted(halt)),
                    None => None,
                },
            )
        }
    }

    /// The state after as many turns as there are answers, if none of them ends the run.
    pub open spec fn after_turns(self, answers: Seq<Answers>) -> Option<Machine>
        decreases answers.len(),
    {
        if answers.len() == 0 {
            Some(self)
        } else {
            match self.after_turns(answers.drop_last()) {
                Some(m) => if m.attended_turn(answers.last()).1 is None {
                    Some(m.attended_turn(answers.last()).0)
                } else {
                    None
                },
                None => None,
            }
        }
    }

    /// Whether a run of at most `steps` steps that gets these answers, one for each of its
    /// turns, leaves the machine in the state `last` and ends with `end`. A run whose steps
    /// are used up has taken `steps` turns, none of which ended it. Any other run has ended
    /// with its last turn, and no turn before that ended it.
    pub open spec fn attended_run(
        self,
        answers: Seq<Answers>,
        steps: nat,
        last: Machine,
        end: RunEnd,
    ) -> bool {
        if end == RunEnd::OutOfSteps {
            answers.len() == steps && self.after_turns(answers) == Some(last)
        } else {
            &&& 0 < answers.len() <= steps
            &&& self.after_turns(answers.drop_last()) is Some
            &&& self.after_turns(answers.drop_last())->0.attended_turn(answers.last()) == (
                last,
                Some(end),
            )
        }
    }
}

impl Emulator {
    /// Whether the next step reads an input port.
    pub fn wants_input(&self) -> (r: bool)
        requires
            self.wf(),
        ensures
            r == self@.wants_input(),
    {
        self.privileged() && match self.fetched() {
            Some(Opcode::ReadIn) => true,
            Some(Opcode::ReadInFlag) => true,
            _ => false,
        }
    }

    /// Whether the next step asks the display for a blanking interval.
    pub fn wants_v_blank(&self) -> (r: bool)
        requires
            self.wf(),
        ensures
            r == self@.wants_v_blank(),
    {
        self.privileged() && match self.fetched() {
            Some(Opcode::VBlank) => true,
            _ => false,
        }
    }

    /// Whether the next step shows the other frame buffer.
    pub fn swaps_frame(&self) -> (r: bool)
        requires
            self.wf(),
        ensures
            r == self@.swaps_frame(),
    {
        self.privileged() && match self.fetched() {
            Some(Opcode::SwapFrameBuf) => true,
            _ => false,
        }
    }

    /// Executes one instruction after setting the input ports to what has arrived.
    pub fn attended_step(&mut self, arrived: Option<Vec<(u16, bool)>>, v_blank: bool) -> (halt:
        Option<Halt>)
        requires
            old(self).wf(),
        ensures
            (final(self)@, halt) == old(self)@.attended_step(
                match arrived {
                    Some(ports) => Some(ports@),
                    None => None,
                },
                v_blank,
            ),
            final(self).wf(),
    {
        match arrived {
            Some(ports) => {
                self.receive(ports);
            },
            None => {},
        }
        self.step(v_blank)
    }

    /// Runs the machine beside its display and its source of input, for at most `steps`
    /// steps. Before each step the signal to stop is asked for. The input ports are read
    /// from the source of input when the next instruction reads a port, and the display is
    /// asked for a blanking interval when the next instruction is `VBlank`. The display
    /// reads only the frame buffer that is shown, so it gets the frame buffers whenever
    /// they are swapped.
    ///
    /// What the tasks answer is theirs to decide. The run is what `attended_run` makes of
    /// their answers: turn by turn an `attended_turn`, until a turn ends the run or the
    /// steps are used up. With no steps to take nothing is asked and nothing changes.
    pub fn run_attached(&mut self, console: &Console, steps: u64) -> (end: RunEnd)
        requires
            old(self).wf(),
        ensures
            final(self).wf(),
            exists|answers: Seq<Answers>| #[trigger]
                old(self)@.attended_run(answers, steps as nat, final(self)@, end),
            steps == 0 ==> end == RunEnd::OutOfSteps && final(self)@ == old(self)@,
    {
        let mut left = steps;
        let ghost before = self@;
        let ghost answered: Seq<Answers> = Seq::empty();
        while left > 0
            invariant
                self.wf(),
                left <= steps,
                before == old(self)@,
                answered.len() == steps - left,
                before.after_turns(answered) == Some(self@),
            decreases left,
        {
            let ghost now = self@;
            let killed = poll(&console.kill_recv);
            if killed {
                proof {
                    let answers = Answers { killed: true, ports: Seq::empty(), v_blank: false };
                    let all = answered.push(answers);
                    assert(all.drop_last() =~= answered);
                    assert(before.attended_run(all, steps as nat, self@, RunEnd::Killed));
                }
                return RunEnd::Killed;
            }
            let arrived = if self.wants_input() {
                Some(snapshot(&console.io_in_ports))
            } else {
                None
            };
            let v_blank = self.wants_v_blank() && poll(&console.display_v_blank);
            let swaps = self.swaps_frame();
            let ghost answers = Answers {
                killed: false,
                ports: match &arrived {
                    Some(ports) => ports@,
                    None => Seq::empty(),
                },
                v_blank,
            };
            let ghost all = answered.push(answers);
            proof {
                assert(all.drop_last() =~= answered);
                assert(all.last() == answers);
            }
            match self.attended_step(arrived, v_blank) {
                Some(halt) => {
                    assert(now.attended_turn(answers) == (self@, Some(RunEnd::Halted(halt))));
                    assert(before.attended_run(all, steps as nat, self@, RunEnd::Halted(halt)));
                    return RunEnd::Halted(halt);
                },
                None => {
                    assert(now.attended_turn(answers) == (self@, None::<RunEnd>));
                },
            }
            if swaps {
                publish(&console.v_ram, self.frame());
                let shown = self.frame_buffer_ptr();
                publish(&console.frame_buffer_ptr, &shown);
            }
            proof {
                answered = all;
            }
            left -= 1;
        }
        assert(before.attended_run(answered, steps as nat, self@, RunEnd::OutOfSteps));
        RunEnd::OutOfSteps
    }
}

} // verus!
