//! Loading a bitstream, as a state machine: the caller runs each batch of
//! steps that the machine asks for and hands back what the data register
//! read returned, until the machine finishes.
use vstd::prelude::*;
use vstd::slice::slice_to_vec;
use crate::bits::msb_first_bits;
use crate::protocol::{
    check_programmed_ok, check_ready_to_program, is_programmed_ok, is_ready, load_steps,
    load_steps_spec, status_from_read, status_read_steps, status_steps, steps_view, word_read,
    Error, Step, StepSpec,
};

verus! {

/// Where a programming run stands.
#[derive(Copy, Clone, Debug)]
pub enum Phase {
    /// Nothing done yet.
    Start,
    /// The status read before programming is running.
    PreCheck,
    /// The bitstream has been shifted in and the device started.
    Loaded,
    /// The status read after programming is running.
    PostCheck,
    /// The final reset is running.
    Closing,
    /// The run is over, with this outcome.
    Finished(Result<(), Error>),
}

/// What the caller does next.
pub enum Action {
    /// Perform these steps in order; hand back the bits that their data
    /// register read returned (none if they hold no read).
    Run(Vec<Step>),
    /// The run is over, with this outcome.
    Finish(Result<(), Error>),
}

/// An [`Action`], with its steps as a sequence.
pub enum ActionSpec {
    Run(Seq<StepSpec>),
    Finish(Result<(), Error>),
}

impl View for Action {
    type V = ActionSpec;

    open spec fn view(&self) -> ActionSpec {
        match self {
            Action::Run(s) => ActionSpec::Run(steps_view(s@)),
            Action::Finish(r) => ActionSpec::Finish(*r),
        }
    }
}

/// The next phase and action of a run that programs `data`, from `phase`,
/// where `read` is what the last batch of steps read.
pub open spec fn program_next(phase: Phase, data: Seq<u8>, read: Seq<bool>) -> (Phase, ActionSpec) {
    match phase {
        Phase::Start => (Phase::PreCheck, ActionSpec::Run(status_read_steps())),
        Phase::PreCheck => if is_ready(word_read(read)) {
            (Phase::Loaded, ActionSpec::Run(load_steps_spec(data)))
        } else {
            (Phase::Finished(Err(Error::BadStatus)), ActionSpec::Finish(Err(Error::BadStatus)))
        },
        Phase::Loaded => (Phase::PostCheck, ActionSpec::Run(status_read_steps())),
        Phase::PostCheck => if is_programmed_ok(word_read(read)) {
            (Phase::Closing, ActionSpec::Run(seq![StepSpec::Reset]))
        } else {
            (Phase::Finished(Err(Error::BadStatus)), ActionSpec::Finish(Err(Error::BadStatus)))
        },
        Phase::Closing => (Phase::Finished(Ok(())), ActionSpec::Finish(Ok(()))),
        Phase::Finished(r) => (Phase::Finished(r), ActionSpec::Finish(r)),
    }
}

/// A run that programs a bitstream into the device's configuration memory.
pub struct Programming {
    phase: Phase,
    data: Vec<u8>,
}

impl Programming {
    /// Where the run stands.
    pub closed spec fn phase(&self) -> Phase {
        self.phase
    }

    /// The bitstream that the run programs.
    pub closed spec fn payload(&self) -> Seq<u8> {
        self.data@
    }

    /// The bitstream fits in memory once it is spread out one bit per byte.
    pub closed spec fn wf(&self) -> bool {
        8 * self.data@.len() <= usize::MAX
    }

    /// A run that will program `data`.
    pub fn new(data: &[u8]) -> (r: Self)
        requires
            8 * data@.len() <= usize::MAX,
        ensures
            r.wf(),
            r.phase() == Phase::Start,
            r.payload() == data@,
    {
        Programming { phase: Phase::Start, data: slice_to_vec(data) }
    }

    /// Where the run stands.
    pub fn current_phase(&self) -> (r: Phase)
        ensures
            r == self.phase(),
    {
        self.phase
    }

    /// Advances the run: `read` is what the batch of steps of the previous
    /// action read (empty at the start).
    pub fn next(&mut self, read: &[bool]) -> (r: Action)
        requires
            old(self).wf(),
        ensures
            final(self).wf(),
            final(self).payload() == old(self).payload(),
            (final(self).phase(), r@) == program_next(old(self).phase(), old(self).payload(), read@),
    {
        match self.phase {
            Phase::Start => {
                self.phase = Phase::PreCheck;
                Action::Run(status_steps())
            },
            Phase::PreCheck => {
                let status = status_from_read(read);
                match check_ready_to_program(&status) {
                    Ok(()) => {
                        self.phase = Phase::Loaded;
                        Action::Run(load_steps(self.data.as_slice()))
                    },
                    Err(e) => {
                        self.phase = Phase::Finished(Err(e));
                        Action::Finish(Err(e))
                    },
                }
            },
            Phase::Loaded => {
                self.phase = Phase::PostCheck;
                Action::Run(status_steps())
            },
            Phase::PostCheck => {
                let status = status_from_read(read);
                match check_programmed_ok(&status) {
                    Ok(()) => {
                        self.phase = Phase::Closing;
                        let steps = vec![Step::Reset];
                        assert(steps_view(steps@) =~= seq![StepSpec::Reset]);
                        Action::Run(steps)
                    },
                    Err(e) => {
                        self.phase = Phase::Finished(Err(e));
                        Action::Finish(Err(e))
                    },
                }
            },
            Phase::Closing => {
                self.phase = Phase::Finished(Ok(()));
                Action::Finish(Ok(()))
            },
            Phase::Finished(r) => Action::Finish(r),
        }
    }
}

/// When the status read before programming shows the device not ready, the
/// run ends with `BadStatus` right after that read: it asks for no step
/// beyond the status read itself.
pub proof fn lemma_failed_precheck_stops(data: Seq<u8>, none: Seq<bool>, read: Seq<bool>)
    requires
        !is_ready(word_read(read)),
    ensures
        program_next(Phase::Start, data, none) == (Phase::PreCheck, ActionSpec::Run(status_read_steps())),
        program_next(Phase::PreCheck, data, read) == (
            Phase::Finished(Err(Error::BadStatus)),
            ActionSpec::Finish(Err(Error::BadStatus)),
        ),
        forall|later: Seq<bool>| #[trigger] program_next(Phase::Finished(Err(Error::BadStatus)), data, later)
            == (Phase::Finished(Err(Error::BadStatus)), ActionSpec::Finish(Err(Error::BadStatus))),
{
}

/// A run on an empty bitstream takes every step of a run on any other: the
/// status read, the eleven steps that clear, load and start the device (with
/// an empty shift), the status read, the final reset, and success.
pub proof fn lemma_empty_bitstream_runs_every_step(none: Seq<bool>, pre: Seq<bool>, post: Seq<bool>, last: Seq<bool>)
    requires
        is_ready(word_read(pre)),
        is_programmed_ok(word_read(post)),
    ensures
        program_next(Phase::Start, Seq::empty(), none) == (Phase::PreCheck, ActionSpec::Run(status_read_steps())),
        program_next(Phase::PreCheck, Seq::empty(), pre) == (
            Phase::Loaded,
            ActionSpec::Run(load_steps_spec(Seq::empty())),
        ),
        load_steps_spec(Seq::empty()).len() == 11,
        load_steps_spec(Seq::empty())[6] == StepSpec::WriteDrProgress(Seq::empty()),
        program_next(Phase::Loaded, Seq::empty(), none) == (Phase::PostCheck, ActionSpec::Run(status_read_steps())),
        program_next(Phase::PostCheck, Seq::empty(), post) == (
            Phase::Closing,
            ActionSpec::Run(seq![StepSpec::Reset]),
        ),
        program_next(Phase::Closing, Seq::empty(), last) == (Phase::Finished(Ok(())), ActionSpec::Finish(Ok(()))),
{
    assert(msb_first_bits(Seq::<u8>::empty()) =~= Seq::<bool>::empty());
}

/// Progress reported while a payload of `len` bytes is shifted never exceeds
/// `len`: at most `8 * len` bits are shifted.
pub proof fn lemma_progress_within_payload(len: nat, bits_written: nat)
    requires
        bits_written <= 8 * len,
    ensures
        bits_written / 8 <= len,
{
}

} // verus!
