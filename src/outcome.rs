use vstd::prelude::*;

verus! {

/// How the agent ended its task, with what it said about it.
pub enum TaskOutcome {
    Completed(Option<String>),
    Failed(Option<String>),
}

/// Why an outcome could not be reported.
#[derive(Clone, Copy, Debug, PartialEq, Eq, Structural)]
pub enum OutcomeError {
    /// An outcome was already reported in this run.
    AlreadyReported,
}

/// What a signal holds: the channel to the coordinator while unused.
pub type SignalView<S> = Option<S>;

/// What taking the signal returns.
pub open spec fn take_result<S>(v: SignalView<S>) -> Result<S, OutcomeError> {
    match v {
        Some(s) => Ok(s),
        None => Err(OutcomeError::AlreadyReported),
    }
}

/// The signal after it is taken: used up, whatever it was.
pub open spec fn take_next<S>(v: SignalView<S>) -> SignalView<S> {
    None
}

/// The one-shot channel on which the run's single task outcome travels to the
/// coordinator. It can be taken once; each later attempt is an error.
pub struct OutcomeSignal<S> {
    sender: Option<S>,
}

impl<S> View for OutcomeSignal<S> {
    type V = SignalView<S>;

    closed spec fn view(&self) -> SignalView<S> {
        self.sender
    }
}

impl<S> OutcomeSignal<S> {
    /// A signal that will hand out `sender` once.
    pub fn new(sender: S) -> (r: OutcomeSignal<S>)
        ensures
            r@ == Some(sender),
    {
        OutcomeSignal { sender: Some(sender) }
    }

    /// Whether the signal was used up.
    pub fn is_consumed(&self) -> (r: bool)
        ensures
            r == (self@ is None),
    {
        self.sender.is_none()
    }

    /// Takes the channel; `AlreadyReported` once it was taken.
    pub fn take(&mut self) -> (r: Result<S, OutcomeError>)
        ensures
            r == take_result(old(self)@),
            final(self)@ == take_next(old(self)@),
    {
        match self.sender.take() {
            Some(s) => Ok(s),
            None => Err(OutcomeError::AlreadyReported),
        }
    }
}

/// Records that the task was completed: hands back the channel and the
/// outcome to send on it, or `AlreadyReported` when an outcome was sent before.
pub fn task_complete<S>(signal: &mut OutcomeSignal<S>, description: Option<String>) -> (r: Result<
    (S, TaskOutcome),
    OutcomeError,
>)
    ensures
        final(signal)@ is None,
        r is Ok <==> old(signal)@ is Some,
        r is Ok ==> r->Ok_0.0 == old(signal)@->Some_0 && r->Ok_0.1 == TaskOutcome::Completed(
            description,
        ),
        r is Err ==> r->Err_0 == OutcomeError::AlreadyReported,
{
    let s = signal.take()?;
    Ok((s, TaskOutcome::Completed(description)))
}

/// Records that the task failed: hands back the channel and the outcome to
/// send on it, or `AlreadyReported` when an outcome was sent before.
pub fn task_fail<S>(signal: &mut OutcomeSignal<S>, description: Option<String>) -> (r: Result<
    (S, TaskOutcome),
    OutcomeError,
>)
    ensures
        final(signal)@ is None,
        r is Ok <==> old(signal)@ is Some,
        r is Ok ==> r->Ok_0.0 == old(signal)@->Some_0 && r->Ok_0.1 == TaskOutcome::Failed(
            description,
        ),
        r is Err ==> r->Err_0 == OutcomeError::AlreadyReported,
{
    let s = signal.take()?;
    Ok((s, TaskOutcome::Failed(description)))
}

/// Of two reports in one run, whichever endpoints they come through, the
/// first gets the channel and the second finds it used up.
pub proof fn lemma_single_outcome<S>(v: SignalView<S>)
    requires
        v is Some,
    ensures
        take_result(v) is Ok,
        take_result(take_next(v)) == Err::<S, OutcomeError>(OutcomeError::AlreadyReported),
{
}

} // verus!
