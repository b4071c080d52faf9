use vstd::prelude::*;

verus! {

/// Whether a clicking session is in progress: `Ready` is idle, `Running` is active.
#[derive(Clone, Copy, Debug, PartialEq, Eq, Structural)]
pub enum Status {
    Ready,
    Running,
}

/// The other of the two session values.
pub open spec fn toggled(s: Status) -> Status {
    match s {
        Status::Ready => Status::Running,
        Status::Running => Status::Ready,
    }
}

impl Status {
    /// True when the session is idle, so that a worker must stop.
    pub fn should_stop(&self) -> (r: bool)
        ensures
            r == (*self == Status::Ready),
    {
        match self {
            Status::Ready => true,
            _ => false,
        }
    }

    /// Flips the session between idle and active.
    pub fn switch(&mut self)
        ensures
            *final(self) == toggled(*old(self)),
    {
        match self {
            Status::Ready => *self = Status::Running,
            Status::Running => *self = Status::Ready,
        }
    }
}

/// What the hotkey callback does on one press: flip the session, and report
/// whether a fresh click worker must be started (only on idle to active).
pub fn on_hotkey_press(job: &mut Status) -> (spawn: bool)
    ensures
        *final(job) == toggled(*old(job)),
        spawn == (*old(job) == Status::Ready),
{
    let spawn = job.should_stop();
    job.switch();
    spawn
}

/// Number of idle-to-active transitions caused by `n` presses from `s`.
pub open spec fn activations(s: Status, n: nat) -> nat
    decreases n,
{
    if n == 0 {
        0
    } else {
        (if s == Status::Ready { 1nat } else { 0nat }) + activations(toggled(s), (n - 1) as nat)
    }
}

/// Number of active-to-idle transitions caused by `n` presses from `s`.
pub open spec fn deactivations(s: Status, n: nat) -> nat
    decreases n,
{
    if n == 0 {
        0
    } else {
        (if s == Status::Running { 1nat } else { 0nat }) + deactivations(toggled(s), (n - 1) as nat)
    }
}

proof fn lemma_counts_from_either(n: nat)
    ensures
        activations(Status::Ready, n) == (n + 1) / 2,
        deactivations(Status::Ready, n) == n / 2,
        activations(Status::Running, n) == n / 2,
        deactivations(Status::Running, n) == (n + 1) / 2,
    decreases n,
{
    if n > 0 {
        lemma_counts_from_either((n - 1) as nat);
    }
}

/// From an idle session, `n` discrete presses of the hotkey make exactly
/// `ceil(n / 2)` idle-to-active and `floor(n / 2)` active-to-idle transitions.
pub proof fn lemma_toggle_counts(n: nat)
    ensures
        activations(Status::Ready, n) == (n + 1) / 2,
        deactivations(Status::Ready, n) == n / 2,
{
    lemma_counts_from_either(n);
}

/// Each press starts a worker only on an idle-to-active transition, so after
/// any number of presses from idle, the workers started outnumber the
/// active-to-idle transitions by at most one, and by none when the session
/// is idle again.
pub proof fn lemma_spawns_exceed_stops_by_at_most_one(n: nat)
    ensures
        activations(Status::Ready, n) >= deactivations(Status::Ready, n),
        activations(Status::Ready, n) <= deactivations(Status::Ready, n) + 1,
        (n % 2 == 0) ==> activations(Status::Ready, n) == deactivations(Status::Ready, n),
{
    lemma_counts_from_either(n);
}

} // verus!
