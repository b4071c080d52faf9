use vstd::prelude::*;
use crate::saved_config::SavedState;
use crate::session::Status;
use crate::worker::valid_rate;

verus! {

/// Whether the hotkey is hooked.
#[derive(Clone, Copy, Debug, PartialEq, Eq, Structural)]
pub enum Mode {
    Disarmed,
    Armed,
}

/// What the user did in the window.
#[derive(Debug)]
pub enum UiEvent {
    /// The "start service" button.
    StartPressed,
    /// The session button shown while armed.
    StopPressed,
    /// The rate slider was released at this value.
    RateReleased(u64),
    /// The always-on-top toggle.
    TopClicked,
    /// A new hotkey, by its key name.
    HotkeyChosen(String),
    /// The preferences were written.
    Saved,
}

/// What the caller must do with the hotkey hook after an event.
#[derive(Clone, Copy, Debug, PartialEq, Eq, Structural)]
pub enum Command {
    Nothing,
    /// Install the press callback on the configured hotkey.
    InstallHook,
    /// Remove the callback from the configured hotkey.
    RemoveHook,
}

/// What the primary button shows.
#[derive(Clone, Copy, Debug, PartialEq, Eq, Structural)]
pub enum Label {
    StartService,
    Inactive,
    Active,
}

impl Label {
    /// The button's text.
    pub fn text(&self) -> (r: &'static str)
        ensures
            r@ == label_text(*self),
    {
        match self {
            Label::StartService => "Click to start service...",
            Label::Inactive => "Inactive",
            Label::Active => "Active",
        }
    }
}

pub open spec fn label_text(l: Label) -> Seq<char> {
    match l {
        Label::StartService => "Click to start service..."@,
        Label::Inactive => "Inactive"@,
        Label::Active => "Active"@,
    }
}

/// The UI thread's state: the hook mode, the preferences and whether they
/// wait to be saved.
#[derive(Debug)]
pub struct Controller {
    pub mode: Mode,
    pub prefs: SavedState,
    pub dirty: bool,
}

impl Controller {
    pub open spec fn wf(&self) -> bool {
        self.prefs.wf()
    }

    /// The state after an event.
    pub open spec fn next(self, e: UiEvent) -> Controller {
        match e {
            UiEvent::StartPressed => Controller { mode: Mode::Armed, ..self },
            UiEvent::StopPressed => Controller { mode: Mode::Disarmed, ..self },
            UiEvent::RateReleased(f) => if valid_rate(f as int) {
                Controller { prefs: SavedState { freq: f, ..self.prefs }, dirty: true, ..self }
            } else {
                self
            },
            UiEvent::TopClicked => Controller {
                prefs: SavedState { always_on_top: !self.prefs.always_on_top, ..self.prefs },
                dirty: true,
                ..self
            },
            UiEvent::HotkeyChosen(k) => if self.mode == Mode::Disarmed {
                Controller { prefs: SavedState { key_bind: k, ..self.prefs }, dirty: true, ..self }
            } else {
                self
            },
            UiEvent::Saved => Controller { dirty: false, ..self },
        }
    }

    /// The hook command that goes with an event.
    pub open spec fn command(self, e: UiEvent) -> Command {
        match e {
            UiEvent::StartPressed => if self.mode == Mode::Disarmed {
                Command::InstallHook
            } else {
                Command::Nothing
            },
            UiEvent::StopPressed => if self.mode == Mode::Armed {
                Command::RemoveHook
            } else {
                Command::Nothing
            },
            _ => Command::Nothing,
        }
    }

    /// A disarmed controller over the given preferences, nothing to save.
    pub fn new(prefs: SavedState) -> (r: Controller)
        requires
            prefs.wf(),
        ensures
            r.wf(),
            r.mode == Mode::Disarmed,
            r.prefs == prefs,
            !r.dirty,
    {
        Controller { mode: Mode::Disarmed, prefs, dirty: false }
    }

    /// Applies one event. Stopping while armed also forces the session idle,
    /// which makes a running worker stop at its next poll.
    pub fn handle(&mut self, e: UiEvent, job: &mut Status) -> (cmd: Command)
        requires
            old(self).wf(),
        ensures
            final(self).wf(),
            *final(self) == old(self).next(e),
            cmd == old(self).command(e),
            *final(job) == (if cmd == Command::RemoveHook {
                Status::Ready
            } else {
                *old(job)
            }),
    {
        match e {
            UiEvent::StartPressed => {
                if self.mode == Mode::Disarmed {
                    self.mode = Mode::Armed;
                    Command::InstallHook
                } else {
                    Command::Nothing
                }
            },
            UiEvent::StopPressed => {
                if self.mode == Mode::Armed {
                    self.mode = Mode::Disarmed;
                    *job = Status::Ready;
                    Command::RemoveHook
                } else {
                    Command::Nothing
                }
            },
            UiEvent::RateReleased(f) => {
                if 1 <= f && f <= 100 {
                    self.prefs.freq = f;
                    self.dirty = true;
                }
                Command::Nothing
            },
            UiEvent::TopClicked => {
                self.prefs.always_on_top = !self.prefs.always_on_top;
                self.dirty = true;
                Command::Nothing
            },
            UiEvent::HotkeyChosen(k) => {
                if self.mode == Mode::Disarmed {
                    self.prefs.key_bind = k;
                    self.dirty = true;
                }
                Command::Nothing
            },
            UiEvent::Saved => {
                self.dirty = false;
                Command::Nothing
            },
        }
    }

    /// Whether the next tick must save the preferences.
    pub fn save_due(&self) -> (r: bool)
        ensures
            r == self.dirty,
    {
        self.dirty
    }

    /// The record to save.
    pub fn snapshot(&self) -> (r: SavedState)
        ensures
            r == self.prefs,
    {
        self.prefs.duplicate()
    }

    /// The primary button for the current session flag.
    pub fn label(&self, job: Status) -> (r: Label)
        ensures
            r == (if self.mode == Mode::Disarmed {
                Label::StartService
            } else if job == Status::Ready {
                Label::Inactive
            } else {
                Label::Active
            }),
    {
        match self.mode {
            Mode::Disarmed => Label::StartService,
            Mode::Armed => if job.should_stop() {
                Label::Inactive
            } else {
                Label::Active
            },
        }
    }
}

/// Hooks installed on the configured key after a command: installing
/// replaces any earlier hook, removing is idempotent.
pub open spec fn hooks_after(h: nat, c: Command) -> nat {
    match c {
        Command::Nothing => h,
        Command::InstallHook => 1,
        Command::RemoveHook => 0,
    }
}

/// The controller and the hook count after a sequence of events.
pub open spec fn run_events(c: Controller, h: nat, es: Seq<UiEvent>) -> (Controller, nat)
    decreases es.len(),
{
    if es.len() == 0 {
        (c, h)
    } else {
        run_events(c.next(es[0]), hooks_after(h, c.command(es[0])), es.drop_first())
    }
}

/// Exactly one hook is installed on the configured key when the controller
/// is armed, and none when it is disarmed, after any sequence of events.
pub proof fn lemma_single_hook(c: Controller, h: nat, es: Seq<UiEvent>)
    requires
        h == (if c.mode == Mode::Armed { 1nat } else { 0nat }),
    ensures
        ({
            let (c2, h2) = run_events(c, h, es);
            h2 == (if c2.mode == Mode::Armed { 1nat } else { 0nat })
        }),
    decreases es.len(),
{
    if es.len() > 0 {
        lemma_single_hook(c.next(es[0]), hooks_after(h, c.command(es[0])), es.drop_first());
    }
}

/// The rate stays in `1..=100` after any sequence of events.
pub proof fn lemma_rate_bounds(c: Controller, h: nat, es: Seq<UiEvent>)
    requires
        c.wf(),
    ensures
        run_events(c, h, es).0.wf(),
    decreases es.len(),
{
    if es.len() > 0 {
        lemma_rate_bounds(c.next(es[0]), hooks_after(h, c.command(es[0])), es.drop_first());
    }
}

} // verus!
