use vstd::prelude::*;

verus! {

/// Length of one fixed physics step, a sixtieth of a second, in time units.
pub const STEP_UNITS: u64 = 1_000;

/// Whether the simulation runs or stands paused.
#[derive(Clone, Copy, Debug, PartialEq, Eq, Hash, Structural)]
pub enum AppState {
    Paused,
    Running,
}

impl Default for AppState {
    fn default() -> (r: AppState)
        ensures
            r == AppState::Running,
    {
        AppState::Running
    }
}

/// The other state.
pub open spec fn toggled(s: AppState) -> AppState {
    match s {
        AppState::Paused => AppState::Running,
        AppState::Running => AppState::Paused,
    }
}

/// The state after `n` presses of the pause key.
pub open spec fn toggled_times(s: AppState, n: nat) -> AppState
    decreases n,
{
    if n == 0 {
        s
    } else {
        toggled(toggled_times(s, (n - 1) as nat))
    }
}

/// The state that the pause key asks for: the other one when the key was
/// pressed this tick, none when it was not.
pub fn pause_button(current: AppState, pressed: bool) -> (r: Option<AppState>)
    ensures
        pressed ==> r == Some(toggled(current)),
        !pressed ==> r.is_none(),
{
    if pressed {
        let next = match current {
            AppState::Paused => AppState::Running,
            AppState::Running => AppState::Paused,
        };
        Some(next)
    } else {
        None
    }
}

/// The physics clock: the simulated time in time units, and whether it stands.
#[derive(Clone, Copy, Debug, PartialEq, Eq, Structural)]
pub struct PhysicsClock {
    pub elapsed: u64,
    pub paused: bool,
}

impl PhysicsClock {
    /// A running clock at time zero.
    pub fn new() -> (r: PhysicsClock)
        ensures
            r.elapsed == 0,
            !r.paused,
    {
        PhysicsClock { elapsed: 0, paused: false }
    }

    /// Stops the clock; the time it shows is kept.
    pub fn pause(&mut self)
        ensures
            final(self).paused,
            final(self).elapsed == old(self).elapsed,
    {
        self.paused = true;
    }

    /// Lets the clock run again; the time it shows is kept.
    pub fn unpause(&mut self)
        ensures
            !final(self).paused,
            final(self).elapsed == old(self).elapsed,
    {
        self.paused = false;
    }

    /// Moves the clock on by `d` time units, whether it stands or not.
    pub fn advance_by(&mut self, d: u64)
        requires
            old(self).elapsed + d <= u64::MAX,
        ensures
            final(self).elapsed == old(self).elapsed + d,
            final(self).paused == old(self).paused,
    {
        self.elapsed = self.elapsed + d;
    }

    /// One frame of `dt` time units passes: a running clock moves on by `dt`,
    /// a paused one stays.
    pub fn tick(&mut self, dt: u64)
        requires
            old(self).elapsed + dt <= u64::MAX,
        ensures
            final(self).paused == old(self).paused,
            final(self).elapsed == if old(self).paused {
                old(self).elapsed as int
            } else {
                old(self).elapsed + dt
            },
    {
        if !self.paused {
            self.elapsed = self.elapsed + dt;
        }
    }
}

/// The single-step key, which only acts while the simulation is paused: a
/// press moves the clock on by one fixed step.
pub fn step_button(clock: &mut PhysicsClock, pressed: bool)
    requires
        old(clock).elapsed + STEP_UNITS <= u64::MAX,
    ensures
        final(clock).paused == old(clock).paused,
        final(clock).elapsed == if pressed {
            old(clock).elapsed + STEP_UNITS
        } else {
            old(clock).elapsed as int
        },
{
    if pressed {
        clock.advance_by(STEP_UNITS);
    }
}

/// The simulated time after one single-step press in state `s`.
pub open spec fn step_elapsed(s: AppState, elapsed: int) -> int {
    if s == AppState::Paused {
        elapsed + STEP_UNITS
    } else {
        elapsed
    }
}

/// The simulated time after `n` single-step presses in state `s`.
pub open spec fn stepped_elapsed(s: AppState, elapsed: int, n: nat) -> int
    decreases n,
{
    if n == 0 {
        elapsed
    } else {
        step_elapsed(s, stepped_elapsed(s, elapsed, (n - 1) as nat))
    }
}

/// The pause state together with the physics clock it governs.
#[derive(Clone, Copy, Debug, PartialEq, Eq, Structural)]
pub struct Simulation {
    pub state: AppState,
    pub clock: PhysicsClock,
}

impl Simulation {
    /// The clock stands exactly while the state is `Paused`.
    pub open spec fn wf(&self) -> bool {
        self.clock.paused == (self.state == AppState::Paused)
    }

    /// A running simulation at time zero.
    pub fn new() -> (r: Simulation)
        ensures
            r.wf(),
            r.state == AppState::Running,
            r.clock.elapsed == 0,
    {
        Simulation { state: AppState::default(), clock: PhysicsClock::new() }
    }

    /// A press of the pause key: the state flips; entering `Paused` stops the
    /// clock and leaving it starts the clock again.
    pub fn press_pause(&mut self)
        requires
            old(self).wf(),
        ensures
            final(self).wf(),
            final(self).state == toggled(old(self).state),
            final(self).clock.elapsed == old(self).clock.elapsed,
    {
        if let Some(next) = pause_button(self.state, true) {
            match next {
                AppState::Paused => self.clock.pause(),
                AppState::Running => self.clock.unpause(),
            }
            self.state = next;
        }
    }

    /// A press of the single-step key: while paused the clock moves on by
    /// one fixed step; while running nothing happens.
    pub fn press_step(&mut self)
        requires
            old(self).wf(),
            old(self).clock.elapsed + STEP_UNITS <= u64::MAX,
        ensures
            final(self).wf(),
            final(self).state == old(self).state,
            final(self).clock.elapsed == step_elapsed(old(self).state, old(self).clock.elapsed as int),
    {
        if self.state == AppState::Paused {
            step_button(&mut self.clock, true);
        }
    }

    /// A frame of `dt` time units passes: the clock follows it while running
    /// and stays while paused.
    pub fn advance_frame(&mut self, dt: u64)
        requires
            old(self).wf(),
            old(self).clock.elapsed + dt <= u64::MAX,
        ensures
            final(self).wf(),
            final(self).state == old(self).state,
            final(self).clock.elapsed == if old(self).state == AppState::Paused {
                old(self).clock.elapsed as int
            } else {
                old(self).clock.elapsed + dt
            },
    {
        self.clock.tick(dt);
    }
}

/// From `Running`, an even number of pause-key presses leads back to
/// `Running` and an odd number to `Paused`.
pub proof fn lemma_toggle_parity(n: nat)
    ensures
        toggled_times(AppState::Running, n) == if n % 2 == 0 {
            AppState::Running
        } else {
            AppState::Paused
        },
    decreases n,
{
    if n > 0 {
        lemma_toggle_parity((n - 1) as nat);
    }
}

/// While paused, `n` single-step presses move the clock on by exactly `n`
/// sixtieths of a second; while running they leave it where it is.
pub proof fn lemma_steps_advance(elapsed: int, n: nat)
    ensures
        stepped_elapsed(AppState::Paused, elapsed, n) == elapsed + n * STEP_UNITS,
        stepped_elapsed(AppState::Running, elapsed, n) == elapsed,
        STEP_UNITS * 60 == crate::movement::TIME_UNITS_PER_SECOND,
    decreases n,
{
    if n > 0 {
        lemma_steps_advance(elapsed, (n - 1) as nat);
        assert(n * STEP_UNITS == (n - 1) * STEP_UNITS + STEP_UNITS) by (nonlinear_arith);
    }
}

} // verus!
