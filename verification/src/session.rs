//! The session state machine.
//!
//! A session is in one of three states: configuring the next run, running it, or
//! showing that it has finished. It is driven from outside by key presses, by the
//! clock, by telemetry samples and by the news that the engine has finished. It
//! reads no key, no clock and no counter itself: it says which samples are due, and
//! it answers a key press with the list of effects that the caller has to carry
//! out. Time is a count of milliseconds on a clock of the caller's choosing that
//! does not run backwards.

use crate::chart::{offered, ChartPoint, ChartSeries, ChartView};
use crate::config::{is_digit, run_seconds, run_seconds_spec, RunConfig, TimeUnit};
use crate::telemetry::{avg_percent_usage_cpu, mean_usage, CpuUsage};
use vstd::prelude::*;
use vstd::string::StringExecFns;

verus! {

/// The most samples the live chart keeps.
pub const MAX_DATA_POINTS: usize = 100;

/// The milliseconds after which the per-core snapshot is taken anew.
pub const CPU_REFRESH_INTERVAL_MS: u64 = 1000;

/// The three faces of the session, for the renderer.
#[derive(Clone, Copy, Debug, PartialEq, Eq)]
pub enum Mode {
    Input,
    Chart,
    Finished,
}

/// The element of the configuration form that has the focus.
#[derive(Clone, Copy, Debug, PartialEq, Eq)]
pub enum InputFocusElement {
    ValueInput,
    UnitSelection,
    CpuCountSelection,
    OkButton,
}

/// The element that has the focus in a fresh form.
pub const DEFAULT_FOCUS: InputFocusElement = InputFocusElement::UnitSelection;

/// The choice offered once a run has finished.
#[derive(Clone, Copy, Debug, PartialEq, Eq)]
pub enum PopupOption {
    RunAgain,
    Exit,
}

/// What the user can ask of the session. Keys that stand for none of these never
/// reach it.
#[derive(Clone, Copy, Debug, PartialEq, Eq)]
pub enum KeyAction {
    /// A character typed into the duration field; anything but a decimal digit is
    /// ignored.
    Digit(char),
    EraseLast,
    CycleFocus,
    MoveUp,
    MoveDown,
    Confirm,
    Back,
    Quit,
}

/// A key as it comes from the keyboard, before it is given a meaning.
#[derive(Clone, Copy, Debug, PartialEq, Eq)]
pub enum Key {
    Char(char),
    Backspace,
    Tab,
    Enter,
    Esc,
    Up,
    Down,
    Left,
    Right,
    /// Any key that the session has no use for.
    Other,
}

/// A key press: the key, and whether the control key was held with it.
#[derive(Clone, Copy, Debug, PartialEq, Eq)]
pub struct KeyPress {
    pub key: Key,
    pub control: bool,
}

/// What the caller has to do after a key action, in the order given.
#[derive(Clone, Copy, Debug, PartialEq, Eq)]
pub enum Effect {
    /// Start the engine with this configuration and keep its handle.
    SpawnEngine(RunConfig),
    /// Set the stop flag of the engine in flight and let go of its handle.
    CancelEngine,
    /// Replace the telemetry sampler and the engine by fresh ones and hand in a
    /// fresh per-core snapshot.
    ResetTelemetry,
    /// Leave the session.
    Exit,
}

/// Which telemetry samples a tick asks for.
#[derive(Clone, Copy, Debug, PartialEq, Eq)]
pub struct SamplingPlan {
    /// A sample for the next point of the chart.
    pub chart: bool,
    /// A sample for the per-core display.
    pub display: bool,
}

/// The state a session is in, with what belongs to that state alone.
#[derive(Clone, Debug, PartialEq, Eq)]
pub enum SessionState {
    Configuring { input_text: String, focus: InputFocusElement, selected_cpu_count: usize },
    Running { config: RunConfig, started_ms: u64, elapsed_secs: u64, chart: ChartSeries },
    Finished { score: Option<u64>, selection: PopupOption },
}

/// A session state as the contracts see it.
pub enum StateView {
    Configuring { input_text: Seq<char>, focus: InputFocusElement, selected_cpu_count: nat },
    Running { config: RunConfig, started_ms: u64, elapsed_secs: u64, chart: ChartView },
    Finished { score: Option<u64>, selection: PopupOption },
}

impl View for SessionState {
    type V = StateView;

    open spec fn view(&self) -> StateView {
        match *self {
            SessionState::Configuring { input_text, focus, selected_cpu_count } => StateView::Configuring {
                input_text: input_text@,
                focus,
                selected_cpu_count: selected_cpu_count as nat,
            },
            SessionState::Running { config, started_ms, elapsed_secs, chart } => StateView::Running {
                config,
                started_ms,
                elapsed_secs,
                chart: chart@,
            },
            SessionState::Finished { score, selection } => StateView::Finished { score, selection },
        }
    }
}

/// A session as the contracts see it.
pub struct SessionView {
    pub state: StateView,
    /// The unit last selected; it outlasts a reset.
    pub selected_unit: TimeUnit,
    /// The logical cores found at startup, at least one.
    pub total_logical_cores: nat,
    /// The per-core snapshot last handed in.
    pub cpu_info_cached: Seq<CpuUsage>,
    /// When that snapshot was handed in.
    pub last_cpu_refresh_ms: u64,
}

impl SessionView {
    /// The invariant of a session: the machine has a core; the selected number of
    /// cores lies between one and the number of logical cores; a run in progress
    /// has a valid configuration, and its chart is within its cap, in strictly
    /// increasing order of time, and not ahead of the seconds counted so far.
    pub open spec fn wf(self) -> bool {
        &&& 1 <= self.total_logical_cores <= usize::MAX
        &&& match self.state {
            StateView::Configuring { selected_cpu_count, .. } => 1 <= selected_cpu_count
                <= self.total_logical_cores,
            StateView::Running { config, elapsed_secs, chart, .. } => {
                &&& config.valid_for(self.total_logical_cores)
                &&& chart.wf()
                &&& chart.cap == MAX_DATA_POINTS
                &&& chart.points.len() > 0 ==> chart.points.last().elapsed_secs <= elapsed_secs
            },
            StateView::Finished { .. } => true,
        }
    }

    /// The face that the session shows.
    pub open spec fn mode(self) -> Mode {
        match self.state {
            StateView::Configuring { .. } => Mode::Input,
            StateView::Running { .. } => Mode::Chart,
            StateView::Finished { .. } => Mode::Finished,
        }
    }
}

/// Whether a key press asks to quit: `q` or `Q`, or `c` with the control key.
pub open spec fn is_quit(press: KeyPress) -> bool {
    press.key == Key::Char('q') || press.key == Key::Char('Q') || (press.key == Key::Char('c')
        && press.control)
}

/// The action that a key press stands for in the given mode, if it stands for any.
/// Quitting is the same in every mode. The form takes characters, the erase key,
/// the tabulator, the four arrows and the enter key; a run in progress takes the
/// escape key alone; the popup takes the enter key, the escape key, the tabulator
/// and the arrows up and down.
pub open spec fn decode_spec(mode: Mode, press: KeyPress) -> Option<KeyAction> {
    if is_quit(press) {
        Some(KeyAction::Quit)
    } else {
        match mode {
            Mode::Input => match press.key {
                Key::Char(c) => Some(KeyAction::Digit(c)),
                Key::Backspace => Some(KeyAction::EraseLast),
                Key::Tab => Some(KeyAction::CycleFocus),
                Key::Down | Key::Left => Some(KeyAction::MoveDown),
                Key::Up | Key::Right => Some(KeyAction::MoveUp),
                Key::Enter => Some(KeyAction::Confirm),
                _ => None,
            },
            Mode::Chart => match press.key {
                Key::Esc => Some(KeyAction::Back),
                _ => None,
            },
            Mode::Finished => match press.key {
                Key::Enter => Some(KeyAction::Confirm),
                Key::Up => Some(KeyAction::MoveUp),
                Key::Down => Some(KeyAction::MoveDown),
                Key::Tab => Some(KeyAction::CycleFocus),
                Key::Esc => Some(KeyAction::Back),
                _ => None,
            },
        }
    }
}

/// Gives a key press its meaning in the given mode.
pub fn decode_key(mode: Mode, press: KeyPress) -> (action: Option<KeyAction>)
    ensures
        action == decode_spec(mode, press),
{
    match press.key {
        Key::Char(c) => {
            if c == 'q' || c == 'Q' || (c == 'c' && press.control) {
                return Some(KeyAction::Quit);
            }
        },
        _ => {},
    }
    match mode {
        Mode::Input => match press.key {
            Key::Char(c) => Some(KeyAction::Digit(c)),
            Key::Backspace => Some(KeyAction::EraseLast),
            Key::Tab => Some(KeyAction::CycleFocus),
            Key::Down | Key::Left => Some(KeyAction::MoveDown),
            Key::Up | Key::Right => Some(KeyAction::MoveUp),
            Key::Enter => Some(KeyAction::Confirm),
            _ => None,
        },
        Mode::Chart => match press.key {
            Key::Esc => Some(KeyAction::Back),
            _ => None,
        },
        Mode::Finished => match press.key {
            Key::Enter => Some(KeyAction::Confirm),
            Key::Up => Some(KeyAction::MoveUp),
            Key::Down => Some(KeyAction::MoveDown),
            Key::Tab => Some(KeyAction::CycleFocus),
            Key::Esc => Some(KeyAction::Back),
            _ => None,
        },
    }
}

/// The text that takes the place of a duration that was turned down.
pub open spec fn invalid_input_text() -> Seq<char> {
    "Invalid input"@
}

/// The fresh form, as a session begins with it and as every reset leaves it:
/// nothing typed, one core selected, the focus on [`DEFAULT_FOCUS`].
pub open spec fn fresh_form() -> StateView {
    StateView::Configuring {
        input_text: Seq::empty(),
        focus: DEFAULT_FOCUS,
        selected_cpu_count: 1,
    }
}

/// A session at its beginning, at `now_ms`, on a machine with `logical_cores`
/// cores of which `cpus` is a first snapshot: in the form, with seconds selected.
pub open spec fn session_begin(logical_cores: nat, cpus: Seq<CpuUsage>, now_ms: u64) -> SessionView {
    SessionView {
        state: fresh_form(),
        selected_unit: TimeUnit::Seconds,
        total_logical_cores: logical_cores,
        cpu_info_cached: cpus,
        last_cpu_refresh_ms: now_ms,
    }
}

/// Where the focus goes when it is cycled.
pub open spec fn focus_after_cycle(focus: InputFocusElement) -> InputFocusElement {
    match focus {
        InputFocusElement::ValueInput => InputFocusElement::CpuCountSelection,
        InputFocusElement::UnitSelection => InputFocusElement::ValueInput,
        InputFocusElement::CpuCountSelection => InputFocusElement::OkButton,
        InputFocusElement::OkButton => InputFocusElement::UnitSelection,
    }
}

/// Where the focus goes when an element other than the button is confirmed.
pub open spec fn focus_after_confirm(focus: InputFocusElement) -> InputFocusElement {
    match focus {
        InputFocusElement::ValueInput => InputFocusElement::UnitSelection,
        InputFocusElement::UnitSelection => InputFocusElement::CpuCountSelection,
        InputFocusElement::CpuCountSelection => InputFocusElement::OkButton,
        InputFocusElement::OkButton => InputFocusElement::OkButton,
    }
}

/// The other choice of the popup.
pub open spec fn other_option(selection: PopupOption) -> PopupOption {
    match selection {
        PopupOption::RunAgain => PopupOption::Exit,
        PopupOption::Exit => PopupOption::RunAgain,
    }
}

impl InputFocusElement {
    /// Where the focus goes when it is cycled.
    pub fn cycled(self) -> (next: InputFocusElement)
        ensures
            next == focus_after_cycle(self),
    {
        match self {
            InputFocusElement::ValueInput => InputFocusElement::CpuCountSelection,
            InputFocusElement::UnitSelection => InputFocusElement::ValueInput,
            InputFocusElement::CpuCountSelection => InputFocusElement::OkButton,
            InputFocusElement::OkButton => InputFocusElement::UnitSelection,
        }
    }

    /// Where the focus goes when this element is confirmed; the button keeps it.
    pub fn confirmed(self) -> (next: InputFocusElement)
        ensures
            next == focus_after_confirm(self),
    {
        match self {
            InputFocusElement::ValueInput => InputFocusElement::UnitSelection,
            InputFocusElement::UnitSelection => InputFocusElement::CpuCountSelection,
            InputFocusElement::CpuCountSelection => InputFocusElement::OkButton,
            InputFocusElement::OkButton => InputFocusElement::OkButton,
        }
    }
}

impl PopupOption {
    /// The other choice.
    pub fn toggled(self) -> (other: PopupOption)
        ensures
            other == other_option(self),
    {
        match self {
            PopupOption::RunAgain => PopupOption::Exit,
            PopupOption::Exit => PopupOption::RunAgain,
        }
    }
}

/// The whole seconds that have passed at `now_ms` since `started_ms`; none if the
/// clock reads earlier than the start.
pub open spec fn elapsed_at(started_ms: u64, now_ms: u64) -> u64 {
    if now_ms >= started_ms {
        ((now_ms - started_ms) / 1000) as u64
    } else {
        0
    }
}

/// Computes the whole seconds that have passed at `now_ms` since `started_ms`.
pub fn whole_seconds_since(started_ms: u64, now_ms: u64) -> (secs: u64)
    ensures
        secs == elapsed_at(started_ms, now_ms),
{
    if now_ms >= started_ms {
        (now_ms - started_ms) / 1000
    } else {
        0
    }
}

/// The session after the button of the form was confirmed at `now_ms`: a valid
/// duration starts the run, with an empty chart; any other leaves the form as it
/// is but for the text, which gives way to the error message.
pub open spec fn after_start(s: SessionView, now_ms: u64) -> SessionView {
    match s.state {
        StateView::Configuring { input_text, focus, selected_cpu_count } => match run_seconds_spec(
            input_text,
            s.selected_unit,
        ) {
            Ok(secs) => SessionView {
                state: StateView::Running {
                    config: RunConfig { duration_secs: secs, worker_count: selected_cpu_count as usize },
                    started_ms: now_ms,
                    elapsed_secs: 0,
                    chart: ChartView { points: Seq::empty(), cap: MAX_DATA_POINTS as nat },
                },
                ..s
            },
            Err(_) => SessionView {
                state: StateView::Configuring {
                    input_text: invalid_input_text(),
                    focus,
                    selected_cpu_count,
                },
                ..s
            },
        },
        _ => s,
    }
}

/// The session after `text` was put in the place of the typed duration. Outside the
/// form there is no such text and nothing changes.
pub open spec fn after_text(s: SessionView, text: Seq<char>) -> SessionView {
    match s.state {
        StateView::Configuring { focus, selected_cpu_count, .. } => SessionView {
            state: StateView::Configuring { input_text: text, focus, selected_cpu_count },
            ..s
        },
        _ => s,
    }
}

/// The session after a reset: back in the [`fresh_form`]. The selected unit, the
/// number of logical cores and the snapshot stay.
pub open spec fn after_reset(s: SessionView) -> SessionView {
    SessionView { state: fresh_form(), ..s }
}

/// The session after a key action at `now_ms`.
pub open spec fn after_key(s: SessionView, key: KeyAction, now_ms: u64) -> SessionView {
    match s.state {
        StateView::Configuring { input_text, focus, selected_cpu_count } => match key {
            KeyAction::Digit(c) => if focus == InputFocusElement::ValueInput && is_digit(c) {
                SessionView {
                    state: StateView::Configuring {
                        input_text: input_text.push(c),
                        focus,
                        selected_cpu_count,
                    },
                    ..s
                }
            } else {
                s
            },
            KeyAction::EraseLast => if focus == InputFocusElement::ValueInput && input_text.len() > 0 {
                SessionView {
                    state: StateView::Configuring {
                        input_text: input_text.drop_last(),
                        focus,
                        selected_cpu_count,
                    },
                    ..s
                }
            } else {
                s
            },
            KeyAction::CycleFocus => SessionView {
                state: StateView::Configuring {
                    input_text,
                    focus: focus_after_cycle(focus),
                    selected_cpu_count,
                },
                ..s
            },
            KeyAction::MoveUp => match focus {
                InputFocusElement::UnitSelection => SessionView {
                    selected_unit: s.selected_unit.toggled_spec(),
                    ..s
                },
                InputFocusElement::CpuCountSelection => if selected_cpu_count < s.total_logical_cores {
                    SessionView {
                        state: StateView::Configuring {
                            input_text,
                            focus,
                            selected_cpu_count: selected_cpu_count + 1,
                        },
                        ..s
                    }
                } else {
                    s
                },
                _ => s,
            },
            KeyAction::MoveDown => match focus {
                InputFocusElement::UnitSelection => SessionView {
                    selected_unit: s.selected_unit.toggled_spec(),
                    ..s
                },
                InputFocusElement::CpuCountSelection => if selected_cpu_count > 1 {
                    SessionView {
                        state: StateView::Configuring {
                            input_text,
                            focus,
                            selected_cpu_count: (selected_cpu_count - 1) as nat,
                        },
                        ..s
                    }
                } else {
                    s
                },
                _ => s,
            },
            KeyAction::Confirm => if focus == InputFocusElement::OkButton {
                after_start(s, now_ms)
            } else {
                SessionView {
                    state: StateView::Configuring {
                        input_text,
                        focus: focus_after_confirm(focus),
                        selected_cpu_count,
                    },
                    ..s
                }
            },
            KeyAction::Back => s,
            KeyAction::Quit => s,
        },
        StateView::Running { .. } => match key {
            KeyAction::Back => after_reset(s),
            _ => s,
        },
        StateView::Finished { score, selection } => match key {
            KeyAction::Confirm => match selection {
                PopupOption::RunAgain => after_reset(s),
                PopupOption::Exit => s,
            },
            KeyAction::MoveUp | KeyAction::MoveDown | KeyAction::CycleFocus => SessionView {
                state: StateView::Finished { score, selection: other_option(selection) },
                ..s
            },
            _ => s,
        },
    }
}

/// What the caller has to do after a key action, in order.
pub open spec fn key_effects(s: SessionView, key: KeyAction) -> Seq<Effect> {
    match s.state {
        StateView::Configuring { input_text, focus, selected_cpu_count } => match key {
            KeyAction::Confirm => if focus == InputFocusElement::OkButton {
                match run_seconds_spec(input_text, s.selected_unit) {
                    Ok(secs) => seq![
                        Effect::SpawnEngine(
                            RunConfig { duration_secs: secs, worker_count: selected_cpu_count as usize },
                        ),
                    ],
                    Err(_) => Seq::empty(),
                }
            } else {
                Seq::empty()
            },
            KeyAction::Quit => seq![Effect::Exit],
            _ => Seq::empty(),
        },
        StateView::Running { .. } => match key {
            KeyAction::Back => seq![Effect::CancelEngine, Effect::ResetTelemetry],
            KeyAction::Quit => seq![Effect::CancelEngine, Effect::Exit],
            _ => Seq::empty(),
        },
        StateView::Finished { selection, .. } => match key {
            KeyAction::Confirm => match selection {
                PopupOption::RunAgain => seq![Effect::ResetTelemetry],
                PopupOption::Exit => seq![Effect::Exit],
            },
            KeyAction::Back => seq![Effect::Exit],
            KeyAction::Quit => seq![Effect::Exit],
            _ => Seq::empty(),
        },
    }
}

/// Whether a sample for the chart is due at `now_ms`: a run is in progress and a
/// further whole second of it has passed since the last sample.
pub open spec fn chart_due(s: SessionView, now_ms: u64) -> bool {
    s.state matches StateView::Running { started_ms, elapsed_secs, .. } && elapsed_at(started_ms, now_ms)
        > elapsed_secs
}

/// Whether a snapshot for the per-core display is due at `now_ms`: a run is in
/// progress and the refresh interval has passed since the last snapshot.
pub open spec fn display_due(s: SessionView, now_ms: u64) -> bool {
    s.state is Running && now_ms >= s.last_cpu_refresh_ms && now_ms - s.last_cpu_refresh_ms
        >= CPU_REFRESH_INTERVAL_MS
}

/// The session after the chart was offered `sample` at `now_ms`. A sample that is
/// due and has a mean adds the point `(elapsed seconds, mean)` and moves the count
/// of elapsed seconds on; without one (not due, not read, or empty) nothing changes,
/// so that the next tick asks again.
pub open spec fn after_chart_sample(s: SessionView, now_ms: u64, sample: Option<Seq<CpuUsage>>) -> SessionView {
    match (s.state, sample) {
        (StateView::Running { config, started_ms, elapsed_secs, chart }, Some(cpus)) => match mean_usage(
            cpus,
        ) {
            Some(mean) => if elapsed_at(started_ms, now_ms) > elapsed_secs {
                SessionView {
                    state: StateView::Running {
                        config,
                        started_ms,
                        elapsed_secs: elapsed_at(started_ms, now_ms),
                        chart: ChartView {
                            points: offered(
                                chart.points,
                                chart.cap,
                                ChartPoint {
                                    elapsed_secs: elapsed_at(started_ms, now_ms),
                                    usage: mean as u32,
                                },
                            ),
                            cap: chart.cap,
                        },
                    },
                    ..s
                }
            } else {
                s
            },
            None => s,
        },
        _ => s,
    }
}

/// The session after a per-core snapshot that was read at `now_ms` was handed in.
/// A snapshot without cores is a read that failed: the cached snapshot and its time
/// stay, so that the read is tried again. Any other takes the place of the cached
/// one.
pub open spec fn after_snapshot(s: SessionView, now_ms: u64, cpus: Seq<CpuUsage>) -> SessionView {
    if cpus.len() == 0 {
        s
    } else {
        SessionView { cpu_info_cached: cpus, last_cpu_refresh_ms: now_ms, ..s }
    }
}

/// The session after the display was offered `sample` at `now_ms`: a snapshot that
/// is due is handed in as [`after_snapshot`] has it; without one (not due, not
/// read, or without cores) the cached snapshot and its time stay, so that the next
/// tick asks again.
pub open spec fn after_display_sample(s: SessionView, now_ms: u64, sample: Option<Seq<CpuUsage>>) -> SessionView {
    match sample {
        Some(cpus) => if display_due(s, now_ms) {
            after_snapshot(s, now_ms, cpus)
        } else {
            s
        },
        None => s,
    }
}

/// The session after the engine was found to have finished with `score`: a run in
/// progress gives way to the popup, with the first choice selected; in any other
/// state the news is stale and nothing changes.
pub open spec fn after_engine_finished(s: SessionView, score: Option<u64>) -> SessionView {
    match s.state {
        StateView::Running { .. } => SessionView {
            state: StateView::Finished { score, selection: PopupOption::RunAgain },
            ..s
        },
        _ => s,
    }
}

/// A sample as the contracts see it.
pub open spec fn sample_view(sample: Option<Vec<CpuUsage>>) -> Option<Seq<CpuUsage>> {
    match sample {
        Some(cpus) => Some(cpus@),
        None => None,
    }
}

/// The configuration with which the button of the form starts a run, if the typed
/// duration is valid.
pub open spec fn started_config(s: SessionView) -> Option<RunConfig> {
    match s.state {
        StateView::Configuring { input_text, selected_cpu_count, .. } => match run_seconds_spec(
            input_text,
            s.selected_unit,
        ) {
            Ok(secs) => Some(
                RunConfig { duration_secs: secs, worker_count: selected_cpu_count as usize },
            ),
            Err(_) => None,
        },
        _ => None,
    }
}

/// The session: its state and what outlasts a change of state.
#[derive(Clone, Debug, PartialEq, Eq)]
pub struct Session {
    state: SessionState,
    selected_unit: TimeUnit,
    total_logical_cores: usize,
    cpu_info_cached: Vec<CpuUsage>,
    last_cpu_refresh_ms: u64,
}

impl View for Session {
    type V = SessionView;

    closed spec fn view(&self) -> SessionView {
        SessionView {
            state: self.state@,
            selected_unit: self.selected_unit,
            total_logical_cores: self.total_logical_cores as nat,
            cpu_info_cached: self.cpu_info_cached@,
            last_cpu_refresh_ms: self.last_cpu_refresh_ms,
        }
    }
}

impl Session {
    /// A session at its beginning, at `now_ms`, on a machine with
    /// `total_logical_cores` logical cores, of which `initial_cpus` is a first
    /// snapshot. A machine is taken to have at least one core.
    pub fn new(now_ms: u64, total_logical_cores: usize, initial_cpus: Vec<CpuUsage>) -> (session: Session)
        ensures
            session@.wf(),
            session@ == session_begin(
                if total_logical_cores == 0 {
                    1
                } else {
                    total_logical_cores as nat
                },
                initial_cpus@,
                now_ms,
            ),
    {
        let cores: usize = if total_logical_cores == 0 {
            1
        } else {
            total_logical_cores
        };
        Session {
            state: SessionState::Configuring {
                input_text: String::new(),
                focus: DEFAULT_FOCUS,
                selected_cpu_count: 1,
            },
            selected_unit: TimeUnit::Seconds,
            total_logical_cores: cores,
            cpu_info_cached: initial_cpus,
            last_cpu_refresh_ms: now_ms,
        }
    }

    /// The state the session is in.
    pub fn state(&self) -> (state: &SessionState)
        ensures
            state@ == self@.state,
    {
        &self.state
    }

    /// The face that the session shows.
    pub fn mode(&self) -> (mode: Mode)
        ensures
            mode == self@.mode(),
    {
        match &self.state {
            SessionState::Configuring { .. } => Mode::Input,
            SessionState::Running { .. } => Mode::Chart,
            SessionState::Finished { .. } => Mode::Finished,
        }
    }

    /// The unit in which the typed duration is counted.
    pub fn selected_unit(&self) -> (unit: TimeUnit)
        ensures
            unit == self@.selected_unit,
    {
        self.selected_unit
    }

    /// The logical cores of the machine.
    pub fn total_logical_cores(&self) -> (cores: usize)
        ensures
            cores == self@.total_logical_cores,
    {
        self.total_logical_cores
    }

    /// The per-core snapshot last handed in.
    pub fn cpu_info_cached(&self) -> (cpus: &Vec<CpuUsage>)
        ensures
            cpus@ == self@.cpu_info_cached,
    {
        &self.cpu_info_cached
    }

    /// When the per-core snapshot was handed in.
    pub fn last_cpu_refresh_ms(&self) -> (at: u64)
        ensures
            at == self@.last_cpu_refresh_ms,
    {
        self.last_cpu_refresh_ms
    }

    /// Parses the typed duration and starts the run if it is valid; puts the error
    /// message in the place of the text if it is not. Returns the configuration of
    /// the run that the caller has to start.
    pub fn set_total_duration(&mut self, now_ms: u64) -> (started: Option<RunConfig>)
        requires
            old(self)@.wf(),
        ensures
            final(self)@.wf(),
            final(self)@ == after_start(old(self)@, now_ms),
            started == started_config(old(self)@),
    {
        match &mut self.state {
            SessionState::Configuring { input_text, focus, selected_cpu_count } => {
                match run_seconds(input_text.as_str(), self.selected_unit) {
                    Ok(secs) => {
                        let config = RunConfig { duration_secs: secs, worker_count: *selected_cpu_count };
                        self.state = SessionState::Running {
                            config,
                            started_ms: now_ms,
                            elapsed_secs: 0,
                            chart: ChartSeries::new(MAX_DATA_POINTS),
                        };
                        Some(config)
                    },
                    Err(_) => {
                        *input_text = String::from_str("Invalid input");
                        None
                    },
                }
            },
            _ => None,
        }
    }

    /// Puts `text` in the place of the typed duration.
    pub fn set_input_text(&mut self, text: String)
        ensures
            final(self)@ == after_text(old(self)@, text@),
            old(self)@.wf() ==> final(self)@.wf(),
    {
        match &mut self.state {
            SessionState::Configuring { input_text, .. } => {
                *input_text = text;
            },
            _ => {},
        }
    }

    /// Resets the session to prepare for new input: back to the form as a session
    /// begins with it.
    pub fn reset_for_input(&mut self)
        requires
            old(self)@.wf(),
        ensures
            final(self)@.wf(),
            final(self)@ == after_reset(old(self)@),
    {
        self.state = SessionState::Configuring {
            input_text: String::new(),
            focus: DEFAULT_FOCUS,
            selected_cpu_count: 1,
        };
    }

    /// Takes a key action at `now_ms` and returns what the caller has to do about
    /// it.
    pub fn handle_key(&mut self, key: KeyAction, now_ms: u64) -> (effects: Vec<Effect>)
        requires
            old(self)@.wf(),
        ensures
            final(self)@.wf(),
            final(self)@ == after_key(old(self)@, key, now_ms),
            effects@ == key_effects(old(self)@, key),
    {
        let mut effects: Vec<Effect> = Vec::new();
        match &mut self.state {
            SessionState::Configuring { input_text, focus, selected_cpu_count } => {
                match key {
                    KeyAction::Digit(c) => {
                        if matches!(*focus, InputFocusElement::ValueInput) && c >= '0' && c <= '9' {
                            input_text.push(c);
                        }
                    },
                    KeyAction::EraseLast => {
                        if matches!(*focus, InputFocusElement::ValueInput) {
                            input_text.pop();
                        }
                    },
                    KeyAction::CycleFocus => {
                        *focus = focus.cycled();
                    },
                    KeyAction::MoveUp => {
                        match *focus {
                            InputFocusElement::UnitSelection => {
                                self.selected_unit = self.selected_unit.toggled();
                            },
                            InputFocusElement::CpuCountSelection => {
                                if *selected_cpu_count < self.total_logical_cores {
                                    *selected_cpu_count = *selected_cpu_count + 1;
                                }
                            },
                            _ => {},
                        }
                    },
                    KeyAction::MoveDown => {
                        match *focus {
                            InputFocusElement::UnitSelection => {
                                self.selected_unit = self.selected_unit.toggled();
                            },
                            InputFocusElement::CpuCountSelection => {
                                if *selected_cpu_count > 1 {
                                    *selected_cpu_count = *selected_cpu_count - 1;
                                }
                            },
                            _ => {},
                        }
                    },
                    KeyAction::Confirm => {
                        if matches!(*focus, InputFocusElement::OkButton) {
                            match self.set_total_duration(now_ms) {
                                Some(config) => {
                                    effects.push(Effect::SpawnEngine(config));
                                },
                                None => {},
                            }
                        } else {
                            *focus = focus.confirmed();
                        }
                    },
                    KeyAction::Back => {},
                    KeyAction::Quit => {
                        effects.push(Effect::Exit);
                    },
                }
            },
            SessionState::Running { .. } => {
                match key {
                    KeyAction::Back => {
                        self.reset_for_input();
                        effects.push(Effect::CancelEngine);
                        effects.push(Effect::ResetTelemetry);
                    },
                    KeyAction::Quit => {
                        effects.push(Effect::CancelEngine);
                        effects.push(Effect::Exit);
                    },
                    _ => {},
                }
            },
            SessionState::Finished { selection, .. } => {
                match key {
                    KeyAction::Confirm => {
                        match *selection {
                            PopupOption::RunAgain => {
                                self.reset_for_input();
                                effects.push(Effect::ResetTelemetry);
                            },
                            PopupOption::Exit => {
                                effects.push(Effect::Exit);
                            },
                        }
                    },
                    KeyAction::MoveUp | KeyAction::MoveDown | KeyAction::CycleFocus => {
                        *selection = selection.toggled();
                    },
                    KeyAction::Back | KeyAction::Quit => {
                        effects.push(Effect::Exit);
                    },
                    _ => {},
                }
            },
        }
        assert(effects@ =~= key_effects(old(self)@, key));
        effects
    }

    /// Takes a key press at `now_ms`: gives it its meaning in the mode that the
    /// session shows and acts on it. A key press without a meaning changes nothing
    /// and asks for nothing.
    pub fn handle_key_press(&mut self, press: KeyPress, now_ms: u64) -> (effects: Vec<Effect>)
        requires
            old(self)@.wf(),
        ensures
            final(self)@.wf(),
            match decode_spec(old(self)@.mode(), press) {
                Some(key) => final(self)@ == after_key(old(self)@, key, now_ms) && effects@
                    == key_effects(old(self)@, key),
                None => final(self)@ == old(self)@ && effects@ == Seq::<Effect>::empty(),
            },
    {
        match decode_key(self.mode(), press) {
            Some(key) => self.handle_key(key, now_ms),
            None => Vec::new(),
        }
    }

    /// Which telemetry samples are due at `now_ms`.
    pub fn sampling_plan(&self, now_ms: u64) -> (plan: SamplingPlan)
        ensures
            plan.chart == chart_due(self@, now_ms),
            plan.display == display_due(self@, now_ms),
    {
        match &self.state {
            SessionState::Running { started_ms, elapsed_secs, .. } => {
                SamplingPlan {
                    chart: whole_seconds_since(*started_ms, now_ms) > *elapsed_secs,
                    display: now_ms >= self.last_cpu_refresh_ms && now_ms - self.last_cpu_refresh_ms
                        >= CPU_REFRESH_INTERVAL_MS,
                }
            },
            _ => SamplingPlan { chart: false, display: false },
        }
    }

    /// Folds the telemetry of one tick into the session. `chart_sample` is the
    /// sample taken for the chart and `display_sample` the one taken for the
    /// per-core display; `None` stands for a sample that was not asked for or
    /// could not be read.
    pub fn update_data(
        &mut self,
        now_ms: u64,
        chart_sample: Option<Vec<CpuUsage>>,
        display_sample: Option<Vec<CpuUsage>>,
    )
        requires
            old(self)@.wf(),
        ensures
            final(self)@.wf(),
            final(self)@ == after_display_sample(
                after_chart_sample(old(self)@, now_ms, sample_view(chart_sample)),
                now_ms,
                sample_view(display_sample),
            ),
    {
        match &mut self.state {
            SessionState::Running { started_ms, elapsed_secs, chart, .. } => {
                let new_elapsed = whole_seconds_since(*started_ms, now_ms);
                if new_elapsed > *elapsed_secs {
                    match &chart_sample {
                        Some(cpus) => match avg_percent_usage_cpu(cpus) {
                            Some(mean) => {
                                *elapsed_secs = new_elapsed;
                                chart.push(new_elapsed, mean);
                            },
                            None => {},
                        },
                        None => {},
                    }
                }
                if now_ms >= self.last_cpu_refresh_ms && now_ms - self.last_cpu_refresh_ms
                    >= CPU_REFRESH_INTERVAL_MS {
                    match display_sample {
                        Some(cpus) => {
                            self.store_snapshot(now_ms, cpus);
                        },
                        None => {},
                    }
                }
            },
            _ => {},
        }
    }

    /// Takes a per-core snapshot that was read at `now_ms`, whatever the state. A
    /// snapshot without cores stands for a read that failed and changes nothing.
    pub fn store_snapshot(&mut self, now_ms: u64, cpus: Vec<CpuUsage>)
        ensures
            final(self)@ == after_snapshot(old(self)@, now_ms, cpus@),
            old(self)@.wf() ==> final(self)@.wf(),
    {
        if cpus.len() > 0 {
            self.cpu_info_cached = cpus;
            self.last_cpu_refresh_ms = now_ms;
        }
    }

    /// Takes the news that the engine has finished, with the aggregate score if it
    /// could be had. Returns whether this ended the run; it does so once.
    pub fn engine_finished(&mut self, score: Option<u64>) -> (ended: bool)
        ensures
            final(self)@ == after_engine_finished(old(self)@, score),
            ended == (old(self)@.state is Running),
            old(self)@.wf() ==> final(self)@.wf(),
    {
        match &self.state {
            SessionState::Running { .. } => {
                self.state = SessionState::Finished { score, selection: PopupOption::RunAgain };
                true
            },
            _ => false,
        }
    }
}

} // verus!
