//! What holds of every session, proved from the transitions of
//! [`crate::session`].

use crate::chart::{lemma_offer_keeps_window, strictly_increasing, ChartPoint};
use crate::config::{run_seconds_spec, DurationError};
use crate::session::{
    after_chart_sample, after_display_sample, after_engine_finished, after_key, after_reset,
    after_snapshot, after_start, after_text, decode_spec, elapsed_at, invalid_input_text, key_effects, fresh_form, session_begin, Effect,
    InputFocusElement, KeyAction, KeyPress, PopupOption, SessionView, StateView, DEFAULT_FOCUS, MAX_DATA_POINTS,
};
use crate::telemetry::{lemma_mean_bounded, mean_usage, CpuUsage};
use vstd::prelude::*;

verus! {

/// A key action keeps the invariant of the session: the selected cores stay
/// between one and the number of logical cores, and a run that starts has a valid
/// configuration and an empty chart.
pub proof fn lemma_key_keeps_wf(s: SessionView, key: KeyAction, now_ms: u64)
    requires
        s.wf(),
    ensures
        after_key(s, key, now_ms).wf(),
{
}

/// Folding the telemetry of a tick into the session keeps its invariant: the chart
/// stays within its cap and in strictly increasing order of time. While a run is
/// in progress the elapsed seconds never go back, and nothing but the chart, the
/// elapsed seconds and the cached snapshot changes.
pub proof fn lemma_update_keeps_wf(
    s: SessionView,
    now_ms: u64,
    chart_sample: Option<Seq<CpuUsage>>,
    display_sample: Option<Seq<CpuUsage>>,
)
    requires
        s.wf(),
    ensures
        after_display_sample(after_chart_sample(s, now_ms, chart_sample), now_ms, display_sample).wf(),
        after_display_sample(
            after_chart_sample(s, now_ms, chart_sample),
            now_ms,
            display_sample,
        ).mode() == s.mode(),
        s.state matches StateView::Running { config, started_ms, elapsed_secs, chart } ==> {
            &&& after_chart_sample(s, now_ms, chart_sample).state matches StateView::Running {
                config: config2,
                started_ms: started2,
                elapsed_secs: elapsed2,
                chart: chart2,
            }
            &&& config2 == config
            &&& started2 == started_ms
            &&& elapsed2 >= elapsed_secs
            &&& chart2.points.len() <= MAX_DATA_POINTS
            &&& strictly_increasing(chart2.points)
        },
        !(s.state is Running) ==> after_display_sample(
            after_chart_sample(s, now_ms, chart_sample),
            now_ms,
            display_sample,
        ) == s,
{
    match (s.state, chart_sample) {
        (StateView::Running { config, started_ms, elapsed_secs, chart }, Some(cpus)) => {
            match mean_usage(cpus) {
                Some(mean) => {
                    if elapsed_at(started_ms, now_ms) > elapsed_secs {
                        let point = ChartPoint {
                            elapsed_secs: elapsed_at(started_ms, now_ms),
                            usage: mean as u32,
                        };
                        lemma_offer_keeps_window(chart, point);
                    }
                },
                None => {},
            }
        },
        _ => {},
    }
}

/// A sample that is due and is not empty puts exactly one point at the end of the
/// chart: the whole seconds that have passed, with the mean of the sample.
pub proof fn lemma_due_sample_is_charted(s: SessionView, now_ms: u64, cpus: Seq<CpuUsage>)
    requires
        s.wf(),
        s.state is Running,
        cpus.len() > 0,
        elapsed_at(s.state->Running_started_ms, now_ms) > s.state->Running_elapsed_secs,
    ensures
        after_chart_sample(s, now_ms, Some(cpus)).state matches StateView::Running {
            elapsed_secs,
            chart,
            ..
        } && {
            &&& elapsed_secs == elapsed_at(s.state->Running_started_ms, now_ms)
            &&& chart.points.len() > 0
            &&& chart.points.last().elapsed_secs == elapsed_secs
            &&& mean_usage(cpus) == Some(chart.points.last().usage as nat)
        },
{
    lemma_mean_bounded(cpus, u32::MAX as nat);
    let chart = s.state->Running_chart;
    let point = ChartPoint {
        elapsed_secs: elapsed_at(s.state->Running_started_ms, now_ms),
        usage: mean_usage(cpus)->0 as u32,
    };
    lemma_offer_keeps_window(chart, point);
}

/// A read that fails is no sample: when the samples of a tick were not read or hold
/// no core, the session stays as it is, with the chart, the elapsed seconds, the
/// cached snapshot and its time, so that the same samples are due again on the next
/// tick.
pub proof fn lemma_failed_read_changes_nothing(
    s: SessionView,
    now_ms: u64,
    chart_sample: Option<Seq<CpuUsage>>,
    display_sample: Option<Seq<CpuUsage>>,
)
    requires
        chart_sample matches Some(cpus) ==> cpus.len() == 0,
        display_sample matches Some(cpus) ==> cpus.len() == 0,
    ensures
        after_display_sample(after_chart_sample(s, now_ms, chart_sample), now_ms, display_sample)
            == s,
        forall|cpus: Seq<CpuUsage>| cpus.len() == 0 ==> #[trigger] after_snapshot(s, now_ms, cpus) == s,
{
}

/// The end of a run is taken once. The news that the engine has finished turns a
/// run in progress into the popup with the score it brings; told again, it changes
/// nothing, and neither does telemetry that arrives late.
pub proof fn lemma_engine_finishes_once(
    s: SessionView,
    first: Option<u64>,
    second: Option<u64>,
    now_ms: u64,
    chart_sample: Option<Seq<CpuUsage>>,
    display_sample: Option<Seq<CpuUsage>>,
)
    ensures
        s.state is Running ==> after_engine_finished(s, first).state == (StateView::Finished {
            score: first,
            selection: PopupOption::RunAgain,
        }),
        !(s.state is Running) ==> after_engine_finished(s, first) == s,
        after_engine_finished(after_engine_finished(s, first), second) == after_engine_finished(
            s,
            first,
        ),
        after_display_sample(
            after_chart_sample(after_engine_finished(s, first), now_ms, chart_sample),
            now_ms,
            display_sample,
        ) == after_engine_finished(s, first),
{
}

/// A duration that is not valid never starts a run: the session stays in the form,
/// the error message takes the place of the text, and the caller is asked to do
/// nothing.
pub proof fn lemma_invalid_duration_starts_nothing(s: SessionView, now_ms: u64)
    requires
        s.state is Configuring,
        s.state->Configuring_focus == InputFocusElement::OkButton,
        run_seconds_spec(s.state->Configuring_input_text, s.selected_unit) is Err,
    ensures
        after_key(s, KeyAction::Confirm, now_ms) == (SessionView {
            state: StateView::Configuring {
                input_text: invalid_input_text(),
                focus: InputFocusElement::OkButton,
                selected_cpu_count: s.state->Configuring_selected_cpu_count,
            },
            ..s
        }),
        key_effects(s, KeyAction::Confirm) == Seq::<Effect>::empty(),
{
}

/// The engine is started with a valid configuration or not at all, and a run is
/// entered exactly when the caller is asked to start the engine: the only way into
/// a run is to confirm the button of the form over a valid duration, and the engine
/// is then asked for with the configuration that the run holds.
pub proof fn lemma_run_starts_with_valid_config(s: SessionView, key: KeyAction, now_ms: u64)
    requires
        s.wf(),
    ensures
        forall|i: int|
            0 <= i < key_effects(s, key).len() ==> (#[trigger] key_effects(s, key)[i]
                matches Effect::SpawnEngine(config) ==> {
                &&& s.state is Configuring
                &&& key == KeyAction::Confirm
                &&& config.valid_for(s.total_logical_cores)
                &&& run_seconds_spec(s.state->Configuring_input_text, s.selected_unit) == Ok::<
                    u64,
                    DurationError,
                >(config.duration_secs)
                &&& after_key(s, key, now_ms).state is Running
                &&& after_key(s, key, now_ms).state->Running_config == config
            }),
        !(s.state is Running) && after_key(s, key, now_ms).state is Running ==> key_effects(s, key)
            == seq![Effect::SpawnEngine(after_key(s, key, now_ms).state->Running_config)],
{
    if !(s.state is Running) && after_key(s, key, now_ms).state is Running {
        assert(key_effects(s, key) =~= seq![
            Effect::SpawnEngine(after_key(s, key, now_ms).state->Running_config),
        ]);
    }
}

/// The engine is asked to stop only while a run is in progress: in any other state
/// no key action asks for it.
pub proof fn lemma_cancel_only_while_running(s: SessionView, key: KeyAction)
    requires
        !(s.state is Running),
    ensures
        forall|i: int| 0 <= i < key_effects(s, key).len() ==> #[trigger] key_effects(s, key)[i]
            != Effect::CancelEngine,
{
}

/// Going back is idempotent. From a run it asks once for the engine to stop and
/// leads to the form as a reset leaves it; from the form it does nothing. Going
/// back again changes nothing and asks for nothing.
pub proof fn lemma_back_is_idempotent(s: SessionView, first_ms: u64, second_ms: u64)
    requires
        s.state is Running || s.state is Configuring,
    ensures
        s.state is Running ==> after_key(s, KeyAction::Back, first_ms) == after_reset(s)
            && key_effects(s, KeyAction::Back) == seq![Effect::CancelEngine, Effect::ResetTelemetry],
        s.state is Configuring ==> after_key(s, KeyAction::Back, first_ms) == s,
        after_key(after_key(s, KeyAction::Back, first_ms), KeyAction::Back, second_ms) == after_key(
            s,
            KeyAction::Back,
            first_ms,
        ),
        key_effects(after_key(s, KeyAction::Back, first_ms), KeyAction::Back) == Seq::<
            Effect,
        >::empty(),
{
}

/// The score of a finished run does not change: whatever key action follows, the
/// session either still shows the same score or has been reset to the form.
pub proof fn lemma_finished_score_is_kept(s: SessionView, key: KeyAction, now_ms: u64)
    requires
        s.state is Finished,
    ensures
        after_key(s, key, now_ms).state matches StateView::Finished { score, .. } ==> score
            == s.state->Finished_score,
        !(after_key(s, key, now_ms).state is Finished) ==> after_key(s, key, now_ms) == after_reset(
            s,
        ) && key == KeyAction::Confirm && s.state->Finished_selection == PopupOption::RunAgain,
        !(after_key(s, key, now_ms).state is Running),
{
}

/// Running again is a full reset: the session is in the form in which every
/// session begins, empty, with one core selected and the focus where a fresh
/// session has it, and the caller is asked for fresh telemetry. The selected unit
/// and the number of logical cores stay.
pub proof fn lemma_run_again_resets(s: SessionView, now_ms: u64)
    requires
        s.state is Finished,
        s.state->Finished_selection == PopupOption::RunAgain,
    ensures
        after_key(s, KeyAction::Confirm, now_ms).state == fresh_form(),
        forall|logical_cores: nat, cpus: Seq<CpuUsage>, begun_ms: u64|
            after_key(s, KeyAction::Confirm, now_ms).state == (#[trigger] session_begin(
                logical_cores,
                cpus,
                begun_ms,
            )).state,
        after_key(s, KeyAction::Confirm, now_ms).state matches StateView::Configuring {
            input_text,
            focus,
            selected_cpu_count,
        } && input_text.len() == 0 && focus == DEFAULT_FOCUS && selected_cpu_count == 1,
        after_key(s, KeyAction::Confirm, now_ms).selected_unit == s.selected_unit,
        after_key(s, KeyAction::Confirm, now_ms).total_logical_cores == s.total_logical_cores,
        key_effects(s, KeyAction::Confirm) == seq![Effect::ResetTelemetry],
{
}

/// Quitting leaves the session as it is and always asks the caller to leave; it
/// asks for the engine to stop first exactly when a run is in progress.
pub proof fn lemma_quit_leaves(s: SessionView, now_ms: u64)
    ensures
        after_key(s, KeyAction::Quit, now_ms) == s,
        key_effects(s, KeyAction::Quit) == if s.state is Running {
            seq![Effect::CancelEngine, Effect::Exit]
        } else {
            seq![Effect::Exit]
        },
{
}

/// What can reach a session from outside: one variant for each function that
/// changes a [`crate::session::Session`].
pub enum SessionInput {
    /// A key was pressed.
    KeyPress { press: KeyPress, now_ms: u64 },
    /// An action was asked for without a key.
    Action { key: KeyAction, now_ms: u64 },
    /// The typed duration was replaced.
    Text { text: Seq<char> },
    /// The button of the form was confirmed without a key.
    Start { now_ms: u64 },
    /// A reset was asked for without a key.
    Reset,
    /// A tick brought the samples it had asked for, as far as they could be read.
    Telemetry { now_ms: u64, chart_sample: Option<Seq<CpuUsage>>, display_sample: Option<Seq<CpuUsage>> },
    /// A per-core snapshot was handed in.
    Snapshot { now_ms: u64, cpus: Seq<CpuUsage> },
    /// The engine was found to have finished.
    EngineFinished { score: Option<u64> },
}

/// The session after one input.
pub open spec fn after_input(s: SessionView, input: SessionInput) -> SessionView {
    match input {
        SessionInput::KeyPress { press, now_ms } => match decode_spec(s.mode(), press) {
            Some(key) => after_key(s, key, now_ms),
            None => s,
        },
        SessionInput::Action { key, now_ms } => after_key(s, key, now_ms),
        SessionInput::Text { text } => after_text(s, text),
        SessionInput::Start { now_ms } => after_start(s, now_ms),
        SessionInput::Reset => after_reset(s),
        SessionInput::Telemetry { now_ms, chart_sample, display_sample } => after_display_sample(
            after_chart_sample(s, now_ms, chart_sample),
            now_ms,
            display_sample,
        ),
        SessionInput::Snapshot { now_ms, cpus } => after_snapshot(s, now_ms, cpus),
        SessionInput::EngineFinished { score } => after_engine_finished(s, score),
    }
}

/// The session after a sequence of inputs.
pub open spec fn after_inputs(s: SessionView, inputs: Seq<SessionInput>) -> SessionView
    decreases inputs.len(),
{
    if inputs.len() == 0 {
        s
    } else {
        after_input(after_inputs(s, inputs.drop_last()), inputs.last())
    }
}

/// One input keeps the invariant of the session and the number of logical cores.
pub proof fn lemma_input_keeps_wf(s: SessionView, input: SessionInput)
    requires
        s.wf(),
    ensures
        after_input(s, input).wf(),
        after_input(s, input).total_logical_cores == s.total_logical_cores,
{
    match input {
        SessionInput::KeyPress { press, now_ms } => {
            match decode_spec(s.mode(), press) {
                Some(key) => {
                    lemma_key_keeps_wf(s, key, now_ms);
                },
                None => {},
            }
        },
        SessionInput::Action { key, now_ms } => {
            lemma_key_keeps_wf(s, key, now_ms);
        },
        SessionInput::Telemetry { now_ms, chart_sample, display_sample } => {
            lemma_update_keeps_wf(s, now_ms, chart_sample, display_sample);
        },
        _ => {},
    }
}

/// In every state that a session can reach, whatever reaches it from outside and in
/// whatever order: the selected cores lie between one and the logical cores found
/// at startup; a run in progress has a duration of at least one second and no more
/// workers than there are logical cores; and its chart holds at most
/// [`MAX_DATA_POINTS`] samples, in strictly increasing order of time.
pub proof fn lemma_every_state_is_wf(
    logical_cores: nat,
    cpus: Seq<CpuUsage>,
    now_ms: u64,
    inputs: Seq<SessionInput>,
)
    requires
        1 <= logical_cores <= usize::MAX,
    ensures
        after_inputs(session_begin(logical_cores, cpus, now_ms), inputs).wf(),
        after_inputs(session_begin(logical_cores, cpus, now_ms), inputs).total_logical_cores
            == logical_cores,
        after_inputs(session_begin(logical_cores, cpus, now_ms), inputs).state matches StateView::Running {
            config,
            chart,
            ..
        } ==> {
            &&& config.duration_secs >= 1
            &&& 1 <= config.worker_count <= logical_cores
            &&& chart.points.len() <= MAX_DATA_POINTS
            &&& strictly_increasing(chart.points)
        },
    decreases inputs.len(),
{
    if inputs.len() > 0 {
        lemma_every_state_is_wf(logical_cores, cpus, now_ms, inputs.drop_last());
        lemma_input_keeps_wf(
            after_inputs(session_begin(logical_cores, cpus, now_ms), inputs.drop_last()),
            inputs.last(),
        );
    }
}

} // verus!
