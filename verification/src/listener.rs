//! The listener loop as a state machine. Each iteration of the real loop
//! observes one event — the shutdown flag found set, or one audio frame fed
//! through the detection engine — and the machine decides the action: stop
//! the recorder, dispatch the key chord, or keep listening. The blocking
//! audio read, the engine call and the key injection themselves stay with
//! the caller that runs the loop; every decision is made here.

use crate::listener_time::clock_timestamp;
use crate::numtext::is_digit;
use vstd::prelude::*;

verus! {

/// Where the listener stands: not yet started, reading frames, or stopped.
#[derive(Clone, Copy, Debug, PartialEq, Eq)]
pub enum ListenerState {
    Uninitialized,
    Recording,
    Stopped,
}

/// What one loop iteration observed.
#[derive(Clone, Copy, Debug, PartialEq, Eq)]
pub enum ListenerEvent {
    /// The shutdown flag was found set at the top of the iteration.
    Shutdown,
    /// One frame was read and processed; the engine answered with the index
    /// of the matched keyword, or a negative sentinel for no match.
    Frame { keyword_index: i32 },
}

/// What the loop must do after an event.
#[derive(Clone, Copy, Debug, PartialEq, Eq)]
pub enum ListenerAction {
    /// A keyword matched: synthesize the key chord and print the notice.
    Dispatch,
    /// Nothing matched: read the next frame.
    Continue,
    /// Stop the recorder and leave the loop.
    Stop,
}

/// The decision of one iteration: the state after the event, and the action
/// it calls for. A shutdown request stops; a frame keeps recording, and
/// dispatches exactly when the engine named a keyword (index zero or above).
pub open spec fn spec_step(event: ListenerEvent) -> (ListenerState, ListenerAction) {
    match event {
        ListenerEvent::Shutdown => (ListenerState::Stopped, ListenerAction::Stop),
        ListenerEvent::Frame { keyword_index } => (
            ListenerState::Recording,
            if keyword_index >= 0 {
                ListenerAction::Dispatch
            } else {
                ListenerAction::Continue
            },
        ),
    }
}

/// The listener's control state, driven by the loop that owns the recorder
/// and the engine.
pub struct Listener {
    state: ListenerState,
}

impl Listener {
    /// The current control state.
    pub closed spec fn spec_state(self) -> ListenerState {
        self.state
    }

    /// A listener that has not started recording yet.
    pub fn new() -> (l: Listener)
        ensures
            l.spec_state() is Uninitialized,
    {
        Listener { state: ListenerState::Uninitialized }
    }

    /// Enter the recording state, once the engine is built and the recorder
    /// started.
    pub fn start(&mut self)
        requires
            old(self).spec_state() is Uninitialized,
        ensures
            final(self).spec_state() is Recording,
    {
        self.state = ListenerState::Recording;
    }

    /// Feed one observed event through the machine and learn the action.
    pub fn on_event(&mut self, event: ListenerEvent) -> (action: ListenerAction)
        requires
            old(self).spec_state() is Recording,
        ensures
            (final(self).spec_state(), action) == spec_step(event),
    {
        match event {
            ListenerEvent::Shutdown => {
                self.state = ListenerState::Stopped;
                ListenerAction::Stop
            },
            ListenerEvent::Frame { keyword_index } => {
                if keyword_index >= 0 {
                    ListenerAction::Dispatch
                } else {
                    ListenerAction::Continue
                }
            },
        }
    }

    /// Whether the loop should poll for another event.
    pub fn is_recording(&self) -> (r: bool)
        ensures
            r == (self.spec_state() is Recording),
    {
        match self.state {
            ListenerState::Recording => true,
            _ => false,
        }
    }
}

/// Why a listener configuration was refused.
#[derive(Clone, Copy, Debug, PartialEq, Eq)]
pub enum ConfigError {
    /// The selected device index is not one of the enumerated indices.
    InvalidDeviceIndex,
    /// No keyword file was given; the engine needs at least one.
    NoKeywords,
}

/// Everything the listener loop consumes: the engine's access credential,
/// the selected device, the keyword files and the model file. Built once,
/// never mutated.
pub struct ListenerConfig {
    pub access_key: String,
    pub input_device_index: i32,
    pub keyword_paths: Vec<String>,
    pub model_path: String,
}

impl ListenerConfig {
    /// A configuration is well formed against an enumerated index set when
    /// its device index is a member and it names at least one keyword file.
    pub open spec fn wf(self, sources: Seq<i32>) -> bool {
        sources.contains(self.input_device_index) && self.keyword_paths@.len() >= 1
    }

    /// Bundle the listener's inputs, refusing a device index outside the
    /// enumerated set and an empty keyword list.
    pub fn new(
        access_key: String,
        input_device_index: i32,
        keyword_paths: Vec<String>,
        model_path: String,
        sources: &Vec<i32>,
    ) -> (r: Result<ListenerConfig, ConfigError>)
        ensures
            r is Ok <==> sources@.contains(input_device_index) && keyword_paths@.len() >= 1,
            r matches Ok(c) ==> c.wf(sources@) && c.access_key == access_key
                && c.input_device_index == input_device_index && c.keyword_paths == keyword_paths
                && c.model_path == model_path,
            r == Result::<ListenerConfig, ConfigError>::Err(ConfigError::InvalidDeviceIndex)
                <==> !sources@.contains(input_device_index),
            r == Result::<ListenerConfig, ConfigError>::Err(ConfigError::NoKeywords)
                <==> sources@.contains(input_device_index) && keyword_paths@.len() == 0,
    {
        if !crate::selector::contains_index(sources, input_device_index) {
            Result::Err(ConfigError::InvalidDeviceIndex)
        } else if keyword_paths.len() == 0 {
            Result::Err(ConfigError::NoKeywords)
        } else {
            Result::Ok(
                ListenerConfig { access_key, input_device_index, keyword_paths, model_path },
            )
        }
    }
}

/// The actions a recording listener takes over a run of events: one action
/// per event, cut short at the first stop.
pub open spec fn actions_of(events: Seq<ListenerEvent>) -> Seq<ListenerAction>
    decreases events.len(),
{
    if events.len() == 0 {
        Seq::empty()
    } else {
        let a = spec_step(events[0]).1;
        if a is Stop {
            seq![a]
        } else {
            seq![a] + actions_of(events.skip(1))
        }
    }
}

/// How many of the actions dispatch the key chord.
pub open spec fn count_dispatches(actions: Seq<ListenerAction>) -> int
    decreases actions.len(),
{
    if actions.len() == 0 {
        0int
    } else {
        (if actions[0] is Dispatch {
            1int
        } else {
            0int
        }) + count_dispatches(actions.skip(1))
    }
}

/// If the engine answers "no match" for every frame of a run, the run
/// dispatches nothing: the key chord is never synthesized.
pub proof fn lemma_no_match_no_dispatch(events: Seq<ListenerEvent>)
    requires
        forall|i: int|
            0 <= i < events.len() ==> ((#[trigger] events[i]) matches ListenerEvent::Frame { keyword_index }
                ==> keyword_index < 0),
    ensures
        count_dispatches(actions_of(events)) == 0,
    decreases events.len(),
{
    if events.len() > 0 {
        let rest = events.skip(1);
        assert(forall|i: int|
            0 <= i < rest.len() ==> ((#[trigger] rest[i]) matches ListenerEvent::Frame { keyword_index }
                ==> keyword_index < 0)) by {
            assert(forall|i: int| 0 <= i < rest.len() ==> rest[i] == events[i + 1]);
        }
        lemma_no_match_no_dispatch(rest);
        let acts = actions_of(events);
        match events[0] {
            ListenerEvent::Shutdown => {
                assert(acts == seq![ListenerAction::Stop]);
                assert(acts[0] == ListenerAction::Stop);
                assert(acts.skip(1) =~= Seq::<ListenerAction>::empty());
                assert(count_dispatches(Seq::<ListenerAction>::empty()) == 0);
                assert(acts.len() == 1);
                assert(count_dispatches(acts) == 0);
            },
            ListenerEvent::Frame { keyword_index } => {
                assert(keyword_index < 0);
                assert(acts == seq![ListenerAction::Continue] + actions_of(rest));
                assert(acts[0] == ListenerAction::Continue);
                assert(acts.skip(1) =~= actions_of(rest));
                assert(count_dispatches(acts) == count_dispatches(actions_of(rest)));
            },
        }
    }
}

/// If the engine answers "match" on exactly one frame of a run, and no
/// shutdown is observed up to that frame, the run dispatches exactly once.
pub proof fn lemma_single_match_single_dispatch(events: Seq<ListenerEvent>, k: int)
    requires
        0 <= k < events.len(),
        forall|i: int| 0 <= i <= k ==> (#[trigger] events[i]) is Frame,
        forall|i: int|
            0 <= i < events.len() ==> ((#[trigger] events[i]) matches ListenerEvent::Frame { keyword_index }
                ==> (keyword_index >= 0 <==> i == k)),
    ensures
        count_dispatches(actions_of(events)) == 1,
    decreases events.len(),
{
    let rest = events.skip(1);
    assert(forall|i: int| 0 <= i < rest.len() ==> rest[i] == events[i + 1]);
    let acts = actions_of(events);
    if k == 0 {
        assert(spec_step(events[0]).1 is Dispatch);
        assert(acts.skip(1) =~= actions_of(rest));
        assert(forall|i: int|
            0 <= i < rest.len() ==> ((#[trigger] rest[i]) matches ListenerEvent::Frame { keyword_index }
                ==> keyword_index < 0));
        lemma_no_match_no_dispatch(rest);
    } else {
        assert(events[0] is Frame);
        assert(spec_step(events[0]).1 is Continue);
        assert(acts.skip(1) =~= actions_of(rest));
        lemma_single_match_single_dispatch(rest, k - 1);
    }
}

/// Replay a run of events through the machine and collect the actions, so a
/// harness can drive the loop from a scripted frame sequence without an
/// audio device or a real signal.
pub fn simulate(events: &Vec<ListenerEvent>) -> (actions: Vec<ListenerAction>)
    ensures
        actions@ == actions_of(events@),
{
    proof {
        assert(events@.skip(0) =~= events@);
    }
    simulate_from(events, 0)
}

/// Replay the events from position `i` on.
fn simulate_from(events: &Vec<ListenerEvent>, i: usize) -> (actions: Vec<ListenerAction>)
    requires
        i <= events@.len(),
    ensures
        actions@ == actions_of(events@.skip(i as int)),
    decreases events@.len() - i,
{
    if i == events.len() {
        proof {
            assert(events@.skip(i as int) =~= Seq::<ListenerEvent>::empty());
        }
        Vec::new()
    } else {
        let suffix = Ghost(events@.skip(i as int));
        proof {
            assert(suffix@[0] == events@[i as int]);
            assert(suffix@.skip(1) =~= events@.skip(i + 1));
        }
        let event = events[i];
        let mut machine = Listener::new();
        machine.start();
        let action = machine.on_event(event);
        if matches!(action, ListenerAction::Stop) {
            let mut actions: Vec<ListenerAction> = Vec::new();
            actions.push(action);
            proof {
                assert(actions@ =~= actions_of(suffix@));
            }
            actions
        } else {
            let mut actions = simulate_from(events, i + 1);
            actions.insert(0, action);
            proof {
                assert(actions@ =~= actions_of(suffix@));
            }
            actions
        }
    }
}

/// The notice printed for one detection: the timestamp in brackets, then the
/// wake cry.
pub open spec fn notice_spec(timestamp: Seq<char>) -> Seq<char> {
    "["@ + timestamp + "] clippo!"@
}

/// Render the detection notice around a given timestamp text.
pub fn detection_notice_with(timestamp: &str) -> (r: String)
    ensures
        r@ == notice_spec(timestamp@),
{
    let mut r = String::from_str("[");
    r.append(timestamp);
    r.append("] clippo!");
    proof {
        assert(r@ =~= notice_spec(timestamp@));
    }
    r
}

/// The shape chrono's `%F %T` rendering always has: at least 19 characters,
/// `YYYY-MM-DD HH:MM:SS` counted from the end, with the year run (possibly
/// signed, possibly longer than four digits) in front.
pub open spec fn timestamp_shape(ts: Seq<char>) -> bool {
    let n = ts.len() as int;
    &&& n >= 19
    &&& ts[n - 15] == '-'
    &&& ts[n - 12] == '-'
    &&& ts[n - 9] == ' '
    &&& ts[n - 6] == ':'
    &&& ts[n - 3] == ':'
    &&& is_digit(ts[n - 14])
    &&& is_digit(ts[n - 13])
    &&& is_digit(ts[n - 11])
    &&& is_digit(ts[n - 10])
    &&& is_digit(ts[n - 8])
    &&& is_digit(ts[n - 7])
    &&& is_digit(ts[n - 5])
    &&& is_digit(ts[n - 4])
    &&& is_digit(ts[n - 2])
    &&& is_digit(ts[n - 1])
    &&& forall|i: int| 0 <= i < n - 15 ==> is_digit(ts[i]) || ts[i] == '+' || ts[i] == '-'
}

/// The timestamp printed when the clock cannot be read: the epoch itself.
fn fallback_timestamp() -> (r: String)
    ensures
        timestamp_shape(r@),
{
    let r = String::from_str("1970-01-01 00:00:00");
    proof {
        reveal_strlit("1970-01-01 00:00:00");
        assert(timestamp_shape(r@));
    }
    r
}

/// Render the detection notice for this moment: a clock reading of the
/// `YYYY-MM-DD HH:MM:SS` shape between brackets, then the wake cry. The
/// reading is in UTC (chrono's local-time lookup can abort on degenerate
/// time-zone data, so it is not used); when the clock cannot be read at
/// all, the epoch text stands in.
pub fn detection_notice() -> (r: String)
    ensures
        exists|timestamp: Seq<char>| timestamp_shape(timestamp) && r@ == notice_spec(timestamp),
{
    let timestamp: String = match clock_timestamp() {
        Option::Some(ts) => ts,
        Option::None => fallback_timestamp(),
    };
    let r = detection_notice_with(timestamp.as_str());
    proof {
        assert(timestamp_shape(timestamp@) && r@ == notice_spec(timestamp@));
    }
    r
}

} // verus!
