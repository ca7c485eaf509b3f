//! The application delegate: turns each lifecycle callback of the native
//! runtime into the ordered list of effects that the host performs.
use vstd::prelude::*;
use vstd::string::StringExecFns;

use crate::activation::{ActivationState, Phase, Resignation};
use crate::apple_event::{parse_url, url_of, AppleEventRecord};
use crate::codes::URL_EVENT_CODE;

verus! {

/// An application event handed to the event queue.
#[derive(Clone, Debug, PartialEq, Eq)]
pub enum AppEvent {
    /// The application was asked to open a URL.
    ReceivedUrl(String),
}

/// A callback that the native runtime delivers to the delegate.
#[derive(Clone, Debug, PartialEq, Eq)]
pub enum Callback {
    WillFinishLaunching,
    /// Launch completed; carries the process's display name.
    DidFinishLaunching { process_name: String },
    DidBecomeActive,
    DidResignActive,
    /// Input was observed after activation.
    MouseMoved,
    /// An Apple Event reached the URL handler.
    HandleUrl(AppleEventRecord),
}

/// A side effect that the host performs on behalf of the delegate, in order.
#[derive(Clone, Debug, PartialEq, Eq)]
pub enum Effect {
    /// Register the delegate as the handler of this Apple Event class/id pair.
    RegisterUrlHandler { event_class: u32, event_id: u32 },
    /// Tell the event sink that launch completed.
    Launched,
    /// Install a menu bar with one application menu holding one item that
    /// terminates the application.
    InstallMenu { quit_title: String, quit_key: char },
    /// Make the application a regular, foreground application.
    SetRegularActivationPolicy,
    /// Activate the application, ignoring other applications.
    ActivateIgnoringOtherApps,
    /// Hand an event to the event queue.
    QueueEvent(AppEvent),
}

/// The meaning of an effect.
pub enum EffectView {
    RegisterUrlHandler { event_class: u32, event_id: u32 },
    Launched,
    InstallMenu { quit_title: Seq<char>, quit_key: char },
    SetRegularActivationPolicy,
    ActivateIgnoringOtherApps,
    QueueReceivedUrl(Seq<char>),
}

impl View for Effect {
    type V = EffectView;

    open spec fn view(&self) -> EffectView {
        match self {
            Effect::RegisterUrlHandler { event_class, event_id } => EffectView::RegisterUrlHandler {
                event_class: *event_class,
                event_id: *event_id,
            },
            Effect::Launched => EffectView::Launched,
            Effect::InstallMenu { quit_title, quit_key } => EffectView::InstallMenu {
                quit_title: quit_title@,
                quit_key: *quit_key,
            },
            Effect::SetRegularActivationPolicy => EffectView::SetRegularActivationPolicy,
            Effect::ActivateIgnoringOtherApps => EffectView::ActivateIgnoringOtherApps,
            Effect::QueueEvent(AppEvent::ReceivedUrl(u)) => EffectView::QueueReceivedUrl(u@),
        }
    }
}

pub open spec fn effects_view(v: Seq<Effect>) -> Seq<EffectView> {
    v.map_values(|e: Effect| e@)
}

/// The meaning of a delegate: whether its activation state is allocated, the
/// phase of that state, and whether launch has been reported.
pub struct DelegateView {
    pub live: bool,
    pub phase: Phase,
    pub launched: bool,
}

/// The title of the quit item: `Quit ` followed by the process name.
pub open spec fn quit_title_of(process_name: Seq<char>) -> Seq<char> {
    "Quit "@ + process_name
}

/// The state a delegate has right after construction.
pub open spec fn initial_view() -> DelegateView {
    DelegateView { live: true, phase: Phase::Inactive, launched: false }
}

/// The next state and the effects of one callback.
pub open spec fn step(s: DelegateView, cb: Callback) -> (DelegateView, Seq<EffectView>) {
    match cb {
        Callback::WillFinishLaunching => (
            s,
            seq![
                EffectView::RegisterUrlHandler {
                    event_class: URL_EVENT_CODE,
                    event_id: URL_EVENT_CODE,
                },
            ],
        ),
        Callback::DidFinishLaunching { process_name } => if s.launched {
            (s, Seq::empty())
        } else {
            (
                DelegateView { launched: true, ..s },
                seq![
                    EffectView::Launched,
                    EffectView::InstallMenu {
                        quit_title: quit_title_of(process_name@),
                        quit_key: 'q',
                    },
                    EffectView::SetRegularActivationPolicy,
                    EffectView::ActivateIgnoringOtherApps,
                ],
            )
        },
        Callback::DidBecomeActive => (
            DelegateView {
                phase: if s.phase == Phase::Inactive {
                    Phase::AwaitingInput
                } else {
                    s.phase
                },
                ..s
            },
            Seq::empty(),
        ),
        Callback::DidResignActive => if s.phase == Phase::AwaitingInput {
            (s, seq![EffectView::ActivateIgnoringOtherApps])
        } else {
            (s, Seq::empty())
        },
        Callback::MouseMoved => (
            DelegateView {
                phase: if s.phase == Phase::AwaitingInput {
                    Phase::Confirmed
                } else {
                    s.phase
                },
                ..s
            },
            Seq::empty(),
        ),
        Callback::HandleUrl(rec) => match url_of(rec) {
            Some(u) => (s, seq![EffectView::QueueReceivedUrl(u)]),
            None => (s, Seq::empty()),
        },
    }
}

/// The state after a sequence of callbacks, and all their effects in order.
pub open spec fn run(s: DelegateView, cbs: Seq<Callback>) -> (DelegateView, Seq<EffectView>)
    decreases cbs.len(),
{
    if cbs.len() == 0 {
        (s, Seq::empty())
    } else {
        let (s1, e1) = run(s, cbs.drop_last());
        let (s2, e2) = step(s1, cbs.last());
        (s2, e1 + e2)
    }
}

/// How many times an effect list reports launch.
pub open spec fn launch_count(e: Seq<EffectView>) -> nat
    decreases e.len(),
{
    if e.len() == 0 {
        0
    } else {
        launch_count(e.drop_last()) + if e.last() is Launched {
            1nat
        } else {
            0nat
        }
    }
}

/// Whether a callback sequence delivers "did finish launching" at least once.
pub open spec fn finishes_launching(cbs: Seq<Callback>) -> bool {
    exists|i: int| 0 <= i < cbs.len() && cbs[i] is DidFinishLaunching
}

proof fn lemma_launch_count_append(a: Seq<EffectView>, b: Seq<EffectView>)
    ensures
        launch_count(a + b) == launch_count(a) + launch_count(b),
    decreases b.len(),
{
    if b.len() > 0 {
        lemma_launch_count_append(a, b.drop_last());
        assert((a + b).drop_last() =~= a + b.drop_last());
    }
}

proof fn lemma_step_launch(s: DelegateView, cb: Callback)
    ensures
        step(s, cb).0.launched == (s.launched || cb is DidFinishLaunching),
        launch_count(step(s, cb).1) == (if !s.launched && cb is DidFinishLaunching {
            1nat
        } else {
            0nat
        }),
{
    let e = step(s, cb).1;
    reveal_with_fuel(launch_count, 5);
    if e.len() == 4 {
        assert(e.drop_last().drop_last().drop_last().drop_last() =~= Seq::<EffectView>::empty());
    }
}

/// Launch is reported exactly once over any sequence of callbacks that finishes
/// launching, however often it does, and never over one that does not; the
/// flag that records it is set exactly then.
pub proof fn lemma_launched_once(s: DelegateView, cbs: Seq<Callback>)
    ensures
        run(s, cbs).0.launched == (s.launched || finishes_launching(cbs)),
        launch_count(run(s, cbs).1) == (if !s.launched && finishes_launching(cbs) {
            1nat
        } else {
            0nat
        }),
    decreases cbs.len(),
{
    if cbs.len() > 0 {
        let init = cbs.drop_last();
        lemma_launched_once(s, init);
        let (s1, e1) = run(s, init);
        lemma_step_launch(s1, cbs.last());
        lemma_launch_count_append(e1, step(s1, cbs.last()).1);
        if finishes_launching(init) {
            let i = choose|i: int| 0 <= i < init.len() && init[i] is DidFinishLaunching;
            assert(cbs[i] == init[i]);
        }
        if finishes_launching(cbs) && !finishes_launching(init) {
            let i = choose|i: int| 0 <= i < cbs.len() && cbs[i] is DidFinishLaunching;
            if i < init.len() {
                assert(init[i] == cbs[i]);
            }
        }
        if cbs.last() is DidFinishLaunching {
            assert(cbs[cbs.len() - 1] is DidFinishLaunching);
        }
    }
}

/// From a fresh delegate, any sequence of callbacks reports launch exactly when
/// it finishes launching, and then once.
pub proof fn lemma_launched_once_from_start(cbs: Seq<Callback>)
    ensures
        launch_count(run(initial_view(), cbs).1) == (if finishes_launching(cbs) {
            1nat
        } else {
            0nat
        }),
{
    lemma_launched_once(initial_view(), cbs);
}

/// No callback allocates or releases the activation state: it stays allocated
/// from construction through any sequence of callbacks, so that the one release
/// is the delegate's `dealloc`.
pub proof fn lemma_state_lifetime(s: DelegateView, cbs: Seq<Callback>)
    ensures
        run(s, cbs).0.live == s.live,
        run(initial_view(), cbs).0.live,
    decreases cbs.len(),
{
    if cbs.len() > 0 {
        lemma_state_lifetime(s, cbs.drop_last());
    }
}

/// From an inactive delegate, becoming active and then resigning refocuses
/// once; with input observed in between, it does not.
pub proof fn lemma_refocus_only_without_input(s: DelegateView)
    requires
        s.phase == Phase::Inactive,
    ensures
        run(s, seq![Callback::DidBecomeActive, Callback::DidResignActive]).1
            == seq![EffectView::ActivateIgnoringOtherApps],
        run(
            s,
            seq![Callback::DidBecomeActive, Callback::MouseMoved, Callback::DidResignActive],
        ).1 == Seq::<EffectView>::empty(),
{
    let e = Seq::<Callback>::empty();
    let a1 = seq![Callback::DidBecomeActive];
    let a = seq![Callback::DidBecomeActive, Callback::DidResignActive];
    let b2 = seq![Callback::DidBecomeActive, Callback::MouseMoved];
    let b = seq![Callback::DidBecomeActive, Callback::MouseMoved, Callback::DidResignActive];
    assert(a1.drop_last() =~= e);
    assert(a.drop_last() =~= a1);
    assert(b2.drop_last() =~= a1);
    assert(b.drop_last() =~= b2);
    let s1 = DelegateView { phase: Phase::AwaitingInput, ..s };
    assert(run(s, e) == (s, Seq::<EffectView>::empty()));
    assert(run(s, a1).0 == s1);
    assert(run(s, a1).1 =~= Seq::<EffectView>::empty());
    assert(run(s, a).1 =~= seq![EffectView::ActivateIgnoringOtherApps]);
    let s2 = DelegateView { phase: Phase::Confirmed, ..s };
    assert(run(s, b2).0 == s2);
    assert(run(s, b2).1 =~= Seq::<EffectView>::empty());
    assert(run(s, b).1 =~= Seq::<EffectView>::empty());
}

/// The per-instance state of the application delegate.
pub struct AppDelegate {
    activation: Option<ActivationState>,
    launched: bool,
}

impl View for AppDelegate {
    type V = DelegateView;

    closed spec fn view(&self) -> DelegateView {
        DelegateView {
            live: self.activation.is_some(),
            phase: match self.activation {
                Some(a) => a.phase_of(),
                None => Phase::Inactive,
            },
            launched: self.launched,
        }
    }
}

impl AppDelegate {
    pub closed spec fn wf(&self) -> bool {
        match self.activation {
            Some(a) => a.wf(),
            None => true,
        }
    }

    /// Constructs the delegate and allocates its activation state.
    pub fn new() -> (r: AppDelegate)
        ensures
            r.wf(),
            r@ == initial_view(),
    {
        AppDelegate { activation: Some(ActivationState::new()), launched: false }
    }

    /// Releases the activation state; only a live delegate can release it.
    pub fn dealloc(&mut self)
        requires
            old(self).wf(),
            old(self)@.live,
        ensures
            final(self).wf(),
            !final(self)@.live,
            final(self)@.launched == old(self)@.launched,
    {
        self.activation = None;
    }

    /// Whether the activation state is allocated.
    pub fn is_live(&self) -> (r: bool)
        ensures
            r == self@.live,
    {
        self.activation.is_some()
    }

    /// The phase of the activation hack.
    pub fn phase(&self) -> (r: Phase)
        requires
            self.wf(),
            self@.live,
        ensures
            r == self@.phase,
    {
        match &self.activation {
            Some(a) => a.phase(),
            None => Phase::Inactive,
        }
    }

    /// Handles one callback and returns the effects to perform, in order.
    pub fn handle(&mut self, cb: Callback) -> (r: Vec<Effect>)
        requires
            old(self).wf(),
            old(self)@.live,
        ensures
            final(self).wf(),
            final(self)@ == step(old(self)@, cb).0,
            effects_view(r@) == step(old(self)@, cb).1,
    {
        let ghost cb0 = cb;
        let mut r: Vec<Effect> = Vec::new();
        match cb {
            Callback::WillFinishLaunching => {
                r.push(
                    Effect::RegisterUrlHandler {
                        event_class: URL_EVENT_CODE,
                        event_id: URL_EVENT_CODE,
                    },
                );
            },
            Callback::DidFinishLaunching { process_name } => {
                if !self.launched {
                    self.launched = true;
                    let mut title = String::from_str("Quit ");
                    title.append(process_name.as_str());
                    r.push(Effect::Launched);
                    r.push(Effect::InstallMenu { quit_title: title, quit_key: 'q' });
                    r.push(Effect::SetRegularActivationPolicy);
                    r.push(Effect::ActivateIgnoringOtherApps);
                }
            },
            Callback::DidBecomeActive => {
                let mut a = self.activation.take().unwrap();
                a.did_become_active();
                self.activation = Some(a);
            },
            Callback::DidResignActive => {
                let a = self.activation.as_ref().unwrap();
                if a.did_resign_active() == Resignation::Refocus {
                    r.push(Effect::ActivateIgnoringOtherApps);
                }
            },
            Callback::MouseMoved => {
                let mut a = self.activation.take().unwrap();
                a.mouse_moved();
                self.activation = Some(a);
            },
            Callback::HandleUrl(rec) => {
                if let Some(u) = parse_url(&rec) {
                    r.push(Effect::QueueEvent(AppEvent::ReceivedUrl(u)));
                }
            },
        }
        assert(effects_view(r@) =~= step(old(self)@, cb0).1);
        r
    }
}

} // verus!
