use app_delegate::activation::{ActivationState, Phase, Resignation};
use app_delegate::apple_event::AppleEventRecord;
use app_delegate::codes::URL_EVENT_CODE;
use app_delegate::delegate::{AppDelegate, AppEvent, Callback, Effect};

fn finish(name: &str) -> Callback {
    Callback::DidFinishLaunching { process_name: name.to_string() }
}

#[test]
fn state_starts_inactive() {
    let s = ActivationState::new();
    assert_eq!(s.phase(), Phase::Inactive);
    assert_eq!(s.did_resign_active(), Resignation::Accept);
}

#[test]
fn resign_before_input_refocuses() {
    let mut s = ActivationState::new();
    s.did_become_active();
    assert_eq!(s.phase(), Phase::AwaitingInput);
    assert_eq!(s.did_resign_active(), Resignation::Refocus);
}

#[test]
fn resign_after_input_is_accepted() {
    let mut s = ActivationState::new();
    s.did_become_active();
    s.mouse_moved();
    assert_eq!(s.phase(), Phase::Confirmed);
    assert_eq!(s.did_resign_active(), Resignation::Accept);
}

#[test]
fn input_before_activation_is_ignored() {
    let mut s = ActivationState::new();
    s.mouse_moved();
    assert_eq!(s.phase(), Phase::Inactive);
    s.did_become_active();
    assert_eq!(s.phase(), Phase::AwaitingInput);
}

#[test]
fn becoming_active_again_keeps_confirmation() {
    let mut s = ActivationState::new();
    s.did_become_active();
    s.mouse_moved();
    s.did_become_active();
    assert_eq!(s.phase(), Phase::Confirmed);
}

#[test]
fn delegate_refocuses_once_without_input() {
    let mut d = AppDelegate::new();
    assert!(d.handle(Callback::DidBecomeActive).is_empty());
    assert_eq!(d.handle(Callback::DidResignActive), vec![Effect::ActivateIgnoringOtherApps]);
    d.dealloc();
}

#[test]
fn delegate_does_not_refocus_after_input() {
    let mut d = AppDelegate::new();
    assert!(d.handle(Callback::DidBecomeActive).is_empty());
    assert!(d.handle(Callback::MouseMoved).is_empty());
    assert!(d.handle(Callback::DidResignActive).is_empty());
    assert_eq!(d.phase(), Phase::Confirmed);
    d.dealloc();
}

#[test]
fn resignation_twice_when_confirmed_does_nothing() {
    let mut d = AppDelegate::new();
    d.handle(Callback::DidBecomeActive);
    d.handle(Callback::MouseMoved);
    assert!(d.handle(Callback::DidResignActive).is_empty());
    assert!(d.handle(Callback::DidResignActive).is_empty());
}

#[test]
fn will_finish_registers_url_handler() {
    let mut d = AppDelegate::new();
    let e = d.handle(Callback::WillFinishLaunching);
    assert_eq!(
        e,
        vec![Effect::RegisterUrlHandler { event_class: 0x4755524c, event_id: 0x4755524c }]
    );
    assert_eq!(d.handle(Callback::WillFinishLaunching), e);
}

#[test]
fn did_finish_launching_effects_in_order() {
    let mut d = AppDelegate::new();
    let e = d.handle(finish("Editor"));
    assert_eq!(
        e,
        vec![
            Effect::Launched,
            Effect::InstallMenu { quit_title: "Quit Editor".to_string(), quit_key: 'q' },
            Effect::SetRegularActivationPolicy,
            Effect::ActivateIgnoringOtherApps,
        ]
    );
}

#[test]
fn launched_reported_once() {
    let mut d = AppDelegate::new();
    let mut launches = 0;
    let calls = vec![
        Callback::WillFinishLaunching,
        finish("Editor"),
        Callback::DidBecomeActive,
        finish("Editor"),
        Callback::DidResignActive,
        finish("Other"),
    ];
    for cb in calls {
        launches += d.handle(cb).iter().filter(|e| **e == Effect::Launched).count();
    }
    assert_eq!(launches, 1);
}

#[test]
fn url_event_is_queued() {
    let mut d = AppDelegate::new();
    let rec = AppleEventRecord {
        event_class: URL_EVENT_CODE,
        event_id: URL_EVENT_CODE,
        direct_param: Some(b"https://example.com/path".to_vec()),
    };
    assert_eq!(
        d.handle(Callback::HandleUrl(rec)),
        vec![Effect::QueueEvent(AppEvent::ReceivedUrl("https://example.com/path".to_string()))]
    );
}

#[test]
fn non_url_event_is_ignored() {
    let mut d = AppDelegate::new();
    let rec = AppleEventRecord {
        event_class: URL_EVENT_CODE,
        event_id: 1,
        direct_param: Some(b"https://example.com/path".to_vec()),
    };
    assert!(d.handle(Callback::HandleUrl(rec)).is_empty());
    let rec = AppleEventRecord { event_class: URL_EVENT_CODE, event_id: URL_EVENT_CODE, direct_param: None };
    assert!(d.handle(Callback::HandleUrl(rec)).is_empty());
}

#[test]
fn state_lives_until_dealloc() {
    let mut d = AppDelegate::new();
    assert!(d.is_live());
    d.handle(Callback::WillFinishLaunching);
    d.handle(finish("Editor"));
    d.handle(Callback::DidBecomeActive);
    d.handle(Callback::MouseMoved);
    d.handle(Callback::DidResignActive);
    assert!(d.is_live());
    d.dealloc();
    assert!(!d.is_live());
}
