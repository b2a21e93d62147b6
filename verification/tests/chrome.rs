use webview_official::webview::chrome_backend::{
    on_probe, Action, Event, Failure, Session, Stage, Webview,
};
use webview_official::{Error, SizeHint, Window};

fn fresh() -> (Webview<'static>, Session) {
    match Webview::create(false, None) {
        Ok(made) => made,
        Err(error) => panic!("no session: {:?}", error),
    }
}

fn attached() -> (Webview<'static>, Session) {
    let (mut view, mut session) = fresh();
    view.run(&mut session);
    for _ in 0..4 {
        view.resume(&mut session, Event::Done);
    }
    assert!(session.has_tab());
    (view, session)
}

fn launch() -> Action {
    Action::Launch {
        headless: false,
        default_args: false,
        extra_args: vec!["--no-sandbox".to_string()],
        app_url: "data:text/html,%3Chtml%3E%3C%2Fhtml%3E".to_string(),
    }
}

#[test]
fn session_starts_idle_with_one_owner() {
    let (view, session) = fresh();
    assert_eq!(view.url(), "");
    assert!(session.live());
    assert_eq!(session.strong_count(), 1);
    assert_eq!(session.stage(), Stage::Idle);
    assert!(!session.has_tab());
}

#[test]
fn debug_makes_no_difference_to_a_session() {
    assert!(Webview::create(true, None).is_ok());
    assert!(Webview::create(false, None).is_ok());
}

#[test]
fn session_cannot_live_in_a_window() {
    let mut parent = Window::from_address(0x5000);
    assert!(matches!(Webview::create(false, Some(&mut parent)), Err(Error::Unsupported)));
    assert!(matches!(Webview::create(true, Some(&mut parent)), Err(Error::Unsupported)));
}

#[test]
fn run_goes_through_its_steps() {
    let (mut view, mut session) = fresh();
    view.navigate(&session, "https://example.test");
    assert_eq!(view.run(&mut session), launch());
    assert_eq!(session.stage(), Stage::Launching);
    assert_eq!(view.resume(&mut session, Event::Done), Action::WaitForInitialTab);
    assert_eq!(session.stage(), Stage::Attaching);
    assert_eq!(view.resume(&mut session, Event::Done), Action::AddEventListener);
    assert_eq!(session.stage(), Stage::Listening);
    assert_eq!(
        view.resume(&mut session, Event::Done),
        Action::NavigateTo { url: "https://example.test".to_string() }
    );
    assert_eq!(session.stage(), Stage::Navigating);
    assert!(!session.has_tab());
    assert_eq!(
        view.resume(&mut session, Event::Done),
        Action::WatchConnection { interval_secs: 1, probe: "window".to_string() }
    );
    assert_eq!(session.stage(), Stage::Watching);
    assert!(session.has_tab());
    assert_eq!(view.resume(&mut session, Event::Done), Action::AwaitShutdown);
    assert_eq!(session.stage(), Stage::Waiting);
    assert_eq!(view.resume(&mut session, Event::Done), Action::Finish);
    assert_eq!(session.stage(), Stage::Ended);
    assert_eq!(view.resume(&mut session, Event::Done), Action::Finish);
    assert_eq!(session.stage(), Stage::Ended);
}

#[test]
fn run_gives_up_where_a_step_fails() {
    let failures = [Failure::Launch, Failure::InitialTab, Failure::Listener, Failure::Navigation];
    for (done, failure) in failures.iter().enumerate() {
        let (mut view, mut session) = fresh();
        view.run(&mut session);
        for _ in 0..done {
            view.resume(&mut session, Event::Done);
        }
        assert_eq!(view.resume(&mut session, Event::Failed), Action::Abort { failure: *failure });
        assert_eq!(session.stage(), Stage::Failed);
        assert!(!session.has_tab());
        assert_eq!(view.resume(&mut session, Event::Done), Action::Finish);
        assert_eq!(view.resume(&mut session, Event::Failed), Action::Finish);
        assert_eq!(session.stage(), Stage::Failed);
    }
}

#[test]
fn wait_ends_however_the_channel_closes() {
    let (mut view, mut session) = attached();
    assert_eq!(view.resume(&mut session, Event::Failed), Action::AwaitShutdown);
    assert_eq!(view.resume(&mut session, Event::Failed), Action::Finish);
    assert_eq!(session.stage(), Stage::Ended);
}

#[test]
fn resume_without_run_asks_for_nothing() {
    let (mut view, mut session) = fresh();
    assert_eq!(view.resume(&mut session, Event::Done), Action::Finish);
    assert_eq!(view.resume(&mut session, Event::Failed), Action::Finish);
    assert_eq!(session.stage(), Stage::Idle);
}

#[test]
fn run_can_begin_again() {
    let (mut view, mut session) = attached();
    view.resume(&mut session, Event::Done);
    view.resume(&mut session, Event::Done);
    assert_eq!(session.stage(), Stage::Ended);
    assert_eq!(view.run(&mut session), launch());
    assert_eq!(session.stage(), Stage::Launching);
    assert!(session.has_tab());
}

#[test]
fn page_operations_wait_for_a_tab() {
    let (mut view, session) = fresh();
    assert_eq!(view.set_title(&session, "Hello"), None);
    assert_eq!(view.set_size(&session, 800, 600, SizeHint::NONE), None);
    assert_eq!(view.set_size(&session, -5, -5, SizeHint::NONE), None);
    assert_eq!(view.eval(&session, "1 + 1"), None);
    assert_eq!(view.navigate(&session, "https://example.test"), None);
    assert_eq!(view.url(), "https://example.test");
}

#[test]
fn set_title_assigns_the_title_as_json() {
    let (mut view, session) = attached();
    assert_eq!(
        view.set_title(&session, "Hello"),
        Some(Action::Evaluate {
            expression: "document.title = \"Hello\"".to_string(),
            await_promise: false
        })
    );
    assert_eq!(
        view.set_title(&session, "say \"hi\"\n"),
        Some(Action::Evaluate {
            expression: "document.title = \"say \\\"hi\\\"\\n\"".to_string(),
            await_promise: false
        })
    );
}

#[test]
fn set_size_sets_the_bounds() {
    let (mut view, session) = attached();
    for hint in [SizeHint::NONE, SizeHint::MIN, SizeHint::MAX, SizeHint::FIXED] {
        assert_eq!(
            view.set_size(&session, 800, 600, hint),
            Some(Action::SetBounds { width: 800, height: 600 })
        );
    }
    assert_eq!(
        view.set_size(&session, 0, i32::MAX, SizeHint::NONE),
        Some(Action::SetBounds { width: 0, height: 2147483647 })
    );
}

#[test]
fn navigate_with_a_tab_loads_at_once() {
    let (mut view, session) = attached();
    assert_eq!(
        view.navigate(&session, "https://next.test"),
        Some(Action::NavigateTo { url: "https://next.test".to_string() })
    );
    assert_eq!(view.url(), "https://next.test");
}

#[test]
fn eval_waits_for_promises() {
    let (mut view, session) = attached();
    assert_eq!(
        view.eval(&session, "fetch('/')"),
        Some(Action::Evaluate { expression: "fetch('/')".to_string(), await_promise: true })
    );
    assert_eq!(
        view.eval(&session, "a\0b"),
        Some(Action::Evaluate { expression: "a\0b".to_string(), await_promise: true })
    );
}

#[test]
fn init_bind_and_return_do_nothing() {
    let (mut view, _) = attached();
    assert_eq!(view.init("var a = 1;"), None);
    assert_eq!(view.bind("greet", 1), None);
    assert_eq!(view.return_("1", 0, "\"Hello Alice\""), None);
}

#[test]
fn dispatch_runs_the_closure_at_once() {
    let (mut view, _) = fresh();
    assert_eq!(view.dispatch(0x77), Action::RunClosure { closure: 0x77 });
}

#[test]
fn get_window_is_not_supported() {
    let (view, _) = attached();
    assert_eq!(view.get_window(), Err(Error::Unsupported));
}

#[test]
fn owner_terminate_signals_shutdown() {
    let (mut view, _) = fresh();
    assert_eq!(view.terminate(), Action::SignalShutdown);
    assert_eq!(view.terminate(), Action::SignalShutdown);
}

#[test]
fn lost_connection_ends_the_run() {
    assert_eq!(on_probe(true), None);
    assert_eq!(on_probe(false), Some(Action::SignalShutdown));
}

#[test]
fn weak_session_facade_works_while_the_owner_lives() {
    let (mut view, session) = attached();
    let mut weak = view.as_mut();
    assert_eq!(weak.terminate(&session), Ok(Some(view.terminate())));
    assert_eq!(weak.get_window(&session), Err(Error::Unsupported));
    assert_eq!(weak.dispatch(&session, 1), Err(Error::Unsupported));
    assert_eq!(weak.bind(&session, "greet", 1), Ok(view.bind("greet", 1)));
    assert_eq!(weak.return_(&session, "1", 0, "x"), Ok(view.return_("1", 0, "x")));
}

#[test]
fn weak_session_facade_fails_once_the_owner_is_gone() {
    let (mut view, mut session) = attached();
    let mut weak = view.as_mut();
    assert_eq!(view.release(&mut session), Some(Action::Close));
    assert!(!session.live());
    assert_eq!(weak.terminate(&session), Err(Error::WebviewNull));
    assert_eq!(weak.get_window(&session), Err(Error::WebviewNull));
    assert_eq!(weak.dispatch(&session, 1), Err(Error::WebviewNull));
    assert_eq!(weak.bind(&session, "greet", 1), Err(Error::WebviewNull));
    assert_eq!(weak.return_(&session, "1", 0, "x"), Err(Error::WebviewNull));
    assert!(weak.upgrade(&mut session).is_none());
    assert_eq!(session.strong_count(), 0);
}

#[test]
fn session_closes_with_its_last_owner() {
    let (mut view, mut session) = fresh();
    let weak = view.as_mut();
    let second = view.share(&mut session).expect("the session lives");
    let third = weak.upgrade(&mut session).expect("the session lives");
    assert_eq!(session.strong_count(), 3);
    assert_eq!(third.url(), "");
    assert_eq!(view.release(&mut session), None);
    assert_eq!(third.release(&mut session), None);
    assert!(session.live());
    assert_eq!(second.release(&mut session), Some(Action::Close));
    assert!(!session.live());
    assert!(weak.upgrade(&mut session).is_none());
}

#[test]
fn terminate_from_a_weak_facade_ends_the_session_run() {
    let (mut view, mut session) = fresh();
    view.navigate(&session, "https://example.test");
    let mut weak = view.as_mut();
    assert_eq!(view.run(&mut session), launch());
    let mut last = Action::Finish;
    for _ in 0..5 {
        last = view.resume(&mut session, Event::Done);
    }
    assert_eq!(last, Action::AwaitShutdown);
    assert_eq!(weak.terminate(&session), Ok(Some(Action::SignalShutdown)));
    assert_eq!(view.resume(&mut session, Event::Done), Action::Finish);
    assert_eq!(view.release(&mut session), Some(Action::Close));
    assert_eq!(weak.terminate(&session), Err(Error::WebviewNull));
}
