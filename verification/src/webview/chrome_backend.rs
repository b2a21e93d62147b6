use crate::error::Error;
use crate::owners::{after_join, after_leave, Owners};
use crate::script::{json_string, title_assignment, title_script};
use crate::webview::{SizeHint, Window};
use vstd::prelude::*;

verus! {

/// Where a run failed before the browser was up.
#[derive(Debug, Clone, Copy, PartialEq, Eq, Structural)]
pub enum Failure {
    /// No browser could be started.
    Launch,
    /// The browser showed no first tab.
    InitialTab,
    /// The tab took no event listener.
    Listener,
    /// The tab could not be sent to the pending address.
    Navigation,
}

/// How the step that a run last asked for went.
#[derive(Debug, Clone, Copy, PartialEq, Eq, Structural)]
pub enum Event {
    /// It was carried out.
    Done,
    /// It could not be carried out.
    Failed,
}

/// How far a run has come.
#[derive(Debug, Clone, Copy, PartialEq, Eq, Structural)]
pub enum Stage {
    /// No run has begun.
    Idle,
    /// The browser is being started.
    Launching,
    /// The browser's first tab is awaited.
    Attaching,
    /// The tab is given its event listener.
    Listening,
    /// The tab is sent to the pending address.
    Navigating,
    /// The watch on the connection is being set up.
    Watching,
    /// The run waits for the signal to end.
    Waiting,
    /// The run has returned.
    Ended,
    /// The run has given up.
    Failed,
}

/// One thing for the embedding program to do with the remote browser, with
/// all it needs as plain values.
#[derive(Debug, PartialEq, Eq)]
pub enum Action {
    /// Start a browser: with a window unless `headless`, with the
    /// browser's usual arguments only if `default_args`, with `extra_args`
    /// besides, showing `app_url`.
    Launch { headless: bool, default_args: bool, extra_args: Vec<String>, app_url: String },
    /// Wait for the browser's first tab and attach to it.
    WaitForInitialTab,
    /// Have the tab report its events.
    AddEventListener,
    /// Send the tab to `url`.
    NavigateTo { url: String },
    /// Have the tab evaluate `expression`, and wait for a promise it
    /// returns if `await_promise`.
    Evaluate { expression: String, await_promise: bool },
    /// Give the browser's window this size, in pixels.
    SetBounds { width: u32, height: u32 },
    /// From now on, every `interval_secs` seconds, have the tab evaluate
    /// `probe` and report how it went.
    WatchConnection { interval_secs: u64, probe: String },
    /// Block until the signal to end arrives.
    AwaitShutdown,
    /// Send the signal to end.
    SignalShutdown,
    /// Run the closure now, once, on the facade that asked.
    RunClosure { closure: usize },
    /// Let the browser go: its last owner is gone.
    Close,
    /// Return from the run.
    Finish,
    /// Give up the run: the browser could not be brought up.
    Abort { failure: Failure },
}

/// A thing to do with the remote browser, as a mathematical value.
pub enum ActionView {
    Launch { headless: bool, default_args: bool, extra_args: Seq<Seq<char>>, app_url: Seq<char> },
    WaitForInitialTab,
    AddEventListener,
    NavigateTo { url: Seq<char> },
    Evaluate { expression: Seq<char>, await_promise: bool },
    SetBounds { width: int, height: int },
    WatchConnection { interval_secs: int, probe: Seq<char> },
    AwaitShutdown,
    SignalShutdown,
    RunClosure { closure: usize },
    Close,
    Finish,
    Abort { failure: Failure },
}

impl View for Action {
    type V = ActionView;

    open spec fn view(&self) -> ActionView {
        match *self {
            Action::Launch { headless, default_args, extra_args, app_url } => ActionView::Launch {
                headless,
                default_args,
                extra_args: extra_args@.map_values(|arg: String| arg@),
                app_url: app_url@,
            },
            Action::WaitForInitialTab => ActionView::WaitForInitialTab,
            Action::AddEventListener => ActionView::AddEventListener,
            Action::NavigateTo { url } => ActionView::NavigateTo { url: url@ },
            Action::Evaluate { expression, await_promise } => ActionView::Evaluate {
                expression: expression@,
                await_promise,
            },
            Action::SetBounds { width, height } => ActionView::SetBounds {
                width: width as int,
                height: height as int,
            },
            Action::WatchConnection { interval_secs, probe } => ActionView::WatchConnection {
                interval_secs: interval_secs as int,
                probe: probe@,
            },
            Action::AwaitShutdown => ActionView::AwaitShutdown,
            Action::SignalShutdown => ActionView::SignalShutdown,
            Action::RunClosure { closure } => ActionView::RunClosure { closure },
            Action::Close => ActionView::Close,
            Action::Finish => ActionView::Finish,
            Action::Abort { failure } => ActionView::Abort { failure },
        }
    }
}

/// What an operation asks for, if anything, as a mathematical value.
pub open spec fn asked(action: Option<Action>) -> Option<ActionView> {
    match action {
        Some(action) => Some(action@),
        None => None,
    }
}

/// What an operation of a non-owning facade came to.
pub open spec fn outcome(result: Result<Option<Action>, Error>) -> Result<
    Option<ActionView>,
    Error,
> {
    match result {
        Ok(action) => Ok(asked(action)),
        Err(error) => Err(error),
    }
}

/// What an operation comes to through a non-owning facade: the same as
/// through an owner while the session lives, and nothing once it is gone.
pub open spec fn weakly(live: bool, owned: Result<Option<ActionView>, Error>) -> Result<
    Option<ActionView>,
    Error,
> {
    if live {
        owned
    } else {
        Err(Error::WebviewNull)
    }
}

/// The page that a fresh browser shows: an empty document.
pub open spec fn blank_page() -> Seq<char> {
    "data:text/html,%3Chtml%3E%3C%2Fhtml%3E"@
}

/// The one argument added to the browser's command line.
pub open spec fn no_sandbox() -> Seq<char> {
    "--no-sandbox"@
}

/// The expression whose evaluation shows that the browser still answers.
pub open spec fn probe_expression() -> Seq<char> {
    "window"@
}

/// The first thing a run asks for: a browser with a window, without the
/// usual arguments, outside the sandbox, on an empty page.
pub open spec fn launch() -> ActionView {
    ActionView::Launch {
        headless: false,
        default_args: false,
        extra_args: seq![no_sandbox()],
        app_url: blank_page(),
    }
}

/// The watch on the connection: one probe a second.
pub open spec fn watch() -> ActionView {
    ActionView::WatchConnection { interval_secs: 1, probe: probe_expression() }
}

/// What a session is, as plain values.
pub struct SessionView {
    /// How many facades own the session.
    pub owners: nat,
    /// How far the run has come.
    pub stage: Stage,
    /// Whether a tab is attached. Until then the facade's operations on
    /// the page have nothing to act on.
    pub tab: bool,
}

impl SessionView {
    /// Whether the session has an owner left.
    pub open spec fn is_live(self) -> bool {
        self.owners > 0
    }

    /// The session as `create` leaves it: one owner, no run, no tab.
    pub open spec fn fresh() -> SessionView {
        SessionView { owners: 1, stage: Stage::Idle, tab: false }
    }

    /// After an attempt to add an owner.
    pub open spec fn after_join(self) -> SessionView {
        SessionView { owners: after_join(self.owners), ..self }
    }

    /// After `times` attempts to add an owner, one after another.
    pub open spec fn after_joins(self, times: nat) -> SessionView
        decreases times,
    {
        if times == 0 {
            self
        } else {
            self.after_join().after_joins((times - 1) as nat)
        }
    }

    /// After an owner went.
    pub open spec fn after_release(self) -> SessionView {
        SessionView { owners: after_leave(self.owners), ..self }
    }

    /// After a run began.
    pub open spec fn after_run(self) -> SessionView {
        SessionView { stage: Stage::Launching, ..self }
    }

    /// Whether no run is under way: none has begun, or the last one has
    /// returned or given up.
    pub open spec fn at_rest(self) -> bool {
        self.stage == Stage::Idle || self.stage == Stage::Ended || self.stage == Stage::Failed
    }

    /// After the run took note of how each of its steps went, in order.
    pub open spec fn after_resumes(self, events: Seq<Event>) -> SessionView
        decreases events.len(),
    {
        if events.len() == 0 {
            self
        } else {
            self.after_resumes(events.drop_last()).after_resume(events.last())
        }
    }

    /// After the run took note of how its last step went.
    pub open spec fn after_resume(self, event: Event) -> SessionView {
        match (self.stage, event) {
            (Stage::Launching, Event::Done) => SessionView { stage: Stage::Attaching, ..self },
            (Stage::Attaching, Event::Done) => SessionView { stage: Stage::Listening, ..self },
            (Stage::Listening, Event::Done) => SessionView { stage: Stage::Navigating, ..self },
            (Stage::Navigating, Event::Done) => SessionView {
                stage: Stage::Watching,
                tab: true,
                ..self
            },
            (Stage::Launching, Event::Failed)
            | (Stage::Attaching, Event::Failed)
            | (Stage::Listening, Event::Failed)
            | (Stage::Navigating, Event::Failed) => SessionView { stage: Stage::Failed, ..self },
            (Stage::Watching, _) => SessionView { stage: Stage::Waiting, ..self },
            (Stage::Waiting, _) => SessionView { stage: Stage::Ended, ..self },
            (Stage::Idle, _) | (Stage::Ended, _) | (Stage::Failed, _) => self,
        }
    }

    /// What the run asks for next, given how its last step went.
    pub open spec fn resume_action(self, url: Seq<char>, event: Event) -> ActionView {
        match (self.stage, event) {
            (Stage::Launching, Event::Done) => ActionView::WaitForInitialTab,
            (Stage::Attaching, Event::Done) => ActionView::AddEventListener,
            (Stage::Listening, Event::Done) => ActionView::NavigateTo { url },
            (Stage::Navigating, Event::Done) => watch(),
            (Stage::Launching, Event::Failed) => ActionView::Abort { failure: Failure::Launch },
            (Stage::Attaching, Event::Failed) => ActionView::Abort {
                failure: Failure::InitialTab,
            },
            (Stage::Listening, Event::Failed) => ActionView::Abort { failure: Failure::Listener },
            (Stage::Navigating, Event::Failed) => ActionView::Abort {
                failure: Failure::Navigation,
            },
            (Stage::Watching, _) => ActionView::AwaitShutdown,
            (Stage::Waiting, _) => ActionView::Finish,
            (Stage::Idle, _) | (Stage::Ended, _) | (Stage::Failed, _) => ActionView::Finish,
        }
    }
}

/// The state of one remote browser session that its facades share: who
/// owns it, how far its run has come, and whether a tab is attached.
pub struct Session {
    owners: Owners,
    stage: Stage,
    tab: bool,
}

impl View for Session {
    type V = SessionView;

    closed spec fn view(&self) -> SessionView {
        SessionView { owners: self.owners.count(), stage: self.stage, tab: self.tab }
    }
}

/// The owning facade of a remote browser session. Each operation returns
/// what to do with the browser, if anything; before a tab is attached the
/// operations on the page do nothing.
pub struct Webview<'a> {
    url: &'a str,
}

/// The non-owning facade of a remote browser session. It does not keep the
/// session alive, and each of its operations fails once the session is
/// gone.
#[derive(Debug, Clone, Copy)]
pub struct WebviewMut {}

/// What the watch on the connection makes of one probe: a browser that no
/// longer answers is taken for lost, and the run is told to end.
pub fn on_probe(answered: bool) -> (action: Option<Action>)
    ensures
        asked(action) == (if answered {
            None
        } else {
            Some(ActionView::SignalShutdown)
        }),
{
    if answered {
        None
    } else {
        Some(Action::SignalShutdown)
    }
}

impl Session {
    /// Whether the session has an owner left.
    pub fn live(&self) -> (live: bool)
        ensures
            live == self@.is_live(),
    {
        self.owners.live()
    }

    /// How many facades own the session.
    pub fn strong_count(&self) -> (count: usize)
        ensures
            count == self@.owners,
    {
        self.owners.strong_count()
    }

    /// How far the run has come.
    pub fn stage(&self) -> (stage: Stage)
        ensures
            stage == self@.stage,
    {
        self.stage
    }

    /// Whether a tab is attached.
    pub fn has_tab(&self) -> (tab: bool)
        ensures
            tab == self@.tab,
    {
        self.tab
    }
}

impl<'a> Webview<'a> {
    /// The address that `run` will load.
    pub closed spec fn target(&self) -> Seq<char> {
        self.url@
    }

    /// The action by which `set_title` sets the title.
    pub open spec fn title_action(title: Seq<char>) -> ActionView {
        ActionView::Evaluate {
            expression: title_assignment(json_string(title)),
            await_promise: false,
        }
    }

    /// What an operation on the page asks for: `action` if a tab is
    /// attached, else nothing.
    pub open spec fn on_tab(session: SessionView, action: ActionView) -> Option<ActionView> {
        if session.tab {
            Some(action)
        } else {
            None
        }
    }

    /// The address that `run` will load.
    pub fn url(&self) -> (url: &'a str)
        ensures
            url@ == self.target(),
    {
        self.url
    }

    /// Makes a session: the facade that owns it and the session with that
    /// one owner, no browser yet. A session cannot live inside a window of
    /// the host program: with a `window` there is no session. The debug
    /// switch has no effect.
    pub fn create(_debug: bool, window: Option<&mut Window>) -> (made: Result<
        (Webview<'static>, Session),
        Error,
    >)
        ensures
            window is Some ==> made == Err::<(Webview<'static>, Session), Error>(
                Error::Unsupported,
            ),
            window is None ==> made is Ok,
            made matches Ok(pair) ==> pair.0.target() == Seq::<char>::empty() && pair.1@
                == SessionView::fresh(),
    {
        if window.is_some() {
            return Err(Error::Unsupported);
        }
        proof {
            reveal_strlit("");
        }
        let view = Webview { url: "" };
        assert(view.target() =~= Seq::<char>::empty());
        let session = Session { owners: Owners::new(), stage: Stage::Idle, tab: false };
        Ok((view, session))
    }

    /// Begins a run and asks for its first step, the start of the browser.
    /// The run goes on with `resume`.
    pub fn run(&mut self, session: &mut Session) -> (action: Action)
        ensures
            action@ == launch(),
            final(session)@ == old(session)@.after_run(),
            *final(self) == *old(self),
    {
        session.stage = Stage::Launching;
        let mut extra_args: Vec<String> = Vec::new();
        extra_args.push("--no-sandbox".to_owned());
        let action = Action::Launch {
            headless: false,
            default_args: false,
            extra_args,
            app_url: "data:text/html,%3Chtml%3E%3C%2Fhtml%3E".to_owned(),
        };
        assert(action@->Launch_extra_args =~= seq![no_sandbox()]);
        action
    }

    /// Goes on with the run, given how the step it last asked for went, and
    /// asks for the next one: the first tab, its listener, the pending
    /// address, the watch on the connection, the wait for the signal to
    /// end, and the return. A step that fails before the browser is up
    /// ends the run with `Abort`. Once the pending address is loaded the
    /// session has its tab.
    pub fn resume(&mut self, session: &mut Session, event: Event) -> (action: Action)
        ensures
            action@ == old(session)@.resume_action(old(self).target(), event),
            final(session)@ == old(session)@.after_resume(event),
            *final(self) == *old(self),
    {
        let done = match event {
            Event::Done => true,
            Event::Failed => false,
        };
        match session.stage {
            Stage::Launching => {
                if done {
                    session.stage = Stage::Attaching;
                    Action::WaitForInitialTab
                } else {
                    session.stage = Stage::Failed;
                    Action::Abort { failure: Failure::Launch }
                }
            },
            Stage::Attaching => {
                if done {
                    session.stage = Stage::Listening;
                    Action::AddEventListener
                } else {
                    session.stage = Stage::Failed;
                    Action::Abort { failure: Failure::InitialTab }
                }
            },
            Stage::Listening => {
                if done {
                    session.stage = Stage::Navigating;
                    Action::NavigateTo { url: self.url.to_owned() }
                } else {
                    session.stage = Stage::Failed;
                    Action::Abort { failure: Failure::Listener }
                }
            },
            Stage::Navigating => {
                if done {
                    session.stage = Stage::Watching;
                    session.tab = true;
                    Action::WatchConnection { interval_secs: 1, probe: "window".to_owned() }
                } else {
                    session.stage = Stage::Failed;
                    Action::Abort { failure: Failure::Navigation }
                }
            },
            Stage::Watching => {
                session.stage = Stage::Waiting;
                Action::AwaitShutdown
            },
            Stage::Waiting => {
                session.stage = Stage::Ended;
                Action::Finish
            },
            Stage::Idle | Stage::Ended | Stage::Failed => Action::Finish,
        }
    }

    /// Sends the signal that ends the run.
    pub fn terminate(&mut self) -> (action: Action)
        ensures
            action@ == ActionView::SignalShutdown,
            *final(self) == *old(self),
    {
        Action::SignalShutdown
    }

    /// A non-owning facade of the same session.
    pub fn as_mut(&mut self) -> (weak: WebviewMut)
        ensures
            *final(self) == *old(self),
    {
        WebviewMut {  }
    }

    /// Sets the page's title, by a script that assigns it.
    pub fn set_title(&mut self, session: &Session, title: &str) -> (action: Option<Action>)
        ensures
            asked(action) == Self::on_tab(session@, Self::title_action(title@)),
            *final(self) == *old(self),
    {
        if session.tab {
            Some(Action::Evaluate { expression: title_script(title), await_promise: false })
        } else {
            None
        }
    }

    /// Sets the size of the browser's window. The hint is not used. A
    /// window has no negative width or height.
    pub fn set_size(&mut self, session: &Session, width: i32, height: i32, _hints: SizeHint) -> (action:
        Option<Action>)
        requires
            session@.tab ==> 0 <= width && 0 <= height,
        ensures
            asked(action) == Self::on_tab(
                session@,
                ActionView::SetBounds { width: width as int, height: height as int },
            ),
            *final(self) == *old(self),
    {
        if session.tab {
            Some(Action::SetBounds { width: width as u32, height: height as u32 })
        } else {
            None
        }
    }

    /// Would ask for the viewer's native window. A remote browser has none
    /// to give.
    pub fn get_window(&self) -> (action: Result<Action, Error>)
        ensures
            action == Err::<Action, Error>(Error::Unsupported),
    {
        Err(Error::Unsupported)
    }

    /// Sets the address that `run` will load, and sends the tab there at
    /// once if there is one.
    pub fn navigate(&mut self, session: &Session, url: &'a str) -> (action: Option<Action>)
        ensures
            final(self).target() == url@,
            asked(action) == Self::on_tab(session@, ActionView::NavigateTo { url: url@ }),
    {
        self.url = url;
        if session.tab {
            Some(Action::NavigateTo { url: url.to_owned() })
        } else {
            None
        }
    }

    /// Would have a script run at the start of every page. A remote browser
    /// is not asked to: nothing happens.
    pub fn init(&mut self, _js: &str) -> (action: Option<Action>)
        ensures
            action is None,
            *final(self) == *old(self),
    {
        None
    }

    /// Has `js` run in the current page, and waits for a promise that it
    /// returns.
    pub fn eval(&mut self, session: &Session, js: &str) -> (action: Option<Action>)
        ensures
            asked(action) == Self::on_tab(
                session@,
                ActionView::Evaluate { expression: js@, await_promise: true },
            ),
            *final(self) == *old(self),
    {
        if session.tab {
            Some(Action::Evaluate { expression: js.to_owned(), await_promise: true })
        } else {
            None
        }
    }

    /// Has `closure` run once. A remote browser has no thread of its own
    /// to run it on: it runs at once, on this facade.
    pub fn dispatch(&mut self, closure: usize) -> (action: Action)
        ensures
            action@ == (ActionView::RunClosure { closure }),
            *final(self) == *old(self),
    {
        Action::RunClosure { closure }
    }

    /// Would let the page call a name. A remote browser is not asked to:
    /// nothing happens, and the closure is never called.
    pub fn bind(&mut self, _name: &str, _closure: usize) -> (action: Option<Action>)
        ensures
            action is None,
            *final(self) == *old(self),
    {
        None
    }

    /// Would answer the call of a bound name. No name is ever bound:
    /// nothing happens.
    pub fn return_(&self, _seq: &str, _status: i32, _result: &str) -> (action: Option<Action>)
        ensures
            action is None,
    {
        None
    }

    /// Another owning facade of the same session, with the same pending
    /// address. There is none once the session is gone.
    pub fn share(&self, session: &mut Session) -> (copy: Option<Webview<'a>>)
        requires
            old(session)@.owners < usize::MAX,
        ensures
            copy is Some <==> old(session)@.is_live(),
            copy matches Some(c) ==> c.target() == self.target(),
            final(session)@ == old(session)@.after_join(),
    {
        if session.owners.retain() {
            Some(Webview { url: self.url })
        } else {
            None
        }
    }

    /// Lets the facade go. The last owner of a session takes the browser
    /// with it.
    pub fn release(self, session: &mut Session) -> (action: Option<Action>)
        ensures
            asked(action) == (if old(session)@.owners == 1 {
                Some(ActionView::Close)
            } else {
                None
            }),
            final(session)@ == old(session)@.after_release(),
    {
        if session.owners.release() {
            Some(Action::Close)
        } else {
            None
        }
    }
}

impl WebviewMut {
    /// What `terminate` comes to.
    pub open spec fn terminate_outcome(session: SessionView) -> Result<Option<ActionView>, Error> {
        weakly(session.is_live(), Ok(Some(ActionView::SignalShutdown)))
    }

    /// What `get_window` and `dispatch` come to: a remote browser has no
    /// window to give and no thread to run a closure on.
    pub open spec fn unsupported_outcome(session: SessionView) -> Result<
        Option<ActionView>,
        Error,
    > {
        weakly(session.is_live(), Err(Error::Unsupported))
    }

    /// What `bind` and `return_` come to.
    pub open spec fn idle_outcome(session: SessionView) -> Result<Option<ActionView>, Error> {
        weakly(session.is_live(), Ok(None))
    }

    /// Tries to become an owner for a while: there is a new owning facade,
    /// with no pending address, if and only if the session lives. It is to
    /// be released like any owner.
    pub fn upgrade(&self, session: &mut Session) -> (strong: Option<Webview<'static>>)
        requires
            old(session)@.owners < usize::MAX,
        ensures
            strong is Some <==> old(session)@.is_live(),
            strong matches Some(s) ==> s.target() == Seq::<char>::empty(),
            final(session)@ == old(session)@.after_join(),
    {
        if session.owners.retain() {
            proof {
                reveal_strlit("");
            }
            let strong = Webview { url: "" };
            assert(strong.target() =~= Seq::<char>::empty());
            Some(strong)
        } else {
            None
        }
    }

    /// Sends the signal that ends the run, if the session is still there.
    pub fn terminate(&mut self, session: &Session) -> (action: Result<Option<Action>, Error>)
        ensures
            outcome(action) == Self::terminate_outcome(session@),
    {
        if session.owners.live() {
            Ok(Some(Action::SignalShutdown))
        } else {
            Err(Error::WebviewNull)
        }
    }

    /// The native window of the viewer. A remote browser has none to give.
    pub fn get_window(&self, session: &Session) -> (action: Result<Option<Action>, Error>)
        ensures
            outcome(action) == Self::unsupported_outcome(session@),
    {
        if session.owners.live() {
            Err(Error::Unsupported)
        } else {
            Err(Error::WebviewNull)
        }
    }

    /// Would have a closure run once. Without an owning facade at hand
    /// there is nothing to run it on: the closure is never called.
    pub fn dispatch(&mut self, session: &Session, _closure: usize) -> (action: Result<
        Option<Action>,
        Error,
    >)
        ensures
            outcome(action) == Self::unsupported_outcome(session@),
    {
        if session.owners.live() {
            Err(Error::Unsupported)
        } else {
            Err(Error::WebviewNull)
        }
    }

    /// Would let the page call a name. Nothing happens, and the closure is
    /// never called.
    pub fn bind(&mut self, session: &Session, _name: &str, _closure: usize) -> (action: Result<
        Option<Action>,
        Error,
    >)
        ensures
            outcome(action) == Self::idle_outcome(session@),
    {
        if session.owners.live() {
            Ok(None)
        } else {
            Err(Error::WebviewNull)
        }
    }

    /// Would answer the call of a bound name. Nothing happens.
    pub fn return_(&self, session: &Session, _seq: &str, _status: i32, _result: &str) -> (action:
        Result<Option<Action>, Error>)
        ensures
            outcome(action) == Self::idle_outcome(session@),
    {
        if session.owners.live() {
            Ok(None)
        } else {
            Err(Error::WebviewNull)
        }
    }
}

/// Once every owner of a session is gone, each operation of a non-owning
/// facade fails with `WebviewNull` and asks nothing of the browser, and no
/// attempt to become an owner succeeds.
pub proof fn lemma_weak_fails_without_owner(session: SessionView)
    requires
        !session.is_live(),
    ensures
        WebviewMut::terminate_outcome(session) == Err::<Option<ActionView>, Error>(
            Error::WebviewNull,
        ),
        WebviewMut::unsupported_outcome(session) == Err::<Option<ActionView>, Error>(
            Error::WebviewNull,
        ),
        WebviewMut::idle_outcome(session) == Err::<Option<ActionView>, Error>(
            Error::WebviewNull,
        ),
        session.after_join() == session,
{
}

/// While a session has an owner, `terminate`, `get_window`, `bind` and
/// `return_` of a non-owning facade come to what they come to through an
/// owning facade: the signal to end, no window, and nothing to do.
/// `dispatch` does not: an owner has the closure run on itself, and a
/// non-owning facade has nothing to run it on.
pub proof fn lemma_weak_matches_owner(session: SessionView)
    requires
        session.is_live(),
    ensures
        WebviewMut::terminate_outcome(session) == Ok::<Option<ActionView>, Error>(
            Some(ActionView::SignalShutdown),
        ),
        WebviewMut::unsupported_outcome(session) == Err::<Option<ActionView>, Error>(
            Error::Unsupported,
        ),
        WebviewMut::idle_outcome(session) == Ok::<Option<ActionView>, Error>(None),
{
}

/// However many non-owning facades of a live session try to become owners,
/// one after another with nobody leaving in between, every one succeeds and
/// the session counts one owner more each time. Of a session without owners
/// every attempt fails, whichever facade makes it.
pub proof fn lemma_upgrades(session: SessionView, times: nat)
    ensures
        session.is_live() ==> session.after_joins(times).owners == session.owners + times,
        !session.is_live() ==> session.after_joins(times) == session,
        forall|earlier: nat|
            earlier <= times ==> (#[trigger] session.after_joins(earlier).is_live()
                <==> session.is_live()),
    decreases times,
{
    if times > 0 {
        lemma_upgrades(session.after_join(), (times - 1) as nat);
        lemma_upgrades(session, (times - 1) as nat);
        assert(session.after_joins(times) == session.after_join().after_joins(
            (times - 1) as nat,
        ));
    }
}

/// A browser is closed once at most: the owner that leaves a session of one
/// closes it, and in a session without owners nobody joins and nobody
/// leaves, so that no owner is ever the last again.
pub proof fn lemma_closed_once(session: SessionView)
    ensures
        session.owners == 1 ==> !session.after_release().is_live(),
        session.owners > 1 ==> session.after_release().is_live(),
        !session.is_live() ==> session.after_release() == session && session.after_join()
            == session,
{
}

/// A run comes to rest: six steps after it began, whichever of them failed,
/// it has returned or given up, and from then on it asks for nothing more.
/// It has given up exactly if a step failed before the tab was attached.
pub proof fn lemma_run_comes_to_rest(session: SessionView, events: Seq<Event>, url: Seq<char>)
    requires
        events.len() >= 6,
    ensures
        session.after_run().after_resumes(events).at_rest(),
        session.after_run().after_resumes(events).stage != Stage::Idle,
        session.after_run().after_resumes(events).stage == Stage::Failed <==> exists|i: int|
            0 <= i < 4 && events[i] == Event::Failed,
        session.after_run().after_resumes(events).resume_action(url, Event::Done)
            == ActionView::Finish,
{
    let start = session.after_run();
    lemma_after_resumes(start, events, 1);
    lemma_after_resumes(start, events, 2);
    lemma_after_resumes(start, events, 3);
    lemma_after_resumes(start, events, 4);
    lemma_after_resumes(start, events, 5);
    lemma_after_resumes(start, events, 6);
    assert(start.after_resumes(events.take(0)) == start);
    lemma_rest_lasts(start.after_resumes(events.take(6)), events.skip(6));
    lemma_resumes_split(start, events, 6);
    let end = start.after_resumes(events);
    if end.stage == Stage::Failed {
        assert(events[0] == Event::Failed || events[1] == Event::Failed || events[2]
            == Event::Failed || events[3] == Event::Failed);
    }
}

proof fn lemma_after_resumes(session: SessionView, events: Seq<Event>, count: int)
    requires
        0 < count <= events.len(),
    ensures
        session.after_resumes(events.take(count)) == session.after_resumes(
            events.take(count - 1),
        ).after_resume(events[count - 1]),
{
    assert(events.take(count).drop_last() =~= events.take(count - 1));
}

proof fn lemma_rest_lasts(session: SessionView, events: Seq<Event>)
    requires
        session.at_rest(),
    ensures
        session.after_resumes(events) == session,
    decreases events.len(),
{
    if events.len() > 0 {
        lemma_rest_lasts(session, events.drop_last());
    }
}

proof fn lemma_resumes_split(session: SessionView, events: Seq<Event>, count: int)
    requires
        0 <= count <= events.len(),
    ensures
        session.after_resumes(events) == session.after_resumes(events.take(count)).after_resumes(
            events.skip(count),
        ),
    decreases events.len(),
{
    if count == events.len() {
        assert(events.take(count) =~= events);
        assert(events.skip(count) =~= Seq::<Event>::empty());
    } else {
        lemma_resumes_split(session, events.drop_last(), count);
        assert(events.drop_last().take(count) =~= events.take(count));
        assert(events.skip(count).drop_last() =~= events.drop_last().skip(count));
    }
}

} // verus!
