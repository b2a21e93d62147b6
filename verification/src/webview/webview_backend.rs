use crate::bridge::{Bridge, BridgeView};
use crate::error::Error;
use crate::owners::{after_join, after_leave, Owners};
use crate::text::{contains_nul, has_nul};
use crate::webview::{SizeHint, Window};
use vstd::prelude::*;

verus! {

/// One call into the native engine, with its arguments as plain values. The
/// handle that the call goes to is the one whose facade returned it.
#[derive(Debug, PartialEq, Eq)]
pub enum Call {
    /// Make the viewer, inside `parent` if there is one. `debug` is 1 to
    /// switch the engine's developer tools on, else 0.
    Create { debug: i32, parent: Option<Window> },
    /// Free the viewer. No call may follow.
    Destroy,
    /// Run the engine's event loop until it is told to end.
    Run,
    /// Tell the event loop to end.
    Terminate,
    /// Run the closure once, on the thread of the event loop.
    Dispatch { closure: usize },
    /// Ask for the viewer's native window.
    GetWindow,
    /// Set the window's title.
    SetTitle { title: String },
    /// Set the window's size. `hints` is the number of a `SizeHint`.
    SetSize { width: i32, height: i32, hints: i32 },
    /// Load the page at `url`.
    Navigate { url: String },
    /// Run `js` at the start of every page.
    Init { js: String },
    /// Run `js` in the current page.
    Eval { js: String },
    /// Let the page call `name`, answered by the closure.
    Bind { name: String, closure: usize },
    /// Answer the call of a bound name that carried `seq`. A `status` of 0
    /// reports success, any other an error.
    Return { seq: String, status: i32, result: String },
}

/// A call into the native engine, as a mathematical value.
pub enum CallView {
    Create { debug: int, parent: Option<Window> },
    Destroy,
    Run,
    Terminate,
    Dispatch { closure: usize },
    GetWindow,
    SetTitle { title: Seq<char> },
    SetSize { width: int, height: int, hints: int },
    Navigate { url: Seq<char> },
    Init { js: Seq<char> },
    Eval { js: Seq<char> },
    Bind { name: Seq<char>, closure: usize },
    Return { seq: Seq<char>, status: int, result: Seq<char> },
}

impl View for Call {
    type V = CallView;

    open spec fn view(&self) -> CallView {
        match *self {
            Call::Create { debug, parent } => CallView::Create { debug: debug as int, parent },
            Call::Destroy => CallView::Destroy,
            Call::Run => CallView::Run,
            Call::Terminate => CallView::Terminate,
            Call::Dispatch { closure } => CallView::Dispatch { closure },
            Call::GetWindow => CallView::GetWindow,
            Call::SetTitle { title } => CallView::SetTitle { title: title@ },
            Call::SetSize { width, height, hints } => CallView::SetSize {
                width: width as int,
                height: height as int,
                hints: hints as int,
            },
            Call::Navigate { url } => CallView::Navigate { url: url@ },
            Call::Init { js } => CallView::Init { js: js@ },
            Call::Eval { js } => CallView::Eval { js: js@ },
            Call::Bind { name, closure } => CallView::Bind { name: name@, closure },
            Call::Return { seq, status, result } => CallView::Return {
                seq: seq@,
                status: status as int,
                result: result@,
            },
        }
    }
}

impl Clone for Call {
    fn clone(&self) -> (copy: Call)
        ensures
            copy@ == self@,
    {
        match self {
            Call::Create { debug, parent } => Call::Create { debug: *debug, parent: *parent },
            Call::Destroy => Call::Destroy,
            Call::Run => Call::Run,
            Call::Terminate => Call::Terminate,
            Call::Dispatch { closure } => Call::Dispatch { closure: *closure },
            Call::GetWindow => Call::GetWindow,
            Call::SetTitle { title } => Call::SetTitle { title: title.clone() },
            Call::SetSize { width, height, hints } => Call::SetSize {
                width: *width,
                height: *height,
                hints: *hints,
            },
            Call::Navigate { url } => Call::Navigate { url: url.clone() },
            Call::Init { js } => Call::Init { js: js.clone() },
            Call::Eval { js } => Call::Eval { js: js.clone() },
            Call::Bind { name, closure } => Call::Bind { name: name.clone(), closure: *closure },
            Call::Return { seq, status, result } => Call::Return {
                seq: seq.clone(),
                status: *status,
                result: result.clone(),
            },
        }
    }
}

/// The calls of a list, each as a mathematical value.
pub open spec fn views(calls: Seq<Call>) -> Seq<CallView> {
    calls.map_values(|call: Call| call@)
}

/// What an operation came to: the call it stands for, or why there is none.
pub open spec fn outcome(result: Result<Call, Error>) -> Result<CallView, Error> {
    match result {
        Ok(call) => Ok(call@),
        Err(error) => Err(error),
    }
}

/// What an operation that stands for several calls came to.
pub open spec fn outcomes(result: Result<Vec<Call>, Error>) -> Result<Seq<CallView>, Error> {
    match result {
        Ok(calls) => Ok(views(calls@)),
        Err(error) => Err(error),
    }
}

/// A call that carries `text` to the engine: refused if the text holds a NUL.
pub open spec fn carrying(text: Seq<char>, call: CallView) -> Result<CallView, Error> {
    if has_nul(text) {
        Err(Error::Encoding)
    } else {
        Ok(call)
    }
}

/// What an operation comes to through a non-owning facade: the same as
/// through an owner while the handle lives, and nothing once it is gone.
pub open spec fn weakly(live: bool, owned: Result<CallView, Error>) -> Result<CallView, Error> {
    if live {
        owned
    } else {
        Err(Error::WebviewNull)
    }
}

/// What a handle is, as plain values.
#[verifier::ext_equal]
pub struct HandleView {
    /// How many facades own the handle.
    pub owners: nat,
    /// The closures that the engine may call back into.
    pub bridge: BridgeView,
}

impl HandleView {
    /// Whether the handle still exists on the engine's side.
    pub open spec fn is_live(self) -> bool {
        self.owners > 0
    }

    /// The handle as `create` leaves it: one owner, no closure.
    pub open spec fn fresh() -> HandleView {
        HandleView { owners: 1, bridge: BridgeView::empty() }
    }

    /// After a facade asked for `closure` to be dispatched.
    pub open spec fn after_dispatch(self, closure: usize) -> HandleView {
        if self.is_live() {
            HandleView { bridge: self.bridge.scheduled(closure), ..self }
        } else {
            self
        }
    }

    /// After the engine came to run the dispatched `closure`.
    pub open spec fn after_run(self, closure: usize) -> HandleView {
        if self.is_live() {
            HandleView { bridge: self.bridge.fired(closure), ..self }
        } else {
            self
        }
    }

    /// After a facade asked for `name` to be bound to `closure`.
    pub open spec fn after_bind(self, name: Seq<char>, closure: usize) -> HandleView {
        if self.is_live() && !has_nul(name) {
            HandleView { bridge: self.bridge.bound(name, closure), ..self }
        } else {
            self
        }
    }

    /// After an attempt to add an owner.
    pub open spec fn after_join(self) -> HandleView {
        HandleView { owners: after_join(self.owners), ..self }
    }

    /// After `times` attempts to add an owner, one after another.
    pub open spec fn after_joins(self, times: nat) -> HandleView
        decreases times,
    {
        if times == 0 {
            self
        } else {
            self.after_join().after_joins((times - 1) as nat)
        }
    }

    /// Whether the facade that goes is the one that has to release the
    /// handle: an owner, and the only one left.
    pub open spec fn ends_with(self, owner: bool) -> bool {
        owner && self.owners == 1
    }

    /// After a facade went. A view that owns nothing leaves no trace; the
    /// last owner takes the closures with it.
    pub open spec fn after_release(self, owner: bool) -> HandleView {
        if !owner {
            self
        } else if self.owners == 1 {
            HandleView { owners: 0, bridge: BridgeView::empty() }
        } else {
            HandleView { owners: after_leave(self.owners), ..self }
        }
    }
}

/// The state of one native viewer that its facades share: who owns it, and
/// which closures the engine holds for it. Owners and observers alike reach
/// the viewer through this value, so an operation can tell a viewer that is
/// gone from one that lives.
pub struct Handle {
    owners: Owners,
    bridge: Bridge,
}

impl View for Handle {
    type V = HandleView;

    closed spec fn view(&self) -> HandleView {
        HandleView { owners: self.owners.count(), bridge: self.bridge@ }
    }
}

/// What is left to do when the last owner of a handle goes.
pub struct Teardown {
    /// The last calls to the engine, in order.
    pub calls: Vec<Call>,
    /// The closures to drop once those calls are made. None of them will
    /// be called again.
    pub closures: Vec<usize>,
}

/// The owning facade of a native viewer. Each operation returns the call to
/// make on the engine; the viewer is released when its last owner is.
pub struct Webview<'a> {
    url: &'a str,
    owner: bool,
}

/// The non-owning facade of a native viewer. It does not keep the viewer
/// alive, and each of its operations fails once the viewer is gone.
#[derive(Debug, Clone, Copy)]
pub struct WebviewMut {}

impl Handle {
    /// Whether the handle has an owner left.
    pub open spec fn is_live(&self) -> bool {
        self@.is_live()
    }

    /// Whether the handle has an owner left.
    pub fn live(&self) -> (live: bool)
        ensures
            live == self@.is_live(),
    {
        self.owners.live()
    }

    /// How many facades own the handle.
    pub fn strong_count(&self) -> (count: usize)
        ensures
            count == self@.owners,
    {
        self.owners.strong_count()
    }

    /// The closures that wait to be run once, oldest first.
    pub fn pending(&self) -> (pending: Vec<usize>)
        ensures
            pending@ == self@.bridge.pending,
    {
        self.bridge.pending()
    }

    /// The closures that lost their name to a later binding.
    pub fn retired(&self) -> (retired: Vec<usize>)
        ensures
            retired@ == self@.bridge.retired,
    {
        self.bridge.retired()
    }

    /// The closure that answers calls of `name`, if the name is bound.
    pub fn lookup(&self, name: &str) -> (found: Option<usize>)
        ensures
            found == crate::bridge::lookup(self@.bridge.bindings, name@),
    {
        self.bridge.lookup(name)
    }

    /// The engine has come to run a dispatched closure. If the handle lives
    /// and the closure waits, the closure is to run now, once, on the view
    /// handed back: a facade with no pending address that owns nothing, so
    /// that letting it go releases nothing. Otherwise the closure must not
    /// run.
    pub fn on_dispatch(&mut self, closure: usize) -> (view: Option<Webview<'static>>)
        ensures
            view is Some <==> old(self)@.is_live() && old(self)@.bridge.awaits(closure),
            view matches Some(v) ==> !v.owns() && v.target() == Seq::<char>::empty(),
            final(self)@ == old(self)@.after_run(closure),
    {
        if self.owners.live() {
            if self.bridge.fire(closure) {
                proof {
                    reveal_strlit("");
                }
                let view = Webview { url: "", owner: false };
                assert(view.target() =~= Seq::<char>::empty());
                return Some(view);
            }
        }
        None
    }

    /// The page has called a bound name, and the engine asks for `closure`
    /// to answer. The result tells whether it may: the handle lives and the
    /// closure is bound. Answering uses nothing up.
    pub fn on_call(&self, closure: usize) -> (answers: bool)
        ensures
            answers == (self@.is_live() && self@.bridge.answers(closure)),
    {
        self.owners.live() && self.bridge.is_bound(closure)
    }
}

impl<'a> Webview<'a> {
    /// The address that `run` will load.
    pub closed spec fn target(&self) -> Seq<char> {
        self.url@
    }

    /// Whether this facade counts among the owners of its handle.
    pub closed spec fn spec_owns(&self) -> bool {
        self.owner
    }

    /// The calls that `run` stands for.
    pub open spec fn run_calls(url: Seq<char>) -> Result<Seq<CallView>, Error> {
        if has_nul(url) {
            Err(Error::Encoding)
        } else {
            Ok(seq![CallView::Navigate { url }, CallView::Run])
        }
    }

    /// The call that `set_size` stands for.
    pub open spec fn size_call(width: i32, height: i32, hints: SizeHint) -> CallView {
        CallView::SetSize { width: width as int, height: height as int, hints: hints.ordinal() }
    }

    /// What `dispatch` comes to.
    pub open spec fn dispatch_outcome(handle: HandleView, closure: usize) -> Result<
        CallView,
        Error,
    > {
        weakly(handle.is_live(), Ok(CallView::Dispatch { closure }))
    }

    /// What `bind` comes to.
    pub open spec fn bind_outcome(handle: HandleView, name: Seq<char>, closure: usize) -> Result<
        CallView,
        Error,
    > {
        weakly(handle.is_live(), carrying(name, CallView::Bind { name, closure }))
    }

    /// What `return_` comes to.
    pub open spec fn return_outcome(seq: Seq<char>, status: i32, result: Seq<char>) -> Result<
        CallView,
        Error,
    > {
        if has_nul(seq) || has_nul(result) {
            Err(Error::Encoding)
        } else {
            Ok(CallView::Return { seq, status: status as int, result })
        }
    }

    /// The last calls to the engine when a facade goes.
    pub open spec fn release_calls(handle: HandleView, owner: bool) -> Seq<CallView> {
        if handle.ends_with(owner) {
            seq![CallView::Terminate, CallView::Destroy]
        } else {
            Seq::empty()
        }
    }

    /// The closures to drop when a facade goes.
    pub open spec fn release_closures(handle: HandleView, owner: bool) -> Seq<usize> {
        if handle.ends_with(owner) {
            handle.bridge.held()
        } else {
            Seq::empty()
        }
    }

    /// The address that `run` will load.
    pub fn url(&self) -> (url: &'a str)
        ensures
            url@ == self.target(),
    {
        self.url
    }

    /// Whether this facade counts among the owners of its handle.
    #[verifier::when_used_as_spec(spec_owns)]
    pub fn owns(&self) -> (owner: bool)
        ensures
            owner == self.spec_owns(),
    {
        self.owner
    }

    /// Makes a viewer: the facade that owns it, the handle with that one
    /// owner, and the call that has the engine make it, inside `window` if
    /// one is given. `debug` switches the engine's developer tools on.
    pub fn create(debug: bool, window: Option<&mut Window>) -> (made: (
        Webview<'static>,
        Handle,
        Call,
    ))
        ensures
            made.0.owns(),
            made.0.target() == Seq::<char>::empty(),
            made.1@ == HandleView::fresh(),
            made.2@ == (CallView::Create {
                debug: if debug {
                    1
                } else {
                    0
                },
                parent: match window {
                    Some(parent) => Some(*parent),
                    None => None,
                },
            }),
    {
        let parent = match window {
            Some(parent) => Some(*parent),
            None => None,
        };
        let flag: i32 = if debug {
            1
        } else {
            0
        };
        proof {
            reveal_strlit("");
        }
        let view = Webview { url: "", owner: true };
        assert(view.target() =~= Seq::<char>::empty());
        let handle = Handle { owners: Owners::new(), bridge: Bridge::new() };
        assert(handle@ =~= HandleView::fresh());
        (view, handle, Call::Create { debug: flag, parent })
    }

    /// Starts the viewer: load the pending address, then run the event loop
    /// until it ends. Refused if the address holds a NUL.
    pub fn run(&mut self) -> (calls: Result<Vec<Call>, Error>)
        ensures
            outcomes(calls) == Self::run_calls(old(self).target()),
            *final(self) == *old(self),
    {
        if contains_nul(self.url) {
            return Err(Error::Encoding);
        }
        let mut calls: Vec<Call> = Vec::new();
        calls.push(Call::Navigate { url: self.url.to_owned() });
        calls.push(Call::Run);
        assert(views(calls@) =~= seq![CallView::Navigate { url: self.target() }, CallView::Run]);
        Ok(calls)
    }

    /// Asks the event loop to end.
    pub fn terminate(&mut self) -> (call: Call)
        ensures
            call@ == CallView::Terminate,
            *final(self) == *old(self),
    {
        Call::Terminate
    }

    /// A non-owning facade of the same viewer.
    pub fn as_mut(&mut self) -> (weak: WebviewMut)
        ensures
            *final(self) == *old(self),
    {
        WebviewMut {  }
    }

    /// Sets the window's title. Refused if the title holds a NUL.
    pub fn set_title(&mut self, title: &str) -> (call: Result<Call, Error>)
        ensures
            outcome(call) == carrying(title@, CallView::SetTitle { title: title@ }),
            *final(self) == *old(self),
    {
        if contains_nul(title) {
            Err(Error::Encoding)
        } else {
            Ok(Call::SetTitle { title: title.to_owned() })
        }
    }

    /// Sets the window's size, read as `hints` says.
    pub fn set_size(&mut self, width: i32, height: i32, hints: SizeHint) -> (call: Call)
        ensures
            call@ == Self::size_call(width, height, hints),
            *final(self) == *old(self),
    {
        Call::SetSize { width, height, hints: hints.code() }
    }

    /// Asks for the viewer's native window.
    pub fn get_window(&self) -> (call: Call)
        ensures
            call@ == CallView::GetWindow,
    {
        Call::GetWindow
    }

    /// Sets the address that `run` will load. Nothing is loaded yet.
    pub fn navigate(&mut self, url: &'a str)
        ensures
            final(self).target() == url@,
            final(self).owns() == old(self).owns(),
    {
        self.url = url;
    }

    /// Has `js` run at the start of every page. Refused if it holds a NUL.
    pub fn init(&mut self, js: &str) -> (call: Result<Call, Error>)
        ensures
            outcome(call) == carrying(js@, CallView::Init { js: js@ }),
            *final(self) == *old(self),
    {
        if contains_nul(js) {
            Err(Error::Encoding)
        } else {
            Ok(Call::Init { js: js.to_owned() })
        }
    }

    /// Has `js` run in the current page. Refused if it holds a NUL.
    pub fn eval(&mut self, js: &str) -> (call: Result<Call, Error>)
        ensures
            outcome(call) == carrying(js@, CallView::Eval { js: js@ }),
            *final(self) == *old(self),
    {
        if contains_nul(js) {
            Err(Error::Encoding)
        } else {
            Ok(Call::Eval { js: js.to_owned() })
        }
    }

    /// Schedules `closure` to run once on the thread of the event loop. The
    /// handle takes note of it, so that the engine's later request to run
    /// it can be told from one that was never asked for.
    pub fn dispatch(&mut self, handle: &mut Handle, closure: usize) -> (call: Result<Call, Error>)
        ensures
            outcome(call) == Self::dispatch_outcome(old(handle)@, closure),
            final(handle)@ == old(handle)@.after_dispatch(closure),
            *final(self) == *old(self),
    {
        if !handle.owners.live() {
            return Err(Error::WebviewNull);
        }
        handle.bridge.schedule(closure);
        Ok(Call::Dispatch { closure })
    }

    /// Lets the page call `name`, answered by `closure` each time. A
    /// closure that `name` was bound to before is retired. Refused if the
    /// name holds a NUL.
    pub fn bind(&mut self, handle: &mut Handle, name: &str, closure: usize) -> (call: Result<
        Call,
        Error,
    >)
        ensures
            outcome(call) == Self::bind_outcome(old(handle)@, name@, closure),
            final(handle)@ == old(handle)@.after_bind(name@, closure),
            *final(self) == *old(self),
    {
        if !handle.owners.live() {
            return Err(Error::WebviewNull);
        }
        if contains_nul(name) {
            return Err(Error::Encoding);
        }
        let _ = handle.bridge.bind(name, closure);
        Ok(Call::Bind { name: name.to_owned(), closure })
    }

    /// Answers the call of a bound name that carried `seq`: with `result`,
    /// as a success if `status` is 0 and as an error otherwise. No binding
    /// is touched. Refused if `seq` or `result` holds a NUL.
    pub fn return_(&self, seq: &str, status: i32, result: &str) -> (call: Result<Call, Error>)
        ensures
            outcome(call) == Self::return_outcome(seq@, status, result@),
    {
        if contains_nul(seq) || contains_nul(result) {
            Err(Error::Encoding)
        } else {
            Ok(Call::Return { seq: seq.to_owned(), status, result: result.to_owned() })
        }
    }

    /// Another facade of the same viewer, with the same pending address. A
    /// copy of an owner is an owner, counted in the handle, and there is
    /// none once the handle is gone; a copy of a view is a view.
    pub fn share(&self, handle: &mut Handle) -> (copy: Option<Webview<'a>>)
        requires
            old(handle)@.owners < usize::MAX,
        ensures
            copy is Some <==> !self.owns() || old(handle)@.is_live(),
            copy matches Some(c) ==> c.owns() == self.owns() && c.target() == self.target(),
            final(handle)@ == (if self.owns() {
                old(handle)@.after_join()
            } else {
                old(handle)@
            }),
    {
        if !self.owner {
            Some(Webview { url: self.url, owner: false })
        } else if handle.owners.retain() {
            Some(Webview { url: self.url, owner: true })
        } else {
            None
        }
    }

    /// Lets the facade go. The last owner of a handle releases it: the
    /// result then holds the calls that end and free the viewer, and the
    /// closures that the engine held for it. Any other facade goes without
    /// a trace.
    pub fn release(self, handle: &mut Handle) -> (teardown: Teardown)
        ensures
            views(teardown.calls@) == Self::release_calls(old(handle)@, self.owns()),
            teardown.closures@ == Self::release_closures(old(handle)@, self.owns()),
            final(handle)@ == old(handle)@.after_release(self.owns()),
    {
        let mut calls: Vec<Call> = Vec::new();
        let mut closures: Vec<usize> = Vec::new();
        if self.owner {
            if handle.owners.release() {
                closures = handle.bridge.drain();
                calls.push(Call::Terminate);
                calls.push(Call::Destroy);
                assert(views(calls@) =~= seq![CallView::Terminate, CallView::Destroy]);
            }
        }
        assert(views(calls@) =~= Self::release_calls(old(handle)@, self.owns()));
        Teardown { calls, closures }
    }
}

impl WebviewMut {
    /// What `terminate` comes to.
    pub open spec fn terminate_outcome(handle: HandleView) -> Result<CallView, Error> {
        weakly(handle.is_live(), Ok(CallView::Terminate))
    }

    /// What `get_window` comes to.
    pub open spec fn window_outcome(handle: HandleView) -> Result<CallView, Error> {
        weakly(handle.is_live(), Ok(CallView::GetWindow))
    }

    /// What `dispatch` comes to.
    pub open spec fn dispatch_outcome(handle: HandleView, closure: usize) -> Result<
        CallView,
        Error,
    > {
        weakly(handle.is_live(), Ok(CallView::Dispatch { closure }))
    }

    /// What `bind` comes to.
    pub open spec fn bind_outcome(handle: HandleView, name: Seq<char>, closure: usize) -> Result<
        CallView,
        Error,
    > {
        weakly(handle.is_live(), carrying(name, CallView::Bind { name, closure }))
    }

    /// What `return_` comes to.
    pub open spec fn return_outcome(
        handle: HandleView,
        seq: Seq<char>,
        status: i32,
        result: Seq<char>,
    ) -> Result<CallView, Error> {
        weakly(handle.is_live(), Webview::return_outcome(seq, status, result))
    }

    /// Tries to become an owner for a while: there is a new owning facade,
    /// with no pending address, if and only if the handle lives. It is to
    /// be released like any owner.
    pub fn upgrade(&self, handle: &mut Handle) -> (strong: Option<Webview<'static>>)
        requires
            old(handle)@.owners < usize::MAX,
        ensures
            strong is Some <==> old(handle)@.is_live(),
            strong matches Some(s) ==> s.owns() && s.target() == Seq::<char>::empty(),
            final(handle)@ == old(handle)@.after_join(),
    {
        if handle.owners.retain() {
            proof {
                reveal_strlit("");
            }
            let strong = Webview { url: "", owner: true };
            assert(strong.target() =~= Seq::<char>::empty());
            Some(strong)
        } else {
            None
        }
    }

    /// Asks the event loop to end, if the viewer is still there.
    pub fn terminate(&mut self, handle: &Handle) -> (call: Result<Call, Error>)
        ensures
            outcome(call) == Self::terminate_outcome(handle@),
    {
        if handle.owners.live() {
            Ok(Call::Terminate)
        } else {
            Err(Error::WebviewNull)
        }
    }

    /// Asks for the viewer's native window, if the viewer is still there.
    pub fn get_window(&self, handle: &Handle) -> (call: Result<Call, Error>)
        ensures
            outcome(call) == Self::window_outcome(handle@),
    {
        if handle.owners.live() {
            Ok(Call::GetWindow)
        } else {
            Err(Error::WebviewNull)
        }
    }

    /// Schedules `closure` to run once on the thread of the event loop, if
    /// the viewer is still there.
    pub fn dispatch(&mut self, handle: &mut Handle, closure: usize) -> (call: Result<Call, Error>)
        ensures
            outcome(call) == Self::dispatch_outcome(old(handle)@, closure),
            final(handle)@ == old(handle)@.after_dispatch(closure),
    {
        if !handle.owners.live() {
            return Err(Error::WebviewNull);
        }
        handle.bridge.schedule(closure);
        Ok(Call::Dispatch { closure })
    }

    /// Lets the page call `name`, answered by `closure` each time, if the
    /// viewer is still there. Refused if the name holds a NUL.
    pub fn bind(&mut self, handle: &mut Handle, name: &str, closure: usize) -> (call: Result<
        Call,
        Error,
    >)
        ensures
            outcome(call) == Self::bind_outcome(old(handle)@, name@, closure),
            final(handle)@ == old(handle)@.after_bind(name@, closure),
    {
        if !handle.owners.live() {
            return Err(Error::WebviewNull);
        }
        if contains_nul(name) {
            return Err(Error::Encoding);
        }
        let _ = handle.bridge.bind(name, closure);
        Ok(Call::Bind { name: name.to_owned(), closure })
    }

    /// Answers the call of a bound name that carried `seq`, if the viewer
    /// is still there. Refused if `seq` or `result` holds a NUL.
    pub fn return_(&self, handle: &Handle, seq: &str, status: i32, result: &str) -> (call: Result<
        Call,
        Error,
    >)
        ensures
            outcome(call) == Self::return_outcome(handle@, seq@, status, result@),
    {
        if !handle.owners.live() {
            Err(Error::WebviewNull)
        } else if contains_nul(seq) || contains_nul(result) {
            Err(Error::Encoding)
        } else {
            Ok(Call::Return { seq: seq.to_owned(), status, result: result.to_owned() })
        }
    }
}

/// Something that happens to a handle.
pub enum Step {
    /// A facade is copied, or a non-owning facade tries to become an owner.
    Join,
    /// A facade goes: an owner, or a view that owns nothing.
    Release { owner: bool },
    /// A facade asks for a closure to be dispatched.
    Dispatch { closure: usize },
    /// The engine comes to run a dispatched closure.
    Run { closure: usize },
    /// A facade asks for a name to be bound to a closure.
    Bind { name: Seq<char>, closure: usize },
}

/// The handle after `step`.
pub open spec fn after_step(handle: HandleView, step: Step) -> HandleView {
    match step {
        Step::Join => handle.after_join(),
        Step::Release { owner } => handle.after_release(owner),
        Step::Dispatch { closure } => handle.after_dispatch(closure),
        Step::Run { closure } => handle.after_run(closure),
        Step::Bind { name, closure } => handle.after_bind(name, closure),
    }
}

/// The handle after `steps`, one after another.
pub open spec fn after_steps(handle: HandleView, steps: Seq<Step>) -> HandleView
    decreases steps.len(),
{
    if steps.len() == 0 {
        handle
    } else {
        after_step(after_steps(handle, steps.drop_last()), steps.last())
    }
}

/// How often the engine is told to destroy the viewer in the course of
/// `steps`.
pub open spec fn destroyed(handle: HandleView, steps: Seq<Step>) -> nat
    decreases steps.len(),
{
    if steps.len() == 0 {
        0
    } else {
        let before = after_steps(handle, steps.drop_last());
        let now: nat = match steps.last() {
            Step::Release { owner } => if before.ends_with(owner) {
                1
            } else {
                0
            },
            _ => 0,
        };
        destroyed(handle, steps.drop_last()) + now
    }
}

/// Once every owner of a handle is gone, each operation of a non-owning
/// facade fails with `WebviewNull`: it stands for no call to the engine and
/// leaves the handle as it was. No attempt to become an owner succeeds, and
/// no closure runs.
pub proof fn lemma_weak_fails_without_owner(
    handle: HandleView,
    closure: usize,
    name: Seq<char>,
    seq: Seq<char>,
    status: i32,
    result: Seq<char>,
)
    requires
        !handle.is_live(),
    ensures
        WebviewMut::terminate_outcome(handle) == Err::<CallView, Error>(Error::WebviewNull),
        WebviewMut::window_outcome(handle) == Err::<CallView, Error>(Error::WebviewNull),
        WebviewMut::dispatch_outcome(handle, closure) == Err::<CallView, Error>(
            Error::WebviewNull,
        ),
        WebviewMut::bind_outcome(handle, name, closure) == Err::<CallView, Error>(
            Error::WebviewNull,
        ),
        WebviewMut::return_outcome(handle, seq, status, result) == Err::<CallView, Error>(
            Error::WebviewNull,
        ),
        handle.after_dispatch(closure) == handle,
        handle.after_bind(name, closure) == handle,
        handle.after_run(closure) == handle,
        handle.after_join() == handle,
{
}

/// While a handle has an owner, each operation of a non-owning facade
/// comes to what the same operation of an owning facade comes to, and does
/// to the handle what that one does.
pub proof fn lemma_weak_matches_owner(
    handle: HandleView,
    closure: usize,
    name: Seq<char>,
    seq: Seq<char>,
    status: i32,
    result: Seq<char>,
)
    requires
        handle.is_live(),
    ensures
        WebviewMut::terminate_outcome(handle) == Ok::<CallView, Error>(CallView::Terminate),
        WebviewMut::window_outcome(handle) == Ok::<CallView, Error>(CallView::GetWindow),
        WebviewMut::dispatch_outcome(handle, closure) == Webview::dispatch_outcome(
            handle,
            closure,
        ),
        WebviewMut::dispatch_outcome(handle, closure) is Ok,
        WebviewMut::bind_outcome(handle, name, closure) == Webview::bind_outcome(
            handle,
            name,
            closure,
        ),
        WebviewMut::bind_outcome(handle, name, closure) is Ok <==> !has_nul(name),
        WebviewMut::return_outcome(handle, seq, status, result) == Webview::return_outcome(
            seq,
            status,
            result,
        ),
{
}

/// However many non-owning facades of a live handle try to become owners,
/// one after another with nobody leaving in between, every one succeeds and
/// the handle counts one owner more each time. Of a handle without owners
/// every attempt fails, whichever facade makes it.
pub proof fn lemma_upgrades(handle: HandleView, times: nat)
    ensures
        handle.is_live() ==> handle.after_joins(times).owners == handle.owners + times,
        !handle.is_live() ==> handle.after_joins(times) == handle,
        handle.after_joins(times).bridge == handle.bridge,
        forall|earlier: nat|
            earlier <= times ==> (#[trigger] handle.after_joins(earlier).is_live()
                <==> handle.is_live()),
    decreases times,
{
    if times > 0 {
        lemma_upgrades(handle.after_join(), (times - 1) as nat);
        lemma_upgrades(handle, (times - 1) as nat);
        assert(handle.after_joins(times) == handle.after_join().after_joins((times - 1) as nat));
        if !handle.is_live() {
            assert(handle.after_join() =~= handle);
        }
    }
}

/// A viewer is destroyed once at most, by the last of its owners. Whatever
/// happens to a handle that starts with an owner, and in whatever order:
/// the engine is told to destroy the viewer exactly when the handle ends up
/// without owners, and then exactly once; from then on the handle stays
/// without owners and holds no closure.
pub proof fn lemma_destroyed_once(handle: HandleView, steps: Seq<Step>)
    requires
        handle.is_live(),
    ensures
        destroyed(handle, steps) == (if after_steps(handle, steps).is_live() {
            0nat
        } else {
            1nat
        }),
        !after_steps(handle, steps).is_live() ==> after_steps(handle, steps).bridge
            == BridgeView::empty(),
    decreases steps.len(),
{
    if steps.len() > 0 {
        lemma_destroyed_once(handle, steps.drop_last());
    }
}

} // verus!
