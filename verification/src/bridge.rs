use vstd::prelude::*;

verus! {

/// The registrations of script-callable functions, oldest first: the name
/// under which the page calls, and the closure that answers.
pub type Bindings = Seq<(Seq<char>, usize)>;

/// The names of the registrations, in their order.
pub open spec fn bound_names(bindings: Bindings) -> Seq<Seq<char>> {
    bindings.map_values(|binding: (Seq<char>, usize)| binding.0)
}

/// The closures of the registrations, in their order.
pub open spec fn bound_closures(bindings: Bindings) -> Seq<usize> {
    bindings.map_values(|binding: (Seq<char>, usize)| binding.1)
}

/// The closure that answers calls of `name`, if the name is bound.
pub open spec fn lookup(bindings: Bindings, name: Seq<char>) -> Option<usize> {
    match bound_names(bindings).index_of_first(name) {
        Some(at) => Some(bindings[at].1),
        None => None,
    }
}

/// The registrations after `name` is bound to `closure`: a name that was
/// bound before keeps its place and answers with the new closure.
pub open spec fn rebind(bindings: Bindings, name: Seq<char>, closure: usize) -> Bindings {
    match bound_names(bindings).index_of_first(name) {
        Some(at) => bindings.update(at, (name, closure)),
        None => bindings.push((name, closure)),
    }
}

/// The registered closure that `name` loses when it is bound anew: none if
/// the name was free.
pub open spec fn displaced(bindings: Bindings, name: Seq<char>) -> Seq<usize> {
    match lookup(bindings, name) {
        Some(closure) => seq![closure],
        None => Seq::empty(),
    }
}

/// What a bridge holds, as plain values.
#[verifier::ext_equal]
pub struct BridgeView {
    /// The closures scheduled to run once and not yet run, oldest first.
    pub pending: Seq<usize>,
    /// The closures bound to script-callable names.
    pub bindings: Bindings,
    /// The closures that lost their name to a later binding. No call
    /// reaches them any more; they are kept until the bridge is drained.
    pub retired: Seq<usize>,
}

impl BridgeView {
    /// The bridge that holds no closure.
    pub open spec fn empty() -> BridgeView {
        BridgeView { pending: Seq::empty(), bindings: Seq::empty(), retired: Seq::empty() }
    }

    /// After `closure` was scheduled to run once.
    pub open spec fn scheduled(self, closure: usize) -> BridgeView {
        BridgeView { pending: self.pending.push(closure), ..self }
    }

    /// Whether a run of `closure` is in order: it was scheduled and that
    /// scheduling is not used up.
    pub open spec fn awaits(self, closure: usize) -> bool {
        self.pending.contains(closure)
    }

    /// After the engine ran `closure`, which uses up its oldest scheduling.
    pub open spec fn fired(self, closure: usize) -> BridgeView {
        BridgeView { pending: self.pending.remove_value(closure), ..self }
    }

    /// After `name` was bound to `closure`.
    pub open spec fn bound(self, name: Seq<char>, closure: usize) -> BridgeView {
        BridgeView {
            bindings: rebind(self.bindings, name, closure),
            retired: self.retired + displaced(self.bindings, name),
            ..self
        }
    }

    /// Whether `closure` answers calls of some name.
    pub open spec fn answers(self, closure: usize) -> bool {
        bound_closures(self.bindings).contains(closure)
    }

    /// Every closure held: those waiting to run, those bound to names, and
    /// those retired, in that order.
    pub open spec fn held(self) -> Seq<usize> {
        self.pending + bound_closures(self.bindings) + self.retired
    }
}

struct Binding {
    name: String,
    closure: usize,
}

/// The closures that the engine may call back into. A closure is known here
/// by the address under which the engine knows it. One scheduled by
/// `dispatch` runs once and is then forgotten; one registered by `bind`
/// answers every call of its name until the name is bound anew or the bridge
/// is drained.
pub struct Bridge {
    pending: Vec<usize>,
    bindings: Vec<Binding>,
    retired: Vec<usize>,
}

impl View for Bridge {
    type V = BridgeView;

    closed spec fn view(&self) -> BridgeView {
        BridgeView {
            pending: self.pending@,
            bindings: Seq::new(
                self.bindings@.len(),
                |i: int| (self.bindings@[i].name@, self.bindings@[i].closure),
            ),
            retired: self.retired@,
        }
    }
}

impl Bridge {
    /// A bridge that holds no closure.
    pub fn new() -> (bridge: Bridge)
        ensures
            bridge@ == BridgeView::empty(),
    {
        let bridge = Bridge { pending: Vec::new(), bindings: Vec::new(), retired: Vec::new() };
        assert(bridge@ =~= BridgeView::empty());
        bridge
    }

    /// Takes note of a closure that the engine is asked to run once.
    pub fn schedule(&mut self, closure: usize)
        ensures
            final(self)@ == old(self)@.scheduled(closure),
    {
        self.pending.push(closure);
    }

    /// The engine is about to run `closure`. The result tells whether that
    /// is in order: the closure was scheduled and has not run since. Its
    /// oldest scheduling is then used up.
    pub fn fire(&mut self, closure: usize) -> (fired: bool)
        ensures
            fired == old(self)@.awaits(closure),
            final(self)@ == old(self)@.fired(closure),
    {
        proof {
            self.pending@.index_of_first_ensures(closure);
        }
        let mut at: usize = 0;
        while at < self.pending.len()
            invariant
                at <= self.pending.len(),
                forall|j: int| 0 <= j < at ==> self.pending@[j] != closure,
            ensures
                at <= self.pending.len(),
                forall|j: int| 0 <= j < at ==> self.pending@[j] != closure,
                at < self.pending.len() ==> self.pending@[at as int] == closure,
            decreases self.pending.len() - at,
        {
            if self.pending[at] == closure {
                break;
            }
            at = at + 1;
        }
        if at < self.pending.len() {
            self.pending.remove(at);
            true
        } else {
            false
        }
    }

    /// The closure bound to `name`, if any.
    pub fn lookup(&self, name: &str) -> (found: Option<usize>)
        ensures
            found == lookup(self@.bindings, name@),
    {
        let at = self.position(name);
        if at < self.bindings.len() {
            Some(self.bindings[at].closure)
        } else {
            None
        }
    }

    /// Binds `name` to `closure`. A closure that the name was bound to
    /// before answers no call from now on: it is retired, and handed back.
    pub fn bind(&mut self, name: &str, closure: usize) -> (replaced: Option<usize>)
        ensures
            replaced == lookup(old(self)@.bindings, name@),
            final(self)@ == old(self)@.bound(name@, closure),
    {
        let at = self.position(name);
        let binding = Binding { name: name.to_owned(), closure };
        if at < self.bindings.len() {
            let replaced = self.bindings[at].closure;
            self.bindings.set(at, binding);
            self.retired.push(replaced);
            assert(self@.bindings =~= rebind(old(self)@.bindings, name@, closure));
            assert(self@.retired =~= old(self)@.retired + displaced(old(self)@.bindings, name@));
            Some(replaced)
        } else {
            self.bindings.push(binding);
            assert(self@.bindings =~= rebind(old(self)@.bindings, name@, closure));
            assert(self@.retired =~= old(self)@.retired + displaced(old(self)@.bindings, name@));
            None
        }
    }

    /// Whether `closure` answers calls of some name.
    pub fn is_bound(&self, closure: usize) -> (bound: bool)
        ensures
            bound == self@.answers(closure),
    {
        let mut at: usize = 0;
        while at < self.bindings.len()
            invariant
                at <= self.bindings.len(),
                forall|j: int| 0 <= j < at ==> bound_closures(self@.bindings)[j] != closure,
            decreases self.bindings.len() - at,
        {
            if self.bindings[at].closure == closure {
                assert(bound_closures(self@.bindings)[at as int] == closure);
                return true;
            }
            at = at + 1;
        }
        false
    }

    /// Empties the bridge and hands back every closure it held, none of
    /// which will be called again.
    pub fn drain(&mut self) -> (closures: Vec<usize>)
        ensures
            closures@ == old(self)@.held(),
            final(self)@ == BridgeView::empty(),
    {
        let mut closures: Vec<usize> = Vec::new();
        let mut at: usize = 0;
        while at < self.pending.len()
            invariant
                at <= self.pending.len(),
                closures@ == self.pending@.take(at as int),
            decreases self.pending.len() - at,
        {
            closures.push(self.pending[at]);
            assert(self.pending@.take(at + 1) =~= self.pending@.take(at as int).push(
                self.pending@[at as int],
            ));
            at = at + 1;
        }
        assert(self.pending@.take(at as int) =~= self.pending@);
        let mut at: usize = 0;
        while at < self.bindings.len()
            invariant
                at <= self.bindings.len(),
                closures@ == self.pending@ + bound_closures(self@.bindings).take(at as int),
            decreases self.bindings.len() - at,
        {
            closures.push(self.bindings[at].closure);
            assert(bound_closures(self@.bindings).take(at + 1) =~= bound_closures(
                self@.bindings,
            ).take(at as int).push(self.bindings@[at as int].closure));
            at = at + 1;
        }
        assert(bound_closures(self@.bindings).take(at as int) =~= bound_closures(self@.bindings));
        let mut at: usize = 0;
        while at < self.retired.len()
            invariant
                at <= self.retired.len(),
                closures@ == self.pending@ + bound_closures(self@.bindings) + self.retired@.take(
                    at as int,
                ),
            decreases self.retired.len() - at,
        {
            closures.push(self.retired[at]);
            assert(self.retired@.take(at + 1) =~= self.retired@.take(at as int).push(
                self.retired@[at as int],
            ));
            at = at + 1;
        }
        assert(self.retired@.take(at as int) =~= self.retired@);
        self.pending = Vec::new();
        self.bindings = Vec::new();
        self.retired = Vec::new();
        assert(self@ =~= BridgeView::empty());
        closures
    }

    /// The closures scheduled and not yet run, oldest first.
    pub fn pending(&self) -> (pending: Vec<usize>)
        ensures
            pending@ == self@.pending,
    {
        self.pending.clone()
    }

    /// The closures that lost their name to a later binding, oldest first.
    pub fn retired(&self) -> (retired: Vec<usize>)
        ensures
            retired@ == self@.retired,
    {
        self.retired.clone()
    }

    /// The place of the first registration of `name`, or the number of
    /// registrations if there is none.
    fn position(&self, name: &str) -> (at: usize)
        ensures
            at <= self@.bindings.len(),
            at < self@.bindings.len() ==> bound_names(self@.bindings).index_of_first(name@)
                == Some(at as int),
            at == self@.bindings.len() ==> bound_names(self@.bindings).index_of_first(name@)
                is None,
    {
        let wanted = name.to_owned();
        proof {
            bound_names(self@.bindings).index_of_first_ensures(name@);
        }
        let mut at: usize = 0;
        while at < self.bindings.len()
            invariant
                at <= self.bindings.len(),
                wanted@ == name@,
                forall|j: int| 0 <= j < at ==> bound_names(self@.bindings)[j] != name@,
            ensures
                at <= self.bindings.len(),
                forall|j: int| 0 <= j < at ==> bound_names(self@.bindings)[j] != name@,
                at < self.bindings.len() ==> bound_names(self@.bindings)[at as int] == name@,
            decreases self.bindings.len() - at,
        {
            if self.bindings[at].name == wanted {
                break;
            }
            at = at + 1;
        }
        at
    }
}

/// A closure runs once for each time it was scheduled, and never without:
/// scheduling adds one occurrence to those waiting, a run is in order only
/// while an occurrence waits and takes exactly one away, and a run that is
/// not in order changes nothing. A closure scheduled once on a bridge where
/// it did not wait is in order once, and not again.
pub proof fn lemma_runs_once_per_scheduling(bridge: BridgeView, closure: usize)
    ensures
        !BridgeView::empty().awaits(closure),
        bridge.scheduled(closure).awaits(closure),
        bridge.scheduled(closure).pending.to_multiset() == bridge.pending.to_multiset().insert(
            closure,
        ),
        bridge.awaits(closure) <==> bridge.pending.to_multiset().count(closure) > 0,
        bridge.awaits(closure) ==> bridge.fired(closure).pending.to_multiset()
            == bridge.pending.to_multiset().remove(closure),
        !bridge.awaits(closure) ==> bridge.fired(closure) == bridge,
        !bridge.awaits(closure) ==> bridge.scheduled(closure).fired(closure) == bridge,
{
    let pending = bridge.pending;
    pending.to_multiset_ensures();
    pending.index_of_first_ensures(closure);
    let scheduled = pending.push(closure);
    assert(scheduled[pending.len() as int] == closure);
    if !pending.contains(closure) {
        scheduled.index_of_first_ensures(closure);
        let at = scheduled.index_of_first(closure).unwrap();
        if at < pending.len() {
            assert(pending[at] == closure);
        }
        assert(scheduled.remove(at) =~= pending);
        assert(bridge.scheduled(closure).fired(closure) =~= bridge);
        assert(bridge.fired(closure) =~= bridge);
    }
}

/// A bound closure stays bound: after `name` is bound to `closure`, calls of
/// `name` find `closure`, however often they come, and every other name
/// finds what it found before. Scheduling and running closures leaves all
/// bindings as they are.
pub proof fn lemma_binding_stays(
    bridge: BridgeView,
    name: Seq<char>,
    closure: usize,
    other_name: Seq<char>,
    other: usize,
)
    ensures
        lookup(bridge.bound(name, closure).bindings, name) == Some(closure),
        bridge.bound(name, closure).answers(closure),
        other_name != name ==> lookup(bridge.bound(name, closure).bindings, other_name) == lookup(
            bridge.bindings,
            other_name,
        ),
        bridge.scheduled(other).bindings == bridge.bindings,
        bridge.fired(other).bindings == bridge.bindings,
{
    lemma_lookup_after_rebind(bridge.bindings, name, closure, other_name);
}

proof fn lemma_lookup_after_rebind(
    bindings: Bindings,
    name: Seq<char>,
    closure: usize,
    other: Seq<char>,
)
    ensures
        lookup(rebind(bindings, name, closure), name) == Some(closure),
        other != name ==> lookup(rebind(bindings, name, closure), other) == lookup(
            bindings,
            other,
        ),
        bound_closures(rebind(bindings, name, closure)).contains(closure),
{
    let names = bound_names(bindings);
    let after = rebind(bindings, name, closure);
    let names_after = bound_names(after);
    names.index_of_first_ensures(name);
    names.index_of_first_ensures(other);
    names_after.index_of_first_ensures(name);
    names_after.index_of_first_ensures(other);
    match names.index_of_first(name) {
        Some(at) => {
            assert(names_after =~= names);
            assert(bound_closures(after)[at] == closure);
        },
        None => {
            assert(names_after =~= names.push(name));
            assert(names_after[names.len() as int] == name);
            assert(bound_closures(after)[names.len() as int] == closure);
            let found = names_after.index_of_first(name).unwrap();
            if found < names.len() {
                assert(names[found] == name);
            }
        },
    }
    if other != name {
        match names.index_of_first(other) {
            Some(at) => {
                assert(names_after[at] == other);
                let found = names_after.index_of_first(other).unwrap();
                if found < at {
                    assert(names[found] == other);
                }
                assert(found == at);
            },
            None => {
                if names_after.contains(other) {
                    let found = names_after.index_of_first(other).unwrap();
                    if found < names.len() {
                        assert(names[found] == other);
                    }
                }
            },
        }
    }
}

} // verus!
