//! The registry of attached handlers and the chain that a signal walks.
//!
//! The registry holds the ids of the attached handlers in the order in which
//! they were attached, and nothing else: each handler is owned by the
//! [`ExceptionHandler`] that `attach` returned. A signal walks the ids from
//! the newest to the oldest, looks each one up among the handlers that are
//! still alive, and stops at the first that claims the crash.
//!
//! What only the platform can do stays outside: the caller installs the
//! operating-system handlers when the registry says that none are installed,
//! and restores the earlier ones when a detach says so.

use vstd::prelude::*;
use crate::context::{assembled, simulated_siginfo, CrashContext, SigInfo, CONTEXT_SIZE, FLOAT_STATE_SIZE};
use crate::error::Error;
use crate::event::CrashEvent;
use crate::signal::Signal;

verus! {

/// The ids of the attached handlers, oldest first.
pub struct HandlerRegistry {
    entries: Vec<u64>,
}

/// One attached event and the id under which the registry knows it. The
/// event's type is a parameter, so that a boxed event is kept as it came.
struct HandlerInner<E> {
    id: u64,
    event: E,
}

/// What `attach` hands back: the owner of one attached event.
pub struct ExceptionHandler {
    inner: HandlerInner<Box<dyn CrashEvent>>,
}

/// Whether `id` is the id that the next handler gets: the least that no entry
/// has.
pub open spec fn is_fresh(entries: Seq<u64>, id: u64) -> bool {
    &&& !entries.contains(id)
    &&& forall|smaller: u64| smaller < id ==> entries.contains(smaller)
}

/// `entries` without the entry `id`, where there is one.
pub open spec fn without(entries: Seq<u64>, id: u64) -> Seq<u64> {
    if entries.contains(id) {
        entries.remove(entries.index_of(id))
    } else {
        entries
    }
}

/// Whether `id` resolves to the handler at `at`: the first of `handlers` with
/// that id.
pub open spec fn resolves_to(handlers: Seq<&ExceptionHandler>, id: u64, at: int) -> bool {
    &&& 0 <= at < handlers.len()
    &&& handlers[at].spec_id() == id
    &&& forall|k: int| 0 <= k < at ==> handlers[k].spec_id() != id
}

/// The handlers that are alive when `own`, where there is one, is alive
/// beside `others`: `own` first.
spec fn all_live<'a>(own: Option<&'a ExceptionHandler>, others: Seq<&'a ExceptionHandler>) -> Seq<
    &'a ExceptionHandler,
> {
    match own {
        Some(handler) => seq![handler] + others,
        None => others,
    }
}

/// Whether `id` no longer resolves: none of `handlers` has it.
pub open spec fn is_stale(handlers: Seq<&ExceptionHandler>, id: u64) -> bool {
    forall|k: int| 0 <= k < handlers.len() ==> handlers[k].spec_id() != id
}

/// Whether the entry `id` can answer `handled` for `context`: a stale entry is
/// passed over, which counts as `false`; any other answers as the handler it
/// resolves to.
pub open spec fn entry_may_answer(
    handlers: Seq<&ExceptionHandler>,
    id: u64,
    context: &CrashContext,
    handled: bool,
) -> bool {
    ||| is_stale(handlers, id) && !handled
    ||| exists|at: int| resolves_to(handlers, id, at) && #[trigger] handlers[at].may_answer(context, handled)
}

/// Whether walking `entries` from the newest to the oldest can end in
/// `handled`: in `true` where some entry claims the crash after every newer
/// one has declined, in `false` where every entry declines.
pub open spec fn chain_may_answer(
    entries: Seq<u64>,
    handlers: Seq<&ExceptionHandler>,
    context: &CrashContext,
    handled: bool,
) -> bool {
    if handled {
        exists|k: int|
            0 <= k < entries.len() && #[trigger] entry_may_answer(handlers, entries[k], context, true)
                && forall|j: int|
                k < j < entries.len() ==> #[trigger] entry_may_answer(handlers, entries[j], context, false)
    } else {
        forall|j: int|
            0 <= j < entries.len() ==> #[trigger] entry_may_answer(handlers, entries[j], context, false)
    }
}

impl View for HandlerRegistry {
    type V = Seq<u64>;

    /// The ids of the attached handlers, oldest first.
    closed spec fn view(&self) -> Seq<u64> {
        self.entries@
    }
}

impl HandlerRegistry {
    #[verifier::type_invariant]
    spec fn entries_are_distinct(&self) -> bool {
        self.entries@.no_duplicates()
    }

    /// Whether the operating-system handlers are installed: they are exactly
    /// while a handler is attached.
    pub open spec fn spec_is_installed(&self) -> bool {
        self@.len() > 0
    }

    /// A registry with no handler attached.
    pub fn new() -> (registry: HandlerRegistry)
        ensures
            registry@ == Seq::<u64>::empty(),
    {
        HandlerRegistry { entries: Vec::new() }
    }

    /// Whether the operating-system handlers are installed. Before attaching
    /// to a registry that says no, the caller installs them.
    pub fn is_installed(&self) -> (installed: bool)
        ensures
            installed == self.spec_is_installed(),
            self@.no_duplicates(),
    {
        proof {
            use_type_invariant(self);
        }
        self.entries.len() > 0
    }

    /// Where `id` stands among the entries.
    fn position(&self, id: u64) -> (at: Option<usize>)
        ensures
            match at {
                Some(i) => i < self@.len() && self@[i as int] == id,
                None => !self@.contains(id),
            },
    {
        let mut i: usize = 0;
        while i < self.entries.len()
            invariant
                i <= self.entries@.len(),
                forall|k: int| 0 <= k < i ==> self.entries@[k] != id,
            decreases self.entries@.len() - i,
        {
            if self.entries[i] == id {
                return Some(i);
            }
            i += 1;
        }
        None
    }

    /// The id for the next handler.
    fn fresh_id(&self) -> (id: u64)
        ensures
            is_fresh(self@, id),
    {
        let mut candidate: u64 = 0;
        loop
            invariant
                forall|smaller: u64| smaller < candidate ==> self@.contains(smaller),
            decreases u64::MAX - candidate,
        {
            if self.position(candidate).is_none() {
                return candidate;
            }
            proof {
                use_type_invariant(self);
                all_below_are_held(self@, candidate as int + 1);
                assert(self.entries@.len() == self.entries.len());
            }
            candidate += 1;
        }
    }

    /// Walks the chain for `context`: asks the handlers from the newest entry
    /// to the oldest, passes over an entry that no longer resolves, and stops
    /// at the first handler that claims the crash. Where it answers `false`
    /// the caller lets the signal fall through to what was installed before.
    pub fn dispatch_context(&self, handlers: &[&ExceptionHandler], context: &CrashContext) -> (handled:
        bool)
        ensures
            chain_may_answer(self@, handlers@, context, handled),
    {
        self.walk(None, handlers, context)
    }

    /// Walks the chain for `context` with `own`, where there is one, alive
    /// beside `others`.
    fn walk(
        &self,
        own: Option<&ExceptionHandler>,
        others: &[&ExceptionHandler],
        context: &CrashContext,
    ) -> (handled: bool)
        ensures
            chain_may_answer(self@, all_live(own, others@), context, handled),
    {
        let ghost live = all_live(own, others@);
        let mut remaining: usize = self.entries.len();
        while remaining > 0
            invariant
                remaining <= self@.len(),
                live == all_live(own, others@),
                forall|j: int|
                    remaining <= j < self@.len() ==> #[trigger] entry_may_answer(live, self@[j], context, false),
            decreases remaining,
        {
            remaining -= 1;
            let id = self.entries[remaining];
            match lookup(own, others, id) {
                None => {},
                Some(handler) => {
                    if handler.handle_signal(context) {
                        assert(entry_may_answer(live, self@[remaining as int], context, true));
                        return true;
                    }
                },
            }
        }
        false
    }

    /// Assembles the crash context of a signal from what the platform handed
    /// over and walks the chain for it.
    pub fn dispatch(
        &self,
        handlers: &[&ExceptionHandler],
        siginfo: &SigInfo,
        tid: i32,
        context: &[u8; CONTEXT_SIZE],
        float_state: &[u8; FLOAT_STATE_SIZE],
    ) -> (handled: bool)
        ensures
            exists|crash: CrashContext|
                crash@ == assembled(context@, float_state@, *siginfo, tid) && #[trigger] chain_may_answer(
                    self@,
                    handlers@,
                    &crash,
                    handled,
                ),
    {
        let crash = CrashContext::new(context, float_state, siginfo, tid);
        self.dispatch_context(handlers, &crash)
    }
}

/// Looks `id` up among the handlers that are alive.
pub fn resolve(handlers: &[&ExceptionHandler], id: u64) -> (found: Option<usize>)
    ensures
        match found {
            Some(at) => resolves_to(handlers@, id, at as int),
            None => is_stale(handlers@, id),
        },
{
    let mut i: usize = 0;
    while i < handlers.len()
        invariant
            i <= handlers@.len(),
            forall|k: int| 0 <= k < i ==> handlers@[k].spec_id() != id,
        decreases handlers@.len() - i,
    {
        if handlers[i].inner.id == id {
            return Some(i);
        }
        i += 1;
    }
    None
}

/// Looks `id` up among the handlers that are alive: `own` first, where there
/// is one, then `others`.
fn lookup<'a>(own: Option<&'a ExceptionHandler>, others: &'a [&'a ExceptionHandler], id: u64) -> (found:
    Option<&'a ExceptionHandler>)
    ensures
        found matches Some(handler) ==> exists|at: int|
            resolves_to(all_live(own, others@), id, at) && #[trigger] all_live(own, others@)[at] == handler,
        found is None ==> is_stale(all_live(own, others@), id),
{
    let ghost live = all_live(own, others@);
    if let Some(handler) = own {
        assert(live[0] == handler);
        assert(forall|k: int| 1 <= k < live.len() ==> live[k] == others@[k - 1]);
        if handler.inner.id == id {
            assert(resolves_to(live, id, 0));
            return Some(handler);
        }
        match resolve(others, id) {
            Some(at) => {
                let found: &ExceptionHandler = others[at];
                assert(resolves_to(live, id, at + 1) && live[at + 1] == found);
                return Some(found);
            },
            None => {
                assert(is_stale(live, id));
                return None;
            },
        }
    }
    match resolve(others, id) {
        Some(at) => {
            let found: &ExceptionHandler = others[at];
            assert(resolves_to(live, id, at as int) && live[at as int] == found);
            Some(found)
        },
        None => None,
    }
}

impl ExceptionHandler {
    /// The id under which the registry knows this handler.
    pub closed spec fn spec_id(&self) -> u64 {
        self.inner.id
    }

    /// The id under which the registry knows this handler.
    pub fn id(&self) -> (id: u64)
        ensures
            id == self.spec_id(),
    {
        self.inner.id
    }

    /// Whether `handled` is an answer that this handler's event can give for
    /// `context`.
    pub closed spec fn may_answer(&self, context: &CrashContext, handled: bool) -> bool {
        self.inner.event.may_answer(context, handled)
    }

    /// Attaches `on_crash` as the newest handler of `registry`.
    ///
    /// `install` is what the platform answered when it was asked to set up the
    /// alternate stack and the operating-system handlers; it is looked at only
    /// where `registry` has none installed, and a failure there is the failure
    /// of the attach, which then changes nothing.
    pub fn attach(
        registry: &mut HandlerRegistry,
        on_crash: Box<dyn CrashEvent>,
        install: Result<(), Error>,
    ) -> (outcome: Result<ExceptionHandler, Error>)
        ensures
            final(registry)@.no_duplicates(),
            outcome is Err <==> !old(registry).spec_is_installed() && install is Err,
            outcome matches Err(error) ==> install == Err::<(), Error>(error) && final(registry)@ == old(
                registry,
            )@,
            outcome matches Ok(handler) ==> is_fresh(old(registry)@, handler.spec_id()),
            outcome matches Ok(handler) ==> final(registry)@ == old(registry)@.push(handler.spec_id()),
            outcome matches Ok(handler) ==> forall|context: &CrashContext, handled: bool|
                #![trigger handler.may_answer(context, handled)]
                handler.may_answer(context, handled) <==> on_crash.may_answer(context, handled),
    {
        if !registry.is_installed() {
            if let Err(error) = install {
                return Err(error);
            }
        }
        let id = registry.fresh_id();
        proof {
            use_type_invariant(&*registry);
        }
        let mut entries: Vec<u64> = Vec::new();
        std::mem::swap(&mut entries, &mut registry.entries);
        entries.push(id);
        registry.entries = entries;
        let inner = HandlerInner { id, event: on_crash };
        Ok(ExceptionHandler { inner })
    }

    /// Detaches this handler from `registry`. Answers whether the caller has
    /// to restore what was installed before: it has where this was the last
    /// entry. Detaching a handler that the registry no longer holds changes
    /// nothing.
    pub fn detach(self, registry: &mut HandlerRegistry) -> (restore: bool)
        ensures
            final(registry)@.no_duplicates(),
            final(registry)@ == without(old(registry)@, self.spec_id()),
            restore == (old(registry)@.contains(self.spec_id()) && final(registry)@.len() == 0),
    {
        self.do_detach(registry)
    }

    /// Removes this handler's entry from `registry`, where there is one.
    fn do_detach(&self, registry: &mut HandlerRegistry) -> (restore: bool)
        ensures
            final(registry)@.no_duplicates(),
            final(registry)@ == without(old(registry)@, self.spec_id()),
            restore == (old(registry)@.contains(self.spec_id()) && final(registry)@.len() == 0),
    {
        proof {
            use_type_invariant(&*registry);
        }
        match registry.position(self.inner.id) {
            Some(at) => {
                let mut entries: Vec<u64> = Vec::new();
                std::mem::swap(&mut entries, &mut registry.entries);
                let ghost before = entries@;
                entries.remove(at);
                proof {
                    assert(before.index_of(self.inner.id) == at);
                    before.remove_ensures(at as int);
                }
                let restore = entries.len() == 0;
                registry.entries = entries;
                restore
            },
            None => false,
        }
    }

    /// Tells this handler's event of the crash.
    pub fn handle_signal(&self, context: &CrashContext) -> (handled: bool)
        ensures
            self.may_answer(context, handled),
    {
        self.inner.event.on_crash(context)
    }

    /// Simulates `signal`: builds the context of a signal that the calling
    /// process raised against itself, from the caller's process id, thread id
    /// and registers, and walks the chain of `registry` for it as a real
    /// signal would. This handler is alive, and so are the `others`.
    pub fn simulate_signal(
        &self,
        registry: &HandlerRegistry,
        others: &[&ExceptionHandler],
        signal: Signal,
        pid: u32,
        tid: i32,
        context: &[u8; CONTEXT_SIZE],
        float_state: &[u8; FLOAT_STATE_SIZE],
    ) -> (handled: bool)
        ensures
            exists|crash: CrashContext|
                crash@ == assembled(context@, float_state@, simulated_siginfo(signal, pid), tid)
                    && #[trigger] chain_may_answer(registry@, seq![self] + others@, &crash, handled),
    {
        let crash = CrashContext::simulated(signal, pid, tid, context, float_state);
        registry.walk(Some(self), others, &crash)
    }
}

/// `entries` after each id of `order` has been detached in turn.
pub open spec fn without_all(entries: Seq<u64>, order: Seq<u64>) -> Seq<u64>
    decreases order.len(),
{
    if order.len() == 0 {
        entries
    } else {
        without(without_all(entries, order.drop_last()), order.last())
    }
}

/// The next id is determined by the entries.
pub proof fn fresh_id_is_unique(entries: Seq<u64>, a: u64, b: u64)
    requires
        is_fresh(entries, a),
        is_fresh(entries, b),
    ensures
        a == b,
{
}

/// The first handler of an empty registry gets the id 0.
pub proof fn fresh_id_of_empty(id: u64)
    ensures
        is_fresh(Seq::<u64>::empty(), id) <==> id == 0,
{
    assert(!Seq::<u64>::empty().contains(0u64));
}

/// Attaching keeps the ids distinct: the new handler's id is none of the
/// ids that are attached, so two attached handlers are never taken for one
/// another, whatever their events are.
pub proof fn attach_keeps_ids_distinct(entries: Seq<u64>, id: u64)
    requires
        entries.no_duplicates(),
        is_fresh(entries, id),
    ensures
        entries.push(id).no_duplicates(),
        forall|k: int| 0 <= k < entries.len() ==> entries[k] != id,
{
    assert forall|k: int| 0 <= k < entries.len() implies entries[k] != id by {
        if entries[k] == id {
            assert(entries.contains(id));
        }
    }
}

/// Detaching removes the entry of the handler that is detached, and that
/// entry alone: every other handler stays attached.
pub proof fn detach_removes_one(entries: Seq<u64>, id: u64)
    requires
        entries.no_duplicates(),
    ensures
        without(entries, id).no_duplicates(),
        !without(entries, id).contains(id),
        forall|other: u64| other != id ==> (without(entries, id).contains(other) <==> entries.contains(other)),
        entries.contains(id) ==> without(entries, id).len() == entries.len() - 1,
        !entries.contains(id) ==> without(entries, id) == entries,
{
    let rest = without(entries, id);
    if entries.contains(id) {
        let at = entries.index_of(id);
        entries.remove_ensures(at);
        assert forall|i: int, j: int| 0 <= i < rest.len() && 0 <= j < rest.len() && i != j implies rest[i]
            != rest[j] by {
            let from_i = if i < at { i } else { i + 1 };
            let from_j = if j < at { j } else { j + 1 };
            assert(rest[i] == entries[from_i] && rest[j] == entries[from_j]);
        }
        assert forall|k: int| 0 <= k < rest.len() implies rest[k] != id by {
            let from_k = if k < at { k } else { k + 1 };
            assert(rest[k] == entries[from_k]);
        }
        assert forall|other: u64| other != id implies (rest.contains(other) <==> entries.contains(other)) by {
            if entries.contains(other) {
                let from = entries.index_of(other);
                let to = if from < at { from } else { from - 1 };
                assert(rest[to] == other);
            }
            if rest.contains(other) {
                let to = rest.index_of(other);
                let from = if to < at { to } else { to + 1 };
                assert(entries[from] == other);
            }
        }
    }
}

/// Detaching the handler that was attached last gives the registry as it
/// was before that attach.
pub proof fn detach_undoes_attach(entries: Seq<u64>, id: u64)
    requires
        !entries.contains(id),
    ensures
        without(entries.push(id), id) == entries,
{
    let grown = entries.push(id);
    assert(grown[entries.len() as int] == id);
    let at = grown.index_of(id);
    if at < entries.len() {
        assert(entries[at] == id);
    }
    assert(grown.remove(at) =~= entries);
}

/// A detach asks for the earlier handlers to be restored exactly when the
/// handler it detaches is the only one attached.
pub proof fn restore_is_asked_of_the_last(entries: Seq<u64>, id: u64)
    requires
        entries.no_duplicates(),
    ensures
        (entries.contains(id) && without(entries, id).len() == 0) <==> entries == seq![id],
{
    detach_removes_one(entries, id);
    if entries.contains(id) && without(entries, id).len() == 0 {
        assert(entries[0] == id) by {
            let at = entries.index_of(id);
        }
        assert(entries =~= seq![id]);
    }
    if entries == seq![id] {
        assert(entries[0] == id);
    }
}

/// Once every attached handler has been detached, in whatever order and with
/// whatever other detaches in between, nothing is installed: the registry is
/// as a new one.
pub proof fn detaching_all_uninstalls(entries: Seq<u64>, order: Seq<u64>)
    requires
        entries.no_duplicates(),
        forall|k: int| 0 <= k < entries.len() ==> order.contains(#[trigger] entries[k]),
    ensures
        without_all(entries, order) == Seq::<u64>::empty(),
{
    detaching_some(entries, order);
    let rest = without_all(entries, order);
    if rest.len() > 0 {
        assert(entries.contains(rest[0]));
        let at = entries.index_of(rest[0]);
        assert(order.contains(entries[at]));
    }
    assert(rest =~= Seq::<u64>::empty());
}

/// After the ids of `order` have been detached, what is left are the entries
/// that `order` does not name, each once.
proof fn detaching_some(entries: Seq<u64>, order: Seq<u64>)
    requires
        entries.no_duplicates(),
    ensures
        without_all(entries, order).no_duplicates(),
        forall|k: int|
            0 <= k < without_all(entries, order).len() ==> entries.contains(
                #[trigger] without_all(entries, order)[k],
            ) && !order.contains(without_all(entries, order)[k]),
    decreases order.len(),
{
    if order.len() > 0 {
        let earlier = without_all(entries, order.drop_last());
        let rest = without_all(entries, order);
        detaching_some(entries, order.drop_last());
        detach_removes_one(earlier, order.last());
        assert forall|k: int| 0 <= k < rest.len() implies entries.contains(#[trigger] rest[k])
            && !order.contains(rest[k]) by {
            let id = rest[k];
            assert(rest.contains(id));
            assert(id != order.last());
            assert(earlier.contains(id));
            let from = earlier.index_of(id);
            assert(entries.contains(earlier[from]) && !order.drop_last().contains(earlier[from]));
            if order.contains(id) {
                let at = order.index_of(id);
                assert(order.drop_last()[at] == id);
            }
        }
    }
}

/// A stale entry declines, and that is all it does.
pub proof fn stale_entry_declines(
    handlers: Seq<&ExceptionHandler>,
    id: u64,
    context: &CrashContext,
    handled: bool,
)
    requires
        is_stale(handlers, id),
    ensures
        entry_may_answer(handlers, id, context, handled) <==> !handled,
{
}

/// An entry that resolves answers as the handler it resolves to.
pub proof fn entry_answers_as_its_handler(
    handlers: Seq<&ExceptionHandler>,
    id: u64,
    at: int,
    context: &CrashContext,
    handled: bool,
)
    requires
        resolves_to(handlers, id, at),
    ensures
        entry_may_answer(handlers, id, context, handled) <==> handlers[at].may_answer(context, handled),
{
    if entry_may_answer(handlers, id, context, handled) {
        let found = choose|found: int|
            resolves_to(handlers, id, found) && #[trigger] handlers[found].may_answer(context, handled);
        assert(found == at);
    }
}

/// With nothing attached, no signal is claimed.
pub proof fn empty_chain_declines(handlers: Seq<&ExceptionHandler>, context: &CrashContext, handled: bool)
    ensures
        chain_may_answer(Seq::<u64>::empty(), handlers, context, handled) <==> !handled,
{
}

/// The newest entry is asked first: the chain's answer is `true` where the
/// newest claims the crash, and otherwise, the newest having declined, the
/// answer of the chain of the older entries.
pub proof fn newest_is_asked_first(
    entries: Seq<u64>,
    newest: u64,
    handlers: Seq<&ExceptionHandler>,
    context: &CrashContext,
    handled: bool,
)
    ensures
        chain_may_answer(entries.push(newest), handlers, context, handled) <==> {
            ||| handled && entry_may_answer(handlers, newest, context, true)
            ||| entry_may_answer(handlers, newest, context, false) && chain_may_answer(
                entries,
                handlers,
                context,
                handled,
            )
        },
{
    let grown = entries.push(newest);
    let last = entries.len() as int;
    assert(grown[last] == newest);
    assert(forall|j: int| 0 <= j < last ==> grown[j] == entries[j]);
    if chain_may_answer(grown, handlers, context, handled) {
        if handled {
            let k = choose|k: int|
                0 <= k < grown.len() && #[trigger] entry_may_answer(handlers, grown[k], context, true)
                    && forall|j: int|
                    k < j < grown.len() ==> #[trigger] entry_may_answer(handlers, grown[j], context, false);
            if k < last {
                assert(entry_may_answer(handlers, grown[last], context, false));
                assert(entry_may_answer(handlers, entries[k], context, true));
                assert forall|j: int| k < j < entries.len() implies #[trigger] entry_may_answer(
                    handlers,
                    entries[j],
                    context,
                    false,
                ) by {
                    assert(entry_may_answer(handlers, grown[j], context, false));
                }
            }
        } else {
            assert(entry_may_answer(handlers, grown[last], context, false));
            assert forall|j: int| 0 <= j < entries.len() implies #[trigger] entry_may_answer(
                handlers,
                entries[j],
                context,
                false,
            ) by {
                assert(entry_may_answer(handlers, grown[j], context, false));
            }
        }
    }
    if handled && entry_may_answer(handlers, newest, context, true) {
        assert(entry_may_answer(handlers, grown[last], context, true));
    }
    if entry_may_answer(handlers, newest, context, false) && chain_may_answer(
        entries,
        handlers,
        context,
        handled,
    ) {
        if handled {
            let k = choose|k: int|
                0 <= k < entries.len() && #[trigger] entry_may_answer(handlers, entries[k], context, true)
                    && forall|j: int|
                    k < j < entries.len() ==> #[trigger] entry_may_answer(
                        handlers,
                        entries[j],
                        context,
                        false,
                    );
            assert(entry_may_answer(handlers, grown[k], context, true));
            assert forall|j: int| k < j < grown.len() implies #[trigger] entry_may_answer(
                handlers,
                grown[j],
                context,
                false,
            ) by {
                if j < last {
                    assert(entry_may_answer(handlers, entries[j], context, false));
                }
            }
        } else {
            assert forall|j: int| 0 <= j < grown.len() implies #[trigger] entry_may_answer(
                handlers,
                grown[j],
                context,
                false,
            ) by {
                if j < last {
                    assert(entry_may_answer(handlers, entries[j], context, false));
                }
            }
        }
    }
}

/// A stale entry takes no part in the chain, wherever it stands: the chain
/// answers as it would without it.
pub proof fn stale_entry_is_passed_over(
    entries: Seq<u64>,
    at: int,
    stale: u64,
    handlers: Seq<&ExceptionHandler>,
    context: &CrashContext,
    handled: bool,
)
    requires
        0 <= at <= entries.len(),
        is_stale(handlers, stale),
    ensures
        chain_may_answer(entries.insert(at, stale), handlers, context, handled) <==> chain_may_answer(
            entries,
            handlers,
            context,
            handled,
        ),
{
    let grown = entries.insert(at, stale);
    assert(grown[at] == stale);
    assert(forall|j: int| 0 <= j < at ==> grown[j] == entries[j]);
    assert(forall|j: int| at < j < grown.len() ==> grown[j] == entries[j - 1]);
    assert(entry_may_answer(handlers, stale, context, false));
    assert(!entry_may_answer(handlers, stale, context, true));
    if chain_may_answer(grown, handlers, context, handled) {
        if handled {
            let k = choose|k: int|
                0 <= k < grown.len() && #[trigger] entry_may_answer(handlers, grown[k], context, true)
                    && forall|j: int|
                    k < j < grown.len() ==> #[trigger] entry_may_answer(handlers, grown[j], context, false);
            let from = if k < at { k } else { k - 1 };
            assert(entry_may_answer(handlers, entries[from], context, true));
            assert forall|j: int| from < j < entries.len() implies #[trigger] entry_may_answer(
                handlers,
                entries[j],
                context,
                false,
            ) by {
                let to = if j < at { j } else { j + 1 };
                assert(entry_may_answer(handlers, grown[to], context, false));
            }
        } else {
            assert forall|j: int| 0 <= j < entries.len() implies #[trigger] entry_may_answer(
                handlers,
                entries[j],
                context,
                false,
            ) by {
                let to = if j < at { j } else { j + 1 };
                assert(entry_may_answer(handlers, grown[to], context, false));
            }
        }
    }
    if chain_may_answer(entries, handlers, context, handled) {
        if handled {
            let k = choose|k: int|
                0 <= k < entries.len() && #[trigger] entry_may_answer(handlers, entries[k], context, true)
                    && forall|j: int|
                    k < j < entries.len() ==> #[trigger] entry_may_answer(
                        handlers,
                        entries[j],
                        context,
                        false,
                    );
            let to = if k < at { k } else { k + 1 };
            assert(entry_may_answer(handlers, grown[to], context, true));
            assert forall|j: int| to < j < grown.len() implies #[trigger] entry_may_answer(
                handlers,
                grown[j],
                context,
                false,
            ) by {
                if j != at {
                    let from = if j < at { j } else { j - 1 };
                    assert(entry_may_answer(handlers, entries[from], context, false));
                }
            }
        } else {
            assert forall|j: int| 0 <= j < grown.len() implies #[trigger] entry_may_answer(
                handlers,
                grown[j],
                context,
                false,
            ) by {
                if j != at {
                    let from = if j < at { j } else { j - 1 };
                    assert(entry_may_answer(handlers, entries[from], context, false));
                }
            }
        }
    }
}

/// Entries that hold every id below `bound`, each once, are at least `bound`
/// many.
proof fn all_below_are_held(entries: Seq<u64>, bound: int)
    requires
        entries.no_duplicates(),
        0 <= bound <= u64::MAX + 1,
        forall|id: u64| id < bound ==> entries.contains(id),
    ensures
        bound <= entries.len(),
{
    let ids = entries.map_values(|id: u64| id as int);
    assert(ids.no_duplicates()) by {
        assert forall|i: int, j: int| 0 <= i < ids.len() && 0 <= j < ids.len() && i != j implies ids[i]
            != ids[j] by {
            assert(entries[i] != entries[j]);
        }
    }
    ids.unique_seq_to_set();
    vstd::set_lib::lemma_int_range(0, bound);
    assert(vstd::set_lib::set_int_range(0, bound).subset_of(ids.to_set())) by {
        assert forall|n: int| vstd::set_lib::set_int_range(0, bound).contains(n) implies ids.to_set().contains(
            n,
        ) by {
            let id = n as u64;
            assert(entries.contains(id));
            let at = entries.index_of(id);
            assert(ids[at] == n);
        }
    }
    vstd::set_lib::lemma_len_subset(vstd::set_lib::set_int_range(0, bound), ids.to_set());
}

} // verus!
