//! Routing of sway events to the modules that subscribed to them.

pub mod title;
pub mod workspaces;

use vstd::prelude::*;
use std::collections::HashMap;
use crate::bar::ModuleKind;

verus! {

broadcast use vstd::std_specs::hash::group_hash_axioms;

/// The kinds of event that sway's IPC interface reports.
#[derive(Clone, Copy, Debug, PartialEq, Eq, Structural)]
pub enum EventKind {
    Workspace,
    Mode,
    Window,
    BarConfigUpdate,
    Binding,
    Shutdown,
    Tick,
    BarStateUpdate,
    Input,
}

/// The number of event kinds.
pub open spec fn num_kinds() -> nat {
    9
}

/// A small integer that stands for an event kind (its position in
/// [`all_kinds`]).
pub open spec fn kind_code(kind: EventKind) -> u8 {
    match kind {
        EventKind::Workspace => 0,
        EventKind::Mode => 1,
        EventKind::Window => 2,
        EventKind::BarConfigUpdate => 3,
        EventKind::Binding => 4,
        EventKind::Shutdown => 5,
        EventKind::Tick => 6,
        EventKind::BarStateUpdate => 7,
        EventKind::Input => 8,
    }
}

/// Every event kind once, ordered by code.
pub open spec fn all_kinds() -> Seq<EventKind> {
    seq![
        EventKind::Workspace,
        EventKind::Mode,
        EventKind::Window,
        EventKind::BarConfigUpdate,
        EventKind::Binding,
        EventKind::Shutdown,
        EventKind::Tick,
        EventKind::BarStateUpdate,
        EventKind::Input,
    ]
}

impl EventKind {
    /// The code of this kind.
    pub fn code(&self) -> (c: u8)
        ensures
            c == kind_code(*self),
            c < num_kinds(),
    {
        match self {
            EventKind::Workspace => 0,
            EventKind::Mode => 1,
            EventKind::Window => 2,
            EventKind::BarConfigUpdate => 3,
            EventKind::Binding => 4,
            EventKind::Shutdown => 5,
            EventKind::Tick => 6,
            EventKind::BarStateUpdate => 7,
            EventKind::Input => 8,
        }
    }
}

/// Every event kind once, ordered by code.
pub fn every_kind() -> (kinds: Vec<EventKind>)
    ensures
        kinds@ == all_kinds(),
{
    vec![
        EventKind::Workspace,
        EventKind::Mode,
        EventKind::Window,
        EventKind::BarConfigUpdate,
        EventKind::Binding,
        EventKind::Shutdown,
        EventKind::Tick,
        EventKind::BarStateUpdate,
        EventKind::Input,
    ]
}

/// The kinds of sway event a module subscribes to.
pub open spec fn module_event_kinds(module: ModuleKind) -> Seq<EventKind> {
    match module {
        ModuleKind::Workspaces => seq![EventKind::Workspace],
        ModuleKind::Title => seq![EventKind::Window],
        ModuleKind::Clock => Seq::empty(),
    }
}

/// The workspace module listens to workspace events only, the title module
/// to window events only, and the clock to no sway event.
pub proof fn lemma_module_event_kinds()
    ensures
        module_event_kinds(ModuleKind::Workspaces) == seq![EventKind::Workspace],
        module_event_kinds(ModuleKind::Title) == seq![EventKind::Window],
        module_event_kinds(ModuleKind::Clock).len() == 0,
{
}

/// Every kind has its own code below nine, and it is the kind's position in
/// [`all_kinds`], which lists every kind exactly once.
pub proof fn lemma_kind_codes()
    ensures
        forall|k: EventKind| #[trigger] kind_code(k) < num_kinds(),
        forall|k: EventKind| all_kinds()[#[trigger] kind_code(k) as int] == k,
        forall|a: EventKind, b: EventKind| a != b ==> #[trigger] kind_code(a) != #[trigger] kind_code(b),
        all_kinds().len() == num_kinds(),
        all_kinds().no_duplicates(),
        forall|k: EventKind| all_kinds().contains(k),
{
    assert forall|k: EventKind| all_kinds().contains(k) by {
        assert(all_kinds()[kind_code(k) as int] == k);
    }
}

/// The kinds of sway event a module subscribes to: the workspace module to
/// workspace events, the title module to window events, the clock to none.
pub fn module_events(module: ModuleKind) -> (kinds: Vec<EventKind>)
    ensures
        kinds@ == module_event_kinds(module),
        module == ModuleKind::Workspaces ==> kinds@ == seq![EventKind::Workspace],
        module == ModuleKind::Title ==> kinds@ == seq![EventKind::Window],
        module == ModuleKind::Clock ==> kinds@.len() == 0,
{
    let mut kinds = Vec::new();
    match module {
        ModuleKind::Workspaces => kinds.push(EventKind::Workspace),
        ModuleKind::Title => kinds.push(EventKind::Window),
        ModuleKind::Clock => {},
    }
    assert(kinds@ =~= module_event_kinds(module));
    kinds
}

/// The subscribers listed for `kind`, empty where the kind has no entry.
pub open spec fn subscribers_of(table: Map<EventKind, Seq<usize>>, kind: EventKind) -> Seq<usize> {
    if table.contains_key(kind) {
        table[kind]
    } else {
        Seq::empty()
    }
}

/// The table after subscriber `id` subscribed to `events`, one kind after
/// the other: each listed kind gets `id` appended to its subscribers.
pub open spec fn add_subscriber(
    table: Map<EventKind, Seq<usize>>,
    events: Seq<EventKind>,
    id: usize,
) -> Map<EventKind, Seq<usize>>
    decreases events.len(),
{
    if events.len() == 0 {
        table
    } else {
        let kind = events[0];
        add_subscriber(
            table.insert(kind, subscribers_of(table, kind).push(id)),
            events.drop_first(),
            id,
        )
    }
}

/// How often `kind` occurs in `events`.
pub open spec fn occurrences(events: Seq<EventKind>, kind: EventKind) -> nat
    decreases events.len(),
{
    if events.len() == 0 {
        0
    } else {
        (if events[0] == kind {
            1nat
        } else {
            0nat
        }) + occurrences(events.drop_first(), kind)
    }
}

/// `n` copies of `id`.
pub open spec fn repeated(id: usize, n: nat) -> Seq<usize> {
    Seq::new(n, |i: int| id)
}

/// An event of some kind reaches, after subscriber `id` subscribed to
/// `events`, the subscribers it reached before, then `id` once for each
/// time the kind is listed in `events` (so not at all when it is not
/// listed).
pub proof fn lemma_subscribe_routes(
    table: Map<EventKind, Seq<usize>>,
    events: Seq<EventKind>,
    id: usize,
    kind: EventKind,
)
    ensures
        subscribers_of(add_subscriber(table, events, id), kind) == subscribers_of(table, kind)
            + repeated(id, occurrences(events, kind)),
    decreases events.len(),
{
    if events.len() == 0 {
        assert(subscribers_of(table, kind) + repeated(id, 0) =~= subscribers_of(table, kind));
    } else {
        let first = events[0];
        let next = table.insert(first, subscribers_of(table, first).push(id));
        lemma_subscribe_routes(next, events.drop_first(), id, kind);
        let n = occurrences(events.drop_first(), kind);
        if first == kind {
            assert(subscribers_of(next, kind) + repeated(id, n) =~= subscribers_of(table, kind)
                + repeated(id, n + 1));
        } else {
            assert(subscribers_of(next, kind) == subscribers_of(table, kind));
        }
    }
}

/// After subscriber `id` subscribed to `events`, a kind has an entry exactly
/// when it had one before or is listed in `events`.
pub proof fn lemma_subscribe_kinds(
    table: Map<EventKind, Seq<usize>>,
    events: Seq<EventKind>,
    id: usize,
    kind: EventKind,
)
    ensures
        add_subscriber(table, events, id).contains_key(kind) <==> (table.contains_key(kind)
            || events.contains(kind)),
    decreases events.len(),
{
    if events.len() > 0 {
        let first = events[0];
        let next = table.insert(first, subscribers_of(table, first).push(id));
        lemma_subscribe_kinds(next, events.drop_first(), id, kind);
        if events.contains(kind) && first != kind {
            let j = choose|j: int| 0 <= j < events.len() && events[j] == kind;
            assert(events.drop_first()[j - 1] == kind);
        }
        if events.drop_first().contains(kind) {
            let j = choose|j: int| 0 <= j < events.len() - 1 && events.drop_first()[j] == kind;
            assert(events[j + 1] == kind);
        }
    }
}

/// Which subscribers want which kinds of sway event. Subscribers are named
/// by the number under which the caller keeps them; an event of some kind
/// goes to the subscribers of that kind, in the order they subscribed.
pub struct Subscriptions {
    subs: HashMap<u8, Vec<usize>>,
}

impl View for Subscriptions {
    type V = Map<EventKind, Seq<usize>>;

    closed spec fn view(&self) -> Map<EventKind, Seq<usize>> {
        Map::new(
            |kind: EventKind| self.subs@.contains_key(kind_code(kind)),
            |kind: EventKind| self.subs@[kind_code(kind)]@,
        )
    }
}

impl Subscriptions {
    /// Every key of the table is the code of some kind.
    pub closed spec fn wf(&self) -> bool {
        forall|c: u8| #[trigger] self.subs@.contains_key(c) ==> c < num_kinds()
    }

    /// An empty table: nobody has subscribed to anything.
    pub fn new() -> (s: Subscriptions)
        ensures
            s.wf(),
            s@ == Map::<EventKind, Seq<usize>>::empty(),
    {
        let s = Subscriptions { subs: HashMap::new() };
        assert(s@ =~= Map::<EventKind, Seq<usize>>::empty());
        s
    }

    /// Subscriber `id` subscribes to each kind in `events`: every listed kind
    /// gets `id` appended to its subscribers, once per time it is listed.
    pub fn subscribe(&mut self, events: &[EventKind], id: usize)
        requires
            old(self).wf(),
        ensures
            final(self).wf(),
            final(self)@ == add_subscriber(old(self)@, events@, id),
    {
        let mut i: usize = 0;
        assert(events@.skip(0) =~= events@);
        while i < events.len()
            invariant
                self.wf(),
                i <= events.len(),
                add_subscriber(self@, events@.skip(i as int), id) == add_subscriber(
                    old(self)@,
                    events@,
                    id,
                ),
            decreases events.len() - i,
        {
            let kind = events[i];
            let code = kind.code();
            let ghost before = self@;
            let list = self.subs.entry(code).or_insert(Vec::new());
            list.push(id);
            proof {
                assert(self@ =~= before.insert(kind, subscribers_of(before, kind).push(id)));
                assert(events@.skip(i as int).drop_first() =~= events@.skip(i + 1));
            }
            i += 1;
        }
        assert(events@.skip(i as int) =~= Seq::<EventKind>::empty());
    }

    /// The subscribers an event of `kind` goes to, in subscription order.
    pub fn subscribers_for(&self, kind: EventKind) -> (ids: Vec<usize>)
        requires
            self.wf(),
        ensures
            ids@ == subscribers_of(self@, kind),
    {
        let mut ids: Vec<usize> = Vec::new();
        match self.subs.get(&kind.code()) {
            Some(list) => {
                let mut i: usize = 0;
                while i < list.len()
                    invariant
                        i <= list.len(),
                        ids@ == list@.take(i as int),
                    decreases list.len() - i,
                {
                    ids.push(list[i]);
                    i += 1;
                    assert(ids@ =~= list@.take(i as int));
                }
                assert(list@.take(i as int) =~= list@);
            },
            None => {},
        }
        ids
    }

    /// The kinds that at least one subscriber wants, each once, in the order
    /// of their codes: what a connection has to ask sway for.
    pub fn event_kinds(&self) -> (kinds: Vec<EventKind>)
        requires
            self.wf(),
        ensures
            forall|k: EventKind| kinds@.contains(k) <==> self@.contains_key(k),
            kinds@.no_duplicates(),
            forall|a: int, b: int|
                0 <= a < b < kinds.len() ==> kind_code(kinds@[a]) < kind_code(kinds@[b]),
    {
        let all = every_kind();
        let mut kinds: Vec<EventKind> = Vec::new();
        let mut i: usize = 0;
        while i < all.len()
            invariant
                all@ == all_kinds(),
                i <= all.len(),
                forall|j: int| 0 <= j < kinds.len() ==> kind_code(#[trigger] kinds@[j]) < i,
                forall|j: int|
                    0 <= j < kinds.len() ==> self@.contains_key(#[trigger] kinds@[j]),
                forall|k: EventKind|
                    kind_code(k) < i && #[trigger] self@.contains_key(k) ==> kinds@.contains(k),
                kinds@.no_duplicates(),
                forall|a: int, b: int|
                    0 <= a < b < kinds.len() ==> kind_code(kinds@[a]) < kind_code(kinds@[b]),
            decreases all.len() - i,
        {
            let kind = all[i];
            assert(kind_code(kind) == i);
            if self.subs.contains_key(&kind.code()) {
                let ghost old_kinds = kinds@;
                assert(!old_kinds.contains(kind)) by {
                    if old_kinds.contains(kind) {
                        let j = choose|j: int| 0 <= j < old_kinds.len() && old_kinds[j] == kind;
                        assert(kind_code(old_kinds[j]) < i);
                    }
                }
                kinds.push(kind);
                assert forall|k: EventKind|
                    kind_code(k) < i + 1 && #[trigger] self@.contains_key(k) implies kinds@.contains(
                    k,
                ) by {
                    if kind_code(k) == i {
                        assert(k == kind);
                        assert(kinds@[kinds.len() - 1] == kind);
                    } else {
                        assert(old_kinds.contains(k));
                        let j = choose|j: int| 0 <= j < old_kinds.len() && old_kinds[j] == k;
                        assert(kinds@[j] == k);
                    }
                }
            } else {
                assert forall|k: EventKind|
                    kind_code(k) < i + 1 && #[trigger] self@.contains_key(k) implies kinds@.contains(
                    k,
                ) by {
                    if kind_code(k) == i {
                        assert(k == kind);
                    }
                }
            }
            i += 1;
        }
        kinds
    }
}

} // verus!
