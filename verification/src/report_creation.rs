//! Hooks that run when a report is created: attachment collectors, which
//! attach one collected value, and creation hooks, which may change the new
//! report as they please. The location a report is created at, which the
//! running program supplies implicitly, is an explicit argument here.

use vstd::prelude::*;

use crate::report::{Attachment, AttachmentType, Report};
use crate::terse::{all_digits, decimal, decimal_value, lemma_decimal_reads_back, push_decimal};

verus! {

/// A source location: a file and a line in it.
pub struct Location {
    pub file: String,
    pub line: u32,
}

/// How a location is rendered: `file:line`.
pub open spec fn location_text(loc: Location) -> Seq<char> {
    loc.file@ + ":"@ + decimal(loc.line as nat)
}

/// A rendered location is the file, `:` and the line in decimal digits that
/// read back as the line, with no leading zero unless the line is zero.
pub proof fn lemma_location_text_reads_back(loc: Location)
    ensures
        exists|digits: Seq<char>|
            #![trigger loc.file@ + ":"@ + digits]
            location_text(loc) == loc.file@ + ":"@ + digits && digits.len() > 0 && all_digits(digits)
                && decimal_value(digits) == loc.line && (digits[0] == '0' ==> loc.line == 0),
{
    lemma_decimal_reads_back(loc.line as nat);
    let digits = decimal(loc.line as nat);
    assert(location_text(loc) == loc.file@ + ":"@ + digits);
}

/// The attachment that records a location.
pub open spec fn is_location_attachment(a: Attachment, loc: Location) -> bool {
    &&& a.kind == AttachmentType::Location
    &&& a.display@ == location_text(loc)
    &&& a.debug@ == location_text(loc)
}

/// `after` is `before` with one more attachment, `a`, at the end.
pub open spec fn appends_attachment(before: Report, after: Report, a: Attachment) -> bool {
    &&& after.attachments@ == before.attachments@.push(a)
    &&& after.context_type_name == before.context_type_name
    &&& after.context_display == before.context_display
    &&& after.context_debug == before.context_debug
    &&& after.children@ == before.children@
}

impl Location {
    /// Renders the location as `file:line`.
    pub fn display(&self) -> (s: String)
        ensures
            s@ == location_text(*self),
    {
        let mut s = self.file.clone();
        s.append(":");
        push_decimal(&mut s, self.line as usize);
        assert(s@ =~= location_text(*self));
        s
    }
}

/// A hook that is called whenever a report is created, and may change it.
/// What each call may do is stated by `local_effect` and `sendsync_effect`;
/// a hook that leaves them as they are promises nothing.
pub trait ReportCreationHook {
    /// What a local-creation call may turn `before` into.
    open spec fn local_effect(&self, before: Report, after: Report, caller: Location) -> bool {
        true
    }

    /// What a send-sync-creation call may turn `before` into.
    open spec fn sendsync_effect(&self, before: Report, after: Report, caller: Location) -> bool {
        true
    }

    /// Called when a report that stays on one thread is created.
    fn on_local_creation(&self, report: &mut Report, caller: &Location)
        ensures
            self.local_effect(*old(report), *final(report), *caller),
    ;

    /// Called when a report that may cross threads is created.
    fn on_sendsync_creation(&self, report: &mut Report, caller: &Location)
        ensures
            self.sendsync_effect(*old(report), *final(report), *caller),
    ;
}

impl ReportCreationHook for Box<dyn ReportCreationHook> {
    open spec fn local_effect(&self, before: Report, after: Report, caller: Location) -> bool {
        (**self).local_effect(before, after, caller)
    }

    open spec fn sendsync_effect(&self, before: Report, after: Report, caller: Location) -> bool {
        (**self).sendsync_effect(before, after, caller)
    }

    fn on_local_creation(&self, report: &mut Report, caller: &Location) {
        (**self).on_local_creation(report, caller)
    }

    fn on_sendsync_creation(&self, report: &mut Report, caller: &Location) {
        (**self).on_sendsync_creation(report, caller)
    }
}

/// A hook that collects one value to attach to every new report. What
/// `collect` needs and may return is stated by `collect_requires` and
/// `collects`; a collector that leaves them as they are promises nothing.
pub trait AttachmentCollector {
    /// What `collect` needs to be called for a report created at `caller`.
    open spec fn collect_requires(&self, caller: Location) -> bool {
        true
    }

    /// Which attachments `collect` may return for a report created at `caller`.
    open spec fn collects(&self, caller: Location, a: Attachment) -> bool {
        true
    }

    /// Collects the value to attach to a report created at `caller`.
    fn collect(&self, caller: &Location) -> (a: Attachment)
        requires
            self.collect_requires(*caller),
        ensures
            self.collects(*caller, a),
    ;
}

/// A closure that takes nothing collects what it returns.
impl<F: Fn() -> Attachment> AttachmentCollector for F {
    open spec fn collect_requires(&self, caller: Location) -> bool {
        self.requires(())
    }

    open spec fn collects(&self, caller: Location, a: Attachment) -> bool {
        self.ensures((), a)
    }

    fn collect(&self, caller: &Location) -> (a: Attachment) {
        (self)()
    }
}

impl AttachmentCollector for Box<dyn AttachmentCollector> {
    open spec fn collect_requires(&self, caller: Location) -> bool {
        (**self).collect_requires(caller)
    }

    open spec fn collects(&self, caller: Location, a: Attachment) -> bool {
        (**self).collects(caller, a)
    }

    fn collect(&self, caller: &Location) -> (a: Attachment) {
        (**self).collect(caller)
    }
}

/// The collector that attaches the location the report is created at.
pub struct LocationHook;

impl LocationHook {
    /// The attachment that records `caller`.
    pub fn location_attachment(&self, caller: &Location) -> (a: Attachment)
        ensures
            is_location_attachment(a, *caller),
    {
        let display = caller.display();
        let debug = caller.display();
        Attachment { kind: AttachmentType::Location, display, debug }
    }
}

impl AttachmentCollector for LocationHook {
    open spec fn collects(&self, caller: Location, a: Attachment) -> bool {
        is_location_attachment(a, caller)
    }

    fn collect(&self, caller: &Location) -> (a: Attachment)
        ensures
            is_location_attachment(a, *caller),
    {
        self.location_attachment(caller)
    }
}

/// `after` is `before` with the attachment of location `caller` at the end.
pub open spec fn appends_location(before: Report, after: Report, caller: Location) -> bool {
    exists|a: Attachment| is_location_attachment(a, caller) && #[trigger] appends_attachment(before, after, a)
}

/// `after` is `before` with one attachment that `collector` may return at the end.
pub open spec fn appends_collected<C: AttachmentCollector>(
    collector: C,
    before: Report,
    after: Report,
    caller: Location,
) -> bool {
    exists|a: Attachment| collector.collects(caller, a) && #[trigger] appends_attachment(before, after, a)
}

/// The debug rendering of a stored creation hook of the named type.
pub fn creation_hook_debug(hook_type: &str) -> (s: String)
    ensures
        s@ == "CreationHook<"@ + hook_type@ + ">"@,
{
    let mut s = String::from_str("CreationHook<");
    s.append(hook_type);
    s.append(">");
    s
}

/// The debug rendering of a stored collector of the named type, with the
/// named types of what it attaches and of the handler that renders it.
pub fn collector_debug(attachment_type: &str, handler_type: &str, collector_type: &str) -> (s: String)
    ensures
        s@ == "AttachmentCollector<"@ + attachment_type@ + ", "@ + handler_type@ + ", "@
            + collector_type@ + ">"@,
{
    let mut s = String::from_str("AttachmentCollector<");
    s.append(attachment_type);
    s.append(", ");
    s.append(handler_type);
    s.append(", ");
    s.append(collector_type);
    s.append(">");
    s
}

/// A hook as it is stored: the location hook, an attachment collector of
/// type `C` or a creation hook of type `H`. Lists that mix hook types use
/// `Box<dyn ReportCreationHook>` and `Box<dyn AttachmentCollector>`.
pub enum StoredHook<H, C> {
    /// Attaches the location the report is created at.
    Location(LocationHook),
    /// Attaches the value it collects.
    Collector(C),
    /// Runs its own creation methods.
    Creation(H),
}

impl<H: ReportCreationHook, C: AttachmentCollector> StoredHook<H, C> {
    /// What running the hook on a new report created at `caller` may turn
    /// `before` into: the location hook attaches the location; a collector
    /// attaches one value it may collect; a creation hook does what its own
    /// local (`local` holds) or send-sync method may do.
    pub open spec fn effect(self, before: Report, after: Report, caller: Location, local: bool) -> bool {
        match self {
            StoredHook::Location(_) => appends_location(before, after, caller),
            StoredHook::Collector(c) => appends_collected(c, before, after, caller),
            StoredHook::Creation(h) => if local {
                h.local_effect(before, after, caller)
            } else {
                h.sendsync_effect(before, after, caller)
            },
        }
    }

    /// What running the hook needs: a collector's `collect_requires`.
    pub open spec fn ready(self, caller: Location) -> bool {
        match self {
            StoredHook::Collector(c) => c.collect_requires(caller),
            _ => true,
        }
    }

    /// Runs the hook on a new local report.
    pub fn on_local_creation(&self, report: &mut Report, caller: &Location)
        requires
            self.ready(*caller),
        ensures
            self.effect(*old(report), *final(report), *caller, true),
    {
        match self {
            StoredHook::Location(l) => attach(report, l.location_attachment(caller)),
            StoredHook::Collector(c) => {
                let a = c.collect(caller);
                attach_collected(c, report, a, caller);
            },
            StoredHook::Creation(h) => h.on_local_creation(report, caller),
        }
    }

    /// Runs the hook on a new report that may cross threads.
    pub fn on_sendsync_creation(&self, report: &mut Report, caller: &Location)
        requires
            self.ready(*caller),
        ensures
            self.effect(*old(report), *final(report), *caller, false),
    {
        match self {
            StoredHook::Location(l) => attach(report, l.location_attachment(caller)),
            StoredHook::Collector(c) => {
                let a = c.collect(caller);
                attach_collected(c, report, a, caller);
            },
            StoredHook::Creation(h) => h.on_sendsync_creation(report, caller),
        }
    }
}

/// Adds an attachment at the end of the report's attachments.
fn attach(report: &mut Report, a: Attachment)
    ensures
        appends_attachment(*old(report), *final(report), a),
{
    report.attachments.push(a);
}

/// Adds an attachment that `collector` collected at the end of the report's
/// attachments.
fn attach_collected<C: AttachmentCollector>(collector: &C, report: &mut Report, a: Attachment, caller: &Location)
    requires
        collector.collects(*caller, a),
    ensures
        appends_attachment(*old(report), *final(report), a),
        appends_collected(*collector, *old(report), *final(report), *caller),
{
    let ghost added = a;
    attach(report, a);
    assert(appends_attachment(*old(report), *report, added));
}

/// All hooks of `hooks` are ready to run.
pub open spec fn all_ready<H: ReportCreationHook, C: AttachmentCollector>(
    hooks: Seq<StoredHook<H, C>>,
    caller: Location,
) -> bool {
    forall|i: int| 0 <= i < hooks.len() ==> #[trigger] hooks[i].ready(caller)
}

/// `after` is what running `hooks` in order, each through its local
/// (`local` holds) or send-sync method, on `before` may give: there is a
/// report after each hook, each one what the hook may make of the one before.
pub open spec fn runs_in_order<H: ReportCreationHook, C: AttachmentCollector>(
    hooks: Seq<StoredHook<H, C>>,
    before: Report,
    after: Report,
    caller: Location,
    local: bool,
) -> bool {
    exists|states: Seq<Report>| #[trigger] chains(hooks, states, caller, local) && states[0] == before
        && states.last() == after
}

/// `states` are the reports before and after each hook of `hooks`.
pub open spec fn chains<H: ReportCreationHook, C: AttachmentCollector>(
    hooks: Seq<StoredHook<H, C>>,
    states: Seq<Report>,
    caller: Location,
    local: bool,
) -> bool {
    &&& states.len() == hooks.len() + 1
    &&& forall|i: int| #![trigger hooks[i]] 0 <= i < hooks.len() ==> hooks[i].effect(
        states[i],
        states[i + 1],
        caller,
        local,
    )
}

/// Running one more hook after `hooks` gives what running `hooks` and then
/// that hook gives.
pub proof fn lemma_runs_in_order_push<H: ReportCreationHook, C: AttachmentCollector>(
    hooks: Seq<StoredHook<H, C>>,
    h: StoredHook<H, C>,
    before: Report,
    mid: Report,
    after: Report,
    caller: Location,
    local: bool,
)
    requires
        runs_in_order(hooks, before, mid, caller, local),
        h.effect(mid, after, caller, local),
    ensures
        runs_in_order(hooks.push(h), before, after, caller, local),
{
    let states = choose|states: Seq<Report>| #[trigger] chains(hooks, states, caller, local)
        && states[0] == before && states.last() == mid;
    let next = states.push(after);
    assert(chains(hooks.push(h), next, caller, local)) by {
        assert forall|i: int| 0 <= i < hooks.push(h).len() implies #[trigger] hooks.push(h)[i].effect(
            next[i],
            next[i + 1],
            caller,
            local,
        ) by {
            if i < hooks.len() {
                assert(hooks[i].effect(states[i], states[i + 1], caller, local));
            }
        }
    }
    assert(next[0] == before);
}

/// With only the location hook installed, as `HookList::new_with_locations`
/// leaves it, a new report gets exactly its creation location attached.
pub proof fn lemma_location_hooks_attach_location<H: ReportCreationHook, C: AttachmentCollector>(
    hooks: Seq<StoredHook<H, C>>,
    before: Report,
    after: Report,
    caller: Location,
    local: bool,
)
    requires
        hooks.len() == 1,
        hooks[0] is Location,
        runs_in_order(hooks, before, after, caller, local),
    ensures
        appends_location(before, after, caller),
{
    let states = choose|states: Seq<Report>| #[trigger] chains(hooks, states, caller, local)
        && states[0] == before && states.last() == after;
    assert(hooks[0].effect(states[0], states[1int], caller, local));
}

/// The hooks that run, in order, when a report is created.
pub struct HookList<H, C> {
    list: Vec<StoredHook<H, C>>,
}

impl<H, C> View for HookList<H, C> {
    type V = Seq<StoredHook<H, C>>;

    closed spec fn view(&self) -> Seq<StoredHook<H, C>> {
        self.list@
    }
}

impl<H: ReportCreationHook, C: AttachmentCollector> HookList<H, C> {
    /// A list holding only the hook that attaches the creation location.
    pub fn new_with_locations() -> (r: Self)
        ensures
            r@ == seq![StoredHook::<H, C>::Location(LocationHook)],
    {
        let mut list: Vec<StoredHook<H, C>> = Vec::new();
        list.push(StoredHook::Location(LocationHook));
        let res = HookList { list };
        assert(res@ =~= seq![StoredHook::<H, C>::Location(LocationHook)]);
        res
    }

    /// The stored hooks, in the order they run.
    pub fn iter(&self) -> (r: &[StoredHook<H, C>])
        ensures
            r@ == self@,
    {
        self.list.as_slice()
    }

    /// Adds a collector, to run after the hooks already there.
    pub fn push_collector(&mut self, collector: C)
        ensures
            final(self)@ == old(self)@.push(StoredHook::Collector(collector)),
    {
        self.list.push(StoredHook::Collector(collector));
    }

    /// Adds a creation hook, to run after the hooks already there.
    pub fn push_hook(&mut self, hook: H)
        ensures
            final(self)@ == old(self)@.push(StoredHook::Creation(hook)),
    {
        self.list.push(StoredHook::Creation(hook));
    }

    /// Runs every hook once, in order, through its local method, on a new
    /// local report.
    pub fn on_local_creation(&self, report: &mut Report, caller: &Location)
        requires
            all_ready(self@, *caller),
        ensures
            runs_in_order(self@, *old(report), *final(report), *caller, true),
    {
        let ghost mut states: Seq<Report> = seq![*report];
        let mut i: usize = 0;
        while i < self.list.len()
            invariant
                i <= self@.len(),
                all_ready(self@, *caller),
                states.len() == i + 1,
                states[0] == *old(report),
                states.last() == *report,
                forall|j: int| 0 <= j < i ==> #[trigger] self@[j].effect(states[j], states[j + 1], *caller, true),
            decreases self@.len() - i,
        {
            assert(self@[i as int].ready(*caller));
            self.list[i].on_local_creation(report, caller);
            proof {
                states = states.push(*report);
            }
            i = i + 1;
        }
        assert(chains(self@, states, *caller, true));
    }

    /// Runs every hook once, in order, through its send-sync method, on a new
    /// report that may cross threads.
    pub fn on_sendsync_creation(&self, report: &mut Report, caller: &Location)
        requires
            all_ready(self@, *caller),
        ensures
            runs_in_order(self@, *old(report), *final(report), *caller, false),
    {
        let ghost mut states: Seq<Report> = seq![*report];
        let mut i: usize = 0;
        while i < self.list.len()
            invariant
                i <= self@.len(),
                all_ready(self@, *caller),
                states.len() == i + 1,
                states[0] == *old(report),
                states.last() == *report,
                forall|j: int| 0 <= j < i ==> #[trigger] self@[j].effect(states[j], states[j + 1], *caller, false),
            decreases self@.len() - i,
        {
            assert(self@[i as int].ready(*caller));
            self.list[i].on_sendsync_creation(report, caller);
            proof {
                states = states.push(*report);
            }
            i = i + 1;
        }
        assert(chains(self@, states, *caller, false));
    }
}

/// Runs the installed creation hooks, through their local methods, on a new
/// local report; with none installed, attaches the creation location only.
pub fn run_creation_hooks_local<H: ReportCreationHook, C: AttachmentCollector>(
    report: &mut Report,
    installed: Option<&HookList<H, C>>,
    caller: &Location,
)
    requires
        installed matches Some(h) ==> all_ready(h@, *caller),
    ensures
        installed matches Some(h) ==> runs_in_order(h@, *old(report), *final(report), *caller, true),
        installed is None ==> appends_location(*old(report), *final(report), *caller),
{
    match installed {
        Some(hooks) => hooks.on_local_creation(report, caller),
        None => {
            let a = LocationHook.location_attachment(caller);
            let ghost added = a;
            attach(report, a);
            assert(appends_attachment(*old(report), *report, added));
        },
    }
}

/// Runs the installed creation hooks, through their send-sync methods, on a
/// new report that may cross threads; with none installed, attaches the
/// creation location only.
pub fn run_creation_hooks_sendsync<H: ReportCreationHook, C: AttachmentCollector>(
    report: &mut Report,
    installed: Option<&HookList<H, C>>,
    caller: &Location,
)
    requires
        installed matches Some(h) ==> all_ready(h@, *caller),
    ensures
        installed matches Some(h) ==> runs_in_order(h@, *old(report), *final(report), *caller, false),
        installed is None ==> appends_location(*old(report), *final(report), *caller),
{
    match installed {
        Some(hooks) => hooks.on_sendsync_creation(report, caller),
        None => {
            let a = LocationHook.location_attachment(caller);
            let ghost added = a;
            attach(report, a);
            assert(appends_attachment(*old(report), *report, added));
        },
    }
}

} // verus!
