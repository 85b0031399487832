//! The first pass of the directory walk. The entries of a directory are
//! read one by one and handed to `Directory::step`, which says what to do
//! with each: a file typical of a kind of directory tags the whole directory
//! and ends the scan; a special file is dispatched on its own; any other
//! entry waits for the second pass, where it is classified.
use vstd::prelude::*;
use crate::paths::{file_name, path_file_name};
use crate::patterns::{special_match_from, typical_match_from, Patterns, PatternsModel};
use crate::text::texts;

verus! {

/// What the listing of a directory yields next.
pub enum ScanEvent {
    /// The path of the next entry.
    Entry(String),
    /// The listing is complete.
    End,
    /// The listing failed; the entries not yet read are lost.
    ListingFailed,
}

pub enum EventModel {
    Entry(Seq<char>),
    End,
    ListingFailed,
}

impl View for ScanEvent {
    type V = EventModel;

    open spec fn view(&self) -> EventModel {
        match self {
            ScanEvent::Entry(p) => EventModel::Entry(p@),
            ScanEvent::End => EventModel::End,
            ScanEvent::ListingFailed => EventModel::ListingFailed,
        }
    }
}

/// What to do after one event of the listing.
pub enum ScanStep {
    /// Dispatch the directory itself with these tags; the directory is done.
    TagDirectory(Vec<String>),
    /// Dispatch the entry just read with these tags, as a unit of its own.
    DispatchSpecial(Vec<String>),
    /// The entry waits for the second pass.
    Deferred,
    /// The first pass is over: classify each of these entries, each as a
    /// unit of its own, and wait for all of them.
    SecondPass(Vec<String>),
    /// The scan is already over: nothing to do.
    Closed,
}

pub enum StepModel {
    TagDirectory(Seq<Seq<char>>),
    DispatchSpecial(Seq<Seq<char>>),
    Deferred,
    SecondPass(Seq<Seq<char>>),
    Closed,
}

impl View for ScanStep {
    type V = StepModel;

    open spec fn view(&self) -> StepModel {
        match self {
            ScanStep::TagDirectory(t) => StepModel::TagDirectory(texts(t@)),
            ScanStep::DispatchSpecial(t) => StepModel::DispatchSpecial(texts(t@)),
            ScanStep::Deferred => StepModel::Deferred,
            ScanStep::SecondPass(e) => StepModel::SecondPass(texts(e@)),
            ScanStep::Closed => StepModel::Closed,
        }
    }
}

/// The state of a first pass: the directory, the entries kept for the
/// second pass, and whether the pass is over.
pub struct ScanState {
    pub path: Seq<char>,
    pub deferred: Seq<Seq<char>>,
    pub closed: bool,
}

/// The state of a first pass that has read nothing yet.
pub open spec fn initial_scan(path: Seq<char>) -> ScanState {
    ScanState { path, deferred: Seq::empty(), closed: false }
}

/// One step of the first pass.
pub open spec fn scan_step(m: PatternsModel, s: ScanState, e: EventModel) -> (ScanState, StepModel) {
    if s.closed {
        (s, StepModel::Closed)
    } else {
        match e {
            EventModel::Entry(p) => match typical_match_from(m.typical, path_file_name(p), 0) {
                Some(tag) => (ScanState { closed: true, ..s }, StepModel::TagDirectory(seq![tag])),
                None => match special_match_from(m.special, path_file_name(p), 0) {
                    Some(tags) => (s, StepModel::DispatchSpecial(tags)),
                    None => (ScanState { deferred: s.deferred.push(p), ..s }, StepModel::Deferred),
                },
            },
            _ => (
                ScanState { deferred: Seq::empty(), closed: true, ..s },
                StepModel::SecondPass(s.deferred),
            ),
        }
    }
}

/// The state after a sequence of events, and what each event gave.
pub open spec fn scan_run(m: PatternsModel, s: ScanState, events: Seq<EventModel>) -> (
    ScanState,
    Seq<StepModel>,
)
    decreases events.len(),
{
    if events.len() == 0 {
        (s, Seq::empty())
    } else {
        let (before, steps) = scan_run(m, s, events.drop_last());
        let (after, step) = scan_step(m, before, events.last());
        (after, steps.push(step))
    }
}

/// The first pass over one directory.
pub struct Directory {
    path: String,
    deferred: Vec<String>,
    closed: bool,
}

impl View for Directory {
    type V = ScanState;

    closed spec fn view(&self) -> ScanState {
        ScanState { path: self.path@, deferred: texts(self.deferred@), closed: self.closed }
    }
}

impl Directory {
    /// A first pass over the directory at `path`.
    pub fn new(path: String) -> (r: Directory)
        ensures
            r@ == initial_scan(path@),
    {
        let r = Directory { path, deferred: Vec::new(), closed: false };
        assert(r@.deferred =~= Seq::<Seq<char>>::empty());
        r
    }

    /// Takes in one event of the listing and says what to do.
    pub fn step(&mut self, patterns: &Patterns, event: ScanEvent) -> (r: ScanStep)
        ensures
            (final(self)@, r@) == scan_step(patterns@, old(self)@, event@),
    {
        if self.closed {
            return ScanStep::Closed;
        }
        match event {
            ScanEvent::Entry(p) => {
                let name = file_name(p.as_str());
                match patterns.match_typical(name.as_str()) {
                    Some(tag) => {
                        self.closed = true;
                        let mut tags: Vec<String> = Vec::new();
                        tags.push(tag);
                        assert(texts(tags@) =~= seq![tags@[0]@]);
                        ScanStep::TagDirectory(tags)
                    },
                    None => match patterns.match_special(name.as_str()) {
                        Some(tags) => ScanStep::DispatchSpecial(tags),
                        None => {
                            let ghost before = texts(self.deferred@);
                            self.deferred.push(p);
                            assert(texts(self.deferred@) =~= before.push(event@->Entry_0));
                            ScanStep::Deferred
                        },
                    },
                }
            },
            _ => {
                self.closed = true;
                let mut pending: Vec<String> = Vec::new();
                std::mem::swap(&mut pending, &mut self.deferred);
                assert(texts(self.deferred@) =~= Seq::<Seq<char>>::empty());
                ScanStep::SecondPass(pending)
            },
        }
    }
}

/// A directory whose listing yields a file typical of a kind of directory
/// is tagged as a whole with that rule's tag, and no entry of it is handed
/// on to classification: the events after that file, the end of the
/// listing included, do nothing. Here the typical file is the `k`-th event
/// and the events before it are entries that are not typical files.
pub proof fn typical_file_claims_directory(
    m: PatternsModel,
    dir: Seq<char>,
    events: Seq<EventModel>,
    k: int,
)
    requires
        0 <= k < events.len(),
        events[k] matches EventModel::Entry(p) && typical_match_from(m.typical, path_file_name(p), 0)
            is Some,
        forall|j: int|
            0 <= j < k ==> (#[trigger] events[j] matches EventModel::Entry(p) && typical_match_from(
                m.typical,
                path_file_name(p),
                0,
            ) is None),
    ensures
        ({
            let steps = scan_run(m, initial_scan(dir), events).1;
            &&& steps.len() == events.len()
            &&& steps[k] == StepModel::TagDirectory(
                seq![typical_match_from(m.typical, path_file_name(events[k]->Entry_0), 0)->0],
            )
            &&& forall|i: int| k < i < events.len() ==> steps[i] == StepModel::Closed
            &&& forall|i: int| 0 <= i < events.len() ==> !(steps[i] is SecondPass)
        }),
    decreases events.len(),
{
    let steps = scan_run(m, initial_scan(dir), events).1;
    if k == events.len() - 1 {
        lemma_open_before_typical(m, dir, events.drop_last(), k);
        assert(events.drop_last() =~= events.take(k));
    } else {
        typical_file_claims_directory(m, dir, events.drop_last(), k);
        lemma_claimed_stays_closed(m, dir, events, k);
    }
}

/// Before the first typical file, the pass stays open and gives no second
/// pass.
proof fn lemma_open_before_typical(m: PatternsModel, dir: Seq<char>, events: Seq<EventModel>, k: int)
    requires
        events.len() <= k,
        forall|j: int|
            0 <= j < events.len() ==> (#[trigger] events[j] matches EventModel::Entry(p)
                && typical_match_from(m.typical, path_file_name(p), 0) is None),
    ensures
        !scan_run(m, initial_scan(dir), events).0.closed,
        scan_run(m, initial_scan(dir), events).1.len() == events.len(),
        forall|i: int|
            0 <= i < events.len() ==> !(#[trigger] scan_run(m, initial_scan(dir), events).1[i] is SecondPass),
    decreases events.len(),
{
    if events.len() > 0 {
        lemma_open_before_typical(m, dir, events.drop_last(), k);
        assert(events.last() == events[events.len() - 1]);
    }
}

/// Once the pass is closed by the typical file at `k`, every later event
/// gives `Closed`.
proof fn lemma_claimed_stays_closed(m: PatternsModel, dir: Seq<char>, events: Seq<EventModel>, k: int)
    requires
        0 <= k < events.len(),
        events[k] matches EventModel::Entry(p) && typical_match_from(m.typical, path_file_name(p), 0)
            is Some,
        forall|j: int|
            0 <= j < k ==> (#[trigger] events[j] matches EventModel::Entry(p) && typical_match_from(
                m.typical,
                path_file_name(p),
                0,
            ) is None),
    ensures
        scan_run(m, initial_scan(dir), events).0.closed,
        scan_run(m, initial_scan(dir), events).1.len() == events.len(),
        scan_run(m, initial_scan(dir), events).1.take(k) == scan_run(
            m,
            initial_scan(dir),
            events.take(k),
        ).1,
        scan_run(m, initial_scan(dir), events).1[k] == StepModel::TagDirectory(
            seq![typical_match_from(m.typical, path_file_name(events[k]->Entry_0), 0)->0],
        ),
        forall|i: int|
            k < i < events.len() ==> #[trigger] scan_run(m, initial_scan(dir), events).1[i]
                == StepModel::Closed,
    decreases events.len(),
{
    if k == events.len() - 1 {
        lemma_open_before_typical(m, dir, events.drop_last(), k);
        assert(events.drop_last() =~= events.take(k));
    } else {
        lemma_claimed_stays_closed(m, dir, events.drop_last(), k);
        assert(events.drop_last().take(k) =~= events.take(k));
    }
}

/// A file that matches no typical-file rule and matches a special-file rule
/// is dispatched with exactly that rule's tags and is not kept for the
/// second pass, so extension rules never see it.
pub proof fn special_file_keeps_rule_tags(m: PatternsModel, s: ScanState, path: Seq<char>)
    requires
        !s.closed,
        typical_match_from(m.typical, path_file_name(path), 0) is None,
        special_match_from(m.special, path_file_name(path), 0) is Some,
    ensures
        scan_step(m, s, EventModel::Entry(path)) == (
            s,
            StepModel::DispatchSpecial(special_match_from(m.special, path_file_name(path), 0)->0),
        ),
{
}

} // verus!
