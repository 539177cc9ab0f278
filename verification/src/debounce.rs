//! Coalescing of raw filesystem notifications into debounced change events.
//!
//! Raw notifications may be duplicated or fired several times for one logical
//! change. The `Debouncer` keeps, per path, the kind and time of the last raw
//! event observed; a path whose last event is older than the debounce window
//! is flushed as a single `ChangeEvent` carrying that last kind. This
//! decouples the engine from any particular notification backend: the harness
//! feeds raw events in with `record` and drains ripe ones with `flush`.

use vstd::prelude::*;

verus! {

/// The kind of a logical change to one local path.
///
/// `Created` and `Modified` are treated identically downstream (both trigger
/// a re-upload); `Removed` is surfaced separately. Raw notification kinds
/// outside these three (renames, permission-only changes) are ignored by the
/// harness and never reach the debouncer.
#[derive(Clone, Copy, PartialEq, Eq, Structural, Debug)]
pub enum ChangeKind {
    /// The path came into existence.
    Created,
    /// The path's contents were written.
    Modified,
    /// The path was removed.
    Removed,
}

/// One debounced logical change, ready for the worker's event loop.
#[derive(Debug, PartialEq, Eq)]
pub struct ChangeEvent {
    /// The kind of the last raw event observed for this path in its window.
    pub kind: ChangeKind,
    /// The absolute local path the change happened at.
    pub path: String,
}

/// One path awaiting its debounce window to close.
#[derive(Debug, PartialEq, Eq)]
pub struct PendingChange {
    /// The absolute local path.
    pub path: String,
    /// The kind of the last raw event observed for this path.
    pub kind: ChangeKind,
    /// When that last raw event was observed, in milliseconds.
    pub last_seen_ms: u64,
}

/// The mathematical model of one pending change: path, kind, last-seen time.
pub open spec fn entry_model(e: PendingChange) -> (Seq<char>, ChangeKind, u64) {
    (e.path@, e.kind, e.last_seen_ms)
}

/// The model of a whole pending buffer, in first-arrival order.
pub open spec fn pending_model(s: Seq<PendingChange>) -> Seq<(Seq<char>, ChangeKind, u64)> {
    s.map_values(|e: PendingChange| entry_model(e))
}

/// Whether some pending change in `s` carries `path`.
pub open spec fn has_path(s: Seq<(Seq<char>, ChangeKind, u64)>, path: Seq<char>) -> bool {
    exists|i: int| 0 <= i < s.len() && s[i].0 == path
}

/// Whether no two pending changes in `s` carry the same path.
pub open spec fn distinct_paths(s: Seq<(Seq<char>, ChangeKind, u64)>) -> bool {
    forall|i: int, j: int| 0 <= i < j < s.len() ==> s[i].0 != s[j].0
}

/// What one raw event does to the pending buffer: the entry carrying its
/// path, if any, is overwritten with the new kind and time (last raw event
/// wins); otherwise a fresh entry is appended.
pub open spec fn record_model(
    s: Seq<(Seq<char>, ChangeKind, u64)>,
    path: Seq<char>,
    kind: ChangeKind,
    now_ms: u64,
) -> Seq<(Seq<char>, ChangeKind, u64)> {
    if has_path(s, path) {
        let i = choose|i: int| 0 <= i < s.len() && s[i].0 == path;
        s.update(i, (path, kind, now_ms))
    } else {
        s.push((path, kind, now_ms))
    }
}

/// Whether a pending change recorded at `last_seen_ms` is ripe at `now_ms`,
/// for the given window: its debounce window has closed.
pub open spec fn is_ripe(last_seen_ms: u64, now_ms: u64, window_ms: u64) -> bool {
    last_seen_ms + window_ms <= now_ms
}

/// The coalescing buffer for one pair's watch stream.
///
/// Raw events enter with `record`; `flush` emits one `ChangeEvent` per path
/// whose window has closed, in first-arrival order. Well-formedness
/// (`wf`): no path occurs twice among the pending changes.
pub struct Debouncer {
    /// The debounce window, in milliseconds.
    pub window_ms: u64,
    /// The pending changes, at most one per path, in first-arrival order.
    pub entries: Vec<PendingChange>,
}

impl Debouncer {
    /// No path is pending twice.
    pub open spec fn wf(&self) -> bool {
        distinct_paths(pending_model(self.entries@))
    }

    /// A fresh buffer with nothing pending.
    pub fn new(window_ms: u64) -> (d: Debouncer)
        ensures
            d.wf(),
            d.window_ms == window_ms,
            d.entries@.len() == 0,
    {
        Debouncer { window_ms, entries: Vec::new() }
    }

    /// How many paths are pending.
    pub fn pending_len(&self) -> (n: usize)
        ensures
            n == self.entries@.len(),
    {
        self.entries.len()
    }

    /// Takes one raw event into the buffer: the pending change for `path`,
    /// if any, is overwritten with `kind` and `now_ms` (the last raw event
    /// in a window wins); otherwise the path starts a fresh pending change.
    pub fn record(&mut self, path: String, kind: ChangeKind, now_ms: u64)
        requires
            old(self).wf(),
        ensures
            final(self).wf(),
            final(self).window_ms == old(self).window_ms,
            pending_model(final(self).entries@) == record_model(
                pending_model(old(self).entries@),
                path@,
                kind,
                now_ms,
            ),
    {
        let ghost old_model = pending_model(old(self).entries@);
        let n = self.entries.len();
        let mut i: usize = 0;
        while i < n
            invariant
                self.entries@ == old(self).entries@,
                self.window_ms == old(self).window_ms,
                old(self).wf(),
                old_model == pending_model(old(self).entries@),
                n == self.entries@.len(),
                i <= n,
                forall|j: int| 0 <= j < i ==> old_model[j].0 != path@,
            decreases n - i,
        {
            if self.entries[i].path == path {
                proof {
                    assert(old_model[i as int] == entry_model(old(self).entries@[i as int]));
                    assert(old_model[i as int].0 == path@);
                }
                self.entries[i] = PendingChange { path, kind, last_seen_ms: now_ms };
                proof {
                    assert(has_path(old_model, path@));
                    let k = choose|k: int| 0 <= k < old_model.len() && old_model[k].0 == path@;
                    if k != i as int {
                        assert(old_model[k].0 != old_model[i as int].0);
                    }
                    assert(k == i as int);
                    assert(pending_model(self.entries@) =~= old_model.update(
                        i as int,
                        (path@, kind, now_ms),
                    ));
                }
                return;
            }
            i += 1;
        }
        self.entries.push(PendingChange { path, kind, last_seen_ms: now_ms });
        proof {
            assert(!has_path(old_model, path@));
            assert(pending_model(self.entries@) =~= old_model.push((path@, kind, now_ms)));
        }
    }

    /// Emits every pending change whose debounce window has closed at
    /// `now_ms`, as one `ChangeEvent` each, in first-arrival order; the
    /// others stay pending. No path is emitted twice by one flush.
    #[verifier::loop_isolation(false)]
    pub fn flush(&mut self, now_ms: u64) -> (out: Vec<ChangeEvent>)
        requires
            old(self).wf(),
        ensures
            final(self).wf(),
            final(self).window_ms == old(self).window_ms,
            pending_model(final(self).entries@) == pending_model(old(self).entries@).filter(
                |e: (Seq<char>, ChangeKind, u64)| !is_ripe(e.2, now_ms, old(self).window_ms),
            ),
            out@.map_values(|e: ChangeEvent| (e.path@, e.kind)) == pending_model(
                old(self).entries@,
            ).filter(
                |e: (Seq<char>, ChangeKind, u64)| is_ripe(e.2, now_ms, old(self).window_ms),
            ).map_values(|e: (Seq<char>, ChangeKind, u64)| (e.0, e.1)),
            forall|i: int, j: int| 0 <= i < j < out@.len() ==> out@[i].path@ != out@[j].path@,
    {
        let ghost old_model = pending_model(old(self).entries@);
        let ghost w = self.window_ms;
        let ghost ripe_pred = |e: (Seq<char>, ChangeKind, u64)| is_ripe(e.2, now_ms, w);
        let ghost keep_pred = |e: (Seq<char>, ChangeKind, u64)| !is_ripe(e.2, now_ms, w);
        let mut kept: Vec<PendingChange> = Vec::new();
        let mut out: Vec<ChangeEvent> = Vec::new();
        let n = self.entries.len();
        let mut i: usize = 0;
        proof {
            assert(old_model.subrange(0, 0) =~= Seq::<(Seq<char>, ChangeKind, u64)>::empty());
            reveal(Seq::filter);
        }
        while i < n
            invariant
                self.window_ms == w,
                self.entries == old(self).entries,
                old(self).wf(),
                old_model == pending_model(old(self).entries@),
                n == self.entries@.len(),
                i <= n,
                pending_model(kept@) == old_model.subrange(0, i as int).filter(keep_pred),
                out@.map_values(|e: ChangeEvent| (e.path@, e.kind)) == old_model.subrange(
                    0,
                    i as int,
                ).filter(ripe_pred).map_values(|e: (Seq<char>, ChangeKind, u64)| (e.0, e.1)),
                forall|k: int| 0 <= k < kept@.len() ==> exists|j: int|
                    0 <= j < i && #[trigger] pending_model(kept@)[k].0 == old_model[j].0,
                forall|k: int| 0 <= k < out@.len() ==> exists|j: int|
                    0 <= j < i && #[trigger] out@[k].path@ == old_model[j].0,
                distinct_paths(pending_model(kept@)),
                forall|k1: int, k2: int| 0 <= k1 < k2 < out@.len() ==> out@[k1].path@
                    != out@[k2].path@,
            decreases n - i,
        {
            let e = &self.entries[i];
            let ghost m = entry_model(self.entries@[i as int]);
            proof {
                assert(old_model[i as int] == m);
                lemma_filter_push(old_model.subrange(0, i as int), keep_pred, m);
                lemma_filter_push(old_model.subrange(0, i as int), ripe_pred, m);
                assert(old_model.subrange(0, i as int).push(m) =~= old_model.subrange(
                    0,
                    i as int + 1,
                ));
            }
            proof {
                assert(m.2 == self.entries@[i as int].last_seen_ms);
            }
            let ripe = e.last_seen_ms <= now_ms && now_ms - e.last_seen_ms >= self.window_ms;
            if ripe {
                let ev = ChangeEvent { kind: e.kind, path: e.path.clone() };
                out.push(ev);
                proof {
                    assert(is_ripe(m.2, now_ms, w));
                    assert(ripe_pred(m));
                    assert(out@.map_values(|e: ChangeEvent| (e.path@, e.kind))
                        =~= old_model.subrange(0, i as int).filter(ripe_pred).map_values(
                        |e: (Seq<char>, ChangeKind, u64)| (e.0, e.1),
                    ).push((m.0, m.1)));
                    assert(old_model.subrange(0, i as int + 1).filter(ripe_pred).map_values(
                        |e: (Seq<char>, ChangeKind, u64)| (e.0, e.1),
                    ) =~= old_model.subrange(0, i as int).filter(ripe_pred).map_values(
                        |e: (Seq<char>, ChangeKind, u64)| (e.0, e.1),
                    ).push((m.0, m.1)));
                }
            } else {
                let pc = PendingChange {
                    path: e.path.clone(),
                    kind: e.kind,
                    last_seen_ms: e.last_seen_ms,
                };
                kept.push(pc);
                proof {
                    assert(!is_ripe(m.2, now_ms, w));
                    assert(keep_pred(m));
                    assert(pending_model(kept@) =~= old_model.subrange(0, i as int).filter(
                        keep_pred,
                    ).push(m));
                }
            }
            i += 1;
        }
        proof {
            assert(old_model.subrange(0, n as int) =~= old_model);
        }
        self.entries = kept;
        out
    }
}

/// The pending buffer after a whole run of raw events for one path, applied
/// first to last.
pub open spec fn record_all(
    s: Seq<(Seq<char>, ChangeKind, u64)>,
    path: Seq<char>,
    raws: Seq<(ChangeKind, u64)>,
) -> Seq<(Seq<char>, ChangeKind, u64)>
    decreases raws.len(),
{
    if raws.len() == 0 {
        s
    } else {
        record_all(
            record_model(s, path, raws[0].0, raws[0].1),
            path,
            raws.subrange(1, raws.len() as int),
        )
    }
}

/// A run of raw events for a path that is already pending keeps overwriting
/// its one entry: only the kind and time of the last raw event remain.
proof fn lemma_record_all_present(
    s: Seq<(Seq<char>, ChangeKind, u64)>,
    path: Seq<char>,
    raws: Seq<(ChangeKind, u64)>,
    i: int,
)
    requires
        distinct_paths(s),
        0 <= i < s.len(),
        s[i].0 == path,
        raws.len() > 0,
    ensures
        record_all(s, path, raws) == s.update(i, (path, raws.last().0, raws.last().1)),
    decreases raws.len(),
{
    assert(has_path(s, path));
    let k = choose|k: int| 0 <= k < s.len() && s[k].0 == path;
    if k != i {
        assert(s[k].0 != s[i].0);
    }
    let s1 = s.update(i, (path, raws[0].0, raws[0].1));
    assert(record_model(s, path, raws[0].0, raws[0].1) == s1);
    let rest = raws.subrange(1, raws.len() as int);
    assert(record_all(s, path, raws) == record_all(s1, path, rest));
    if raws.len() == 1 {
        assert(rest.len() == 0);
        assert(record_all(s1, path, rest) == s1);
        assert(raws.last() == raws[0]);
    } else {
        assert(forall|j: int| 0 <= j < s1.len() ==> s1[j].0 == s[j].0);
        assert(distinct_paths(s1));
        assert(s1[i].0 == path);
        lemma_record_all_present(s1, path, rest, i);
        assert(rest.last() == raws.last());
        assert(s1.update(i, (path, rest.last().0, rest.last().1)) =~= s.update(
            i,
            (path, raws.last().0, raws.last().1),
        ));
    }
}

/// Coalescing for one path: however many raw events for a single,
/// not-yet-pending path arrive before its window closes, exactly one pending
/// change remains for that path, carrying the kind and time of the last raw
/// event, and every other pending change is untouched. One `flush` after the
/// window closes therefore emits exactly one `ChangeEvent` for the path, with
/// the last observed kind.
pub proof fn lemma_coalesce_single_path(
    s: Seq<(Seq<char>, ChangeKind, u64)>,
    path: Seq<char>,
    raws: Seq<(ChangeKind, u64)>,
)
    requires
        distinct_paths(s),
        !has_path(s, path),
        raws.len() > 0,
    ensures
        record_all(s, path, raws) == s.push((path, raws.last().0, raws.last().1)),
        forall|k: int| 0 <= k < record_all(s, path, raws).len() ==> ((#[trigger] record_all(
            s,
            path,
            raws,
        )[k].0 == path) <==> k == s.len()),
{
    let s1 = s.push((path, raws[0].0, raws[0].1));
    assert(record_model(s, path, raws[0].0, raws[0].1) == s1);
    let rest = raws.subrange(1, raws.len() as int);
    assert(record_all(s, path, raws) == record_all(s1, path, rest));
    if raws.len() == 1 {
        assert(rest.len() == 0);
        assert(record_all(s1, path, rest) == s1);
        assert(raws.last() == raws[0]);
    } else {
        assert(forall|j: int| 0 <= j < s.len() ==> s[j].0 != path);
        assert(forall|j: int| 0 <= j < s.len() ==> s1[j] == s[j]);
        assert(distinct_paths(s1));
        assert(s1[s.len() as int].0 == path);
        lemma_record_all_present(s1, path, rest, s.len() as int);
        assert(rest.last() == raws.last());
        assert(s1.update(s.len() as int, (path, rest.last().0, rest.last().1)) =~= s.push(
            (path, raws.last().0, raws.last().1),
        ));
    }
    assert(forall|j: int| 0 <= j < s.len() ==> s[j].0 != path);
    assert(forall|j: int| 0 <= j < s.len() ==> record_all(s, path, raws)[j] == s[j]);
}

/// A filter cannot invent a path: if no entry of `s` carries `path`, none of
/// the filtered entries does.
proof fn lemma_filter_keeps_no_path(
    s: Seq<(Seq<char>, ChangeKind, u64)>,
    pred: spec_fn((Seq<char>, ChangeKind, u64)) -> bool,
    path: Seq<char>,
)
    requires
        forall|j: int| 0 <= j < s.len() ==> s[j].0 != path,
    ensures
        forall|k: int| 0 <= k < s.filter(pred).len() ==> #[trigger] s.filter(pred)[k].0 != path,
    decreases s.len(),
{
    reveal(Seq::filter);
    if s.len() > 0 {
        let dl = s.drop_last();
        lemma_filter_keeps_no_path(dl, pred, path);
        assert(s.last().0 != path);
        if pred(s.last()) {
            assert(s.filter(pred) == dl.filter(pred).push(s.last()));
        } else {
            assert(s.filter(pred) == dl.filter(pred));
        }
    }
}

/// Live-sync coalescing, end to end at the model level: after a run of raw
/// events for one not-yet-pending path, a flush once the window has closed
/// emits that path exactly once — as the last flushed event, with the kind
/// and time of the last raw event — and no other flushed event carries it.
pub proof fn lemma_window_close_emits_exactly_once(
    s: Seq<(Seq<char>, ChangeKind, u64)>,
    path: Seq<char>,
    raws: Seq<(ChangeKind, u64)>,
    now_ms: u64,
    window_ms: u64,
)
    requires
        distinct_paths(s),
        !has_path(s, path),
        raws.len() > 0,
        is_ripe(raws.last().1, now_ms, window_ms),
    ensures
        ({
            let flushed = record_all(s, path, raws).filter(
                |e: (Seq<char>, ChangeKind, u64)| is_ripe(e.2, now_ms, window_ms),
            );
            &&& flushed.len() > 0
            &&& flushed.last() == (path, raws.last().0, raws.last().1)
            &&& forall|k: int| 0 <= k < flushed.len() - 1 ==> #[trigger] flushed[k].0 != path
        }),
{
    lemma_coalesce_single_path(s, path, raws);
    let entry = (path, raws.last().0, raws.last().1);
    let pred = |e: (Seq<char>, ChangeKind, u64)| is_ripe(e.2, now_ms, window_ms);
    lemma_filter_push(s, pred, entry);
    assert(pred(entry));
    assert(record_all(s, path, raws).filter(pred) == s.filter(pred).push(entry));
    assert(forall|j: int| 0 <= j < s.len() ==> s[j].0 != path);
    lemma_filter_keeps_no_path(s, pred, path);
}

/// Filtering distributes over appending one element: the element passes the
/// filter exactly when the predicate holds of it.
proof fn lemma_filter_push<A>(s: Seq<A>, pred: spec_fn(A) -> bool, x: A)
    ensures
        s.push(x).filter(pred) == if pred(x) {
            s.filter(pred).push(x)
        } else {
            s.filter(pred)
        },
{
    reveal(Seq::filter);
    assert(s.push(x).drop_last() =~= s);
    assert(s.push(x).last() == x);
}

} // verus!
