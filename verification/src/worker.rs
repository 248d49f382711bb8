//! The worker contracts and the dispatch core.
//!
//! A worker is a concrete search strategy: the path-based variant discovers
//! files through a parallel directory walk, the stream-based variant reads a
//! single input stream. Both deliver their items to one consumer. The
//! decision logic of a run — filtering entries, counting, collecting items
//! in order, gathering error reports — is `run_entries`, verified here; the
//! caller supplies the discovered entries (driving the walk engine and the
//! producer threads is its concern) and performs the diagnostic output.

use vstd::prelude::*;

use crate::entry::Entry;
use crate::entry::filter_result;
use crate::entry::is_candidate;
use crate::items::Items;
use crate::stats::FileStats;

verus! {

/// How many discovery results in `es` survive the entry filter.
pub open spec fn count_candidates(es: Seq<Entry>) -> nat
    decreases es.len(),
{
    if es.len() == 0 {
        0
    } else {
        count_candidates(es.drop_last()) + (if is_candidate(es.last()) {
            1nat
        } else {
            0nat
        })
    }
}

/// The discovery-error messages in `es`, in discovery order.
pub open spec fn error_logs(es: Seq<Entry>) -> Seq<String>
    decreases es.len(),
{
    if es.len() == 0 {
        Seq::empty()
    } else {
        error_logs(es.drop_last()) + (match es.last() {
            Entry::Error(msg) => seq![msg],
            Entry::Found { .. } => Seq::empty(),
        })
    }
}

/// The items one production outcome contributes to the stream: what the
/// producer returned, or nothing where it declined the path.
pub open spec fn produced_items<T>(p: Option<Seq<T>>) -> Seq<T> {
    match p {
        Some(s) => s,
        None => Seq::empty(),
    }
}

/// The full item stream a run of production outcomes yields: each outcome's
/// items in their original order, one outcome after the other.
pub open spec fn flatten_produced<T>(prod: Seq<Option<Seq<T>>>) -> Seq<T>
    decreases prod.len(),
{
    if prod.len() == 0 {
        Seq::empty()
    } else {
        flatten_produced(prod.drop_last()) + produced_items(prod.last())
    }
}

/// How many production outcomes in `prod` declined their path.
pub open spec fn count_declined<T>(prod: Seq<Option<Seq<T>>>) -> nat
    decreases prod.len(),
{
    if prod.len() == 0 {
        0
    } else {
        count_declined(prod.drop_last()) + (if prod.last() is None {
            1nat
        } else {
            0nat
        })
    }
}

/// No more entries survive the filter than discovery reported.
pub proof fn lemma_count_candidates_le_len(es: Seq<Entry>)
    ensures
        count_candidates(es) <= es.len(),
    decreases es.len(),
{
    if es.len() > 0 {
        lemma_count_candidates_le_len(es.drop_last());
    }
}

/// Exactly the discovery results that survive the entry filter are counted:
/// the candidate count is the length of the filtered subsequence, so a run's
/// scanned total covers every regular-file entry discovery reported and
/// nothing else.
pub proof fn lemma_candidates_are_filtered_entries(es: Seq<Entry>)
    ensures
        count_candidates(es) == es.filter(|e: Entry| is_candidate(e)).len(),
    decreases es.len(),
{
    reveal(Seq::filter);
    if es.len() > 0 {
        lemma_candidates_are_filtered_entries(es.drop_last());
    }
}

proof fn lemma_count_candidates_push(es: Seq<Entry>, e: Entry)
    ensures
        count_candidates(es.push(e)) == count_candidates(es) + (if is_candidate(e) {
            1nat
        } else {
            0nat
        }),
{
    assert(es.push(e).drop_last() =~= es);
}

proof fn lemma_error_logs_push(es: Seq<Entry>, e: Entry)
    ensures
        error_logs(es.push(e)) == error_logs(es) + (match e {
            Entry::Error(msg) => seq![msg],
            Entry::Found { .. } => Seq::<String>::empty(),
        }),
{
    assert(es.push(e).drop_last() =~= es);
}

proof fn lemma_flatten_produced_push<T>(prod: Seq<Option<Seq<T>>>, p: Option<Seq<T>>)
    ensures
        flatten_produced(prod.push(p)) == flatten_produced(prod) + produced_items(p),
        count_declined(prod.push(p)) == count_declined(prod) + (if p is None {
            1nat
        } else {
            0nat
        }),
{
    assert(prod.push(p).drop_last() =~= prod);
}

/// What one discovery result led to.
pub enum Processed<T> {
    /// The entry did not survive the filter; a discovery error carries its
    /// message for the caller to report.
    NotCandidate(Option<String>),
    /// The path survived the filter but production declined it.
    Declined,
    /// The path survived the filter and production returned these items, to
    /// be delivered in this order.
    Produced(Vec<T>),
}

/// Records one production outcome for a path already counted as scanned: a
/// declined path is counted as skipped, and produced items come back exactly
/// as production returned them, in their order.
pub fn record_production<T>(stats: &mut FileStats, produced: Option<Vec<T>>) -> (r: Processed<T>)
    requires
        old(stats).skipped_spec() < u64::MAX,
    ensures
        final(stats).scanned_spec() == old(stats).scanned_spec(),
        match produced {
            None => r is Declined && final(stats).skipped_spec() == old(stats).skipped_spec() + 1,
            Some(v) => (r matches Processed::Produced(items) && items@ == v@)
                && final(stats).skipped_spec() == old(stats).skipped_spec(),
        },
{
    match produced {
        None => {
            stats.add_skipped();
            Processed::Declined
        },
        Some(v) => Processed::Produced(v),
    }
}

/// Handles one discovery result, as each producer does per walk callback:
/// the entry is filtered; a surviving path is counted as scanned and offered
/// to production; a declined path is counted as skipped; otherwise the
/// produced items come back for delivery.
pub fn process_entry<W: PathWorker>(worker: &W, stats: &mut FileStats, entry: Entry) -> (r:
    Processed<W::Item>)
    requires
        old(stats).scanned_spec() < u64::MAX,
        old(stats).skipped_spec() < u64::MAX,
    ensures
        r is NotCandidate <==> !is_candidate(entry),
        match r {
            Processed::NotCandidate(log) => {
                &&& final(stats).scanned_spec() == old(stats).scanned_spec()
                &&& final(stats).skipped_spec() == old(stats).skipped_spec()
                &&& match entry {
                    Entry::Error(msg) => log == Some(msg),
                    Entry::Found { .. } => log is None,
                }
            },
            Processed::Declined => {
                &&& final(stats).scanned_spec() == old(stats).scanned_spec() + 1
                &&& final(stats).skipped_spec() == old(stats).skipped_spec() + 1
            },
            Processed::Produced(_) => {
                &&& final(stats).scanned_spec() == old(stats).scanned_spec() + 1
                &&& final(stats).skipped_spec() == old(stats).skipped_spec()
            },
        },
{
    match entry {
        Entry::Error(msg) => Processed::NotCandidate(Some(msg)),
        Entry::Found { path, is_file } => {
            let found = Entry::Found { path, is_file };
            match filter_result(found) {
                None => Processed::NotCandidate(None),
                Some(p) => {
                    stats.add_scanned();
                    record_production(stats, worker.produce_item(&p))
                },
            }
        },
    }
}

/// Runs the dispatch loop over one run's discovery results.
///
/// Every entry passes the filter; each surviving candidate is counted as
/// scanned and offered to production; a declined path is counted as skipped;
/// produced items are collected in the order production returned them, one
/// call's items after the other; discovery-error messages are gathered for
/// the caller to report. A discovery error never stops the loop. The ghost
/// component of the result records each candidate's production outcome.
pub fn run_entries<W: PathWorker>(worker: &W, stats: &mut FileStats, entries: Vec<Entry>) -> (r: (
    Vec<W::Item>,
    Vec<String>,
    Ghost<Seq<Option<Seq<W::Item>>>>,
))
    requires
        old(stats).scanned_spec() + entries@.len() <= u64::MAX,
        old(stats).skipped_spec() + entries@.len() <= u64::MAX,
    ensures
        r.2@.len() == count_candidates(entries@),
        final(stats).scanned_spec() == old(stats).scanned_spec() + count_candidates(entries@),
        final(stats).skipped_spec() == old(stats).skipped_spec() + count_declined(r.2@),
        count_declined(r.2@) <= count_candidates(entries@),
        r.0@ == flatten_produced(r.2@),
        r.1@ == error_logs(entries@),
        old(stats).skipped_spec() <= old(stats).scanned_spec() ==> final(stats).skipped_spec()
            <= final(stats).scanned_spec(),
{
    let ghost entries_seq = entries@;
    let ghost old_scanned = stats.scanned_spec();
    let ghost old_skipped = stats.skipped_spec();
    let mut remaining = entries;
    let mut items: Vec<W::Item> = Vec::new();
    let mut logs: Vec<String> = Vec::new();
    let ghost mut prod: Seq<Option<Seq<W::Item>>> = Seq::empty();
    let ghost mut done: int = 0;

    while remaining.len() > 0
        invariant
            0 <= done <= entries_seq.len(),
            remaining@ == entries_seq.subrange(done, entries_seq.len() as int),
            prod.len() == count_candidates(entries_seq.subrange(0, done)),
            count_declined(prod) <= prod.len(),
            stats.scanned_spec() == old_scanned + count_candidates(entries_seq.subrange(0, done)),
            stats.skipped_spec() == old_skipped + count_declined(prod),
            items@ == flatten_produced(prod),
            logs@ == error_logs(entries_seq.subrange(0, done)),
            old_scanned + entries_seq.len() <= u64::MAX,
            old_skipped + entries_seq.len() <= u64::MAX,
        decreases remaining@.len(),
    {
        let ghost processed = entries_seq.subrange(0, done);
        let e = remaining.remove(0);
        proof {
            assert(e == entries_seq[done]);
            assert(remaining@ =~= entries_seq.subrange(done + 1, entries_seq.len() as int));
            assert(entries_seq.subrange(0, done + 1) =~= processed.push(e));
            lemma_count_candidates_push(processed, e);
            lemma_error_logs_push(processed, e);
            lemma_count_candidates_le_len(processed);
        }
        match process_entry(worker, stats, e) {
            Processed::NotCandidate(log) => {
                if let Some(msg) = log {
                    logs.push(msg);
                }
            },
            Processed::Declined => {
                proof {
                    lemma_flatten_produced_push(prod, Option::<Seq<W::Item>>::None);
                    prod = prod.push(Option::<Seq<W::Item>>::None);
                    assert(flatten_produced(prod) =~= items@);
                }
            },
            Processed::Produced(mut v) => {
                let ghost vv = v@;
                items.append(&mut v);
                proof {
                    lemma_flatten_produced_push(prod, Some(vv));
                    prod = prod.push(Some(vv));
                }
            },
        }
        proof {
            done = done + 1;
        }
    }
    proof {
        assert(entries_seq.subrange(0, done) =~= entries_seq);
    }
    (items, logs, Ghost(prod))
}

/// Runs one full path-based dispatch: the loop over the discovery results,
/// then exactly one consumption of the collected items. Returns what the
/// consumer returned, along with the gathered discovery-error messages for
/// the caller to report; the ghost component records each candidate's
/// production outcome.
pub fn run_worker<W: PathWorker>(worker: &W, stats: &mut FileStats, entries: Vec<Entry>) -> (r: (
    Result<(), anyhow::Error>,
    Vec<String>,
    Ghost<Seq<Option<Seq<W::Item>>>>,
))
    requires
        old(stats).scanned_spec() + entries@.len() <= u64::MAX,
        old(stats).skipped_spec() + entries@.len() <= u64::MAX,
    ensures
        r.2@.len() == count_candidates(entries@),
        final(stats).scanned_spec() == old(stats).scanned_spec() + count_candidates(entries@),
        final(stats).skipped_spec() == old(stats).skipped_spec() + count_declined(r.2@),
        count_declined(r.2@) <= count_candidates(entries@),
        r.1@ == error_logs(entries@),
        old(stats).skipped_spec() <= old(stats).scanned_spec() ==> final(stats).skipped_spec()
            <= final(stats).scanned_spec(),
{
    let (produced, logs, prod) = run_entries(worker, stats, entries);
    let result = worker.consume_items(Items::from_vec(produced));
    (result, logs, prod)
}

/// Items produced by one production call reach the consumer contiguously and
/// in their original relative order: the full item stream splits exactly
/// around any one outcome's items.
pub proof fn lemma_producer_order<T>(prod: Seq<Option<Seq<T>>>, i: int)
    requires
        0 <= i < prod.len(),
    ensures
        flatten_produced(prod) == flatten_produced(prod.subrange(0, i)) + produced_items(prod[i])
            + flatten_produced(prod.subrange(i + 1, prod.len() as int)),
    decreases prod.len(),
{
    if i == prod.len() - 1 {
        assert(prod.drop_last() =~= prod.subrange(0, i));
        assert(prod.subrange(i + 1, prod.len() as int) =~= Seq::<Option<Seq<T>>>::empty());
        assert(flatten_produced(prod) =~= flatten_produced(prod.subrange(0, i)) + produced_items(
            prod[i],
        ) + flatten_produced(prod.subrange(i + 1, prod.len() as int)));
    } else {
        let dl = prod.drop_last();
        lemma_producer_order(dl, i);
        assert(dl.subrange(0, i) =~= prod.subrange(0, i));
        let tail = prod.subrange(i + 1, prod.len() as int);
        assert(tail.drop_last() =~= dl.subrange(i + 1, dl.len() as int));
        assert(flatten_produced(tail) == flatten_produced(tail.drop_last()) + produced_items(
            tail.last(),
        ));
        assert(flatten_produced(prod) =~= flatten_produced(prod.subrange(0, i)) + produced_items(
            prod[i],
        ) + flatten_produced(tail));
    }
}

/// The contract every concrete search strategy supplies: consumption of the
/// finished item sequence. It runs once per run, on the thread that invoked
/// dispatch, and its failure aborts the run with no retry.
pub trait Worker: Sync + Send {
    /// The item sent from producers to the consumer.
    type Item: Send + 'static;

    /// Consumes the delivered items; reporting and output happen here.
    fn consume_items(&self, items: Items<Self::Item>) -> Result<(), anyhow::Error>;
}

/// A worker that discovers files through a parallel directory walk.
pub trait PathWorker: Worker {
    /// Builds the configured walk engine for this run; failure here aborts
    /// the run before any work starts.
    fn build_walk(&self) -> Result<ignore::WalkParallel, anyhow::Error>;

    /// The run's counters, for the caller to read once the run is over.
    fn get_stats(&self) -> &FileStats;

    /// Turns one candidate path into items to deliver, in order, or declines
    /// the path. May be called from any producer thread.
    fn produce_item(&self, path: &String) -> Option<Vec<Self::Item>>;
}

/// Dispatches one parse outcome: a declined parse succeeds with nothing
/// consumed, and a parsed item goes to the consumer as the one-element
/// sequence that `Items::once` pins down, the consumer's result becoming the
/// run's result.
pub fn dispatch_parsed<W: Worker + ?Sized>(worker: &W, parsed: Option<W::Item>) -> (r: Result<
    (),
    anyhow::Error,
>)
    ensures
        parsed is None ==> r is Ok,
{
    match parsed {
        None => Ok(()),
        Some(item) => match Items::once(item) {
            Ok(items) => worker.consume_items(items),
            Err(e) => Err(e),
        },
    }
}

/// A worker that reads one input stream and offers its text to parsing.
pub trait StdInWorker: Worker {
    /// Turns the whole input text into at most one item.
    fn parse_stdin(&self, src: String) -> Option<Self::Item>;

    /// Dispatches one already-read input text: a parsed item is delivered to
    /// the consumer as a single-element sequence; where parsing declines,
    /// the run succeeds with nothing consumed.
    fn run_on_source(&self, source: String) -> Result<(), anyhow::Error> {
        dispatch_parsed(self, self.parse_stdin(source))
    }
}

} // verus!
