//! Model acquisition: the process-wide single-flight download guard,
//! the plan of which files still need fetching, and the progress
//! tracker whose overall percentage never decreases and never reads
//! 100 before every file is persisted.
//!
//! The network transfer itself runs outside; it feeds byte counts into
//! `DownloadSession` and obeys the plan and guard decided here.

use vstd::prelude::*;
use vstd::arithmetic::div_mod::{lemma_div_is_ordered, lemma_div_pos_is_pos, lemma_div_multiples_vanish};
use crate::registry::ModelDef;
use crate::state::AppState;

verus! {

/// What `ensure` does for a given readiness and guard state.
#[derive(Clone, Copy, PartialEq, Eq, Structural, Debug)]
pub enum EnsureAction {
    /// Every file already on disk: return success without touching
    /// the network.
    AlreadyReady,
    /// Another acquisition (any id) is in flight: harmless no-op
    /// returning success, progress events already flow from it.
    GuardBusy,
    /// This call won the guard and must perform the download.
    Download,
}

/// The decision `ensure` makes, as a function of the guard flag and
/// readiness.
pub open spec fn ensure_action_spec(downloading: bool, ready: bool) -> EnsureAction {
    if ready {
        EnsureAction::AlreadyReady
    } else if downloading {
        EnsureAction::GuardBusy
    } else {
        EnsureAction::Download
    }
}

/// The guard flag after that decision.
pub open spec fn ensure_flag_spec(downloading: bool, ready: bool) -> bool {
    if ready {
        downloading
    } else {
        true
    }
}

/// Decide what an `ensure(id)` call does, atomically taking the
/// single-flight guard when a download is needed.  Only the
/// `Download` arm obliges the caller to fetch anything; the other two
/// arms are immediate successes.
pub fn ensure_decision(state: &mut AppState, ready: bool) -> (r: EnsureAction)
    ensures
        r == ensure_action_spec(old(state).download_in_progress, ready),
        *final(state) == (AppState {
            download_in_progress: ensure_flag_spec(old(state).download_in_progress, ready),
            ..*old(state)
        }),
{
    if ready {
        return EnsureAction::AlreadyReady;
    }
    if state.download_in_progress {
        return EnsureAction::GuardBusy;
    }
    state.download_in_progress = true;
    EnsureAction::Download
}

/// Release the single-flight guard, whether the download succeeded or
/// failed.
pub fn end_download(state: &mut AppState)
    ensures
        *final(state) == (AppState { download_in_progress: false, ..*old(state) }),
{
    state.download_in_progress = false;
}

/// Whether an acquisition is in flight.
pub fn is_downloading(state: &AppState) -> (r: bool)
    ensures
        r == state.download_in_progress,
{
    state.download_in_progress
}

/// Single-flight law: however two `ensure` calls interleave on the
/// shared guard, at most one of them downloads; and when neither
/// model is ready and no download was in flight, exactly the first
/// downloads while the second returns success without issuing
/// requests.
pub proof fn lemma_download_single_flight(g0: bool, ready1: bool, ready2: bool)
    ensures
        !(ensure_action_spec(g0, ready1) == EnsureAction::Download
            && ensure_action_spec(ensure_flag_spec(g0, ready1), ready2)
                == EnsureAction::Download),
        (!g0 && !ready1 && !ready2) ==> {
            &&& ensure_action_spec(g0, ready1) == EnsureAction::Download
            &&& ensure_action_spec(ensure_flag_spec(g0, ready1), ready2)
                == EnsureAction::GuardBusy
        },
{
}

/// The indices of the files still missing, in catalog order.
pub open spec fn missing_indices(present: Seq<bool>) -> Seq<int>
    decreases present.len(),
{
    if present.len() == 0 {
        Seq::empty()
    } else {
        missing_indices(present.drop_last())
            + (if present.last() {
                Seq::<int>::empty()
            } else {
                seq![present.len() - 1]
            })
    }
}

/// Collect the files that still need downloading: those whose
/// destination file is not present, keeping catalog order.
pub fn plan_downloads(def: &ModelDef, present: &Vec<bool>) -> (r: Vec<usize>)
    requires
        present@.len() == def.files@.len(),
    ensures
        r@.map_values(|x: usize| x as int) == missing_indices(present@),
        forall|j: int| 0 <= j < r@.len()
            ==> #[trigger] r@[j] < def.files@.len() && !present@[r@[j] as int],
{
    let n = present.len();
    let mut r: Vec<usize> = Vec::new();
    let mut i: usize = 0;
    while i < n
        invariant
            n == present@.len(),
            i <= n,
            r@.map_values(|x: usize| x as int) == missing_indices(present@.subrange(0, i as int)),
            forall|j: int| 0 <= j < r@.len()
                ==> #[trigger] r@[j] < i && !present@[r@[j] as int],
        decreases n - i,
    {
        let ghost pre = present@.subrange(0, i + 1);
        proof {
            assert(pre.drop_last() =~= present@.subrange(0, i as int));
            assert(pre.last() == present@[i as int]);
        }
        if !present[i] {
            r.push(i);
            proof {
                assert(r@.map_values(|x: usize| x as int)
                    =~= missing_indices(present@.subrange(0, i as int)) + seq![i as int]);
            }
        }
        i = i + 1;
    }
    proof {
        assert(present@.subrange(0, n as int) =~= present@);
    }
    r
}

/// After a file finishes: rename it iff a rename target is declared,
/// differs from the name it was saved under, and is not already taken.
pub fn rename_decision(file: &crate::registry::ModelFile, saved_as: &str, target_exists: bool)
    -> (r: Option<String>)
    ensures
        match r {
            Some(t) => {
                &&& file@.rename_to == Some(t@)
                &&& t@ != saved_as@
                &&& !target_exists
            },
            None => match file@.rename_to {
                Some(t) => t == saved_as@ || target_exists,
                None => true,
            },
        },
{
    match &file.rename_to {
        Some(t) => {
            if !crate::text::str_eq(t.as_str(), saved_as) && !target_exists {
                Some(t.clone())
            } else {
                None
            }
        },
        None => None,
    }
}

/// Overall percentage for `done` of `total` bytes, capped at 99 until
/// the terminal completion event.
pub open spec fn overall_pct_spec(done: int, total: int) -> int {
    if done * 100 / total > 99 {
        99
    } else {
        done * 100 / total
    }
}

/// Overall download percentage, capped at 99.
pub fn overall_percent(done: u64, approx_total: u64) -> (r: u32)
    requires
        approx_total >= 1,
    ensures
        r == overall_pct_spec(done as int, approx_total as int),
        r <= 99,
{
    proof {
        lemma_div_pos_is_pos(done as int * 100, approx_total as int);
    }
    let q: u128 = (done as u128) * 100 / (approx_total as u128);
    if q > 99 {
        99
    } else {
        q as u32
    }
}

/// More bytes never lower the overall percentage: progress is
/// monotonically non-decreasing within one acquisition.
pub proof fn lemma_overall_percent_monotonic(d1: int, d2: int, total: int)
    requires
        0 <= d1 <= d2,
        total >= 1,
    ensures
        overall_pct_spec(d1, total) <= overall_pct_spec(d2, total),
{
    lemma_div_is_ordered(d1 * 100, d2 * 100, total);
    lemma_div_pos_is_pos(d1 * 100, total);
}

/// Per-file percentage: uncapped share of the file's own length, 0
/// when the server did not announce one.
pub fn file_percent(downloaded: u64, total: u64) -> (r: u32)
    ensures
        total == 0 ==> r == 0,
        total >= 1 ==> r == (if downloaded as int * 100 / total as int > 100 {
            100int
        } else {
            downloaded as int * 100 / total as int
        }),
{
    if total == 0 {
        return 0;
    }
    proof {
        lemma_div_pos_is_pos(downloaded as int * 100, total as int);
    }
    let q: u128 = (downloaded as u128) * 100 / (total as u128);
    if q > 100 {
        100
    } else {
        q as u32
    }
}

/// One acquisition in flight: cumulative progress across all files of
/// one model, emitting an event only when the rounded overall
/// percentage moves.
pub struct DownloadSession {
    /// Files this acquisition still had to fetch when it began.
    pub total_files: usize,
    /// Files fully persisted so far.
    pub files_done: usize,
    /// Approximate total size of the model, from the catalog.
    pub approx_total_bytes: u64,
    /// Bytes received so far, over all files.
    pub cumulative_bytes: u64,
    /// The last overall percentage handed out for emission.
    pub last_overall_pct: u32,
    /// Whether the terminal completion event has fired.
    pub complete: bool,
}

/// Internal consistency of a session.
pub open spec fn session_wf(s: DownloadSession) -> bool {
    &&& s.approx_total_bytes >= 1
    &&& s.files_done <= s.total_files
    &&& !s.complete ==> s.last_overall_pct
        == overall_pct_spec(s.cumulative_bytes as int, s.approx_total_bytes as int)
    &&& !s.complete ==> s.last_overall_pct <= 99
}

impl DownloadSession {
    /// Start an acquisition of `total_files` files with the catalog's
    /// approximate size.  The opening event reads 0 percent.
    pub fn begin(total_files: usize, approx_total_bytes: u64) -> (r: DownloadSession)
        requires
            approx_total_bytes >= 1,
        ensures
            session_wf(r),
            r.total_files == total_files,
            r.files_done == 0,
            r.approx_total_bytes == approx_total_bytes,
            r.cumulative_bytes == 0,
            r.last_overall_pct == 0,
            !r.complete,
    {
        proof {
            lemma_div_multiples_vanish(0, approx_total_bytes as int);
        }
        DownloadSession {
            total_files,
            files_done: 0,
            approx_total_bytes,
            cumulative_bytes: 0,
            last_overall_pct: 0,
            complete: false,
        }
    }

    /// Account one received chunk.  Returns the new overall
    /// percentage exactly when it differs from the last emitted one,
    /// so event volume stays bounded.  The percentage never
    /// decreases and stays at or below 99.
    pub fn on_chunk(&mut self, chunk_len: u64) -> (emit: Option<u32>)
        requires
            session_wf(*old(self)),
            !old(self).complete,
        ensures
            session_wf(*final(self)),
            *final(self) == (DownloadSession {
                cumulative_bytes: final(self).cumulative_bytes,
                last_overall_pct: final(self).last_overall_pct,
                ..*old(self)
            }),
            final(self).cumulative_bytes == (if old(self).cumulative_bytes + chunk_len
                > u64::MAX {
                u64::MAX as int
            } else {
                old(self).cumulative_bytes + chunk_len
            }),
            final(self).last_overall_pct >= old(self).last_overall_pct,
            final(self).last_overall_pct <= 99,
            emit == (if final(self).last_overall_pct != old(self).last_overall_pct {
                Some(final(self).last_overall_pct)
            } else {
                Option::<u32>::None
            }),
    {
        if chunk_len > u64::MAX - self.cumulative_bytes {
            self.cumulative_bytes = u64::MAX;
        } else {
            self.cumulative_bytes = self.cumulative_bytes + chunk_len;
        }
        let pct = overall_percent(self.cumulative_bytes, self.approx_total_bytes);
        proof {
            lemma_overall_percent_monotonic(
                old(self).cumulative_bytes as int,
                self.cumulative_bytes as int,
                self.approx_total_bytes as int,
            );
        }
        if pct != self.last_overall_pct {
            self.last_overall_pct = pct;
            Some(pct)
        } else {
            None
        }
    }

    /// Record that one more file is fully persisted.
    pub fn file_complete(&mut self)
        requires
            session_wf(*old(self)),
            old(self).files_done < old(self).total_files,
        ensures
            session_wf(*final(self)),
            *final(self) == (DownloadSession {
                files_done: (old(self).files_done + 1) as usize,
                ..*old(self)
            }),
    {
        self.files_done = self.files_done + 1;
    }

    /// The terminal completion event: 100 percent.  It can only fire
    /// once every file of the plan is persisted, so "complete" is
    /// never reported while a file is still missing from disk.
    pub fn finish(&mut self) -> (pct: u32)
        requires
            session_wf(*old(self)),
            old(self).files_done == old(self).total_files,
            !old(self).complete,
        ensures
            pct == 100,
            *final(self) == (DownloadSession { complete: true, ..*old(self) }),
    {
        self.complete = true;
        100
    }
}

} // verus!
