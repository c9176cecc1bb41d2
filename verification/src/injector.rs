//! Output injection planner: the exact ordered step sequence that deletes the
//! typed shortcut and pastes the rendered text through the clipboard, with a
//! model of what the sequence does to the clipboard.
//!
//! The host executes the steps against the OS; the model proves that a plan
//! deletes exactly the token's characters, pastes with the rendered text on
//! the clipboard, and leaves the clipboard as it found it.

use vstd::prelude::*;

use vstd::string::StrSliceExecFns;
use vstd::string::StringExecFns;

verus! {

/// One synthetic action of an expansion, in order.
pub enum InjectionStep {
    /// One backspace keystroke sent to the foreground application.
    DeleteKey,
    /// Snapshot the current clipboard contents.
    SaveClipboard,
    /// Write the carried text to the clipboard.
    SetClipboard(String),
    /// The paste key combination for the host platform.
    PasteKey,
    /// Wait long enough for the target application to consume the paste.
    RestoreDelay,
    /// Write the snapshot taken by `SaveClipboard` back to the clipboard.
    RestoreClipboard,
}

/// Clipboard model while steps run: the current contents and the snapshot.
pub struct ClipboardModel {
    pub clip: Seq<char>,
    pub saved: Seq<char>,
}

/// What one step does to the modelled clipboard.
pub open spec fn step_clip(m: ClipboardModel, step: InjectionStep) -> ClipboardModel {
    match step {
        InjectionStep::SaveClipboard => ClipboardModel { clip: m.clip, saved: m.clip },
        InjectionStep::SetClipboard(t) => ClipboardModel { clip: t@, saved: m.saved },
        InjectionStep::RestoreClipboard => ClipboardModel { clip: m.saved, saved: m.saved },
        _ => m,
    }
}

/// The modelled clipboard after all steps run in order.
pub open spec fn run_clip(steps: Seq<InjectionStep>, m: ClipboardModel) -> ClipboardModel
    decreases steps.len(),
{
    if steps.len() == 0 {
        m
    } else {
        run_clip(steps.drop_first(), step_clip(m, steps[0]))
    }
}

/// The clipboard contents at the moment of the first paste step, if any.
pub open spec fn clip_at_paste(steps: Seq<InjectionStep>, m: ClipboardModel) -> Option<Seq<char>>
    decreases steps.len(),
{
    if steps.len() == 0 {
        None
    } else if steps[0] is PasteKey {
        Some(m.clip)
    } else {
        clip_at_paste(steps.drop_first(), step_clip(m, steps[0]))
    }
}

/// How many deletion keystrokes the steps issue.
pub open spec fn delete_count(steps: Seq<InjectionStep>) -> int
    decreases steps.len(),
{
    if steps.len() == 0 {
        0int
    } else {
        (if steps[0] is DeleteKey {
            1int
        } else {
            0int
        }) + delete_count(steps.drop_first())
    }
}

/// The canonical expansion step sequence: `n` deletions, then save, set,
/// paste, delay, restore.
pub open spec fn expansion_steps_shape(steps: Seq<InjectionStep>, n: int, rendered: Seq<char>) -> bool {
    &&& steps.len() == n + 5
    &&& forall|i: int| 0 <= i < n ==> steps[i] is DeleteKey
    &&& steps[n] is SaveClipboard
    &&& steps[n + 1] matches InjectionStep::SetClipboard(t) && t@ == rendered
    &&& steps[n + 2] is PasteKey
    &&& steps[n + 3] is RestoreDelay
    &&& steps[n + 4] is RestoreClipboard
}

/// The plan for one expansion: how the rendered text replaces the typed
/// token in the target application.
pub struct ExpansionPlan {
    /// The shortcut token the plan deletes from the target application.
    pub token: String,
    /// The fully rendered replacement text.
    pub rendered: String,
    /// The caret offset within the original body, when a cursor marker asked
    /// for one.
    pub cursor: Option<usize>,
    /// The synthetic actions, in the exact order the host must run them.
    pub steps: Vec<InjectionStep>,
}

/// Build the step sequence for deleting `token` and pasting `rendered`:
/// one deletion per token character — the shortcut is still present in the
/// target application and is erased one keystroke at a time — then the
/// clipboard cycle around a single paste.
pub fn plan_expansion(token: &str, rendered: String, cursor: Option<usize>) -> (r: ExpansionPlan)
    ensures
        r.token@ == token@,
        r.rendered@ == rendered@,
        r.cursor == cursor,
        expansion_steps_shape(r.steps@, token@.len() as int, rendered@),
{
    let n = token.unicode_len();
    let mut steps: Vec<InjectionStep> = Vec::new();
    let mut i: usize = 0;
    while i < n
        invariant
            i <= n,
            steps@.len() == i,
            forall|j: int| 0 <= j < i ==> steps@[j] is DeleteKey,
        decreases n - i,
    {
        steps.push(InjectionStep::DeleteKey);
        i += 1;
    }
    steps.push(InjectionStep::SaveClipboard);
    steps.push(InjectionStep::SetClipboard(rendered.clone()));
    steps.push(InjectionStep::PasteKey);
    steps.push(InjectionStep::RestoreDelay);
    steps.push(InjectionStep::RestoreClipboard);
    ExpansionPlan { token: String::from_str(token), rendered, cursor, steps }
}

proof fn lemma_run_clip_skips_deletes(steps: Seq<InjectionStep>, n: int, m: ClipboardModel)
    requires
        0 <= n <= steps.len(),
        forall|i: int| 0 <= i < n ==> steps[i] is DeleteKey,
    ensures
        run_clip(steps, m) == run_clip(steps.skip(n), m),
        clip_at_paste(steps, m) == clip_at_paste(steps.skip(n), m),
        delete_count(steps) == n + delete_count(steps.skip(n)),
    decreases n,
{
    if n == 0 {
        assert(steps.skip(0) =~= steps);
    } else {
        assert(step_clip(m, steps[0]) == m);
        lemma_run_clip_skips_deletes(steps.drop_first(), n - 1, m);
        assert(steps.drop_first().skip(n - 1) =~= steps.skip(n));
    }
}

/// The law of the expansion plan: run against any starting clipboard, it
/// issues exactly one deletion per token character, the clipboard holds the
/// rendered text at the moment of the paste, and after the restore the
/// clipboard is back at its pre-expansion value.
pub proof fn lemma_expansion_plan_clipboard_cycle(
    steps: Seq<InjectionStep>,
    n: int,
    rendered: Seq<char>,
    c0: Seq<char>,
)
    requires
        expansion_steps_shape(steps, n, rendered),
        n >= 0,
    ensures
        delete_count(steps) == n,
        clip_at_paste(steps, ClipboardModel { clip: c0, saved: c0 }) == Some(rendered),
        run_clip(steps, ClipboardModel { clip: c0, saved: c0 }).clip == c0,
{
    let m0 = ClipboardModel { clip: c0, saved: c0 };
    lemma_run_clip_skips_deletes(steps, n, m0);
    let tail = steps.skip(n);
    assert(tail.len() == 5);
    assert(tail[0] is SaveClipboard);
    assert(tail[1] matches InjectionStep::SetClipboard(t) && t@ == rendered);
    assert(tail[2] is PasteKey);
    assert(tail[3] is RestoreDelay);
    assert(tail[4] is RestoreClipboard);
    let m1 = step_clip(m0, tail[0]);
    let m2 = step_clip(m1, tail[1]);
    let m3 = step_clip(m2, tail[2]);
    let m4 = step_clip(m3, tail[3]);
    let m5 = step_clip(m4, tail[4]);
    let t1 = tail.drop_first();
    let t2 = t1.drop_first();
    let t3 = t2.drop_first();
    let t4 = t3.drop_first();
    let t5 = t4.drop_first();
    assert(t1[0] == tail[1] && t2[0] == tail[2] && t3[0] == tail[3] && t4[0] == tail[4]);
    assert(t5.len() == 0);
    assert(m1.saved == c0 && m2.clip == rendered && m2.saved == c0);
    assert(m5.clip == c0);
    assert(run_clip(tail, m0) == run_clip(t1, m1));
    assert(run_clip(t1, m1) == run_clip(t2, m2));
    assert(run_clip(t2, m2) == run_clip(t3, m3));
    assert(run_clip(t3, m3) == run_clip(t4, m4));
    assert(run_clip(t4, m4) == run_clip(t5, m5));
    assert(run_clip(t5, m5) == m5);
    assert(clip_at_paste(tail, m0) == clip_at_paste(t1, m1));
    assert(clip_at_paste(t1, m1) == clip_at_paste(t2, m2));
    assert(clip_at_paste(t2, m2) == Some(m2.clip));
    assert(delete_count(tail) == delete_count(t1));
    assert(delete_count(t1) == delete_count(t2));
    assert(delete_count(t2) == delete_count(t3));
    assert(delete_count(t3) == delete_count(t4));
    assert(delete_count(t4) == delete_count(t5));
    assert(delete_count(t5) == 0);
}

/// Outcome of running a plan against the modelled clipboard.
pub struct SimulatedOutcome {
    /// How many deletion keystrokes were issued.
    pub deletions: usize,
    /// The clipboard contents at the moment of the first paste, if a paste
    /// happened.
    pub pasted_with: Option<String>,
    /// The clipboard contents after every step ran.
    pub final_clipboard: String,
}

/// Run a plan's steps against an in-memory clipboard holding `initial`:
/// the deterministic reference for what the host-side executor does.
pub fn simulate_plan(plan: &ExpansionPlan, initial: &str) -> (r: SimulatedOutcome)
    ensures
        r.deletions == delete_count(plan.steps@),
        ({
            let end = run_clip(
                plan.steps@,
                ClipboardModel { clip: initial@, saved: initial@ },
            );
            r.final_clipboard@ == end.clip
        }),
        match r.pasted_with {
            Some(p) => clip_at_paste(
                plan.steps@,
                ClipboardModel { clip: initial@, saved: initial@ },
            ) == Some(p@),
            None => clip_at_paste(
                plan.steps@,
                ClipboardModel { clip: initial@, saved: initial@ },
            ) is None,
        },
{
    let mut clip = String::from_str(initial);
    let mut saved = String::from_str(initial);
    let mut deletions: usize = 0;
    let mut pasted_with: Option<String> = None;
    let mut idx: usize = 0;
    let ghost m0 = ClipboardModel { clip: initial@, saved: initial@ };
    proof {
        assert(plan.steps@.skip(0) =~= plan.steps@);
    }
    while idx < plan.steps.len()
        invariant
            idx <= plan.steps@.len(),
            clip@ == ({
                let m = run_clip(plan.steps@.take(idx as int), m0);
                m.clip
            }),
            saved@ == ({
                let m = run_clip(plan.steps@.take(idx as int), m0);
                m.saved
            }),
            deletions == delete_count(plan.steps@.take(idx as int)),
            deletions <= idx,
            match pasted_with {
                Some(p) => clip_at_paste(plan.steps@.take(idx as int), m0) == Some(p@),
                None => clip_at_paste(plan.steps@.take(idx as int), m0) is None,
            },
            m0 == (ClipboardModel { clip: initial@, saved: initial@ }),
        decreases plan.steps@.len() - idx,
    {
        match &plan.steps[idx] {
            InjectionStep::DeleteKey => {
                deletions += 1;
            },
            InjectionStep::SaveClipboard => {
                saved = clip.clone();
            },
            InjectionStep::SetClipboard(t) => {
                clip = t.clone();
            },
            InjectionStep::PasteKey => {
                if pasted_with.is_none() {
                    pasted_with = Some(clip.clone());
                }
            },
            InjectionStep::RestoreDelay => {},
            InjectionStep::RestoreClipboard => {
                clip = saved.clone();
            },
        }
        idx += 1;
        proof {
            lemma_run_prefix_step(plan.steps@, idx - 1, m0);
        }
    }
    proof {
        assert(plan.steps@.take(plan.steps@.len() as int) =~= plan.steps@);
    }
    SimulatedOutcome { deletions, pasted_with, final_clipboard: clip }
}

/// Extending a prefix by one step folds that step into the model.
proof fn lemma_run_prefix_step(steps: Seq<InjectionStep>, i: int, m0: ClipboardModel)
    requires
        0 <= i < steps.len(),
    ensures
        run_clip(steps.take(i + 1), m0) == step_clip(run_clip(steps.take(i), m0), steps[i]),
        delete_count(steps.take(i + 1)) == delete_count(steps.take(i)) + (
        if steps[i] is DeleteKey {
            1int
        } else {
            0int
        }),
        clip_at_paste(steps.take(i + 1), m0) == (if clip_at_paste(steps.take(i), m0) is Some {
            clip_at_paste(steps.take(i), m0)
        } else if steps[i] is PasteKey {
            Some(run_clip(steps.take(i), m0).clip)
        } else {
            Option::<Seq<char>>::None
        }),
{
    lemma_fold_snoc(steps.take(i + 1), m0);
    assert(steps.take(i + 1).drop_last() =~= steps.take(i));
    assert(steps.take(i + 1).last() == steps[i]);
}

/// Folding over `s` is folding over all but the last step, then the last.
proof fn lemma_fold_snoc(s: Seq<InjectionStep>, m0: ClipboardModel)
    requires
        s.len() > 0,
    ensures
        run_clip(s, m0) == step_clip(run_clip(s.drop_last(), m0), s.last()),
        delete_count(s) == delete_count(s.drop_last()) + (if s.last() is DeleteKey {
            1int
        } else {
            0int
        }),
        clip_at_paste(s, m0) == (if clip_at_paste(s.drop_last(), m0) is Some {
            clip_at_paste(s.drop_last(), m0)
        } else if s.last() is PasteKey {
            Some(run_clip(s.drop_last(), m0).clip)
        } else {
            Option::<Seq<char>>::None
        }),
    decreases s.len(),
{
    if s.len() == 1 {
        assert(s.drop_last() =~= Seq::<InjectionStep>::empty());
        assert(s.drop_first() =~= Seq::<InjectionStep>::empty());
        assert(s.last() == s[0]);
        assert(run_clip(s, m0) == run_clip(s.drop_first(), step_clip(m0, s[0])));
        assert(run_clip(s.drop_first(), step_clip(m0, s[0])) == step_clip(m0, s[0]));
        assert(run_clip(s.drop_last(), m0) == m0);
    } else {
        let m1 = step_clip(m0, s[0]);
        lemma_fold_snoc(s.drop_first(), m1);
        assert(s.drop_first().drop_last() =~= s.drop_last().drop_first());
        assert(s.drop_first().last() == s.last());
        assert(s.drop_last()[0] == s[0]);
        assert(s.drop_last().len() > 0);
        assert(run_clip(s, m0) == run_clip(s.drop_first(), m1));
        assert(run_clip(s.drop_last(), m0) == run_clip(s.drop_last().drop_first(), m1));
        assert(run_clip(s.drop_last().drop_first(), m1) == run_clip(
            s.drop_first().drop_last(),
            m1,
        ));
        assert(clip_at_paste(s.drop_last(), m0) == (if s[0] is PasteKey {
            Some(m0.clip)
        } else {
            clip_at_paste(s.drop_last().drop_first(), m1)
        }));
        assert(delete_count(s.drop_last()) == (if s[0] is DeleteKey {
            1int
        } else {
            0int
        }) + delete_count(s.drop_last().drop_first()));
    }
}

} // verus!
