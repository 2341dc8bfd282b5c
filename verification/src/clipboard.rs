//! The plan of pasting submitted text into the application the user came
//! from: save what the clipboard holds, put the text on it, bring that
//! application back, send Command+V, then put back everything that was saved.

use vstd::prelude::*;

verus! {

/// One step of pasting text into the previous application.
#[derive(Debug, Clone, Copy, PartialEq, Eq, Structural)]
pub enum PasteStep {
    /// Put the submitted text on the clipboard (in place of what it holds).
    PutText,
    /// Wait this many milliseconds.
    Wait(u64),
    /// Bring the previous application to the front.
    ActivatePreviousApp,
    /// Send Command+V.
    Paste,
    /// Put back on the clipboard everything it held before the paste began,
    /// whatever its kind (text, images, files, or nothing at all).
    RestoreSaved,
}

/// The steps of pasting: the text goes on the clipboard; where there is a
/// previous application it is brought back between two waits of 100 ms;
/// Command+V is sent; after a wait of 300 ms the saved contents of the
/// clipboard are put back.
pub open spec fn paste_plan(has_previous_app: bool) -> Seq<PasteStep> {
    seq![PasteStep::PutText] + (if has_previous_app {
        seq![PasteStep::Wait(100), PasteStep::ActivatePreviousApp, PasteStep::Wait(100)]
    } else {
        Seq::<PasteStep>::empty()
    }) + seq![PasteStep::Paste, PasteStep::Wait(300), PasteStep::RestoreSaved]
}

/// The steps of pasting (see [`paste_plan`]).
pub fn paste_steps(has_previous_app: bool) -> (steps: Vec<PasteStep>)
    ensures
        steps@ == paste_plan(has_previous_app),
{
    let mut steps: Vec<PasteStep> = Vec::new();
    steps.push(PasteStep::PutText);
    if has_previous_app {
        steps.push(PasteStep::Wait(100));
        steps.push(PasteStep::ActivatePreviousApp);
        steps.push(PasteStep::Wait(100));
    }
    steps.push(PasteStep::Paste);
    steps.push(PasteStep::Wait(300));
    steps.push(PasteStep::RestoreSaved);
    assert(steps@ =~= paste_plan(has_previous_app));
    steps
}

/// The plan starts by putting the text on the clipboard, sends Command+V
/// exactly once, brings the previous application back (before the paste)
/// exactly when there is one, and ends by restoring what was saved.
pub proof fn lemma_paste_plan_shape(has_previous_app: bool)
    ensures
        ({
            let steps = paste_plan(has_previous_app);
            &&& steps[0] == PasteStep::PutText
            &&& steps.last() == PasteStep::RestoreSaved
            &&& exists|p: int| {
                &&& 0 <= p < steps.len()
                &&& steps[p] == PasteStep::Paste
                &&& forall|i: int| 0 <= i < steps.len() && i != p ==> steps[i] != PasteStep::Paste
                &&& forall|i: int|
                    0 <= i < steps.len() && steps[i] == PasteStep::ActivatePreviousApp ==> i < p
            }
            &&& (exists|i: int| 0 <= i < steps.len() && steps[i] == PasteStep::ActivatePreviousApp)
                <==> has_previous_app
        }),
{
    let steps = paste_plan(has_previous_app);
    let p: int = if has_previous_app { 4 } else { 1 };
    assert(steps[p] == PasteStep::Paste);
    if has_previous_app {
        assert(steps[2] == PasteStep::ActivatePreviousApp);
    } else {
        assert(steps =~= seq![PasteStep::PutText, PasteStep::Paste, PasteStep::Wait(300), PasteStep::RestoreSaved]);
    }
}

/// What the clipboard holds after `steps`, where it held `saved` when the
/// paste began (and that is what was saved) and `text` is the submitted
/// text, put on the clipboard as contents of the same kind `C`.
pub open spec fn clipboard_after<C>(steps: Seq<PasteStep>, text: C, saved: C) -> C
    decreases steps.len(),
{
    if steps.len() == 0 {
        saved
    } else {
        match steps.last() {
            PasteStep::PutText => text,
            PasteStep::RestoreSaved => saved,
            _ => clipboard_after(steps.drop_last(), text, saved),
        }
    }
}

/// Whatever the clipboard held when the paste began (text, other kinds of
/// contents, or nothing), Command+V is sent while it holds the submitted
/// text, and once the steps are done it holds exactly what it held before.
pub proof fn lemma_paste_restores_clipboard<C>(has_previous_app: bool, text: C, saved: C)
    ensures
        ({
            let steps = paste_plan(has_previous_app);
            &&& forall|i: int|
                0 <= i < steps.len() && steps[i] == PasteStep::Paste ==> clipboard_after(
                    #[trigger] steps.take(i),
                    text,
                    saved,
                ) == text
            &&& clipboard_after(steps, text, saved) == saved
        }),
{
    let steps = paste_plan(has_previous_app);
    let k: int = if has_previous_app { 4 } else { 1 };
    assert(steps[k] == PasteStep::Paste);
    assert forall|j: int| 0 <= j <= k implies clipboard_after(
        #[trigger] steps.take(j + 1),
        text,
        saved,
    ) == text by {
        lemma_clipboard_prefix(steps, text, saved, j);
    }
    assert forall|i: int|
        0 <= i < steps.len() && steps[i] == PasteStep::Paste implies clipboard_after(
        #[trigger] steps.take(i),
        text,
        saved,
    ) == text by {
        assert(i == k);
        assert(steps.take(i) == steps.take((i - 1) + 1));
    }
    assert(steps.last() == PasteStep::RestoreSaved);
}

/// Between putting the text on the clipboard and the paste, the clipboard
/// holds the text.
proof fn lemma_clipboard_prefix<C>(steps: Seq<PasteStep>, text: C, saved: C, j: int)
    requires
        steps.len() >= 1,
        steps[0] == PasteStep::PutText,
        0 <= j < steps.len(),
        forall|m: int| 1 <= m <= j ==> steps[m] != PasteStep::PutText && steps[m]
            != PasteStep::RestoreSaved,
    ensures
        clipboard_after(steps.take(j + 1), text, saved) == text,
    decreases j,
{
    if j > 0 {
        lemma_clipboard_prefix(steps, text, saved, j - 1);
        assert(steps.take(j + 1).drop_last() =~= steps.take(j));
    }
}

} // verus!
