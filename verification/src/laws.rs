//! Laws of the line editor, stated over the functional model and proved
//! once for all event sequences.

use vstd::prelude::*;
use crate::Event;
use crate::editor::{
    append_model, backspace_model, commit_model, down_model, up_model, wf_model, EditorModel,
};

verus! {

/// One editing event applied to the model.
pub open spec fn step_model(m: EditorModel, e: Event) -> EditorModel {
    match e {
        Event::Literal(c) => append_model(m, c),
        Event::Backspace => backspace_model(m),
        Event::HistoryUp => up_model(m),
        Event::HistoryDown => down_model(m),
        Event::Enter => commit_model(m),
    }
}

/// A whole event sequence applied to the model, first event first.
pub open spec fn apply_events(m: EditorModel, es: Seq<Event>) -> EditorModel
    decreases es.len(),
{
    if es.len() == 0 {
        m
    } else {
        apply_events(step_model(m, es[0]), es.drop_first())
    }
}

/// The characters carried by the literal events of a sequence, in order.
pub open spec fn literals_of(es: Seq<Event>) -> Seq<char>
    decreases es.len(),
{
    if es.len() == 0 {
        Seq::empty()
    } else {
        match es[0] {
            Event::Literal(c) => seq![c] + literals_of(es.drop_first()),
            _ => literals_of(es.drop_first()),
        }
    }
}

/// Every step preserves the editor invariant.
pub proof fn lemma_step_wf(m: EditorModel, e: Event)
    requires
        wf_model(m),
    ensures
        wf_model(step_model(m, e)),
{
}

/// So does every event sequence.
pub proof fn lemma_apply_wf(m: EditorModel, es: Seq<Event>)
    requires
        wf_model(m),
    ensures
        wf_model(apply_events(m, es)),
    decreases es.len(),
{
    if es.len() > 0 {
        lemma_apply_wf(step_model(m, es[0]), es.drop_first());
    }
}

/// A sequence of literal-character events with no Enter leaves the buffer
/// holding its old content followed by exactly the characters injected, in
/// order, and touches neither the history nor the cursor.
pub proof fn lemma_literals_concatenate(m: EditorModel, es: Seq<Event>)
    requires
        forall|i: int| 0 <= i < es.len() ==> es[i] is Literal,
    ensures
        apply_events(m, es).buffer == m.buffer + literals_of(es),
        apply_events(m, es).history == m.history,
        apply_events(m, es).cursor == m.cursor,
    decreases es.len(),
{
    if es.len() == 0 {
        assert(m.buffer + literals_of(es) =~= m.buffer);
    } else {
        let c = es[0]->0;
        let m1 = append_model(m, c);
        lemma_literals_concatenate(m1, es.drop_first());
        assert(m.buffer.push(c) + literals_of(es.drop_first()) =~= m.buffer + literals_of(es));
    }
}

/// No event other than Enter ever changes the history: appending,
/// backspacing and recalling leave every stored entry exactly as it was
/// committed.
pub proof fn lemma_no_commit_preserves_history(m: EditorModel, es: Seq<Event>)
    requires
        forall|i: int| 0 <= i < es.len() ==> !(es[i] is Enter),
    ensures
        apply_events(m, es).history == m.history,
    decreases es.len(),
{
    if es.len() > 0 {
        lemma_no_commit_preserves_history(step_model(m, es[0]), es.drop_first());
    }
}

/// History is append-only: whatever events arrive, the entries already
/// recorded stay, in order, at the front of the history.
pub proof fn lemma_history_append_only(m: EditorModel, es: Seq<Event>)
    ensures
        m.history.is_prefix_of(apply_events(m, es).history),
    decreases es.len(),
{
    if es.len() == 0 {
        assert(m.history =~= apply_events(m, es).history.subrange(0, m.history.len() as int));
    } else {
        let m1 = step_model(m, es[0]);
        lemma_history_append_only(m1, es.drop_first());
        assert(m.history =~= m1.history.subrange(0, m.history.len() as int));
        let h2 = apply_events(m1, es.drop_first()).history;
        assert(m.history =~= h2.subrange(0, m.history.len() as int));
    }
}

/// Recalling replaces the buffer with exactly the stored entry under the
/// new cursor, and editing afterwards (typing or backspacing) never
/// mutates that stored entry.
pub proof fn lemma_recall_round_trip(m: EditorModel, es: Seq<Event>)
    requires
        wf_model(m),
        m.history.len() > 0,
        forall|i: int| 0 <= i < es.len() ==> (es[i] is Literal || es[i] is Backspace),
    ensures
        up_model(m).buffer == m.history[up_model(m).cursor],
        apply_events(up_model(m), es).history == m.history,
        apply_events(up_model(m), es).history[up_model(m).cursor] == m.history[up_model(
            m,
        ).cursor],
{
    lemma_no_commit_preserves_history(up_model(m), es);
}

/// Repeated up-recalls applied to the model.
pub open spec fn apply_ups(m: EditorModel, n: nat) -> EditorModel
    decreases n,
{
    if n == 0 {
        m
    } else {
        apply_ups(up_model(m), (n - 1) as nat)
    }
}

/// Repeated down-recalls applied to the model.
pub open spec fn apply_downs(m: EditorModel, n: nat) -> EditorModel
    decreases n,
{
    if n == 0 {
        m
    } else {
        apply_downs(down_model(m), (n - 1) as nat)
    }
}

/// Up-recall is monotonic and clamped: any number of up-recalls moves the
/// cursor down by exactly that count until it reaches the oldest entry,
/// and never below index 0.
pub proof fn lemma_ups_clamped(m: EditorModel, n: nat)
    requires
        wf_model(m),
    ensures
        wf_model(apply_ups(m, n)),
        apply_ups(m, n).cursor == if m.cursor >= n {
            m.cursor - n
        } else {
            0
        },
        apply_ups(m, n).history == m.history,
    decreases n,
{
    if n > 0 {
        lemma_ups_clamped(up_model(m), (n - 1) as nat);
    }
}

/// Down-recall is monotonic and clamped: any positive number of
/// down-recalls moves the cursor up by exactly that count until it reaches
/// the newest entry, and never above index `history.len() - 1`.
pub proof fn lemma_downs_clamped(m: EditorModel, n: nat)
    requires
        wf_model(m),
        m.history.len() > 0,
        n >= 1,
    ensures
        wf_model(apply_downs(m, n)),
        apply_downs(m, n).cursor == if m.cursor + n < m.history.len() {
            m.cursor + n
        } else {
            m.history.len() - 1
        },
        apply_downs(m, n).history == m.history,
    decreases n,
{
    if n == 1 {
        assert(apply_downs(m, n) == apply_downs(down_model(m), 0));
        assert(apply_downs(down_model(m), 0) == down_model(m));
    } else {
        lemma_downs_clamped(down_model(m), (n - 1) as nat);
    }
}

} // verus!
