//! What holds of the application whatever the user does.

use vstd::prelude::*;
use crate::app::{has_instant, lemma_first_note_exists, AppView, InputMode};
use crate::clock::Timestamp;
use crate::event::{Event, KeyEvent, KeyEventKind};
use crate::machine::ReadingsView;
use crate::bindings::Action;
use crate::entry::{EntryView, NoteView};
use crate::key_utils::Key;
use crate::text::blank;

verus! {

/// The state after a run of steps through the list: `true` for a step
/// towards the last entry, `false` for one towards the first.
pub open spec fn after_moves(s: AppView, moves: Seq<bool>) -> AppView
    decreases moves.len(),
{
    if moves.len() == 0 {
        s
    } else {
        let before = after_moves(s, moves.drop_last());
        if moves.last() {
            before.select_next()
        } else {
            before.select_previous()
        }
    }
}

/// Whatever steps are taken through the list, the selection stays an entry of
/// the list: with no entries nothing is selected, and what is selected lies
/// within the list. Once something was selected, or a step towards the last
/// entry was taken, nothing is selected only where there are no entries.
pub proof fn lemma_selection_stays_valid(s: AppView, moves: Seq<bool>)
    requires
        s.wf(),
    ensures
        after_moves(s, moves).wf(),
        after_moves(s, moves) == (AppView { selected: after_moves(s, moves).selected, ..s }),
        after_moves(s, moves).selected matches Some(i) ==> i < s.entries.len(),
        s.entries.len() == 0 ==> after_moves(s, moves).selected is None,
        s.selected is Some || moves.contains(true) ==> (after_moves(s, moves).selected is None
            <==> s.entries.len() == 0),
    decreases moves.len(),
{
    if moves.len() > 0 {
        let head = moves.drop_last();
        lemma_selection_stays_valid(s, head);
        if moves.contains(true) && !moves.last() {
            let i = choose|i: int| 0 <= i < moves.len() && moves[i];
            assert(head[i]);
        }
    }
}

/// A note that is started, typed and finalized is added to both lists with
/// the time at which it was started, and is selected; the entries that were
/// there stay as they are.
pub proof fn lemma_new_note_is_added(s: AppView, time: Timestamp, text: Seq<char>, cursor: usize)
    requires
        s.wf(),
    ensures
        ({
            let note = NoteView { timestamp: time, text };
            let done = (AppView { input: text, cursor, ..s.start_note(time) }).finalize_note();
            &&& done.entries == s.entries.push(EntryView::Note(note))
            &&& done.notes == s.notes.push(note)
            &&& done.selected == Some(s.entries.len() as usize)
            &&& done.mode == InputMode::Normal
            &&& done.input.len() == 0
            &&& done.note_time is None
        }),
{
}

/// The cancel key leaves every mode that takes text without a trace: the
/// entries and the notes stay as they are, the input is empty, and the mode
/// is normal. Where one key is bound both to cancel and to new note, the key
/// confirms.
pub proof fn lemma_cancel_leaves_no_trace(s: AppView, key: KeyEvent, r: ReadingsView)
    requires
        s.mode.edits_text(),
        key.kind == KeyEventKind::Press,
        key.code == s.keys.cancel,
        key.code != s.keys.new_note,
    ensures
        ({
            let (done, effect) = s.step(Event::Key(key), r);
            &&& done.entries == s.entries
            &&& done.notes == s.notes
            &&& done.input.len() == 0
            &&& done.cursor == 0
            &&& done.mode == InputMode::Normal
            &&& done.note_time is None
            &&& done.edit_index is None
            &&& effect is Nothing
        }),
{
}

/// Editing a note and finalizing with a new text puts the text in the entry
/// at its place and in a note of the same instant in the list of notes; no
/// entry is added or lost, and no other entry changes.
pub proof fn lemma_edit_updates_both_lists(s: AppView, text: Seq<char>, cursor: usize)
    requires
        s.wf(),
        s.selected matches Some(i) && s.entries[i as int] is Note,
    ensures
        ({
            let i = s.selected->0 as int;
            let time = s.entries[i]->Note_0.timestamp;
            let done = (AppView { input: text, cursor, ..s.edit_selected() }).finalize_note();
            &&& done.entries == s.entries.update(i, EntryView::Note(NoteView { timestamp: time, text }))
            &&& done.entries.len() == s.entries.len()
            &&& done.notes.len() == s.notes.len()
            &&& exists|j: int|
                0 <= j < done.notes.len() && (#[trigger] done.notes[j]).timestamp.same_instant(time)
                    && done.notes[j].text == text
            &&& done.mode == InputMode::Normal
        }),
{
    let i = s.selected->0 as int;
    let time = s.entries[i]->Note_0.timestamp;
    let done = (AppView { input: text, cursor, ..s.edit_selected() }).finalize_note();
    assert(has_instant(s.notes, time));
    let n = choose|n: int| 0 <= n < s.notes.len() && (#[trigger] s.notes[n]).timestamp.same_instant(time);
    let j = lemma_first_note_exists(s.notes, time, n);
    assert(done.notes[j].timestamp.same_instant(time) && done.notes[j].text == text);
}

/// Finalizing a section with nothing but white space in the input, while no
/// entry is being edited, leaves the entries as they are.
pub proof fn lemma_blank_section_is_dropped(s: AppView)
    requires
        s.edit_index is None,
        blank(s.input),
    ensures
        s.finalize_section().entries == s.entries,
        s.finalize_section().notes == s.notes,
        s.finalize_section().selected == s.selected,
        s.finalize_section().mode == InputMode::Normal,
{
}

/// Binding a key anew never leaves a key with two actions. From bindings in
/// which no key but `Key::Null` has two actions, the key pressed for the
/// action being bound is either bound at once, which the caller is asked to
/// keep, or the bindings stay untouched; where the key is kept aside, Enter
/// takes it from the action that held it. In every case no key but
/// `Key::Null` has two actions afterwards, and once bound the key belongs to
/// the action it was pressed for.
pub proof fn lemma_rebind_keeps_keys_apart(s: AppView, code: Key)
    requires
        s.keys.keys_apart(),
        s.capture_action is Some,
    ensures
        ({
            let action = s.capture_action->0;
            let asked = s.capture_key(code).0;
            let taken = asked.confirm_key(Key::Enter).0;
            &&& asked.keys.keys_apart()
            &&& s.capture_key(code).1 is SaveKeyBindings ==> asked.keys.key_of(action) == code
            &&& s.capture_key(code).1 is Nothing ==> asked.keys == s.keys
            &&& asked.mode == InputMode::ConfirmReplace ==> {
                &&& asked.pending_conflict == s.keys.owner(code)
                &&& taken.keys.keys_apart()
                &&& taken.keys.key_of(action) == code
                &&& taken.keys.key_of(asked.pending_conflict->0) == Key::Null || code == Key::Null
                &&& taken.mode == InputMode::KeyBindings
            }
        }),
{
    let action = s.capture_action->0;
    let asked = s.capture_key(code).0;
    s.keys.lemma_owner_holds_key(code);
    if code != s.keys.cancel && !(code == s.keys.bindings && action != Action::Bindings) {
        match s.keys.owner(code) {
            Some(conflict) => {
                assert(s.keys.key_of(conflict) == code);
                if conflict != action {
                    let taken = asked.confirm_key(Key::Enter).0;
                    let unbound = s.keys.with(conflict, Key::Null);
                    assert(taken.keys == unbound.with(action, code));
                    assert forall|a: Action, b: Action|
                        a != b && #[trigger] taken.keys.key_of(a) == #[trigger] taken.keys.key_of(b)
                        implies taken.keys.key_of(a) == Key::Null by {
                        if taken.keys.key_of(a) != Key::Null {
                            if a == action {
                                assert(s.keys.key_of(b) == s.keys.key_of(conflict));
                            } else if b == action {
                                assert(s.keys.key_of(a) == s.keys.key_of(conflict));
                            } else {
                                assert(s.keys.key_of(a) == s.keys.key_of(b));
                            }
                        }
                    }
                } else {
                    let bound = s.keys.with(action, code);
                    assert forall|a: Action, b: Action|
                        a != b && #[trigger] bound.key_of(a) == #[trigger] bound.key_of(b) implies bound.key_of(
                        a,
                    ) == Key::Null by {
                        assert(s.keys.key_of(a) == s.keys.key_of(b));
                    }
                }
            },
            None => {
                let bound = s.keys.with(action, code);
                assert forall|a: Action, b: Action|
                    a != b && #[trigger] bound.key_of(a) == #[trigger] bound.key_of(b) implies bound.key_of(
                    a,
                ) == Key::Null by {
                    if a == action {
                        assert(s.keys.key_of(b) != code);
                    } else if b == action {
                        assert(s.keys.key_of(a) != code);
                    } else {
                        assert(s.keys.key_of(a) == s.keys.key_of(b));
                    }
                }
            },
        }
    }
}

} // verus!
