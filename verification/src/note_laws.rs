//! What notes are for: how a draft is begun, edited, saved and given up, which note is
//! sent where, and what becomes of it when the answer comes.

use vstd::prelude::*;
use serde_json::Value;

use crate::domain::{
    content_says, field_says, marks_say, note_id_says, ref_says, snapshot_says, soft_says,
    Domain,
};
use crate::event::{EffectView, HudEvent, Message, Moment};
use crate::hud::{overview_ref_is, HudView};
use crate::json::{json_of, lists_members, member, object_of, shown_json, Json};
use crate::laws::{law_a_delete_takes_two_requests, law_only_a_save_saves};
use crate::list_laws::{chosen_row, law_a_failed_list, law_a_list_answer, law_a_search};
use crate::model::{DraftView, NoteView, Tab};
use crate::notes::{
    field_members, note_from, note_sent_to, note_tree, note_with, saved_id_is, snapshot_taken,
    with_fields,
};
use crate::pane_laws::{
    law_an_overview_is_shown, law_requests_name_the_shown_session, names_shown,
};
use crate::refresh_laws::law_a_refresh;
use crate::text::{integer_value, law_numbers_read_back, trimmed};
use crate::timeline_laws::law_a_page_is_taken;
use crate::update::{deleted, draft_dropped, steps};

verus! {

// ---------------------------------------------------------------------------
// Drafts
// ---------------------------------------------------------------------------

/// A draft with nothing in it.
pub open spec fn is_empty_draft(draft: DraftView) -> bool {
    draft.id.len() == 0 && draft.turn_index.len() == 0 && draft.event_index.len() == 0
        && draft.fields.len() == 0
}

/// A new note is begun for a turn and an event, on the notes page, with the keyboard
/// on it. Giving a draft up empties the form and lets go of the keyboard.
pub proof fn law_drafts_begin_and_end<D: Domain>(
    d: &D,
    pre: HudView,
    m: Moment,
    message: Message,
    post: HudView,
    fx: Seq<EffectView>,
)
    requires
        steps(d, pre, m, message, post, fx),
        message is StartNote || message is ResetDraft,
    ensures
        fx.len() == 0,
        match message {
            Message::StartNote { turn, event } => {
                &&& post.note_draft.id.len() == 0
                &&& post.note_draft.fields.len() == 0
                &&& post.note_draft.turn_index == turn@
                &&& post.note_draft.event_index == event@
                &&& post == HudView {
                    note_draft: post.note_draft,
                    note_compose_lock: true,
                    typing_notes: true,
                    tab: Tab::Notes,
                    ..pre
                }
            },
            _ => {
                &&& is_empty_draft(post.note_draft)
                &&& post == HudView {
                    note_draft: post.note_draft,
                    note_compose_lock: false,
                    typing_notes: false,
                    note_saving: false,
                    ..pre
                }
            },
        },
{
}

/// Editing changes what is edited and keeps the form open: a field as the domain puts
/// it into the draft, or the turn.
pub proof fn law_drafts_are_edited<D: Domain>(
    d: &D,
    pre: HudView,
    m: Moment,
    message: Message,
    post: HudView,
    fx: Seq<EffectView>,
)
    requires
        steps(d, pre, m, message, post, fx),
        message is NoteField || message is NoteTurn,
    ensures
        fx.len() == 0,
        match message {
            Message::NoteField { id, value } => {
                &&& field_says(d, pre.note_draft, id@, value@, post.note_draft)
                &&& post == HudView {
                    note_draft: post.note_draft,
                    note_compose_lock: true,
                    typing_notes: true,
                    ..pre
                }
            },
            Message::NoteTurn(turn) => post == (HudView {
                note_draft: DraftView { turn_index: turn@, ..pre.note_draft },
                note_compose_lock: true,
                ..pre
            }),
            _ => true,
        },
{
}

// ---------------------------------------------------------------------------
// Opening
// ---------------------------------------------------------------------------

/// `at` is the place of the first note with this id; nothing when there is none.
pub open spec fn first_note(notes: Seq<NoteView>, id: Seq<char>, at: Option<int>) -> bool {
    match at {
        Some(i) => 0 <= i < notes.len() && notes[i].id == id && forall|k: int|
            0 <= k < i ==> (#[trigger] notes[k]).id != id,
        None => forall|k: int| 0 <= k < notes.len() ==> (#[trigger] notes[k]).id != id,
    }
}

proof fn lemma_first_note(notes: Seq<NoteView>, id: Seq<char>, from: int)
    requires
        0 <= from,
    ensures
        match note_from(notes, id, from) {
            Some(i) => from <= i < notes.len() && notes[i].id == id && forall|k: int|
                from <= k < i ==> (#[trigger] notes[k]).id != id,
            None => forall|k: int| from <= k < notes.len() ==> (#[trigger] notes[k]).id != id,
        },
    decreases notes.len() - from,
{
    if from < notes.len() && notes[from].id != id {
        lemma_first_note(notes, id, from + 1);
    }
}

/// The form shows each member of `fields`, and nothing else: a text as it is, anything
/// else as JSON. It shows them in the order of their names.
pub open spec fn form_shows(fields: Json, form: Seq<(Seq<char>, Seq<char>)>) -> bool {
    &&& forall|i: int|
        0 <= i < form.len() ==> match member(fields, (#[trigger] form[i]).0) {
            Some(Json::Text(s)) => form[i].1 == s,
            Some(j) => form[i].1 == shown_json(j),
            None => false,
        }
    &&& forall|k: Seq<char>|
        (#[trigger] member(fields, k)) is Some ==> exists|i: int|
            0 <= i < form.len() && (#[trigger] form[i]).0 == k
    &&& forall|i: int, j: int|
        0 <= i < j < form.len() ==> crate::text::text_before(
            (#[trigger] form[i]).0,
            (#[trigger] form[j]).0,
        )
}

proof fn lemma_form_shows(fields: Json, form: Seq<(Seq<char>, Seq<char>)>)
    requires
        crate::notes::form_fields_are(fields, form),
    ensures
        form_shows(fields, form),
{
    if let Json::Object(m) = fields {
        let entries = choose|entries: Seq<(Seq<char>, Json)>| #[trigger]
            lists_members(entries, m) && form == entries.map_values(
                |e: (Seq<char>, Json)| (e.0, crate::notes::field_text(e.1)),
            );
        assert forall|i: int| 0 <= i < form.len() implies match member(
            fields,
            (#[trigger] form[i]).0,
        ) {
            Some(Json::Text(s)) => form[i].1 == s,
            Some(j) => form[i].1 == shown_json(j),
            None => false,
        } by {
            assert(m.dom().contains(entries[i].0));
        }
        assert forall|k: Seq<char>| (#[trigger] member(fields, k)) is Some implies exists|i: int|
            0 <= i < form.len() && (#[trigger] form[i]).0 == k by {
            assert(m.dom().contains(k));
            let i = choose|i: int| 0 <= i < entries.len() && (#[trigger] entries[i]).0 == k;
            assert(form[i].0 == k);
        }
        assert forall|i: int, j: int| 0 <= i < j < form.len() implies crate::text::text_before(
            (#[trigger] form[i]).0,
            (#[trigger] form[j]).0,
        ) by {
            assert(crate::text::text_before(entries[i].0, entries[j].0));
        }
    }
}

/// Opening a note shows the notes page and puts the first note with that id into the
/// form: its id, its turn, its first event and its fields. An unknown note leaves the
/// form.
pub proof fn law_a_note_is_opened<D: Domain>(
    d: &D,
    pre: HudView,
    m: Moment,
    nid: String,
    post: HudView,
    fx: Seq<EffectView>,
) -> (at: Option<int>)
    requires
        steps(d, pre, m, Message::OpenNote(nid), post, fx),
    ensures
        fx.len() == 0,
        pre.overview is None ==> at is None,
        pre.overview is Some ==> first_note(pre.overview->0.notes.notes, nid@, at),
        match at {
            Some(i) => {
                let n = pre.overview->0.notes.notes[i];
                let draft = post.note_draft;
                &&& draft.id == nid@
                &&& n.turn_index is None ==> draft.turn_index.len() == 0
                &&& n.turn_index is Some ==> integer_value(draft.turn_index) == Some(
                    n.turn_index->0 as int,
                )
                &&& n.event_indices.len() == 0 ==> draft.event_index.len() == 0
                &&& n.event_indices.len() > 0 ==> integer_value(draft.event_index) == Some(
                    n.event_indices[0] as int,
                )
                &&& form_shows(n.fields, draft.fields)
                &&& post == HudView {
                    note_draft: draft,
                    note_compose_lock: true,
                    tab: Tab::Notes,
                    ..pre
                }
            },
            None => post == (HudView { tab: Tab::Notes, ..pre }),
        },
{
    match pre.overview {
        Some(o) => {
            lemma_first_note(o.notes.notes, nid@, 0);
            let at = note_from(o.notes.notes, nid@, 0);
            if let Some(i) = at {
                let n = o.notes.notes[i];
                lemma_form_shows(n.fields, post.note_draft.fields);
                if let Some(t) = n.turn_index {
                    law_numbers_read_back(t as int);
                }
                if n.event_indices.len() > 0 {
                    law_numbers_read_back(n.event_indices[0] as int);
                }
            }
            at
        },
        None => None,
    }
}

// ---------------------------------------------------------------------------
// Saving
// ---------------------------------------------------------------------------

/// The last of the members with one key is the one that an object has.
pub proof fn lemma_member(entries: Seq<(Seq<char>, Json)>, i: int)
    requires
        0 <= i < entries.len(),
        forall|j: int| i < j < entries.len() ==> (#[trigger] entries[j]).0 != entries[i].0,
    ensures
        member(object_of(entries), entries[i].0) == Some(entries[i].1),
    decreases entries.len(),
{
    if i < entries.len() - 1 {
        let rest = entries.drop_last();
        assert forall|j: int| i < j < rest.len() implies (#[trigger] rest[j]).0 != rest[i].0 by {
            assert(entries[j].0 != entries[i].0);
        }
        lemma_member(rest, i);
        assert(rest[i] == entries[i]);
        assert(entries[entries.len() - 1].0 != entries[i].0);
    }
}

/// The fields of a saved note: what was typed, of two entries for one field the later
/// one, and what the note had in every other field.
pub open spec fn fields_are_saved(
    old: Option<NoteView>,
    typed: Seq<(Seq<char>, Seq<char>)>,
    fields: Json,
) -> bool {
    &&& fields is Object
    &&& forall|i: int|
        0 <= i < typed.len() && (forall|j: int|
            i < j < typed.len() ==> (#[trigger] typed[j]).0 != typed[i].0) ==> member(
            fields,
            (#[trigger] typed[i]).0,
        ) == Some(Json::Text(typed[i].1))
    &&& forall|key: Seq<char>|
        (forall|i: int| 0 <= i < typed.len() ==> (#[trigger] typed[i]).0 != key) ==> (
        #[trigger] member(fields, key)) == match old {
            Some(n) => member(n.fields, key),
            None => None,
        }
}

proof fn lemma_typed_field(
    base: Map<Seq<char>, Json>,
    typed: Seq<(Seq<char>, Seq<char>)>,
    i: int,
)
    requires
        0 <= i < typed.len(),
        forall|j: int| i < j < typed.len() ==> (#[trigger] typed[j]).0 != typed[i].0,
    ensures
        with_fields(base, typed).dom().contains(typed[i].0),
        with_fields(base, typed)[typed[i].0] == Json::Text(typed[i].1),
    decreases typed.len(),
{
    if i < typed.len() - 1 {
        let rest = typed.drop_last();
        assert forall|j: int| i < j < rest.len() implies (#[trigger] rest[j]).0 != rest[i].0 by {
            assert(typed[j].0 != typed[i].0);
        }
        lemma_typed_field(base, rest, i);
        assert(rest[i] == typed[i]);
        assert(typed[typed.len() - 1].0 != typed[i].0);
    }
}

proof fn lemma_fields_are_saved(old: Option<NoteView>, typed: Seq<(Seq<char>, Seq<char>)>)
    ensures
        fields_are_saved(old, typed, Json::Object(with_fields(field_members(old), typed))),
{
    let base = field_members(old);
    let fields = Json::Object(with_fields(base, typed));
    assert forall|i: int|
        0 <= i < typed.len() && (forall|j: int|
            i < j < typed.len() ==> (#[trigger] typed[j]).0 != typed[i].0) implies member(
        fields,
        (#[trigger] typed[i]).0,
    ) == Some(Json::Text(typed[i].1)) by {
        lemma_typed_field(base, typed, i);
    }
    assert forall|key: Seq<char>|
        (forall|i: int| 0 <= i < typed.len() ==> (#[trigger] typed[i]).0
            != key) implies #[trigger] member(fields, key) == match old {
        Some(n) => member(n.fields, key),
        None => None,
    } by {
        crate::notes::law_saving_keeps_other_fields(base, typed, key);
    }
}

/// The turn that the draft names: none is turn zero, and what is no number from zero on
/// is no turn.
pub open spec fn names_turn(raw: Seq<char>, turn: Option<int>) -> bool {
    &&& trimmed(raw).len() == 0 ==> turn == Some(0int)
    &&& trimmed(raw).len() > 0 ==> match integer_value(trimmed(raw)) {
        Some(n) => turn == if 0 <= n <= i64::MAX {
            Some(n)
        } else {
            None
        },
        None => turn is None,
    }
}

/// `note` is the note that is saved under `id` for a draft: with its turn and what was
/// typed, over the note `old` of that id. The rows of the timeline are those of the
/// old note, or, of a new one, the row that the draft names.
pub open spec fn is_saved_note(
    old: Option<NoteView>,
    id: Seq<char>,
    turn: int,
    draft: DraftView,
    note: Json,
) -> bool {
    &&& member(note, "id"@) == Some(Json::Text(id))
    &&& member(note, "turnIndex"@) == Some(Json::Int(turn))
    &&& member(note, "fields"@) is Some
    &&& fields_are_saved(old, draft.fields, member(note, "fields"@)->0)
    &&& member(note, "eventIndices"@) is Some
    &&& member(note, "eventIndices"@)->0 is Array
    &&& {
        let rows = member(note, "eventIndices"@)->0->Array_0;
        match old {
            Some(n) => rows.len() == n.event_indices.len() && forall|i: int|
                0 <= i < rows.len() ==> (#[trigger] rows[i]) == Json::Int(
                    n.event_indices[i] as int,
                ),
            None => match integer_value(trimmed(draft.event_index)) {
                Some(n) if i64::MIN <= n <= i64::MAX => rows == seq![Json::Int(n)],
                _ => rows.len() == 0,
            },
        }
    }
}

proof fn lemma_saved_note(old: Option<NoteView>, id: Seq<char>, turn: int, draft: DraftView)
    ensures
        is_saved_note(old, id, turn, draft, note_tree(old, id, turn, draft)),
{
    reveal_strlit("id");
    reveal_strlit("turnIndex");
    reveal_strlit("fields");
    reveal_strlit("eventIndices");
    let rows = crate::notes::note_rows(old, draft.event_index).map_values(
        |n: i64| Json::Int(n as int),
    );
    let entries = seq![
        ("id"@, Json::Text(id)),
        ("turnIndex"@, Json::Int(turn)),
        ("fields"@, Json::Object(with_fields(field_members(old), draft.fields))),
        ("eventIndices"@, Json::Array(rows)),
    ];
    assert(note_tree(old, id, turn, draft) == object_of(entries));
    assert("id"@.len() == 2 && "turnIndex"@.len() == 9 && "fields"@.len() == 6
        && "eventIndices"@.len() == 12);
    lemma_member(entries, 0);
    lemma_member(entries, 1);
    lemma_member(entries, 2);
    lemma_member(entries, 3);
    lemma_fields_are_saved(old, draft.fields);
    if old is None {
        if let Some(n) = integer_value(trimmed(draft.event_index)) {
            if i64::MIN <= n <= i64::MAX {
                assert(rows =~= seq![Json::Int(n)]);
            }
        }
    }
}

/// Saving sends the draft, once, to the session that is shown, whichever row is
/// selected, over the note that it is of and with the revision that is known; the form
/// stays as it is until the answer comes. Without a session, without anything typed, or
/// without a turn, nothing is sent, and the status line says why.
pub proof fn law_a_draft_is_saved<D: Domain>(
    d: &D,
    pre: HudView,
    m: Moment,
    post: HudView,
    fx: Seq<EffectView>,
) -> (r: (Seq<char>, Option<int>, Seq<char>, Option<int>))
    requires
        steps(d, pre, m, Message::SaveNote, post, fx),
    ensures
        names_shown(d, pre, r.0),
        names_turn(pre.note_draft.turn_index, r.1),
        pre.overview is None || r.0.len() == 0 ==> fx.len() == 0 && post == (HudView {
            status: "Select a session before saving a note"@,
            ..pre
        }),
        pre.overview is Some && r.0.len() > 0 ==> {
            let o = pre.overview->0;
            let blank = fx.len() == 0 && content_says(d, pre.note_draft, false) && post
                == HudView { status: "Enter a note field before saving"@, ..pre };
            let typed = content_says(d, pre.note_draft, true);
            let no_turn = fx.len() == 0 && typed && r.1 is None && post == HudView {
                status: "Turn must be a non-negative integer"@,
                ..pre
            };
            let sent = {
                &&& typed
                &&& r.1 is Some
                &&& post == HudView { note_saving: true, ..pre }
                &&& fx.len() == 1
                &&& fx[0] is SaveNote
                &&& fx[0]->SaveNote_session == r.0
                &&& fx[0]->SaveNote_revision == o.notes.revision
                &&& trimmed(pre.note_draft.id).len() > 0 ==> r.2 == trimmed(pre.note_draft.id)
                &&& trimmed(pre.note_draft.id).len() == 0 ==> note_id_says(d, r.2)
                &&& first_note(o.notes.notes, r.2, r.3)
                &&& is_saved_note(
                    match r.3 {
                        Some(i) => Some(o.notes.notes[i]),
                        None => None,
                    },
                    r.2,
                    r.1->0,
                    pre.note_draft,
                    fx[0]->note,
                )
            };
            blank || no_turn || sent
        },
{
    let session = choose|session: Seq<char>| #[trigger]
        overview_ref_is(d, pre, session) && note_sent_to(d, pre, session, post, fx);
    law_requests_name_the_shown_session(d, pre, session);
    let turn = crate::notes::turn_number(pre.note_draft.turn_index);
    if pre.overview is Some && fx.len() > 0 {
        let o = pre.overview->0;
        let id = choose|id: Seq<char>| #[trigger]
            saved_id_is(d, pre.note_draft, id) && fx == seq![
                EffectView::SaveNote {
                    session,
                    note: note_tree(note_with(o.notes.notes, id), id, turn->0, pre.note_draft),
                    revision: o.notes.revision,
                },
            ];
        lemma_first_note(o.notes.notes, id, 0);
        lemma_saved_note(note_with(o.notes.notes, id), id, turn->0, pre.note_draft);
        (session, turn, id, note_from(o.notes.notes, id, 0))
    } else {
        (session, turn, seq![], None)
    }
}

// ---------------------------------------------------------------------------
// Answers
// ---------------------------------------------------------------------------

/// The overview of `pre` with the notes of an answer in it, if the domain reads any, and
/// the cards marked by it. Without an overview nothing changes.
pub open spec fn notes_are_taken<D: Domain>(
    d: &D,
    pre: HudView,
    snapshot: Json,
    post: HudView,
) -> bool {
    match pre.overview {
        Some(o) => {
            &&& post == HudView {
                overview: post.overview,
                turn_marks: post.turn_marks,
                event_marks: post.event_marks,
                ..pre
            }
            &&& post.overview is Some
            &&& post.overview->0.meta == o.meta && post.overview->0.turns == o.turns
            &&& {
                ||| snapshot_says(d, snapshot, o.notes, Some(post.overview->0.notes))
                ||| snapshot_says(d, snapshot, o.notes, None) && post.overview->0.notes == o.notes
            }
            &&& marks_say(d, post.overview->0, post.turn_marks, post.event_marks)
        },
        None => post == pre,
    }
}

/// A failed note request is logged: as it is, or with a word that it was a light one.
pub open spec fn failure_is_logged<D: Domain>(
    d: &D,
    word: Seq<char>,
    e: Seq<char>,
    fx: Seq<EffectView>,
) -> bool {
    &&& fx.len() == 1
    &&& {
        ||| soft_says(d, e, true) && fx[0] == EffectView::LogError(word + e)
        ||| soft_says(d, e, false) && fx[0] == EffectView::LogError(e)
    }
}

/// A note that was saved leaves the form, which is empty from then on, and the overview
/// takes the notes of the answer. A note that was not saved stays in the form as it was
/// typed, so that it can be saved again: only the status line says what went wrong, and
/// the log.
pub proof fn law_only_a_saved_note_leaves_the_form<D: Domain>(
    d: &D,
    pre: HudView,
    m: Moment,
    result: Result<Value, String>,
    post: HudView,
    fx: Seq<EffectView>,
) -> (mid: HudView)
    requires
        steps(d, pre, m, Message::NoteSaved(result), post, fx),
    ensures
        match result {
            Ok(snapshot) => {
                &&& notes_are_taken(d, pre, json_of(snapshot), mid)
                &&& is_empty_draft(post.note_draft)
                &&& post == HudView {
                    note_draft: post.note_draft,
                    note_compose_lock: false,
                    typing_notes: false,
                    note_saving: false,
                    status: "Note saved"@,
                    status_err: false,
                    ..mid
                }
                &&& fx.len() == 0
            },
            Err(e) => {
                &&& post.note_draft == pre.note_draft
                &&& post.note_compose_lock == pre.note_compose_lock
                &&& post.typing_notes == pre.typing_notes
                &&& post == HudView {
                    note_saving: false,
                    status: "Note save failed: "@ + e@,
                    status_err: true,
                    ..pre
                }
                &&& failure_is_logged(d, "note save (soft): "@, e@, fx)
            },
        },
{
    match result {
        Ok(snapshot) => {
            let tree = json_of(snapshot);
            choose|mid: HudView| #[trigger]
                snapshot_taken(d, pre, tree, mid) && post == HudView {
                    status: "Note saved"@,
                    status_err: false,
                    ..draft_dropped(mid)
                }
        },
        Err(e) => pre,
    }
}

/// A note that was deleted leaves the overview, which takes the notes of the answer, and
/// the form, if it is the one that is open there; any other draft stays. A note that was
/// not deleted stays in both.
pub proof fn law_a_deleted_note_leaves<D: Domain>(
    d: &D,
    pre: HudView,
    m: Moment,
    id: String,
    result: Result<Value, String>,
    post: HudView,
    fx: Seq<EffectView>,
) -> (mid: HudView)
    requires
        steps(d, pre, m, Message::NoteDeleted { id, result }, post, fx),
    ensures
        match result {
            Ok(snapshot) => {
                &&& notes_are_taken(d, pre, json_of(snapshot), mid)
                &&& fx.len() == 0
                &&& pre.note_draft.id == id@ ==> is_empty_draft(post.note_draft) && post
                    == HudView {
                    note_draft: post.note_draft,
                    note_compose_lock: false,
                    status: "Note deleted"@,
                    status_err: false,
                    ..mid
                }
                &&& pre.note_draft.id != id@ ==> post == HudView {
                    status: "Note deleted"@,
                    status_err: false,
                    ..mid
                }
            },
            Err(e) => {
                &&& post == HudView {
                    status: "Note delete failed: "@ + e@,
                    status_err: true,
                    ..pre
                }
                &&& failure_is_logged(d, "note delete (soft): "@, e@, fx)
            },
        },
{
    match result {
        Ok(snapshot) => {
            let tree = json_of(snapshot);
            choose|mid: HudView| #[trigger]
                snapshot_taken(d, pre, tree, mid) && post == deleted(mid, id@)
        },
        Err(e) => pre,
    }
}

/// A delete takes two requests for one note. The first one arms the note for two and a
/// half seconds, and asks for the second. The second one sends the note to be deleted,
/// once, in the session that is shown, whichever row is selected, with the revision
/// that is known. Nothing else changes, and a request without an id does nothing.
pub proof fn law_a_note_is_deleted_where_it_is_shown<D: Domain>(
    d: &D,
    pre: HudView,
    m: Moment,
    nid: String,
    post: HudView,
    fx: Seq<EffectView>,
)
    requires
        steps(d, pre, m, Message::RequestDelete(nid), post, fx),
        m.now_ms + 2500 <= u64::MAX,
    ensures
        nid@.len() == 0 ==> post == pre && fx.len() == 0,
        nid@.len() > 0 && pre.note_delete_armed != nid@ ==> fx.len() == 0 && post == (HudView {
            note_delete_armed: nid@,
            note_delete_until: Some((m.now_ms + 2500) as u64),
            status: "Press Delete again to confirm"@,
            ..pre
        }),
        nid@.len() > 0 && pre.note_delete_armed == nid@ ==> {
            &&& post == (HudView {
                note_delete_armed: seq![],
                note_delete_until: None,
                ..pre
            })
            &&& pre.overview is None ==> fx.len() == 0
            &&& pre.overview is Some ==> {
                &&& fx.len() == 1
                &&& fx[0] is DeleteNote
                &&& fx[0]->nid == nid@
                &&& fx[0]->DeleteNote_revision == pre.overview->0.notes.revision
                &&& names_shown(d, pre, fx[0]->DeleteNote_session)
            }
        },
{
    if nid@.len() > 0 && pre.note_delete_armed == nid@ && pre.overview is Some {
        let revision = pre.overview->0.notes.revision;
        let session = choose|session: Seq<char>| #[trigger]
            overview_ref_is(d, post, session) && fx == seq![
                EffectView::DeleteNote { session, nid: nid@, revision },
            ];
        law_requests_name_the_shown_session(d, post, session);
        assert(chosen_row(post) == chosen_row(pre));
    }
}

/// The form is the same in both states.
pub open spec fn same_form(pre: HudView, post: HudView) -> bool {
    post.note_draft == pre.note_draft && post.note_compose_lock == pre.note_compose_lock
        && post.typing_notes == pre.typing_notes
}

proof fn lemma_list_keeps_form<D: Domain>(
    d: &D,
    pre: HudView,
    m: Moment,
    message: Message,
    post: HudView,
    fx: Seq<EffectView>,
)
    requires
        steps(d, pre, m, message, post, fx),
        message is SearchChanged || message is ListLoaded,
    ensures
        same_form(pre, post),
{
    match message {
        Message::SearchChanged(q) => law_a_search(d, pre, m, q, post, fx),
        Message::ListLoaded { quiet, result: Ok(data) } => {
            let _ = law_a_list_answer(d, pre, m, quiet, data, post, fx);
        },
        Message::ListLoaded { quiet, result: Err(e) } => law_a_failed_list(
            d,
            pre,
            m,
            quiet,
            e,
            post,
            fx,
        ),
        _ => {},
    }
}

proof fn lemma_refresh_keeps_form<D: Domain>(
    d: &D,
    pre: HudView,
    m: Moment,
    message: Message,
    post: HudView,
    fx: Seq<EffectView>,
)
    requires
        steps(d, pre, m, message, post, fx),
        message is Tick,
    ensures
        same_form(pre, post),
{
    let r = law_a_refresh(d, pre, m, message->Tick_0, post, fx);
    assert(same_form(pre, r.0.1));
    assert(same_form(r.0.1, r.2.0));
    assert(same_form(r.2.0, r.2.2));
}

proof fn lemma_answer_keeps_form<D: Domain>(
    d: &D,
    pre: HudView,
    m: Moment,
    message: Message,
    post: HudView,
    fx: Seq<EffectView>,
)
    requires
        steps(d, pre, m, message, post, fx),
        message is OverviewLoaded || message is TimelineLoaded,
    ensures
        same_form(pre, post),
{
    match message {
        Message::OverviewLoaded { gen, sid, quiet, result: Ok(data) } => {
            if gen == pre.overview_gen {
                let _ = law_an_overview_is_shown(d, pre, m, gen, sid, quiet, data, post, fx);
            }
        },
        Message::TimelineLoaded { gen, sid, offset, append, result: Ok(data) } => {
            if gen == pre.timeline_gen {
                let _ = law_a_page_is_taken(d, pre, m, gen, sid, offset, append, data, post, fx);
            }
        },
        _ => {},
    }
}

proof fn lemma_event_keeps_form<D: Domain>(
    d: &D,
    pre: HudView,
    m: Moment,
    event: HudEvent,
    post: HudView,
    fx: Seq<EffectView>,
)
    requires
        steps(d, pre, m, Message::RawEvent(event), post, fx),
        pre.typing_notes,
    ensures
        same_form(pre, post),
{
}

/// What was typed into the form stays there until it is saved or given up, its note is
/// opened anew or deleted, or another row is chosen.
pub proof fn law_what_changes_the_draft<D: Domain>(
    d: &D,
    pre: HudView,
    m: Moment,
    message: Message,
    post: HudView,
    fx: Seq<EffectView>,
)
    requires
        steps(d, pre, m, message, post, fx),
        post.note_draft != pre.note_draft || pre.note_compose_lock && !post.note_compose_lock
            || pre.typing_notes && !post.typing_notes,
    ensures
        match message {
            Message::StartNote { .. } => true,
            Message::OpenNote(_) => true,
            Message::ResetDraft => true,
            Message::NoteField { .. } => true,
            Message::NoteTurn(_) => true,
            Message::NoteSaved(result) => result is Ok,
            Message::NoteDeleted { id, result } => result is Ok && pre.note_draft.id == id@,
            Message::SelectSession(_) => post.active == message->SelectSession_0,
            Message::RawEvent(_) => !pre.typing_notes,
            _ => false,
        },
{
    match message {
        Message::SearchChanged(_) => lemma_list_keeps_form(d, pre, m, message, post, fx),
        Message::ListLoaded { .. } => lemma_list_keeps_form(d, pre, m, message, post, fx),
        Message::Tick(_) => lemma_refresh_keeps_form(d, pre, m, message, post, fx),
        Message::OverviewLoaded { .. } => lemma_answer_keeps_form(d, pre, m, message, post, fx),
        Message::TimelineLoaded { .. } => lemma_answer_keeps_form(d, pre, m, message, post, fx),
        Message::RawEvent(event) => {
            if pre.typing_notes {
                lemma_event_keeps_form(d, pre, m, event, post, fx);
            }
        },
        _ => {},
    }
}

// ---------------------------------------------------------------------------
// Relations between requests
// ---------------------------------------------------------------------------

/// Each note request, to save or to delete, names the session in the overview while that
/// has a name, whichever row is selected; and it carries the revision of its notes.
pub proof fn law_note_requests_go_to_the_overview<D: Domain>(
    d: &D,
    pre: HudView,
    m: Moment,
    message: Message,
    post: HudView,
    fx: Seq<EffectView>,
    i: int,
)
    requires
        steps(d, pre, m, message, post, fx),
        m.now_ms + 2500 <= u64::MAX,
        0 <= i < fx.len(),
        fx[i] is SaveNote || fx[i] is DeleteNote,
    ensures
        pre.overview is Some,
        ({
            let o = pre.overview->0;
            let session = match fx[i] {
                EffectView::SaveNote { session, .. } => session,
                EffectView::DeleteNote { session, .. } => session,
                _ => seq![],
            };
            let revision = match fx[i] {
                EffectView::SaveNote { revision, .. } => revision,
                EffectView::DeleteNote { revision, .. } => revision,
                _ => seq![],
            };
            &&& revision == o.notes.revision
            &&& !ref_says(d, o.meta.path, pre.overview_sid, seq![]) ==> session.len() > 0
                && ref_says(d, o.meta.path, pre.overview_sid, session)
        }),
{
    if fx[i] is DeleteNote {
        law_a_delete_takes_two_requests(d, pre, m, message, post, fx, i);
        law_a_note_is_deleted_where_it_is_shown(
            d,
            pre,
            m,
            message->RequestDelete_0,
            post,
            fx,
        );
    } else {
        law_only_a_save_saves(d, pre, m, message, post, fx, i);
        let _ = law_a_draft_is_saved(d, pre, m, post, fx);
    }
}

/// Moving the selection does not redirect a delete: with the same overview and another
/// row selected, the same session is asked, when the domain has one name for it.
pub proof fn law_the_selection_does_not_redirect_a_delete<D: Domain>(
    d: &D,
    a: HudView,
    active: int,
    m: Moment,
    nid: String,
    b: HudView,
    c: HudView,
    fx: Seq<EffectView>,
    gx: Seq<EffectView>,
)
    requires
        m.now_ms + 2500 <= u64::MAX,
        a.overview is Some,
        !ref_says(d, a.overview->0.meta.path, a.overview_sid, seq![]),
        forall|x: Seq<char>, y: Seq<char>| #[trigger]
            ref_says(d, a.overview->0.meta.path, a.overview_sid, x) && #[trigger] ref_says(
                d,
                a.overview->0.meta.path,
                a.overview_sid,
                y,
            ) ==> x == y,
        steps(d, a, m, Message::RequestDelete(nid), b, fx),
        steps(d, HudView { active, ..a }, m, Message::RequestDelete(nid), c, gx),
    ensures
        fx == gx,
        c == (HudView { active, ..b }),
{
    law_a_note_is_deleted_where_it_is_shown(d, a, m, nid, b, fx);
    law_a_note_is_deleted_where_it_is_shown(d, HudView { active, ..a }, m, nid, c, gx);
    assert(fx =~= gx);
}

/// A note that was not saved can be saved again: after the failure the form, the overview
/// and the notes are those that were sent from, so what is typed is not lost.
pub proof fn law_a_failed_save_can_be_repeated<D: Domain>(
    d: &D,
    a: HudView,
    b: HudView,
    c: HudView,
    m: Moment,
    n: Moment,
    e: String,
    fx: Seq<EffectView>,
    gx: Seq<EffectView>,
)
    requires
        steps(d, a, m, Message::SaveNote, b, fx),
        steps(d, b, n, Message::NoteSaved(Err(e)), c, gx),
    ensures
        c.note_draft == a.note_draft,
        c.note_compose_lock == a.note_compose_lock,
        c.typing_notes == a.typing_notes,
        c.overview == a.overview,
        c.overview_sid == a.overview_sid,
        !c.note_saving,
        c.status == "Note save failed: "@ + e@,
{
    let _ = law_a_draft_is_saved(d, a, m, b, fx);
    let _ = law_only_a_saved_note_leaves_the_form(d, b, n, Err(e), c, gx);
}

/// A note that is opened and saved unedited is saved under its own id, with the turn, the
/// rows and the texts that it had.
pub proof fn law_an_opened_note_is_saved_as_itself<D: Domain>(
    d: &D,
    a: HudView,
    b: HudView,
    c: HudView,
    m: Moment,
    n: Moment,
    nid: String,
    at: int,
    fx: Seq<EffectView>,
    gx: Seq<EffectView>,
)
    requires
        steps(d, a, m, Message::OpenNote(nid), b, fx),
        steps(d, b, n, Message::SaveNote, c, gx),
        a.overview is Some,
        first_note(a.overview->0.notes.notes, nid@, Some(at)),
        trimmed(nid@) == nid@,
        nid@.len() > 0,
        gx.len() > 0,
    ensures
        gx[0] is SaveNote,
        member(gx[0]->note, "id"@) == Some(Json::Text(nid@)),
        gx[0]->SaveNote_revision == a.overview->0.notes.revision,
        ({
            let old = a.overview->0.notes.notes[at];
            let rows = member(gx[0]->note, "eventIndices"@)->0->Array_0;
            &&& old.turn_index is Some ==> member(gx[0]->note, "turnIndex"@) == Some(
                Json::Int(old.turn_index->0 as int),
            )
            &&& rows.len() == old.event_indices.len()
            &&& forall|i: int|
                0 <= i < rows.len() ==> (#[trigger] rows[i]) == Json::Int(
                    old.event_indices[i] as int,
                )
            &&& forall|key: Seq<char>|
                (#[trigger] member(old.fields, key)) is Some && member(old.fields, key)->0 is Text
                    ==> member(member(gx[0]->note, "fields"@)->0, key) == member(old.fields, key)
        }),
{
    let opened = law_a_note_is_opened(d, a, m, nid, b, fx);
    let sent = law_a_draft_is_saved(d, b, n, c, gx);
    let old = a.overview->0.notes.notes[at];
    assert(opened == Some(at));
    assert(sent.3 == Some(at));
    if let Some(t) = old.turn_index {
        law_numbers_read_back(t as int);
    }
    let form = b.note_draft.fields;
    let fields = member(gx[0]->note, "fields"@)->0;
    assert forall|key: Seq<char>|
        (#[trigger] member(old.fields, key)) is Some && member(
            old.fields,
            key,
        )->0 is Text implies member(fields, key) == member(old.fields, key) by {
        let i = choose|i: int| 0 <= i < form.len() && (#[trigger] form[i]).0 == key;
        assert forall|j: int| i < j < form.len() implies (#[trigger] form[j]).0 != form[i].0 by {
            assert(crate::text::text_before(form[i].0, form[j].0));
            crate::text::lemma_text_before_irreflexive(form[i].0);
        }
        assert(member(fields, form[i].0) == Some(Json::Text(form[i].1)));
    }
}

} // verus!
