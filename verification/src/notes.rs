//! Notes on a session: opening, saving and deleting them.

use vstd::prelude::*;
use vstd::string::*;
use serde_json::Value;

use crate::domain::{
    ask_content, ask_marks, ask_note_id, ask_snapshot, content_says, marks_say, note_id_says,
    snapshot_says, Domain,
};
use crate::event::{effects_of, nothing, only, Effect, EffectView};
use crate::hud::{overview_ref_is, Hud, HudView};
use crate::json;
use crate::json::{
    entry_trees, json_of, lists_members, object_of, shown_json, text_in, Json,
};
use crate::model::{
    pairs_of, CardMark, CardMarks, DraftView, Note, NoteDraft, NoteView, NotesBlock, OverviewView,
    Tab,
};
use crate::text;
use crate::text::{integer_value, signed_decimal, text_before, trimmed};

verus! {

/// How long a delete request waits for its confirmation.
pub const DELETE_WAIT_MS: u64 = 2500;

// ---------------------------------------------------------------------------
// Finding and opening
// ---------------------------------------------------------------------------

/// The place, from `from` on, of the first note with this id.
pub open spec fn note_from(notes: Seq<NoteView>, id: Seq<char>, from: int) -> Option<int>
    decreases notes.len() - from,
{
    if from < 0 || from >= notes.len() {
        None
    } else if notes[from].id == id {
        Some(from)
    } else {
        note_from(notes, id, from + 1)
    }
}

/// The first note with this id.
pub open spec fn note_with(notes: Seq<NoteView>, id: Seq<char>) -> Option<NoteView> {
    match note_from(notes, id, 0) {
        Some(i) => Some(notes[i]),
        None => None,
    }
}

/// An optional note over mathematical values.
pub open spec fn note_of(n: Option<&Note>) -> Option<NoteView> {
    match n {
        Some(x) => Some(x@),
        None => None,
    }
}

/// The first note with this id.
pub fn find_note<'a>(block: &'a NotesBlock, id: &str) -> (r: Option<&'a Note>)
    ensures
        note_of(r) == note_with(block@.notes, id@),
{
    let ghost all = block@.notes;
    let n: usize = block.notes.len();
    let mut i: usize = 0;
    while i < n
        invariant
            n == block.notes@.len(),
            i <= n,
            all == block@.notes,
            note_from(all, id@, 0) == note_from(all, id@, i as int),
        decreases n - i,
    {
        assert(all[i as int] == block.notes@[i as int]@);
        if text::same(block.notes[i].id.as_str(), id) {
            return Some(&block.notes[i]);
        }
        i = i + 1;
    }
    None
}

/// What the form shows for a value: a text as it is, anything else as JSON.
pub open spec fn field_text(j: Json) -> Seq<char> {
    match text_in(j) {
        Some(s) => s,
        None => shown_json(j),
    }
}

/// `fields` are the fields of the form for a note's fields: one for each member,
/// in the order of their names; none when there are no members.
pub open spec fn form_fields_are(j: Json, fields: Seq<(Seq<char>, Seq<char>)>) -> bool {
    match j {
        Json::Object(m) => exists|entries: Seq<(Seq<char>, Json)>| #[trigger]
            lists_members(entries, m) && fields == entries.map_values(
                |e: (Seq<char>, Json)| (e.0, field_text(e.1)),
            ),
        _ => fields == Seq::<(Seq<char>, Seq<char>)>::empty(),
    }
}

/// Note `nid` is opened in the form, if there is such a note.
pub open spec fn note_opened(pre: HudView, nid: Seq<char>, post: HudView) -> bool {
    let found = match pre.overview {
        Some(o) => note_with(o.notes.notes, nid),
        None => None,
    };
    match found {
        Some(n) => {
            &&& post == HudView {
                note_draft: DraftView {
                    id: nid,
                    turn_index: match n.turn_index {
                        Some(i) => signed_decimal(i as int),
                        None => seq![],
                    },
                    event_index: if n.event_indices.len() > 0 {
                        signed_decimal(n.event_indices[0] as int)
                    } else {
                        seq![]
                    },
                    fields: post.note_draft.fields,
                },
                note_compose_lock: true,
                tab: Tab::Notes,
                ..pre
            }
            &&& form_fields_are(n.fields, post.note_draft.fields)
        },
        None => post == HudView { tab: Tab::Notes, ..pre },
    }
}

/// The fields of the form for a note's fields.
pub fn form_fields(fields: &Value) -> (r: Vec<(String, String)>)
    ensures
        form_fields_are(json_of(*fields), pairs_of(r@)),
{
    let mut out: Vec<(String, String)> = Vec::new();
    match json::entries(fields) {
        Some(entries) => {
            let ghost trees = entry_trees(entries@);
            let n: usize = entries.len();
            let mut i: usize = 0;
            while i < n
                invariant
                    n == entries@.len(),
                    i <= n,
                    trees == entry_trees(entries@),
                    out@.len() == i,
                    forall|k: int|
                        0 <= k < i ==> (#[trigger] out@[k]).0@ == trees[k].0 && out@[k].1@
                            == field_text(trees[k].1),
                decreases n - i,
            {
                let value: &Value = &entries[i].1;
                let shown: String = match json::as_text(value) {
                    Some(s) => s.to_string(),
                    None => json::show(value),
                };
                out.push((entries[i].0.clone(), shown));
                i = i + 1;
            }
            assert(pairs_of(out@) =~= trees.map_values(
                |e: (Seq<char>, Json)| (e.0, field_text(e.1)),
            ));
        },
        None => {
            assert(pairs_of(out@) =~= Seq::<(Seq<char>, Seq<char>)>::empty());
        },
    }
    out
}

impl Hud {
    /// Opens a note in the form.
    pub fn open_note(&mut self, nid: &String)
        ensures
            note_opened(old(self)@, nid@, final(self)@),
            final(self).has_room() == old(self).has_room(),
    {
        let draft: Option<NoteDraft> = match &self.overview {
            Some(o) => match find_note(&o.notes, nid.as_str()) {
                Some(n) => {
                    let turn_index: String = match n.turn_index {
                        Some(i) => text::write_signed(i),
                        None => {
                            let blank: String = String::new();
                            assert(blank@ =~= seq![]);
                            blank
                        },
                    };
                    let event_index: String = if n.event_indices.len() > 0 {
                        text::write_signed(n.event_indices[0])
                    } else {
                        let blank: String = String::new();
                        assert(blank@ =~= seq![]);
                        blank
                    };
                    Some(
                        NoteDraft {
                            id: nid.clone(),
                            turn_index,
                            event_index,
                            fields: form_fields(&n.fields),
                        },
                    )
                },
                None => None,
            },
            None => None,
        };
        if let Some(draft) = draft {
            self.note_draft = draft;
            self.note_compose_lock = true;
        }
        self.tab = Tab::Notes;
    }
}

// ---------------------------------------------------------------------------
// Saving
// ---------------------------------------------------------------------------

/// The turn that a draft names: turn 0 when it names none, nothing when what it
/// names is no turn.
pub open spec fn turn_number(raw: Seq<char>) -> Option<int> {
    if trimmed(raw).len() == 0 {
        Some(0)
    } else {
        match integer_value(trimmed(raw)) {
            Some(n) if 0 <= n <= i64::MAX => Some(n),
            _ => None,
        }
    }
}

/// The turn that a draft names.
pub fn read_turn(raw: &str) -> (r: Option<i64>)
    ensures
        match r {
            Some(n) => turn_number(raw@) == Some(n as int),
            None => turn_number(raw@) is None,
        },
{
    let t: &str = text::trim(raw);
    if t.is_empty() {
        return Some(0);
    }
    match text::read_i64(t) {
        Some(n) if n >= 0 => Some(n),
        _ => None,
    }
}

/// The members `base` with the fields of a draft put over them.
pub open spec fn with_fields(
    base: Map<Seq<char>, Json>,
    fields: Seq<(Seq<char>, Seq<char>)>,
) -> Map<Seq<char>, Json>
    decreases fields.len(),
{
    if fields.len() == 0 {
        base
    } else {
        with_fields(base, fields.drop_last()).insert(fields.last().0, Json::Text(fields.last().1))
    }
}

/// A saved note has the draft's fields, and keeps every other field that it had.
pub proof fn law_saving_keeps_other_fields(
    base: Map<Seq<char>, Json>,
    fields: Seq<(Seq<char>, Seq<char>)>,
    key: Seq<char>,
)
    ensures
        (forall|i: int| 0 <= i < fields.len() ==> (#[trigger] fields[i]).0 != key) ==> {
            &&& with_fields(base, fields).dom().contains(key) == base.dom().contains(key)
            &&& with_fields(base, fields)[key] == base[key]
        },
        (exists|i: int| 0 <= i < fields.len() && (#[trigger] fields[i]).0 == key)
            ==> with_fields(base, fields).dom().contains(key),
    decreases fields.len(),
{
    if fields.len() > 0 {
        let rest = fields.drop_last();
        law_saving_keeps_other_fields(base, rest, key);
        if fields.last().0 != key {
            assert forall|i: int| 0 <= i < rest.len() implies (#[trigger] rest[i]) == fields[i] by {
            }
            if exists|i: int| 0 <= i < fields.len() && (#[trigger] fields[i]).0 == key {
                let i = choose|i: int| 0 <= i < fields.len() && (#[trigger] fields[i]).0 == key;
                assert(rest[i].0 == key);
            }
            if forall|i: int| 0 <= i < fields.len() ==> (#[trigger] fields[i]).0 != key {
                assert forall|i: int| 0 <= i < rest.len() implies (#[trigger] rest[i]).0 != key by {
                    assert(fields[i].0 != key);
                }
            }
        }
    }
}

/// The fields with different names that a draft puts over a note are found in it.
proof fn lemma_field_found(
    base: Map<Seq<char>, Json>,
    fields: Seq<(Seq<char>, Seq<char>)>,
    i: int,
)
    requires
        0 <= i < fields.len(),
        forall|a: int, b: int|
            0 <= a < b < fields.len() ==> (#[trigger] fields[a]).0 != (#[trigger] fields[b]).0,
    ensures
        with_fields(base, fields)[fields[i].0] == Json::Text(fields[i].1),
    decreases fields.len(),
{
    if i < fields.len() - 1 {
        let rest = fields.drop_last();
        assert forall|a: int, b: int| 0 <= a < b < rest.len() implies (#[trigger] rest[a]).0 != (
        #[trigger] rest[b]).0 by {
            assert(fields[a].0 != fields[b].0);
        }
        lemma_field_found(base, rest, i);
        assert(rest[i] == fields[i]);
        assert(fields[i].0 != fields.last().0);
    }
}

/// A note that is opened and saved unedited has the fields that it had; those that
/// are texts are the same.
pub proof fn law_an_unedited_note_keeps_its_texts(
    members: Map<Seq<char>, Json>,
    fields: Seq<(Seq<char>, Seq<char>)>,
    key: Seq<char>,
)
    requires
        form_fields_are(Json::Object(members), fields),
        members.dom().contains(key),
    ensures
        with_fields(members, fields).dom().contains(key),
        with_fields(members, fields)[key] == Json::Text(field_text(members[key])),
        members[key] is Text ==> with_fields(members, fields)[key] == members[key],
{
    let entries = choose|entries: Seq<(Seq<char>, Json)>| #[trigger]
        lists_members(entries, members) && fields == entries.map_values(
            |e: (Seq<char>, Json)| (e.0, field_text(e.1)),
        );
    let i = choose|i: int| 0 <= i < entries.len() && (#[trigger] entries[i]).0 == key;
    assert(fields[i] == (entries[i].0, field_text(entries[i].1)));
    assert forall|a: int, b: int| 0 <= a < b < fields.len() implies (#[trigger] fields[a]).0 != (
    #[trigger] fields[b]).0 by {
        assert(text_before(entries[a].0, entries[b].0));
        text::lemma_text_before_irreflexive(entries[a].0);
    }
    lemma_field_found(members, fields, i);
    law_saving_keeps_other_fields(members, fields, key);
}

/// The turn of an opened note is read back when the note is saved.
pub proof fn law_an_opened_turn_is_read_back(turn: i64)
    requires
        turn >= 0,
    ensures
        turn_number(signed_decimal(turn as int)) == Some(turn as int),
{
    text::law_numbers_read_back(turn as int);
    assert(signed_decimal(turn as int).len() > 0) by {
        if signed_decimal(turn as int).len() == 0 {
            assert(integer_value(signed_decimal(turn as int)) is None);
        }
    }
}

/// The members of a note's fields; none when they are no object.
pub open spec fn field_members(prev: Option<NoteView>) -> Map<Seq<char>, Json> {
    match prev {
        Some(n) => match n.fields {
            Json::Object(m) => m,
            _ => Map::empty(),
        },
        None => Map::empty(),
    }
}

/// The timeline rows of a saved note: those that it had, or, of a new note, the
/// one that the draft names.
pub open spec fn note_rows(prev: Option<NoteView>, raw: Seq<char>) -> Seq<i64> {
    match prev {
        Some(n) => n.event_indices,
        None => match integer_value(trimmed(raw)) {
            Some(n) if i64::MIN <= n <= i64::MAX => seq![n as i64],
            _ => Seq::empty(),
        },
    }
}

/// The note that is sent to be saved.
pub open spec fn note_tree(
    prev: Option<NoteView>,
    id: Seq<char>,
    turn: int,
    draft: DraftView,
) -> Json {
    object_of(
        seq![
            ("id"@, Json::Text(id)),
            ("turnIndex"@, Json::Int(turn)),
            ("fields"@, Json::Object(with_fields(field_members(prev), draft.fields))),
            (
                "eventIndices"@,
                Json::Array(
                    note_rows(prev, draft.event_index).map_values(|n: i64| Json::Int(n as int)),
                ),
            ),
        ],
    )
}

/// The fields of a note with those of a draft put over them.
fn merged_fields(prev: Option<&Note>, draft: &NoteDraft) -> (r: Value)
    ensures
        json_of(r) == Json::Object(with_fields(field_members(note_of(prev)), draft@.fields)),
{
    let ghost fields = draft@.fields;
    let ghost base = field_members(note_of(prev));
    let mut v: Value = match prev {
        Some(p) => match json::entries(&p.fields) {
            Some(_) => json::copy(&p.fields),
            None => json::empty_object(),
        },
        None => json::empty_object(),
    };
    let n: usize = draft.fields.len();
    let mut i: usize = 0;
    assert(fields.take(0) =~= seq![]);
    assert(json_of(v) == Json::Object(with_fields(base, fields.take(0))));
    while i < n
        invariant
            n == draft.fields@.len(),
            i <= n,
            fields == draft@.fields,
            json_of(v) == Json::Object(with_fields(base, fields.take(i as int))),
        decreases n - i,
    {
        let key: String = draft.fields[i].0.clone();
        let value: Value = json::text(draft.fields[i].1.clone());
        assert(fields[i as int] == (draft.fields@[i as int].0@, draft.fields@[i as int].1@));
        assert(fields.take(i + 1).drop_last() =~= fields.take(i as int));
        json::insert(&mut v, key, value);
        i = i + 1;
    }
    assert(fields.take(n as int) =~= fields);
    v
}

/// The timeline rows of a saved note.
fn saved_rows(prev: Option<&Note>, draft: &NoteDraft) -> (r: Value)
    ensures
        json_of(r) == Json::Array(
            note_rows(note_of(prev), draft@.event_index).map_values(|n: i64| Json::Int(n as int)),
        ),
{
    match prev {
        Some(p) => json::integers(&p.event_indices),
        None => {
            let mut rows: Vec<i64> = Vec::new();
            if let Some(n) = text::read_i64(text::trim(draft.event_index.as_str())) {
                rows.push(n);
                assert(rows@ =~= seq![n]);
            } else {
                assert(rows@ =~= seq![]);
            }
            json::integers(&rows)
        },
    }
}

/// The note that is sent to be saved: note `prev` with the draft put over it, or
/// a new one.
pub fn note_json(prev: Option<&Note>, id: String, turn: i64, draft: &NoteDraft) -> (r: Value)
    ensures
        json_of(r) == note_tree(note_of(prev), id@, turn as int, draft@),
{
    let mut members: Vec<(String, Value)> = Vec::new();
    members.push(("id".to_string(), json::text(id)));
    members.push(("turnIndex".to_string(), json::integer(turn)));
    members.push(("fields".to_string(), merged_fields(prev, draft)));
    members.push(("eventIndices".to_string(), saved_rows(prev, draft)));
    proof {
        let rows = Json::Array(
            note_rows(note_of(prev), draft@.event_index).map_values(|n: i64| Json::Int(n as int)),
        );
        assert(entry_trees(members@) =~= seq![
            ("id"@, Json::Text(id@)),
            ("turnIndex"@, Json::Int(turn as int)),
            (
                "fields"@,
                Json::Object(with_fields(field_members(note_of(prev)), draft@.fields)),
            ),
            ("eventIndices"@, rows),
        ]);
    }
    json::object(members)
}

/// `id` is the id that the draft is saved under: its own, else a new one.
pub open spec fn saved_id_is<D: Domain>(d: &D, draft: DraftView, id: Seq<char>) -> bool {
    if trimmed(draft.id).len() > 0 {
        id == trimmed(draft.id)
    } else {
        note_id_says(d, id)
    }
}

/// The draft is sent to be saved, or the status line says why not.
pub open spec fn note_sent<D: Domain>(
    d: &D,
    pre: HudView,
    post: HudView,
    fx: Seq<EffectView>,
) -> bool {
    exists|session: Seq<char>| #[trigger]
        overview_ref_is(d, pre, session) && note_sent_to(d, pre, session, post, fx)
}

/// The draft is sent to be saved in `session`, or the status line says why not.
pub open spec fn note_sent_to<D: Domain>(
    d: &D,
    pre: HudView,
    session: Seq<char>,
    post: HudView,
    fx: Seq<EffectView>,
) -> bool {
    let refused = Seq::<EffectView>::empty();
    match pre.overview {
        Some(o) if session.len() > 0 => {
            ||| {
                &&& content_says(d, pre.note_draft, false)
                &&& post == HudView { status: "Enter a note field before saving"@, ..pre }
                &&& fx == refused
            }
            ||| {
                &&& content_says(d, pre.note_draft, true)
                &&& match turn_number(pre.note_draft.turn_index) {
                    Some(turn) => {
                        &&& post == HudView { note_saving: true, ..pre }
                        &&& exists|id: Seq<char>| #[trigger]
                            saved_id_is(d, pre.note_draft, id) && fx == seq![
                                EffectView::SaveNote {
                                    session,
                                    note: note_tree(
                                        note_with(o.notes.notes, id),
                                        id,
                                        turn,
                                        pre.note_draft,
                                    ),
                                    revision: o.notes.revision,
                                },
                            ]
                    },
                    None => {
                        &&& post == HudView {
                            status: "Turn must be a non-negative integer"@,
                            ..pre
                        }
                        &&& fx == refused
                    },
                }
            }
        },
        _ => {
            &&& post == HudView { status: "Select a session before saving a note"@, ..pre }
            &&& fx == refused
        },
    }
}

impl Hud {
    /// Sends the draft to be saved.
    pub fn save_note<D: Domain>(&mut self, d: &D) -> (fx: Vec<Effect>)
        ensures
            note_sent(d, old(self)@, final(self)@, effects_of(fx@)),
            final(self).has_room() == old(self).has_room(),
    {
        let session: String = self.overview_rpc_ref(d);
        assert(overview_ref_is(d, self@, session@));
        self.send_note(d, session)
    }

    /// Sends the draft to be saved in `session`.
    fn send_note<D: Domain>(&mut self, d: &D, session: String) -> (fx: Vec<Effect>)
        ensures
            note_sent_to(d, old(self)@, session@, final(self)@, effects_of(fx@)),
            final(self).has_room() == old(self).has_room(),
    {
        if self.overview.is_none() || session.as_str().is_empty() {
            self.status = "Select a session before saving a note".to_string();
            return nothing();
        }
        if !ask_content(d, &self.note_draft) {
            self.status = "Enter a note field before saving".to_string();
            return nothing();
        }
        let turn: i64 = match read_turn(self.note_draft.turn_index.as_str()) {
            Some(n) => n,
            None => {
                self.status = "Turn must be a non-negative integer".to_string();
                return nothing();
            },
        };
        let own: String = text::trim_owned(self.note_draft.id.as_str());
        let id: String = if own.as_str().is_empty() {
            ask_note_id(d)
        } else {
            own
        };
        assert(saved_id_is(d, self@.note_draft, id@));
        let fx: Vec<Effect> = match &self.overview {
            Some(o) => {
                let prev: Option<&Note> = find_note(&o.notes, id.as_str());
                let note: Value = note_json(prev, id, turn, &self.note_draft);
                only(
                    Effect::SaveNote { session, note, revision: o.notes.revision.clone() },
                )
            },
            None => nothing(),
        };
        self.note_saving = true;
        fx
    }
}

// ---------------------------------------------------------------------------
// Deleting
// ---------------------------------------------------------------------------

/// Note `nid` is sent to be deleted.
pub open spec fn note_dropped<D: Domain>(
    d: &D,
    v: HudView,
    nid: Seq<char>,
    fx: Seq<EffectView>,
) -> bool {
    match v.overview {
        Some(o) => exists|session: Seq<char>| #[trigger]
            overview_ref_is(d, v, session) && fx == seq![
                EffectView::DeleteNote { session, nid, revision: o.notes.revision },
            ],
        None => fx == Seq::<EffectView>::empty(),
    }
}

/// A request to delete note `nid`: the first one only arms it, a second one for
/// the same note carries it out.
pub open spec fn delete_asked<D: Domain>(
    d: &D,
    pre: HudView,
    nid: Seq<char>,
    now_ms: u64,
    post: HudView,
    fx: Seq<EffectView>,
) -> bool {
    if nid.len() == 0 {
        post == pre && fx == Seq::<EffectView>::empty()
    } else if pre.note_delete_armed == nid {
        &&& post == HudView { note_delete_armed: seq![], note_delete_until: None, ..pre }
        &&& note_dropped(d, post, nid, fx)
    } else {
        &&& post == HudView {
            note_delete_armed: nid,
            note_delete_until: Some((now_ms + DELETE_WAIT_MS) as u64),
            status: "Press Delete again to confirm"@,
            ..pre
        }
        &&& fx == Seq::<EffectView>::empty()
    }
}

/// The palette at the time `now_ms`: a delete request that was not confirmed in
/// time is forgotten.
pub open spec fn delete_expired(v: HudView, now_ms: u64) -> HudView {
    match v.note_delete_until {
        Some(until) if now_ms >= until => HudView {
            note_delete_armed: seq![],
            note_delete_until: None,
            status: "Delete cancelled"@,
            ..v
        },
        _ => v,
    }
}

impl Hud {
    /// Answers a request to delete a note.
    pub fn request_delete<D: Domain>(&mut self, d: &D, nid: String, now_ms: u64) -> (fx: Vec<
        Effect,
    >)
        requires
            now_ms + DELETE_WAIT_MS <= u64::MAX,
        ensures
            delete_asked(d, old(self)@, nid@, now_ms, final(self)@, effects_of(fx@)),
            final(self).has_room() == old(self).has_room(),
    {
        if nid.as_str().is_empty() {
            return nothing();
        }
        if text::same(self.note_delete_armed.as_str(), nid.as_str()) {
            self.note_delete_armed = String::new();
            self.note_delete_until = None;
            assert(self.note_delete_armed@ =~= seq![]);
            return self.delete_note(d, nid);
        }
        self.note_delete_armed = nid;
        self.note_delete_until = Some(now_ms + DELETE_WAIT_MS);
        self.status = "Press Delete again to confirm".to_string();
        nothing()
    }

    /// Sends a note to be deleted.
    pub fn delete_note<D: Domain>(&self, d: &D, nid: String) -> (fx: Vec<Effect>)
        ensures
            note_dropped(d, self@, nid@, effects_of(fx@)),
    {
        let session: String = self.overview_rpc_ref(d);
        assert(overview_ref_is(d, self@, session@));
        match &self.overview {
            Some(o) => only(
                Effect::DeleteNote { session, nid, revision: o.notes.revision.clone() },
            ),
            None => nothing(),
        }
    }

    /// Forgets a delete request that was not confirmed in time.
    pub fn expire_delete(&mut self, now_ms: u64)
        ensures
            final(self)@ == delete_expired(old(self)@, now_ms),
    {
        if let Some(until) = self.note_delete_until {
            if now_ms >= until {
                self.note_delete_armed = String::new();
                assert(self.note_delete_armed@ =~= seq![]);
                self.note_delete_until = None;
                self.status = "Delete cancelled".to_string();
            }
        }
    }
}

// ---------------------------------------------------------------------------
// Answers
// ---------------------------------------------------------------------------

/// The overview with the notes of an answer in it.
pub open spec fn notes_replaced<D: Domain>(
    d: &D,
    o: OverviewView,
    snapshot: Json,
    out: OverviewView,
) -> bool {
    ||| snapshot_says(d, snapshot, o.notes, Some(out.notes)) && out == OverviewView {
        notes: out.notes,
        ..o
    }
    ||| snapshot_says(d, snapshot, o.notes, None) && out == o
}

/// The answer to a note request came: the overview takes its notes, and the cards
/// are marked anew.
pub open spec fn snapshot_taken<D: Domain>(
    d: &D,
    pre: HudView,
    snapshot: Json,
    post: HudView,
) -> bool {
    match pre.overview {
        Some(o) => {
            &&& post.overview is Some
            &&& notes_replaced(d, o, snapshot, post.overview->0)
            &&& marks_say(d, post.overview->0, post.turn_marks, post.event_marks)
            &&& post == HudView {
                overview: post.overview,
                turn_marks: post.turn_marks,
                event_marks: post.event_marks,
                ..pre
            }
        },
        None => post == pre,
    }
}

/// The cards are marked by the overview; without one they have no marks.
pub open spec fn remarked<D: Domain>(d: &D, pre: HudView, post: HudView) -> bool {
    &&& post == HudView { turn_marks: post.turn_marks, event_marks: post.event_marks, ..pre }
    &&& match pre.overview {
        Some(o) => marks_say(d, o, post.turn_marks, post.event_marks),
        None => post.turn_marks == Map::<i64, CardMark>::empty() && post.event_marks == Map::<
            i64,
            CardMark,
        >::empty(),
    }
}

impl Hud {
    /// Marks the cards anew.
    pub fn rebuild_marks<D: Domain>(&mut self, d: &D)
        ensures
            remarked(d, old(self)@, final(self)@),
            final(self).has_room() == old(self).has_room(),
    {
        match &self.overview {
            Some(o) => {
                let marks: CardMarks = ask_marks(d, o);
                self.turn_marks = marks.turns;
                self.event_marks = marks.events;
            },
            None => {
                self.turn_marks.clear();
                self.event_marks.clear();
            },
        }
    }

    /// Takes the notes in the answer to a note request.
    pub fn apply_notes_snapshot<D: Domain>(&mut self, d: &D, snapshot: &Value)
        ensures
            snapshot_taken(d, old(self)@, json_of(*snapshot), final(self)@),
            final(self).has_room() == old(self).has_room(),
    {
        let block: Option<NotesBlock> = match &self.overview {
            Some(o) => ask_snapshot(d, snapshot, &o.notes),
            None => {
                return ;
            },
        };
        match (self.overview.take(), block) {
            (Some(mut o), Some(b)) => {
                o.notes = b;
                self.overview = Some(o);
            },
            (o, _) => {
                self.overview = o;
            },
        }
        self.rebuild_marks(d);
    }
}

} // verus!
