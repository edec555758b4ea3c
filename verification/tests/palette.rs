use std::collections::HashMap;

use groket_hud::catalog::sort_rows;
use groket_hud::domain::Domain;
use groket_hud::event::{
    interesting_hud_event, list_query, Effect, HudEvent, HudKey, Input, KeyMods, ListQuery,
    Message, Moment, PageSize, WindowKind,
};
use groket_hud::hud::{overlay_already_mapped, Hud};
use groket_hud::model::{
    CardMark, CardMarks, KindFilter, MergedTimeline, Note, NoteDraft, NotesBlock, Overview,
    SchemaField, SessionListPage, SessionMeta, SessionRow, Tab, TickInput, TickPlan, TimelineEvent,
    TimelinePage,
};
use groket_hud::refresh::{NotifyQueue, PollRate, NOTIFY_LIMIT};
use groket_hud::tray::TrayAction;
use groket_hud::window::{
    app_window_settings, palette_window_settings, window_look, Extent, WindowLevel, WindowPlace,
    HUD_H, HUD_W,
};
use serde_json::Value;

/// Simple rules to run the palette with.
struct Rules {
    plan: TickPlan,
}

fn rules() -> Rules {
    Rules {
        plan: TickPlan {
            fetch_list: false,
            load_overview: false,
            refresh_timeline: false,
        },
    }
}

fn text_of(v: &Value, key: &str) -> String {
    v.get(key).and_then(Value::as_str).unwrap_or("").to_string()
}

fn row_of(v: &Value) -> SessionRow {
    SessionRow {
        session_id: text_of(v, "id"),
        title: text_of(v, "title"),
        status: text_of(v, "status"),
        path: text_of(v, "path"),
        sort_epoch: v.get("epoch").and_then(Value::as_i64).unwrap_or(0),
    }
}

fn rows_in(v: &Value) -> Vec<SessionRow> {
    v.as_array().map(|a| a.iter().map(row_of).collect()).unwrap_or_default()
}

fn flag(v: &Value, key: &str) -> bool {
    v.get(key).and_then(Value::as_bool).unwrap_or(false)
}

impl Domain for Rules {
    fn control_down_message(&self, err: &String) -> String {
        format!("control down: {err}")
    }

    fn fuzzy_filter_indices(&self, query: &String, rows: &Vec<SessionRow>) -> Vec<usize> {
        let q = query.to_lowercase();
        let mut out: Vec<usize> = (0..rows.len())
            .rev()
            .filter(|&i| rows[i].title.to_lowercase().contains(&q))
            .collect();
        out.push(rows.len() + 7);
        out
    }

    fn filter_timeline_indices(
        &self,
        timeline: &Vec<TimelineEvent>,
        kind: KindFilter,
        query: &String,
    ) -> Vec<usize> {
        (0..timeline.len())
            .filter(|&i| kind != KindFilter::Tools || timeline[i].kind == "tool")
            .filter(|&i| timeline[i].content.contains(query.as_str()))
            .collect()
    }

    fn merge_catalog_rows(
        &self,
        _current: &Vec<SessionRow>,
        incoming: &Vec<SessionRow>,
    ) -> Vec<SessionRow> {
        incoming.clone()
    }

    fn patch_catalog_delta(
        &self,
        current: &Vec<SessionRow>,
        incoming: &Vec<SessionRow>,
        removed: &Vec<String>,
    ) -> Vec<SessionRow> {
        let mut out: Vec<SessionRow> = current
            .iter()
            .filter(|r| !removed.contains(&r.session_id))
            .filter(|r| incoming.iter().all(|n| n.session_id != r.session_id))
            .cloned()
            .collect();
        out.extend(incoming.iter().cloned());
        out
    }

    fn patch_list_row_from_meta(
        &self,
        rows: &Vec<SessionRow>,
        sid: &String,
        meta: &SessionMeta,
    ) -> Vec<SessionRow> {
        let mut out = rows.clone();
        for row in &mut out {
            if row.session_id == *sid {
                row.status = meta.status.clone();
            }
        }
        out
    }

    fn merge_timeline_by_index(
        &self,
        current: &Vec<TimelineEvent>,
        batch: &Vec<TimelineEvent>,
    ) -> MergedTimeline {
        let mut events = current.clone();
        let mut added = 0;
        for ev in batch {
            if events.iter().all(|e| e.index != ev.index) {
                events.push(ev.clone());
                added += 1;
            }
        }
        MergedTimeline { events, added }
    }

    fn card_marks_from_overview(&self, overview: &Overview) -> CardMarks {
        let mut turns = HashMap::new();
        let n = overview.notes.notes.len() as u32;
        turns.insert(0, CardMark { findings: 0, notes: n, errors: 0 });
        CardMarks { turns, events: HashMap::new() }
    }

    fn notes_schema_fields(&self, overview: Option<&Overview>) -> Vec<SchemaField> {
        overview
            .map(|_| vec![SchemaField { id: "note".into(), label: "Note".into() }])
            .unwrap_or_default()
    }

    fn is_partial_list_page(
        &self,
        rows: usize,
        matched: i64,
        _delta: bool,
        incomplete: bool,
        _building: bool,
    ) -> bool {
        incomplete || matched > rows as i64
    }

    fn is_soft_notes_save_error(&self, err: &String) -> bool {
        err.contains("conflict")
    }

    fn plan_tick(&self, _input: &TickInput) -> TickPlan {
        self.plan
    }

    fn session_needs_live_poll(&self, status: &String, turns: Option<&Value>) -> bool {
        status == "running" || turns.is_some_and(|t| !t.is_null())
    }

    fn session_rpc_ref(&self, path: &String, sid: &String) -> String {
        if path.is_empty() {
            sid.clone()
        } else {
            path.clone()
        }
    }

    fn should_continue_timeline(&self, on_timeline: bool, complete: bool, loading: bool) -> bool {
        on_timeline && !complete && !loading
    }

    fn should_fetch_timeline(&self, on_timeline: bool) -> bool {
        on_timeline
    }

    fn timeline_coverage_complete(&self, loaded: usize, total: u32) -> bool {
        total > 0 && loaded as u64 >= u64::from(total)
    }

    fn timeline_first_missing_offset(&self, timeline: &Vec<TimelineEvent>, _total: u32) -> u32 {
        timeline.len() as u32
    }

    fn timeline_seek_offset(&self, index: i64, before: u32) -> u32 {
        u32::try_from(index).unwrap_or(0).saturating_sub(before)
    }

    fn status_label(&self, meta: &SessionMeta) -> String {
        meta.status.clone()
    }

    fn set_field(&self, draft: &NoteDraft, id: &String, value: &String) -> NoteDraft {
        let mut fields: Vec<(String, String)> =
            draft.fields.iter().filter(|f| f.0 != *id).cloned().collect();
        fields.push((id.clone(), value.clone()));
        NoteDraft {
            id: draft.id.clone(),
            turn_index: draft.turn_index.clone(),
            event_index: draft.event_index.clone(),
            fields,
        }
    }

    fn has_content(&self, draft: &NoteDraft) -> bool {
        draft.fields.iter().any(|f| !f.1.is_empty())
    }

    fn new_note_id(&self) -> String {
        "new-1".into()
    }

    fn notes_from_snapshot(&self, snapshot: &Value, _current: &NotesBlock) -> Option<NotesBlock> {
        snapshot.get("notes").and_then(Value::as_array).map(|a| NotesBlock {
            revision: text_of(snapshot, "revision"),
            notes: a.iter().map(|n| note(&text_of(n, "id"))).collect(),
        })
    }

    fn decode_overview(&self, data: &Value) -> Result<Overview, String> {
        if data.is_null() {
            return Err("no overview".into());
        }
        Ok(overview(&text_of(data, "status"), vec![]))
    }

    fn decode_session_list(&self, data: &Value) -> Option<Vec<SessionRow>> {
        data.is_array().then_some(data).map(rows_in)
    }

    fn decode_session_list_response(&self, data: &Value) -> Option<SessionListPage> {
        data.is_object().then_some(data).map(|v| SessionListPage {
            revision: v.get("revision").and_then(Value::as_i64).unwrap_or(0),
            unchanged: flag(v, "unchanged"),
            delta: flag(v, "delta"),
            sessions: v.get("sessions").map(rows_in).unwrap_or_default(),
            removed: v
                .get("removed")
                .and_then(Value::as_array)
                .map(|a| a.iter().filter_map(|s| s.as_str().map(String::from)).collect())
                .unwrap_or_default(),
            matched: v.get("matched").and_then(Value::as_i64).unwrap_or(0),
            incomplete: flag(v, "incomplete"),
            building: flag(v, "building"),
        })
    }

    fn decode_timeline_page(&self, data: &Value) -> Result<TimelinePage, String> {
        let rows = data.get("rows").and_then(Value::as_i64).ok_or("no page")?;
        let from = data.get("from").and_then(Value::as_i64).unwrap_or(0);
        Ok(TimelinePage {
            events: (from..from + rows).map(|i| event(i, "user", "")).collect(),
            total: data.get("total").and_then(Value::as_u64).unwrap_or(0) as u32,
        })
    }
}

fn parsed(text: &str) -> Value {
    serde_json::from_str(text).expect("JSON")
}

fn at(now_ms: u64) -> Moment {
    Moment { now_ms, fresh_window: 77 }
}

fn row(id: &str, title: &str, epoch: i64) -> SessionRow {
    SessionRow {
        session_id: id.into(),
        title: title.into(),
        sort_epoch: epoch,
        ..SessionRow::default()
    }
}

fn event(index: i64, kind: &str, content: &str) -> TimelineEvent {
    TimelineEvent { index, kind: kind.into(), content: content.into() }
}

fn note(id: &str) -> Note {
    Note {
        id: id.into(),
        turn_index: None,
        event_indices: vec![],
        fields: Value::Null,
    }
}

fn overview(status: &str, notes: Vec<Note>) -> Overview {
    Overview {
        meta: SessionMeta { status: status.into(), path: String::new() },
        turns: Value::Null,
        notes: NotesBlock { revision: "r1".into(), notes },
    }
}

fn no_mods() -> KeyMods {
    KeyMods { shift: false, control: false, command: false }
}

fn ctrl() -> KeyMods {
    KeyMods { control: true, ..no_mods() }
}

fn press(hud: &mut Hud, key: HudKey, modifiers: KeyMods) -> Vec<Effect> {
    hud.update(
        &rules(),
        at(0),
        Message::RawEvent(HudEvent::KeyPressed { key, modifiers }),
    )
}

fn blank() -> Hud {
    Hud::boot("Ctrl+Shift+G".into(), "nord".into(), 0)
}

fn three_rows() -> Hud {
    Hud {
        all_sessions: vec![row("a", "Alpha", 3), row("b", "Beta", 2), row("c", "Gamma", 1)],
        ..blank()
    }
}

// ---------------------------------------------------------------------------

#[test]
fn timeline_filter_cache_avoids_per_frame_scan() {
    let mut hud = Hud {
        overview_sid: "s".into(),
        timeline_sid: "s".into(),
        timeline: vec![
            TimelineEvent {
                index: 0,
                kind: "user".into(),
                content: "hello".into(),
                ..TimelineEvent::default()
            },
            TimelineEvent {
                index: 1,
                kind: "tool".into(),
                content: "run".into(),
                ..TimelineEvent::default()
            },
            TimelineEvent {
                index: 2,
                kind: "agent".into(),
                content: "ok".into(),
                ..TimelineEvent::default()
            },
        ],
        ..blank()
    };
    hud.rebuild_tl_filter(&rules());
    assert_eq!(hud.filtered_indices(), &[0, 1, 2]);
    hud.timeline_kind = KindFilter::Tools;
    hud.rebuild_tl_filter(&rules());
    assert_eq!(hud.filtered_indices(), &[1]);
    assert_eq!(hud.filtered_timeline().len(), 1);
}

#[test]
fn empty_search_uses_all_sessions_without_a_second_copy() {
    let mut hud = Hud {
        all_sessions: vec![SessionRow {
            session_id: "a".into(),
            title: "Alpha".into(),
            ..SessionRow::default()
        }],
        query: String::new(),
        ..blank()
    };
    hud.rerank_visible(&rules());
    assert_eq!(hud.sessions().len(), 1);
    assert!(hud.sessions.is_empty());
    assert_eq!(hud.sessions()[0].session_id, "a");
}

#[test]
fn palette_settings_are_fixed_overlay() {
    let w = palette_window_settings();
    assert_eq!(w.size, Extent { width: HUD_W, height: HUD_H });
    assert!(!w.decorations);
    assert!(!w.resizable);
    assert_eq!(w.level, WindowLevel::AlwaysOnTop);
    assert!(w.icon);
    assert!(w.override_redirect);
}

#[test]
fn app_window_settings_are_decorated() {
    let w = app_window_settings();
    assert!(w.decorations);
    assert!(w.resizable);
    assert_eq!(w.level, WindowLevel::Normal);
    assert!(w.icon);
    assert!(!w.override_redirect);
}

#[test]
fn interesting_hud_event_ignores_mouse_motion() {
    assert!(interesting_hud_event(HudEvent::Other, true).is_none());
    let key = || HudEvent::KeyPressed { key: HudKey::ArrowDown, modifiers: no_mods() };
    assert!(interesting_hud_event(key(), true).is_some());
    assert!(interesting_hud_event(key(), false).is_none());
}

#[test]
fn boot_is_palette_not_window() {
    let hud = blank();
    assert!(!hud.window_mode());
}

#[test]
fn close_requested_keeps_process_in_window_mode() {
    let mut hud = Hud {
        window_mode: true,
        visible: true,
        palette_live: true,
        ..blank()
    };
    let _ = hud.dismiss_window();
    assert!(!hud.window_mode());
    assert!(!hud.visible);
    assert!(hud.window_id.is_none());
}

#[test]
fn overlay_already_mapped_skips_remap() {
    assert!(overlay_already_mapped(true, false, true));
    assert!(!overlay_already_mapped(false, false, true));
    assert!(!overlay_already_mapped(true, true, true));
    assert!(!overlay_already_mapped(true, false, false));
}

#[test]
fn tray_show_on_visible_overlay_does_not_clear_window() {
    let id = 9;
    let mut hud = Hud {
        visible: true,
        palette_live: true,
        window_mode: false,
        window_id: Some(id),
        ..blank()
    };
    let _ = hud.on_tray(at(0), TrayAction::Show);
    assert!(hud.visible);
    assert!(!hud.window_mode);
    assert_eq!(hud.window_id, Some(id));
}

#[test]
fn tray_show_reveals_hidden_palette() {
    let mut hud = Hud {
        visible: false,
        palette_live: false,
        window_mode: true,
        ..blank()
    };
    let _ = hud.on_tray(at(0), TrayAction::Show);
    assert!(hud.visible);
    assert!(hud.palette_live);
    assert!(!hud.window_mode);
}

#[test]
fn window_id_none_does_not_replace_live_id() {
    let id = 9;
    let mut hud = Hud {
        window_id: Some(id),
        ..blank()
    };
    let _ = hud.update(&rules(), at(0), Message::WindowId(None));
    assert_eq!(hud.window_id, Some(id));
}

// ---------------------------------------------------------------------------
// Windows
// ---------------------------------------------------------------------------

#[test]
fn the_summon_key_toggles_the_overlay() {
    let mut hud = Hud { window_id: Some(5), catalog_revision: 12, ..blank() };
    let fx = hud.update(&rules(), at(10), Message::Hotkey);
    assert!(!hud.visible && !hud.palette_live);
    assert!(matches!(fx[..], [Effect::ReleaseKeyboard, Effect::HideWindow(5)]));
    let fx = hud.update(&rules(), at(40), Message::Hotkey);
    assert!(hud.visible && hud.palette_live);
    assert_eq!((hud.window_id, hud.last_live), (Some(5), 40));
    assert!(matches!(
        fx[..],
        [
            Effect::SyncTheme,
            Effect::ShowOverlay(5),
            Effect::NativeChrome { id: 5, overlay: true },
            Effect::PlaceOverlay(5),
            Effect::DelayedFocus { attempt: 0, wait_ms: 30 },
            Effect::FetchList { quiet: true, since: 12 },
        ]
    ));
}

#[test]
fn the_window_pops_out_and_comes_back_as_the_overlay() {
    let mut hud = Hud { window_id: Some(5), ..blank() };
    let fx = hud.update(&rules(), at(0), Message::PopOutWindow);
    assert!(hud.window_mode && hud.visible);
    assert_eq!(hud.window_id, Some(77));
    assert!(matches!(
        fx[..],
        [
            Effect::DesktopApp(true),
            Effect::ReleaseKeyboard,
            Effect::OpenWindow { kind: WindowKind::App, id: 77 },
            Effect::CloseWindow(5),
        ]
    ));
    assert!(hud.update(&rules(), at(0), Message::PopOutWindow).is_empty());
    assert!(hud.update(&rules(), at(0), Message::Hide).is_empty());
    assert!(press(&mut hud, HudKey::Escape, no_mods()).is_empty());
    assert!(hud.visible);
    let fx = hud.update(&rules(), at(0), Message::Hotkey);
    assert!(matches!(fx[..], [Effect::GainFocus(77)]));
    let fx = hud.update(&rules(), at(0), Message::RawEvent(HudEvent::CloseRequested));
    assert!(!hud.visible && !hud.window_mode && hud.window_id.is_none());
    assert!(matches!(
        fx[..],
        [Effect::ReleaseKeyboard, Effect::DesktopApp(false), Effect::CloseWindow(77)]
    ));
    let fx = hud.update(&rules(), at(3), Message::Hotkey);
    assert!(hud.visible && !hud.window_mode);
    assert!(matches!(
        fx[..],
        [
            Effect::SyncTheme,
            Effect::OpenWindow { kind: WindowKind::Palette, id: 77 },
            Effect::DelayedFocus { attempt: 0, .. },
            Effect::FetchList { quiet: true, since: 0 },
        ]
    ));
}

#[test]
fn escape_and_close_hide_the_overlay() {
    let mut hud = Hud { window_id: Some(5), ..blank() };
    let fx = press(&mut hud, HudKey::Escape, no_mods());
    assert!(!hud.visible);
    assert!(matches!(fx[..], [Effect::ReleaseKeyboard, Effect::HideWindow(5)]));
    hud.visible = true;
    let fx = hud.update(&rules(), at(0), Message::RawEvent(HudEvent::CloseRequested));
    assert!(!hud.visible);
    assert_eq!(hud.window_id, Some(5));
    assert_eq!(fx.len(), 2);
}

#[test]
fn only_quit_exits() {
    let mut hud = blank();
    let fx = hud.update(&rules(), at(0), Message::Tray(TrayAction::Quit));
    assert!(matches!(fx[..], [Effect::Exit]));
    let fx = hud.update(&rules(), at(0), Message::Tray(TrayAction::Show));
    assert!(fx.iter().all(|e| !matches!(e, Effect::Exit)));
}

#[test]
fn focus_goes_to_the_window_and_the_search_field() {
    let mut hud = Hud { window_id: Some(5), ..blank() };
    let fx = hud.update(&rules(), at(0), Message::FocusSearch(3));
    assert!(matches!(
        fx[..],
        [Effect::FocusWindow { id: 5, attempt: 3 }, Effect::FocusInput(Input::Search)]
    ));
    hud.note_compose_lock = true;
    let fx = hud.update(&rules(), at(0), Message::RawEvent(HudEvent::MousePressed));
    assert!(matches!(fx[..], [Effect::FocusWindow { id: 5, attempt: 0 }]));
    hud.visible = false;
    assert!(hud.update(&rules(), at(0), Message::FocusSearch(0)).is_empty());
}

#[test]
fn focus_is_tried_again_up_to_a_limit() {
    let mut hud = blank();
    let fx = hud.update(&rules(), at(0), Message::X11Focus { focused: false, attempt: 7 });
    assert!(matches!(fx[..], [Effect::DelayedFocus { attempt: 8, wait_ms: 200 }]));
    for (focused, attempt) in [(false, 8), (false, 255), (true, 0)] {
        assert!(hud.update(&rules(), at(0), Message::X11Focus { focused, attempt }).is_empty());
    }
}

fn log_line(fx: &[Effect]) -> &str {
    match fx {
        [Effect::LogError(line)] => line,
        _ => panic!("one line in the log"),
    }
}

#[test]
fn windows_have_their_sizes() {
    let card = Extent { width: 780, height: 560 };
    let w = window_look(WindowKind::Palette);
    assert_eq!((w.size, w.min_size, w.max_size), (card, Some(card), Some(card)));
    assert_eq!((w.place, w.visible), (WindowPlace::Centered, true));
    assert!(!w.exit_on_close_request);
    let w = window_look(WindowKind::App);
    assert_eq!(w.size, Extent { width: 980, height: 700 });
    assert_eq!((w.min_size, w.max_size), (Some(Extent { width: 640, height: 440 }), None));
    assert_eq!((w.place, w.visible), (WindowPlace::Default, true));
    assert!(!w.exit_on_close_request);
}

#[test]
fn a_new_window_is_dressed() {
    let mut hud = blank();
    let fx = hud.update(&rules(), at(0), Message::WindowId(Some(5)));
    assert_eq!(hud.window_id, Some(5));
    assert!(matches!(
        fx[..],
        [
            Effect::DelayedFocus { attempt: 0, .. },
            Effect::NativeChrome { id: 5, overlay: true },
            Effect::PlaceOverlay(5),
        ]
    ));
    hud.window_mode = true;
    let fx = hud.update(&rules(), at(0), Message::WindowId(Some(6)));
    assert!(matches!(
        fx[..],
        [Effect::DelayedFocus { .. }, Effect::NativeChrome { id: 6, overlay: false }]
    ));
}

// ---------------------------------------------------------------------------
// The list
// ---------------------------------------------------------------------------

#[test]
fn a_search_ranks_by_time_and_id_and_keeps_the_selection() {
    let mut hud = Hud {
        all_sessions: vec![
            row("z", "fox one", 5),
            row("y", "hen", 9),
            row("b", "Fox two", 7),
            row("a", "fox three", 7),
        ],
        overview_sid: "z".into(),
        ..blank()
    };
    let fx = hud.update(&rules(), at(0), Message::SearchChanged(" fox ".into()));
    let ids: Vec<&str> = hud.sessions().iter().map(|r| r.session_id.as_str()).collect();
    assert_eq!(ids, vec!["a", "b", "z"]);
    assert_eq!(hud.active(), 2);
    assert_eq!(hud.query(), " fox ");
    assert!(matches!(fx[..], [Effect::ClampList(3)]));
    hud.update(&rules(), at(0), Message::SearchChanged("".into()));
    assert_eq!(hud.sessions().len(), 4);
    assert_eq!((hud.active(), hud.sessions()[2].session_id.as_str()), (2, "b"));
    hud.update(&rules(), at(0), Message::SearchChanged("nothing".into()));
    assert!(hud.sessions().is_empty());
    assert_eq!(hud.active(), 0);
}

#[test]
fn equal_rows_keep_their_order() {
    let mut hud = Hud {
        all_sessions: vec![row("", "fox first", 1), row("", "fox second", 1)],
        ..blank()
    };
    hud.update(&rules(), at(0), Message::SearchChanged("fox".into()));
    let titles: Vec<&str> = hud.sessions().iter().map(|r| r.title.as_str()).collect();
    assert_eq!(titles, vec!["fox second", "fox first"]);
}

#[test]
fn the_first_list_asks_for_an_overview() {
    let mut hud = blank();
    let data = parsed(
        r#"{"revision":4,"matched":2,"sessions":[{"id":"a","path":"/p/a"},{"id":"b"}]}"#,
    );
    let fx = hud.update(&rules(), at(0), Message::ListLoaded { quiet: false, result: Ok(data) });
    assert_eq!(hud.catalog_revision, 4);
    assert_eq!(hud.status(), "2 sessions · ready");
    assert!(!hud.status_err());
    assert_eq!(hud.overview_pending(), "a");
    match &fx[..] {
        [Effect::ClampList(2), Effect::LoadOverview { rpc_ref, sid, gen: 1, quiet: false }] => {
            assert_eq!((rpc_ref.as_str(), sid.as_str()), ("/p/a", "a"));
        }
        _ => panic!("the overview of the first row"),
    }
}

#[test]
fn an_empty_list_says_so() {
    let mut hud = blank();
    let empty = || Ok(parsed(r#"{"sessions":[]}"#));
    let fx = hud.update(&rules(), at(0), Message::ListLoaded { quiet: false, result: empty() });
    assert_eq!(hud.status(), "No sessions from control · is groket serve running?");
    assert!(hud.status_err());
    assert!(matches!(fx[0], Effect::ClampList(0)));
    assert_eq!(log_line(&fx[1..]), "no sessions from control");
    hud.query = " fox ".into();
    hud.update(&rules(), at(0), Message::ListLoaded { quiet: false, result: empty() });
    assert_eq!(hud.status(), "No matches for “fox”");
    assert!(!hud.status_err());
}

#[test]
fn a_list_without_envelope_is_read_too() {
    let mut hud = blank();
    let data = parsed(r#"[{"id":"a"}]"#);
    hud.update(&rules(), at(0), Message::ListLoaded { quiet: true, result: Ok(data) });
    assert_eq!(hud.sessions().len(), 1);
    hud.update(&rules(), at(0), Message::ListLoaded { quiet: true, result: Ok(Value::Null) });
    assert_eq!(hud.sessions().len(), 1);
}

#[test]
fn quiet_lists_patch_the_catalog() {
    let mut hud = Hud { status: "kept".into(), status_err: true, ..three_rows() };
    let unchanged = parsed(r#"{"revision":8,"unchanged":true}"#);
    let fx =
        hud.update(&rules(), at(0), Message::ListLoaded { quiet: true, result: Ok(unchanged) });
    assert!(fx.is_empty());
    assert_eq!((hud.catalog_revision, hud.status_err()), (8, false));
    let delta = parsed(r#"{"delta":true,"sessions":[{"id":"d"}],"removed":["a","b"]}"#);
    hud.update(&rules(), at(0), Message::ListLoaded { quiet: true, result: Ok(delta) });
    let ids: Vec<&str> = hud.sessions().iter().map(|r| r.session_id.as_str()).collect();
    assert_eq!(ids, vec!["c", "d"]);
    assert_eq!(hud.status(), "kept");
    let short = parsed(r#"{"matched":5,"sessions":[{"id":"e"}]}"#);
    let fx = hud.update(&rules(), at(0), Message::ListLoaded { quiet: true, result: Ok(short) });
    assert!(matches!(fx[..], [Effect::FetchList { quiet: true, since: 0 }]));
    assert_eq!(hud.sessions().len(), 2);
    let part = parsed(r#"{"incomplete":true,"sessions":[{"id":"e"}]}"#);
    hud.update(&rules(), at(0), Message::ListLoaded { quiet: true, result: Ok(part) });
    assert_eq!(hud.sessions().len(), 3);
    let nothing = parsed(r#"{"incomplete":true,"sessions":[]}"#);
    hud.update(&rules(), at(0), Message::ListLoaded { quiet: true, result: Ok(nothing) });
    assert_eq!(hud.sessions().len(), 3);
    let gone = parsed(r#"{"sessions":[]}"#);
    hud.update(&rules(), at(0), Message::ListLoaded { quiet: true, result: Ok(gone) });
    assert_eq!(hud.sessions().len(), 3);
}

#[test]
fn a_failed_list_shows_in_the_status_line() {
    let mut hud = blank();
    let result = Err("refused".to_string());
    let fx = hud.update(&rules(), at(0), Message::ListLoaded { quiet: false, result });
    assert_eq!(hud.status(), "control down: refused");
    assert!(hud.status_err());
    assert_eq!(log_line(&fx), "refused");
}

#[test]
fn list_requests_name_a_known_revision_only_when_quiet() {
    assert_eq!(list_query(true, 7), ListQuery::Since { limit: 10_000, offset: 0, since: 7 });
    assert_eq!(list_query(true, 0), ListQuery::All);
    assert_eq!(list_query(false, 7), ListQuery::All);
}

#[test]
fn choosing_a_row_empties_the_detail_pane() {
    let mut hud = Hud {
        tab: Tab::Timeline,
        timeline: vec![event(0, "user", "")],
        timeline_sid: "a".into(),
        timeline_gen: 4,
        note_compose_lock: true,
        ..three_rows()
    };
    let fx = hud.update(&rules(), at(0), Message::SelectSession(1));
    assert_eq!((hud.active(), hud.tab()), (1, Tab::Overview));
    assert!(hud.timeline_events().is_empty());
    assert_eq!(hud.timeline_gen, 5);
    assert!(matches!(
        fx[..],
        [
            Effect::TimelineTop,
            Effect::LoadOverview { gen: 1, quiet: false, .. },
            Effect::FocusInput(Input::Search),
        ]
    ));
    hud.overview = Some(overview("", vec![]));
    let fx = hud.update(&rules(), at(0), Message::SelectSession(1));
    assert!(matches!(fx[..], [Effect::FocusInput(Input::Search)]));
    let fx = hud.update(&rules(), at(0), Message::SelectSession(3));
    assert_eq!(hud.active(), 1);
    assert_eq!(fx.len(), 1);
}

// ---------------------------------------------------------------------------
// Keys
// ---------------------------------------------------------------------------

#[test]
fn arrows_go_round_the_list() {
    let mut hud = three_rows();
    let fx = press(&mut hud, HudKey::ArrowUp, no_mods());
    assert_eq!(hud.active(), 2);
    assert!(matches!(
        fx[..],
        [Effect::TimelineTop, Effect::RevealRow(2), Effect::LoadOverview { .. }]
    ));
    press(&mut hud, HudKey::ArrowDown, no_mods());
    assert_eq!(hud.active(), 0);
    press(&mut hud, HudKey::ArrowDown, no_mods());
    assert_eq!(hud.active(), 1);
    press(&mut hud, HudKey::End, no_mods());
    assert_eq!(hud.active(), 2);
    press(&mut hud, HudKey::Home, no_mods());
    assert_eq!(hud.active(), 0);
    hud.active = usize::MAX;
    press(&mut hud, HudKey::ArrowDown, no_mods());
    assert_eq!(hud.active() as u128, (usize::MAX as u128 + 1) % 3);
}

#[test]
fn keys_do_nothing_in_an_empty_list() {
    let mut hud = blank();
    for key in [HudKey::ArrowDown, HudKey::ArrowUp, HudKey::Home, HudKey::End, HudKey::Other] {
        assert!(press(&mut hud, key, no_mods()).is_empty());
    }
    assert!(press(&mut hud, HudKey::Enter, no_mods()).is_empty());
}

#[test]
fn digits_and_tab_turn_the_pages() {
    let mut hud = blank();
    for (digit, tab) in [
        ("1", Tab::Overview),
        ("2", Tab::Turns),
        ("3", Tab::Timeline),
        ("4", Tab::Findings),
        ("5", Tab::Notes),
    ] {
        press(&mut hud, HudKey::Character(digit.into()), ctrl());
        assert_eq!(hud.tab(), tab);
    }
    press(&mut hud, HudKey::Character("6".into()), ctrl());
    press(&mut hud, HudKey::Character("0".into()), ctrl());
    press(&mut hud, HudKey::Character("1".into()), no_mods());
    assert_eq!(hud.tab(), Tab::Notes);
    press(&mut hud, HudKey::Tab, ctrl());
    assert_eq!(hud.tab(), Tab::Overview);
    press(&mut hud, HudKey::Tab, KeyMods { shift: true, ..ctrl() });
    assert_eq!(hud.tab(), Tab::Notes);
    press(&mut hud, HudKey::Tab, no_mods());
    assert_eq!(hud.tab(), Tab::Notes);
    for _ in 0..5 {
        press(&mut hud, HudKey::Tab, ctrl());
    }
    assert_eq!(hud.tab(), Tab::Notes);
}

#[test]
fn typing_a_note_takes_the_keys() {
    let mut hud = Hud { typing_notes: true, ..three_rows() };
    assert!(press(&mut hud, HudKey::ArrowDown, no_mods()).is_empty());
    assert!(press(&mut hud, HudKey::Tab, ctrl()).is_empty());
    assert_eq!((hud.active(), hud.tab()), (0, Tab::Overview));
    press(&mut hud, HudKey::Character("2".into()), ctrl());
    assert_eq!(hud.tab(), Tab::Turns);
    press(&mut hud, HudKey::Escape, no_mods());
    assert!(!hud.visible);
}

#[test]
fn slash_searches_the_timeline() {
    let mut hud = Hud { tab: Tab::Timeline, ..blank() };
    let fx = press(&mut hud, HudKey::Character("/".into()), no_mods());
    assert!(matches!(fx[..], [Effect::FocusInput(Input::TimelineSearch)]));
    hud.tab = Tab::Turns;
    assert!(press(&mut hud, HudKey::Character("/".into()), no_mods()).is_empty());
}

// ---------------------------------------------------------------------------
// Overview and timeline
// ---------------------------------------------------------------------------

#[test]
fn an_overview_is_shown_when_it_is_the_newest() {
    let mut hud = Hud {
        overview_gen: 2,
        overview_pending: "b".into(),
        window_id: Some(5),
        ..three_rows()
    };
    let answer = |gen: u64, quiet: bool| Message::OverviewLoaded {
        gen,
        sid: "b".into(),
        quiet,
        result: Ok(parsed(r#"{"status":"running"}"#)),
    };
    assert!(hud.update(&rules(), at(0), answer(1, false)).is_empty());
    assert!(hud.overview().is_none());
    let fx = hud.update(&rules(), at(0), answer(2, false));
    assert_eq!(hud.overview_sid(), "b");
    assert_eq!(hud.overview_pending(), "");
    assert_eq!(hud.status(), "b · running");
    assert_eq!(hud.all_sessions[1].status, "running");
    assert_eq!(hud.card_marks().0.len(), 1);
    assert_eq!(hud.notes_schema(&rules()).len(), 1);
    assert_eq!(fx.len(), 2);
    hud.status = "kept".into();
    assert!(hud.update(&rules(), at(0), answer(2, true)).is_empty());
    assert_eq!(hud.status(), "kept");
    hud.tab = Tab::Timeline;
    let fx = hud.update(&rules(), at(0), answer(2, true));
    assert!(matches!(
        fx[..],
        [Effect::TimelineTop, Effect::FetchTimeline { offset: 0, append: false, gen: 1, .. }]
    ));
}

#[test]
fn a_failed_overview_goes_away_unless_it_was_quiet() {
    let failed = |quiet: bool, result: Result<Value, String>| Message::OverviewLoaded {
        gen: 0,
        sid: "a".into(),
        quiet,
        result,
    };
    let mut hud = Hud {
        overview: Some(overview("done", vec![])),
        overview_sid: "a".into(),
        ..three_rows()
    };
    let fx = hud.update(&rules(), at(0), failed(true, Err("gone".into())));
    assert_eq!(log_line(&fx), "gone");
    assert!(hud.overview().is_some());
    assert_eq!(hud.status(), "control down: gone");
    let fx = hud.update(&rules(), at(0), failed(false, Ok(Value::Null)));
    assert_eq!(log_line(&fx), "no overview");
    assert!(hud.overview().is_some());
    assert_eq!(hud.status(), "control down: no overview");
    hud.update(&rules(), at(0), failed(false, Err("gone".into())));
    assert!(hud.overview().is_none());
    assert_eq!(hud.overview_sid(), "");
}

#[test]
fn the_timeline_is_loaded_page_by_page() {
    let mut hud = Hud { overview_sid: "a".into(), ..three_rows() };
    let fx = hud.update(&rules(), at(0), Message::SetTab(Tab::Timeline));
    assert!(hud.timeline_loading());
    match &fx[..] {
        [
            Effect::TimelineTop,
            Effect::FetchTimeline { rpc_ref, sid, offset, append, gen, limit },
            Effect::FocusInput(Input::Search),
        ] => {
            assert_eq!((rpc_ref.as_str(), sid.as_str()), ("a", "a"));
            assert_eq!((*offset, *append, *gen), (0, false, 1));
            assert_eq!(*limit, PageSize::Rows(120));
        }
        _ => panic!("the first page"),
    }
    let page = |gen: u64, offset: u32, text: &str| Message::TimelineLoaded {
        gen,
        sid: "a".into(),
        offset,
        append: offset > 0,
        result: Ok(parsed(text)),
    };
    let stale = hud.update(&rules(), at(0), page(0, 0, r#"{"rows":9,"total":9}"#));
    assert!(stale.is_empty() && hud.timeline_events().is_empty());
    let fx = hud.update(&rules(), at(0), page(1, 0, r#"{"rows":2,"total":3}"#));
    assert_eq!(hud.timeline_events().len(), 2);
    assert_eq!((hud.timeline_total, hud.timeline_next), (3, 2));
    assert_eq!(hud.filtered_indices(), &[0, 1]);
    assert_eq!(hud.timeline_meta(&rules()), "2+ · 2/3");
    assert!(matches!(fx[..], [Effect::ContinueTimeline { gen: 1, wait_ms: 50, .. }]));
    let more = || Message::ContinueTimeline { sid: "a".into(), gen: 1 };
    let fx = hud.update(&rules(), at(0), more());
    assert!(matches!(
        fx[..],
        [Effect::FetchTimeline { offset: 2, append: true, gen: 1, limit: PageSize::Chunk, .. }]
    ));
    assert!(hud.update(&rules(), at(0), more()).is_empty());
    assert!(hud.update(&rules(), at(0), Message::LoadMoreTimeline).is_empty());
    let fx = hud.update(&rules(), at(0), page(1, 2, r#"{"from":1,"rows":4}"#));
    assert_eq!(hud.timeline_events().len(), 5);
    assert_eq!((hud.timeline_total, hud.timeline_next), (3, 3));
    assert!(fx.is_empty());
    assert!(hud.timeline_complete(&rules()));
    assert_eq!(hud.timeline_meta(&rules()), "5");
    assert!(hud.update(&rules(), at(0), Message::LoadMoreTimeline).is_empty());
}

#[test]
fn a_page_that_cannot_be_read_is_reported() {
    let mut hud = Hud { timeline_loading: true, ..blank() };
    let page = |result| Message::TimelineLoaded {
        gen: 0,
        sid: "a".into(),
        offset: 0,
        append: false,
        result,
    };
    let fx = hud.update(&rules(), at(0), page(Ok(Value::Null)));
    assert_eq!(log_line(&fx), "no page");
    assert!(!hud.timeline_loading());
    assert_eq!(hud.status(), "control down: no page");
    let fx = hud.update(&rules(), at(0), page(Err("lost".into())));
    assert_eq!(log_line(&fx), "lost");
    assert_eq!(hud.status(), "control down: lost");
}

#[test]
fn a_jump_opens_the_timeline_at_a_row() {
    let mut hud = Hud {
        overview_sid: "a".into(),
        timeline_sid: "a".into(),
        timeline: vec![event(40, "user", ""), event(50, "tool", "")],
        timeline_query: "x".into(),
        timeline_kind: KindFilter::Tools,
        ..three_rows()
    };
    let fx = hud.update(&rules(), at(0), Message::JumpTimeline(50));
    assert_eq!((hud.tab(), hud.timeline_focus()), (Tab::Timeline, Some(50)));
    assert_eq!((hud.timeline_query(), hud.timeline_kind()), ("", KindFilter::All));
    assert!(matches!(
        fx[..],
        [
            Effect::ScrollTimeline(Some(1)),
            Effect::TimelineTop,
            Effect::FetchTimeline { offset: 30, append: false, gen: 1, .. },
        ]
    ));
    let mut hud = blank();
    let fx = hud.update(&rules(), at(0), Message::JumpTimeline(50));
    assert!(matches!(fx[..], [Effect::ScrollTimeline(None)]));
}

#[test]
fn rows_are_marked_and_unmarked() {
    let mut hud = Hud {
        overview_sid: "a".into(),
        timeline_sid: "a".into(),
        timeline: vec![event(4, "user", ""), event(5, "tool", "")],
        tl_filter: vec![9, 1],
        ..blank()
    };
    hud.update(&rules(), at(0), Message::SelectTimeline(5));
    assert_eq!((hud.timeline_focus(), hud.timeline_focus_pos()), (Some(5), Some(1)));
    assert_eq!(hud.filtered_timeline().len(), 1);
    hud.update(&rules(), at(0), Message::TimelineScroll { focus_outside: false });
    assert_eq!(hud.timeline_focus(), Some(5));
    hud.update(&rules(), at(0), Message::TimelineScroll { focus_outside: true });
    assert_eq!(hud.timeline_focus(), None);
    hud.update(&rules(), at(0), Message::SelectTimeline(4));
    assert_eq!(hud.timeline_focus_pos(), None);
    hud.update(&rules(), at(0), Message::TimelineScroll { focus_outside: true });
    assert_eq!(hud.timeline_focus(), Some(4));
    hud.update(&rules(), at(0), Message::SelectTimeline(4));
    assert_eq!(hud.timeline_focus(), None);
}

#[test]
fn searching_the_timeline_loads_the_rest() {
    let mut hud = Hud {
        overview_sid: "a".into(),
        timeline_sid: "a".into(),
        timeline: vec![event(0, "user", "hen"), event(1, "tool", "fox")],
        timeline_total: 9,
        ..three_rows()
    };
    let fx = hud.update(&rules(), at(0), Message::TimelineQuery("fox".into()));
    assert_eq!(hud.filtered_indices(), &[1]);
    assert!(matches!(fx[..], [Effect::FetchTimeline { offset: 2, append: true, .. }]));
    hud.timeline_loading = false;
    assert!(hud.update(&rules(), at(0), Message::TimelineQuery(" ".into())).is_empty());
    let fx = hud.update(&rules(), at(0), Message::TimelineKind(KindFilter::Tools));
    assert_eq!(fx.len(), 1);
    hud.timeline_loading = false;
    assert!(hud.update(&rules(), at(0), Message::TimelineKind(KindFilter::All)).is_empty());
}

#[test]
fn the_filter_is_empty_for_another_session() {
    let mut hud = Hud {
        overview_sid: "b".into(),
        timeline_sid: "a".into(),
        timeline: vec![event(0, "user", "")],
        tl_filter: vec![0],
        ..blank()
    };
    hud.rebuild_tl_filter(&rules());
    assert!(hud.filtered_indices().is_empty());
}

// ---------------------------------------------------------------------------
// Notes
// ---------------------------------------------------------------------------

fn noted() -> Hud {
    let kept = Note {
        id: "n1".into(),
        turn_index: Some(4),
        event_indices: vec![7, 8],
        fields: parsed(r#"{"b":"old","a":3}"#),
    };
    Hud {
        overview: Some(overview("done", vec![kept])),
        overview_sid: "a".into(),
        ..three_rows()
    }
}

fn pairs(draft: &NoteDraft) -> Vec<(&str, &str)> {
    draft.fields.iter().map(|f| (f.0.as_str(), f.1.as_str())).collect()
}

#[test]
fn a_note_is_opened_in_the_form() {
    let mut hud = noted();
    hud.update(&rules(), at(0), Message::OpenNote("n1".into()));
    let draft = hud.note_draft();
    assert_eq!((draft.id.as_str(), draft.turn_index.as_str()), ("n1", "4"));
    assert_eq!(draft.event_index, "7");
    assert_eq!(pairs(draft), vec![("a", "3"), ("b", "old")]);
    assert!(hud.note_compose_lock);
    assert_eq!(hud.tab(), Tab::Notes);
    let mut hud = noted();
    hud.update(&rules(), at(0), Message::OpenNote("n9".into()));
    assert_eq!(hud.tab(), Tab::Notes);
    assert!(!hud.note_compose_lock);
}

#[test]
fn an_edited_note_is_saved_over_the_old_one() {
    let mut hud = noted();
    hud.update(&rules(), at(0), Message::OpenNote("n1".into()));
    hud.update(&rules(), at(0), Message::NoteField { id: "b".into(), value: "new".into() });
    hud.update(&rules(), at(0), Message::NoteTurn(" 6 ".into()));
    let fx = hud.update(&rules(), at(0), Message::SaveNote);
    assert!(hud.note_saving());
    match &fx[..] {
        [Effect::SaveNote { session, note, revision }] => {
            assert_eq!((session.as_str(), revision.as_str()), ("a", "r1"));
            assert_eq!(
                *note,
                parsed(
                    r#"{"id":"n1","turnIndex":6,"fields":{"a":"3","b":"new"},"eventIndices":[7,8]}"#
                )
            );
        }
        _ => panic!("the note"),
    }
    let snapshot = parsed(r#"{"revision":"r2","notes":[{"id":"n1"},{"id":"n2"}]}"#);
    hud.update(&rules(), at(0), Message::NoteSaved(Ok(snapshot)));
    assert_eq!(hud.status(), "Note saved");
    assert!(!hud.note_saving() && !hud.note_compose_lock && !hud.typing_notes);
    assert_eq!(hud.overview().expect("overview").notes.revision, "r2");
    assert_eq!(hud.card_marks().0[&0].notes, 2);
    assert!(hud.note_draft().id.is_empty());
}

#[test]
fn an_unedited_note_keeps_its_turn_and_texts() {
    let mut hud = noted();
    hud.update(&rules(), at(0), Message::OpenNote("n1".into()));
    match &hud.update(&rules(), at(0), Message::SaveNote)[..] {
        [Effect::SaveNote { note, .. }] => assert_eq!(
            *note,
            parsed(
                r#"{"id":"n1","turnIndex":4,"fields":{"a":"3","b":"old"},"eventIndices":[7,8]}"#
            )
        ),
        _ => panic!("the note"),
    }
}

#[test]
fn a_new_note_gets_an_id_and_the_row_it_is_about() {
    let mut hud = noted();
    let start = |event: &str| Message::StartNote { turn: "2".into(), event: event.into() };
    hud.update(&rules(), at(0), start(" 11 "));
    assert_eq!(hud.tab(), Tab::Notes);
    hud.update(&rules(), at(0), Message::NoteField { id: "note".into(), value: "hi".into() });
    let saved = |fx: &[Effect]| match fx {
        [Effect::SaveNote { note, .. }] => note.clone(),
        _ => panic!("the note"),
    };
    let fx = hud.update(&rules(), at(0), Message::SaveNote);
    assert_eq!(
        saved(&fx),
        parsed(r#"{"id":"new-1","turnIndex":2,"fields":{"note":"hi"},"eventIndices":[11]}"#)
    );
    hud.update(&rules(), at(0), start("x"));
    hud.update(&rules(), at(0), Message::NoteTurn("".into()));
    hud.update(&rules(), at(0), Message::NoteField { id: "note".into(), value: "hi".into() });
    let fx = hud.update(&rules(), at(0), Message::SaveNote);
    assert_eq!(
        saved(&fx),
        parsed(r#"{"id":"new-1","turnIndex":0,"fields":{"note":"hi"},"eventIndices":[]}"#)
    );
}

#[test]
fn a_note_that_cannot_be_saved_is_refused() {
    let mut hud = blank();
    assert!(hud.update(&rules(), at(0), Message::SaveNote).is_empty());
    assert_eq!(hud.status(), "Select a session before saving a note");
    let mut hud = noted();
    assert!(hud.update(&rules(), at(0), Message::SaveNote).is_empty());
    assert_eq!(hud.status(), "Enter a note field before saving");
    hud.update(&rules(), at(0), Message::NoteField { id: "note".into(), value: "hi".into() });
    for turn in ["-1", "x", "9223372036854775808"] {
        hud.update(&rules(), at(0), Message::NoteTurn(turn.into()));
        assert!(hud.update(&rules(), at(0), Message::SaveNote).is_empty());
        assert_eq!(hud.status(), "Turn must be a non-negative integer");
    }
    assert!(!hud.note_saving());
    hud.update(&rules(), at(0), Message::NoteTurn("+3".into()));
    assert_eq!(hud.update(&rules(), at(0), Message::SaveNote).len(), 1);
    let fx = hud.update(&rules(), at(0), Message::NoteSaved(Err("lost".into())));
    assert_eq!(log_line(&fx), "lost");
    let fx = hud.update(&rules(), at(0), Message::NoteSaved(Err("conflict".into())));
    assert_eq!(log_line(&fx), "note save (soft): conflict");
    assert_eq!(hud.status(), "Note save failed: conflict");
    assert!(hud.status_err() && !hud.note_saving());
    hud.update(&rules(), at(0), Message::ResetDraft);
    assert!(hud.note_draft().fields.is_empty());
}

#[test]
fn a_delete_takes_two_presses() {
    let mut hud = noted();
    let ask = |hud: &mut Hud, id: &str, now: u64| {
        hud.update(&rules(), at(now), Message::RequestDelete(id.into()))
    };
    assert!(ask(&mut hud, "", 0).is_empty());
    assert!(ask(&mut hud, "n1", 100).is_empty());
    assert_eq!(hud.note_delete_armed(), "n1");
    assert_eq!(hud.note_delete_until, Some(2600));
    assert_eq!(hud.status(), "Press Delete again to confirm");
    assert!(ask(&mut hud, "n2", 200).is_empty());
    assert_eq!(hud.note_delete_armed(), "n2");
    assert!(ask(&mut hud, "n1", 300).is_empty());
    let fx = ask(&mut hud, "n1", 400);
    assert_eq!((hud.note_delete_armed(), hud.note_delete_until), ("", None));
    match &fx[..] {
        [Effect::DeleteNote { session, nid, revision }] => {
            assert_eq!((session.as_str(), nid.as_str(), revision.as_str()), ("a", "n1", "r1"));
        }
        _ => panic!("the delete"),
    }
}

#[test]
fn a_delete_is_forgotten_after_a_while() {
    let mut hud = noted();
    hud.update(&rules(), at(100), Message::RequestDelete("n1".into()));
    hud.update(&rules(), at(2599), Message::Tick(vec![]));
    assert_eq!(hud.note_delete_armed(), "n1");
    hud.update(&rules(), at(2600), Message::Tick(vec![]));
    assert_eq!((hud.note_delete_armed(), hud.status()), ("", "Delete cancelled"));
    assert!(hud.update(&rules(), at(2700), Message::RequestDelete("n1".into())).is_empty());
}

#[test]
fn a_deleted_note_takes_its_draft_along() {
    let mut hud = noted();
    hud.update(&rules(), at(0), Message::OpenNote("n1".into()));
    let deleted = |id: &str, result| Message::NoteDeleted { id: id.into(), result };
    let fx = hud.update(&rules(), at(0), deleted("n1", Err("conflict".into())));
    assert_eq!(log_line(&fx), "note delete (soft): conflict");
    let fx = hud.update(&rules(), at(0), deleted("n1", Err("locked".into())));
    assert_eq!(log_line(&fx), "locked");
    assert_eq!(hud.status(), "Note delete failed: locked");
    assert!(hud.status_err());
    hud.update(&rules(), at(0), deleted("n2", Ok(Value::Null)));
    assert_eq!(hud.note_draft().id, "n1");
    assert_eq!(hud.overview().expect("overview").notes.revision, "r1");
    hud.update(&rules(), at(0), deleted("n1", Ok(parsed(r#"{"notes":[]}"#))));
    assert!(hud.note_draft().id.is_empty() && !hud.note_compose_lock);
    assert_eq!((hud.status(), hud.status_err()), ("Note deleted", false));
}

// ---------------------------------------------------------------------------
// Refreshing
// ---------------------------------------------------------------------------

#[test]
fn a_refresh_carries_out_its_plan() {
    let mut hud = Hud {
        tab: Tab::Timeline,
        timeline_sid: "a".into(),
        timeline_next: 10,
        timeline: vec![event(0, "user", "")],
        catalog_revision: 6,
        ..three_rows()
    };
    let fx = hud.update(&rules(), at(50), Message::Tick(vec![]));
    assert!(matches!(fx[..], [Effect::SyncTheme]));
    assert_eq!(hud.last_live, 0);
    let all = Rules {
        plan: TickPlan { fetch_list: true, load_overview: true, refresh_timeline: true },
    };
    let fx = hud.update(&all, at(60), Message::Tick(vec![]));
    assert!(matches!(
        fx[..],
        [
            Effect::SyncTheme,
            Effect::FetchList { quiet: true, since: 6 },
            Effect::LoadOverview { gen: 1, quiet: true, .. },
            Effect::FetchTimeline {
                offset: 6,
                append: true,
                gen: 0,
                limit: PageSize::LiveTail,
                ..
            },
        ]
    ));
    assert_eq!(hud.last_live, 60);
}

#[test]
fn a_notification_brings_the_palette() {
    let mut hud = Hud { visible: false, palette_live: false, ..blank() };
    let changed = vec![("session/changed".to_string(), parsed(r#"{"sessionId":"a"}"#))];
    hud.update(&rules(), at(5), Message::Tick(changed));
    assert!(!hud.visible);
    let show = vec![("hud/show".to_string(), Value::Null)];
    let fx = hud.update(&rules(), at(5), Message::Tick(show));
    assert!(hud.visible);
    assert_eq!(hud.window_id, Some(77));
    assert_eq!(fx.len(), 5);
}

#[test]
fn notifications_name_their_session() {
    let list = vec![
        ("a".to_string(), parsed(r#"{"sessionId":"s1"}"#)),
        ("b".to_string(), parsed(r#"{"sessionId":7}"#)),
        ("c".to_string(), Value::Null),
    ];
    let got = groket_hud::refresh::pairs(&list);
    let want = [("a", "s1"), ("b", ""), ("c", "")];
    for (pair, (method, session)) in got.iter().zip(want) {
        assert_eq!((pair.0.as_str(), pair.1.as_str()), (method, session));
    }
}

#[test]
fn only_the_latest_notifications_wait() {
    let mut queue = NotifyQueue::new();
    for i in 0..NOTIFY_LIMIT + 3 {
        queue.push(format!("m{i}"), Value::Null);
    }
    let waiting = queue.drain();
    assert_eq!(waiting.len(), NOTIFY_LIMIT);
    assert_eq!(waiting[0].0, "m3");
    assert_eq!(waiting[NOTIFY_LIMIT - 1].0, format!("m{}", NOTIFY_LIMIT + 2));
    assert!(queue.drain().is_empty());
}

#[test]
fn timers_follow_the_state() {
    let mut hud = three_rows();
    let timers = hud.timers(&rules());
    assert_eq!((timers.refresh, timers.delete_ms), (Some(PollRate::Idle), None));
    hud.all_sessions[2].status = "running".into();
    assert_eq!(hud.timers(&rules()).refresh, Some(PollRate::Live));
    hud.visible = false;
    hud.note_delete_until = Some(9);
    let timers = hud.timers(&rules());
    assert_eq!((timers.refresh, timers.delete_ms), (None, Some(250)));
}

// ---------------------------------------------------------------------------
// The rest
// ---------------------------------------------------------------------------

#[test]
fn greetings_and_links_show_in_the_status_line() {
    let mut hud = blank();
    assert_eq!(hud.status(), "connecting…");
    let fx = hud.update(&rules(), at(0), Message::Inited(Err("refused".into())));
    assert_eq!(log_line(&fx), "refused");
    assert_eq!((hud.status(), hud.status_err()), ("control down: refused", true));
    hud.update(&rules(), at(0), Message::Inited(Ok("control.sock".into())));
    assert_eq!((hud.status(), hud.status_err()), ("ready · control.sock", false));
    hud.update(&rules(), at(0), Message::MdLink("https://x".into()));
    assert_eq!(hud.status(), "https://x");
}

#[test]
fn the_process_starts_with_the_overlay() {
    let (hud, fx) = Hud::start("k".into(), "nord".into(), at(4), false);
    assert!(hud.visible && !hud.window_mode());
    assert_eq!((hud.window_id, hud.last_live), (Some(77), 4));
    assert!(matches!(
        fx[..],
        [
            Effect::OpenWindow { kind: WindowKind::Palette, id: 77 },
            Effect::Greet,
            Effect::FetchList { quiet: false, since: 0 },
        ]
    ));
    let (_, fx) = Hud::start("k".into(), "nord".into(), at(4), true);
    assert!(matches!(
        fx[3..],
        [Effect::FocusWindow { id: 77, attempt: 0 }, Effect::FocusInput(Input::Search)]
    ));
}

#[test]
fn the_palette_starts_with_what_it_is_given() {
    let mut hud = Hud::boot("Ctrl+Shift+G".into(), "nord".into(), 9);
    assert_eq!((hud.hotkey_hint(), hud.theme_name()), ("Ctrl+Shift+G", "nord"));
    assert_eq!(hud.last_live, 9);
    hud.sync_theme("gruvbox".into());
    assert_eq!(hud.theme_name(), "gruvbox");
}

#[test]
fn rows_are_sorted_by_time_and_id_and_stay_in_turn() {
    let sorted = sort_rows(vec![
        row("c", "1", 5),
        row("a", "2", 1),
        row("b", "3", 5),
        row("b", "4", 5),
        row("d", "5", 9),
        row("a", "6", 1),
        row("e", "7", 5),
    ]);
    let titles: Vec<&str> = sorted.iter().map(|r| r.title.as_str()).collect();
    assert_eq!(titles, ["5", "3", "4", "1", "7", "2", "6"]);
    assert!(sort_rows(vec![]).is_empty());
}
