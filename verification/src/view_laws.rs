//! What is shown of the palette: each answer about it is read off its state.

use vstd::prelude::*;

use crate::domain::{coverage_says, Domain};
use crate::event::{interesting_hud_event, list_query, HudEvent, ListQuery, Message};
use crate::hud::{
    any_live_is, complete_is, overlay_already_mapped, selected_id, selected_live_is,
    selected_ref_is, selected_row, shown, shown_events, status_is, Hud, HudView,
};
use crate::list_laws::{chosen_id, chosen_row, rows_in};
use crate::model::{rows_of, EventView, SessionRow, TimelineEvent};
use crate::pane_laws::{
    has_name, has_no_name, is_name, law_requests_name_the_shown_session, names_shown,
};
use crate::refresh::{rate_is, Timers};
use crate::refresh_laws::{any_is_live, has_status, is_live, lemma_live};
use crate::text::decimal;
use crate::timeline_laws::{first_of, law_where_the_marked_row_is};

verus! {

/// The list shows all sessions, or what a search found; the row under the selection is
/// the selected one, and its id the selected session's.
pub proof fn law_what_is_selected(v: HudView)
    ensures
        shown(v) == rows_in(v),
        selected_row(v) == chosen_row(v),
        chosen_id(v).len() > 0 ==> selected_id(v) == Some(chosen_id(v)),
        chosen_id(v).len() == 0 ==> selected_id(v) is None,
{
}

/// The selected session is named as the domain names it, and not at all without a row
/// or a name.
pub proof fn law_how_the_selected_session_is_named<D: Domain>(
    d: &D,
    v: HudView,
    out: Option<Seq<char>>,
)
    requires
        selected_ref_is(d, v, out),
    ensures
        chosen_row(v) is None ==> out is None,
        chosen_row(v) is Some ==> {
            let r = chosen_row(v)->0;
            &&& out is Some ==> is_name(d, r.path, r.session_id, out->0)
            &&& has_name(d, r.path, r.session_id) ==> out is Some
            &&& has_no_name(d, r.path, r.session_id) ==> out is None
        },
{
}

/// The selected session's status is the one in the overview, else the one in the list.
/// Whether it, or any session, is live is what the domain says of it.
pub proof fn law_what_is_live<D: Domain>(
    d: &D,
    v: HudView,
    status: Seq<char>,
    live: bool,
    any_live: bool,
)
    requires
        status_is(d, v, status),
        selected_live_is(d, v, live),
        any_live_is(d, v, live, any_live),
    ensures
        has_status(d, v, status),
        is_live(d, v, live),
        any_is_live(d, v.all_sessions, live, any_live),
{
    lemma_live(d, v, live, any_live);
}

/// A timeline of no session is not complete; any other one is when the domain says so of
/// its rows and its total.
pub proof fn law_when_the_timeline_is_complete<D: Domain>(d: &D, v: HudView, out: bool)
    requires
        complete_is(d, v, out),
    ensures
        v.timeline_sid.len() == 0 ==> !out,
        v.timeline_sid.len() > 0 ==> coverage_says(d, v.timeline.len(), v.timeline_total, out),
{
}

/// The rows that are shown are those at the filtered places, in their order; places that
/// the timeline does not have are left out.
pub proof fn law_which_rows_are_shown(filter: Seq<usize>, timeline: Seq<EventView>)
    ensures
        shown_events(filter, timeline).len() <= filter.len(),
        (forall|k: int| 0 <= k < filter.len() ==> #[trigger] filter[k] < timeline.len()) ==> {
            &&& shown_events(filter, timeline).len() == filter.len()
            &&& forall|k: int|
                0 <= k < filter.len() ==> (#[trigger] shown_events(filter, timeline)[k])
                    == timeline[filter[k] as int]
        },
        (forall|k: int| 0 <= k < filter.len() ==> #[trigger] filter[k] >= timeline.len())
            ==> shown_events(filter, timeline).len() == 0,
    decreases filter.len(),
{
    if filter.len() > 0 {
        let rest = filter.drop_last();
        law_which_rows_are_shown(rest, timeline);
        assert(filter[filter.len() - 1] == filter.last());
        assert forall|k: int| 0 <= k < rest.len() implies #[trigger] rest[k] == filter[k] by {}
        if forall|k: int| 0 <= k < filter.len() ==> #[trigger] filter[k] < timeline.len() {
            assert forall|k: int| 0 <= k < rest.len() implies #[trigger] rest[k]
                < timeline.len() by {
                assert(filter[k] < timeline.len());
            }
            assert forall|k: int| 0 <= k < filter.len() implies (#[trigger] shown_events(
                filter,
                timeline,
            )[k]) == timeline[filter[k] as int] by {
                if k < rest.len() {
                    assert(shown_events(rest, timeline)[k] == timeline[rest[k] as int]);
                }
            }
        }
        if forall|k: int| 0 <= k < filter.len() ==> #[trigger] filter[k] >= timeline.len() {
            assert forall|k: int| 0 <= k < rest.len() implies #[trigger] rest[k]
                >= timeline.len() by {
                assert(filter[k] >= timeline.len());
            }
        }
    }
}

/// The line above the timeline counts the shown rows; while the timeline is not
/// complete, also those that are loaded, and all there are. Without an overview it is
/// empty.
pub proof fn law_the_count_line<D: Domain>(d: &D, h: &Hud, r: String) -> (complete: bool)
    requires
        call_ensures(Hud::timeline_meta::<D>, (h, d), r),
    ensures
        h@.overview_sid.len() == 0 ==> r@.len() == 0,
        h@.overview_sid.len() > 0 ==> {
            &&& complete_is(d, h@, complete)
            &&& complete ==> r@ == decimal(h@.tl_filter.len())
            &&& !complete ==> r@ == decimal(h@.tl_filter.len()) + "+ · "@ + decimal(
                h@.timeline.len(),
            ) + "/"@ + decimal(h@.timeline_total as nat)
        },
{
    if h@.overview_sid.len() > 0 {
        choose|complete: bool| #[trigger]
            complete_is(d, h@, complete) && r@ == crate::hud::meta_line(
                h@.tl_filter.len(),
                h@.timeline.len(),
                h@.timeline_total as nat,
                complete,
            )
    } else {
        false
    }
}

/// While a delete request waits, its time is watched four times a second, and else not.
pub proof fn law_when_a_delete_is_watched<D: Domain>(d: &D, h: &Hud, r: Timers)
    requires
        call_ensures(Hud::timers::<D>, (h, d), r),
    ensures
        rate_is(d, h@, r.refresh),
        h@.note_delete_until is Some ==> r.delete_ms == Some(250u64),
        h@.note_delete_until is None ==> r.delete_ms is None,
{
}

/// Of the events of the window system a request to close always counts, and a key when
/// nothing else took it.
pub proof fn law_which_events_count(event: HudEvent, ignored: bool, r: Option<Message>)
    requires
        call_ensures(interesting_hud_event, (event, ignored), r),
    ensures
        r is Some ==> r->0 == Message::RawEvent(event),
        r is Some <==> event is CloseRequested || event is KeyPressed && ignored,
{
}

/// A quiet request for the list asks for what changed since a revision that is known;
/// any other one asks for the whole list.
pub proof fn law_what_list_is_asked_for(quiet: bool, since: i64, r: ListQuery)
    requires
        call_ensures(list_query, (quiet, since), r),
    ensures
        quiet && since > 0 ==> r == (ListQuery::Since { limit: 10_000, offset: 0, since }),
        !quiet || since <= 0 ==> r == ListQuery::All,
{
}

/// The overlay counts as there when it is visible, not a desktop window, and has a
/// window.
pub proof fn law_when_the_overlay_is_there(a: bool, b: bool, c: bool, r: bool)
    requires
        call_ensures(overlay_already_mapped, (a, b, c), r),
    ensures
        r <==> a && !b && c,
{
}

/// What the palette answers about itself: its rows, the selected session, how the shown
/// one is named, the shown rows of the timeline and the place of the marked one.
pub proof fn law_what_the_palette_answers<D: Domain>(
    d: &D,
    h: &Hud,
    rows: &Vec<SessionRow>,
    sid: Option<String>,
    name: String,
    events: Vec<&TimelineEvent>,
    place: Option<usize>,
)
    ensures
        call_ensures(Hud::sessions, (h,), rows) ==> rows_of(rows@) == rows_in(h@),
        call_ensures(Hud::selected_sid, (h,), sid) ==> {
            &&& sid is Some <==> chosen_id(h@).len() > 0
            &&& sid is Some ==> sid->0@ == chosen_id(h@)
        },
        call_ensures(Hud::overview_rpc_ref::<D>, (h, d), name) ==> names_shown(d, h@, name@),
        call_ensures(Hud::filtered_timeline, (h,), events) ==> {
            &&& events@.len() == shown_events(h@.tl_filter, h@.timeline).len()
            &&& forall|i: int|
                0 <= i < events@.len() ==> (#[trigger] events@[i])@ == shown_events(
                    h@.tl_filter,
                    h@.timeline,
                )[i]
        },
        call_ensures(Hud::timeline_focus_pos, (h,), place) ==> {
            &&& h@.timeline_focus is None ==> place is None
            &&& h@.timeline_focus is Some ==> first_of(
                h@,
                h@.timeline_focus->0,
                match place {
                    Some(p) => Some(p as int),
                    None => None,
                },
            )
        },
{
    law_where_the_marked_row_is(h@);
    if call_ensures(Hud::overview_rpc_ref::<D>, (h, d), name) {
        law_requests_name_the_shown_session(d, h@, name@);
    }
    if call_ensures(Hud::filtered_timeline, (h,), events) {
        let shown = shown_events(h@.tl_filter, h@.timeline);
        let views = events@.map_values(|e: &TimelineEvent| e@);
        assert(views == shown);
        assert forall|i: int| 0 <= i < events@.len() implies (#[trigger] events@[i])@
            == shown[i] by {
            assert(views[i] == events@[i]@);
        }
    }
}

} // verus!
