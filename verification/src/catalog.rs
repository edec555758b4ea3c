//! The session list: its order, the selection, and answers from control.

use vstd::prelude::*;
use vstd::string::*;
use serde_json::Value;

use crate::domain::{
    ask_delta, ask_merge, ask_partial, ask_rank, ask_rows, delta_says, merge_says, partial_says,
    rank_says, rows_say, Domain,
};
use crate::event::{both, effects_of, nothing, only, Effect, EffectView};
use crate::hud::{selected_id, shown, Hud, HudView};
use crate::json::{json_of, Json};
use crate::model::{page_of, rows_of, texts_of, PageView, RowView, SessionListPage, SessionRow};
use crate::text;
use crate::text::{decimal, text_before, trimmed};

verus! {

// ---------------------------------------------------------------------------
// Order
// ---------------------------------------------------------------------------

/// `a` stands before `b` in the list: it was active later, or at the same time
/// and its id comes first.
pub open spec fn ahead(a: RowView, b: RowView) -> bool {
    a.sort_epoch > b.sort_epoch || a.sort_epoch == b.sort_epoch && text_before(
        a.session_id,
        b.session_id,
    )
}

/// `out` holds the rows of `rows`, each once: row `i` of `out` is row `from[i]`
/// of `rows`.
pub open spec fn rearranged(rows: Seq<RowView>, out: Seq<RowView>, from: Seq<int>) -> bool {
    &&& out.len() == rows.len()
    &&& from.len() == rows.len()
    &&& forall|i: int| 0 <= i < from.len() ==> 0 <= #[trigger] from[i] < rows.len()
    &&& forall|i: int, j: int|
        0 <= i < j < from.len() ==> #[trigger] from[i] != #[trigger] from[j]
    &&& forall|i: int| 0 <= i < from.len() ==> #[trigger] out[i] == rows[from[i]]
}

/// No row stands before one that is ahead of it, and of two rows neither of which
/// is ahead the one that came first stays first.
pub open spec fn in_order(out: Seq<RowView>, from: Seq<int>) -> bool {
    forall|i: int, j: int|
        0 <= i < j < out.len() ==> ahead(#[trigger] out[i], #[trigger] out[j]) || !ahead(
            out[j],
            out[i],
        ) && from[i] < from[j]
}

/// `out` is `rows` in the order of the list.
pub open spec fn sorts(rows: Seq<RowView>, out: Seq<RowView>) -> bool {
    exists|from: Seq<int>| #[trigger] rearranged(rows, out, from) && in_order(out, from)
}

/// Whether one row stands before another in the list.
fn is_ahead(a: &SessionRow, b: &SessionRow) -> (r: bool)
    ensures
        r == ahead(a@, b@),
{
    a.sort_epoch > b.sort_epoch || a.sort_epoch == b.sort_epoch && text::is_before(
        a.session_id.as_str(),
        b.session_id.as_str(),
    )
}

/// [`ahead`] orders rows.
pub proof fn lemma_ahead(a: RowView, b: RowView, c: RowView)
    ensures
        !(ahead(a, b) && ahead(b, a)),
        ahead(a, b) && ahead(b, c) ==> ahead(a, c),
        ahead(a, b) && !ahead(c, b) ==> ahead(a, c),
        !ahead(b, a) && ahead(b, c) ==> ahead(a, c),
        !ahead(b, a) && !ahead(c, b) ==> !ahead(c, a),
{
    let (x, y, z) = (a.session_id, b.session_id, c.session_id);
    text::lemma_text_before_irreflexive(x);
    text::lemma_text_before_irreflexive(y);
    if text_before(x, y) && text_before(y, x) {
        text::lemma_text_before_transitive(x, y, x);
    }
    if text_before(x, y) && text_before(y, z) {
        text::lemma_text_before_transitive(x, y, z);
    }
    text::lemma_text_before_total(x, y);
    text::lemma_text_before_total(y, z);
    text::lemma_text_before_total(x, z);
    if text_before(z, x) && text_before(x, y) {
        text::lemma_text_before_transitive(z, x, y);
    }
    if text_before(y, z) && text_before(z, x) {
        text::lemma_text_before_transitive(y, z, x);
    }
}

/// The row at place `x` goes before the one at place `y`: it is ahead, or neither
/// is and it came first.
pub open spec fn leads(rows: Seq<RowView>, x: int, y: int) -> bool {
    ahead(rows[x], rows[y]) || !ahead(rows[y], rows[x]) && x < y
}

/// `places` are places from `lo` on and before `hi`, and each goes before those
/// after it.
pub open spec fn is_run(rows: Seq<RowView>, places: Seq<usize>, lo: int, hi: int) -> bool {
    &&& forall|i: int| 0 <= i < places.len() ==> lo <= #[trigger] places[i] < hi
    &&& forall|i: int, j: int|
        0 <= i < j < places.len() ==> leads(
            rows,
            #[trigger] places[i] as int,
            #[trigger] places[j] as int,
        )
}

proof fn lemma_leads(rows: Seq<RowView>, x: int, y: int, z: int)
    requires
        leads(rows, x, y),
        leads(rows, y, z),
    ensures
        leads(rows, x, z),
{
    lemma_ahead(rows[x], rows[y], rows[z]);
}

/// The places of two runs as one run, where every place of `a` is before every
/// place of `b`.
fn merge_runs(
    rows: &Vec<SessionRow>,
    a: Vec<usize>,
    b: Vec<usize>,
    Ghost(lo): Ghost<int>,
    Ghost(mid): Ghost<int>,
    Ghost(hi): Ghost<int>,
) -> (r: Vec<usize>)
    requires
        lo <= mid <= hi <= rows@.len(),
        is_run(rows_of(rows@), a@, lo, mid),
        is_run(rows_of(rows@), b@, mid, hi),
        a@.len() == mid - lo,
        b@.len() == hi - mid,
    ensures
        is_run(rows_of(rows@), r@, lo, hi),
        r@.len() == hi - lo,
{
    let ghost all = rows_of(rows@);
    let mut out: Vec<usize> = Vec::new();
    let mut i: usize = 0;
    let mut j: usize = 0;
    while i < a.len() || j < b.len()
        invariant
            all == rows_of(rows@),
            lo <= mid <= hi <= rows@.len(),
            is_run(all, a@, lo, mid),
            is_run(all, b@, mid, hi),
            is_run(all, out@, lo, hi),
            i <= a@.len(),
            j <= b@.len(),
            out@.len() == i + j,
            forall|k: int, l: int|
                0 <= k < out@.len() && i <= l < a@.len() ==> leads(
                    all,
                    #[trigger] out@[k] as int,
                    #[trigger] a@[l] as int,
                ),
            forall|k: int, l: int|
                0 <= k < out@.len() && j <= l < b@.len() ==> leads(
                    all,
                    #[trigger] out@[k] as int,
                    #[trigger] b@[l] as int,
                ),
        decreases a@.len() - i + b@.len() - j,
    {
        let second: bool = if i == a.len() {
            true
        } else if j == b.len() {
            false
        } else {
            let (x, y): (usize, usize) = (a[i], b[j]);
            assert(all[x as int] == rows@[x as int]@ && all[y as int] == rows@[y as int]@);
            is_ahead(&rows[y], &rows[x])
        };
        if second {
            let y: usize = b[j];
            assert forall|l: int| i <= l < a@.len() implies leads(
                all,
                y as int,
                #[trigger] a@[l] as int,
            ) by {
                if l > i {
                    lemma_leads(all, y as int, a@[i as int] as int, a@[l] as int);
                }
            }
            out.push(y);
            j = j + 1;
        } else {
            let x: usize = a[i];
            assert forall|l: int| j <= l < b@.len() implies leads(
                all,
                x as int,
                #[trigger] b@[l] as int,
            ) by {
                if l > j {
                    lemma_leads(all, x as int, b@[j as int] as int, b@[l] as int);
                }
            }
            out.push(x);
            i = i + 1;
        }
    }
    out
}

/// The places from `lo` on and before `hi`, in the order of their rows.
fn sort_places(rows: &Vec<SessionRow>, lo: usize, hi: usize) -> (r: Vec<usize>)
    requires
        lo <= hi <= rows@.len(),
    ensures
        is_run(rows_of(rows@), r@, lo as int, hi as int),
        r@.len() == hi - lo,
    decreases hi - lo,
{
    if hi - lo <= 1 {
        let mut one: Vec<usize> = Vec::new();
        if lo < hi {
            one.push(lo);
        }
        return one;
    }
    let mid: usize = lo + (hi - lo) / 2;
    let a: Vec<usize> = sort_places(rows, lo, mid);
    let b: Vec<usize> = sort_places(rows, mid, hi);
    merge_runs(rows, a, b, Ghost(lo as int), Ghost(mid as int), Ghost(hi as int))
}

/// Rows in the order of the list.
pub fn sort_rows(rows: Vec<SessionRow>) -> (r: Vec<SessionRow>)
    ensures
        sorts(rows_of(rows@), rows_of(r@)),
{
    let ghost all = rows_of(rows@);
    let n: usize = rows.len();
    let places: Vec<usize> = sort_places(&rows, 0, n);
    let mut out: Vec<SessionRow> = Vec::new();
    let mut k: usize = 0;
    while k < n
        invariant
            n == rows@.len(),
            n == places@.len(),
            k <= n,
            k == out@.len(),
            all == rows_of(rows@),
            is_run(all, places@, 0, n as int),
            forall|i: int| 0 <= i < k ==> (#[trigger] out@[i])@ == all[places@[i] as int],
        decreases n - k,
    {
        let p: usize = places[k];
        assert(all[p as int] == rows@[p as int]@);
        out.push(rows[p].clone());
        k = k + 1;
    }
    proof {
        let from = Seq::new(n as nat, |i: int| places@[i] as int);
        assert forall|i: int, j: int| 0 <= i < j < from.len() implies #[trigger] from[i]
            != #[trigger] from[j] by {
            assert(leads(all, places@[i] as int, places@[j] as int));
            lemma_ahead(all[from[i]], all[from[i]], all[from[i]]);
        }
        assert(rearranged(all, rows_of(out@), from));
        assert forall|i: int, j: int| 0 <= i < j < from.len() implies ahead(
            #[trigger] rows_of(out@)[i],
            #[trigger] rows_of(out@)[j],
        ) || !ahead(rows_of(out@)[j], rows_of(out@)[i]) && from[i] < from[j] by {
            assert(leads(all, places@[i] as int, places@[j] as int));
        }
    }
    out
}

// ---------------------------------------------------------------------------
// Selection
// ---------------------------------------------------------------------------

/// The rows at the given places that the list has, in the order of the places.
pub open spec fn picked(rows: Seq<RowView>, places: Seq<usize>) -> Seq<RowView>
    decreases places.len(),
{
    if places.len() == 0 {
        seq![]
    } else {
        let rest = picked(rows, places.drop_last());
        if places.last() < rows.len() {
            rest.push(rows[places.last() as int])
        } else {
            rest
        }
    }
}

/// The rows at the given places that the list has.
pub fn pick_rows(rows: &Vec<SessionRow>, places: &Vec<usize>) -> (r: Vec<SessionRow>)
    ensures
        rows_of(r@) == picked(rows_of(rows@), places@),
{
    let ghost all = rows_of(rows@);
    let n: usize = places.len();
    let mut out: Vec<SessionRow> = Vec::new();
    let mut i: usize = 0;
    assert(rows_of(out@) =~= picked(all, places@.take(0)));
    while i < n
        invariant
            n == places@.len(),
            i <= n,
            all == rows_of(rows@),
            rows_of(out@) == picked(all, places@.take(i as int)),
        decreases n - i,
    {
        let p: usize = places[i];
        let ghost before = out@;
        assert(places@.take(i + 1).drop_last() =~= places@.take(i as int));
        if p < rows.len() {
            out.push(rows[p].clone());
            assert(rows_of(out@) =~= rows_of(before).push(all[p as int]));
        }
        i = i + 1;
    }
    assert(places@.take(n as int) =~= places@);
    out
}

/// The place, from `from` on, of the first row of session `sid`.
pub open spec fn place_from(rows: Seq<RowView>, sid: Seq<char>, from: int) -> Option<int>
    decreases rows.len() - from,
{
    if from < 0 || from >= rows.len() {
        None
    } else if rows[from].session_id == sid {
        Some(from)
    } else {
        place_from(rows, sid, from + 1)
    }
}

/// The place of the first row of session `sid`.
pub fn find_row(rows: &Vec<SessionRow>, sid: &str) -> (r: Option<usize>)
    ensures
        match r {
            Some(i) => place_from(rows_of(rows@), sid@, 0) == Some(i as int),
            None => place_from(rows_of(rows@), sid@, 0) is None,
        },
{
    let ghost all = rows_of(rows@);
    let n: usize = rows.len();
    let mut i: usize = 0;
    while i < n
        invariant
            n == rows@.len(),
            i <= n,
            all == rows_of(rows@),
            place_from(all, sid@, 0) == place_from(all, sid@, i as int),
        decreases n - i,
    {
        assert(all[i as int] == rows@[i as int]@);
        if text::same(rows[i].session_id.as_str(), sid) {
            return Some(i);
        }
        i = i + 1;
    }
    None
}

/// The session that stays selected: the selected one, else the one in the
/// overview.
pub open spec fn kept_id(v: HudView) -> Seq<char> {
    match selected_id(v) {
        Some(s) => s,
        None => v.overview_sid,
    }
}

/// Where the selection goes when the list is `rows`: with the session that stays
/// selected, else to the top; without such a session it stays where it is, within
/// the list.
pub open spec fn placed(rows: Seq<RowView>, keep: Seq<char>, active: int) -> int {
    if keep.len() > 0 {
        match place_from(rows, keep, 0) {
            Some(i) => i,
            None => 0,
        }
    } else if active < rows.len() {
        active
    } else if rows.len() > 0 {
        rows.len() - 1
    } else {
        0
    }
}

/// Where the selection goes when the list is `rows`.
pub fn place_in(rows: &Vec<SessionRow>, keep: &String, active: usize) -> (r: usize)
    ensures
        r == placed(rows_of(rows@), keep@, active as int),
{
    let n: usize = rows.len();
    if !keep.as_str().is_empty() {
        match find_row(rows, keep.as_str()) {
            Some(i) => i,
            None => 0,
        }
    } else if active < n {
        active
    } else if n > 0 {
        n - 1
    } else {
        0
    }
}

/// The list is ranked: by the rows that match the search, given by their places,
/// or as the whole catalog when there is no search.
pub open spec fn ranked_by(pre: HudView, places: Seq<usize>, post: HudView) -> bool {
    &&& post == HudView {
        sessions: post.sessions,
        active: placed(shown(post), kept_id(pre), pre.active),
        ..pre
    }
    &&& if trimmed(pre.query).len() == 0 {
        post.sessions == Seq::<RowView>::empty()
    } else {
        sorts(picked(pre.all_sessions, places), post.sessions)
    }
}

/// The list is ranked anew.
#[verifier::opaque]
pub open spec fn reranked<D: Domain>(d: &D, pre: HudView, post: HudView) -> bool {
    if trimmed(pre.query).len() == 0 {
        ranked_by(pre, seq![], post)
    } else {
        exists|places: Seq<usize>| #[trigger]
            rank_says(d, trimmed(pre.query), pre.all_sessions, places) && ranked_by(
                pre,
                places,
                post,
            )
    }
}

impl Hud {
    /// Ranks the list by the rows that match the search.
    pub fn rank_by(&mut self, places: &Vec<usize>) -> (fx: Vec<Effect>)
        ensures
            ranked_by(old(self)@, places@, final(self)@),
            effects_of(fx@) == seq![EffectView::ClampList(shown(final(self)@).len() as int)],
            final(self).has_room() == old(self).has_room(),
    {
        let keep: String = match self.selected_sid() {
            Some(s) => s,
            None => self.overview_sid.clone(),
        };
        assert(keep@ == kept_id(self@));
        let rows: Vec<SessionRow> = if text::is_blank(self.query.as_str()) {
            let none: Vec<SessionRow> = Vec::new();
            assert(rows_of(none@) =~= Seq::<RowView>::empty());
            none
        } else {
            sort_rows(pick_rows(&self.all_sessions, places))
        };
        self.replace_matches(rows);
        let n: usize = self.sessions().len();
        let active: usize = place_in(self.sessions(), &keep, self.active);
        assert(active == placed(shown(self@), keep@, self@.active));
        self.select(active);
        only(Effect::ClampList(n))
    }

    /// Makes `rows` the rows that match the search.
    fn replace_matches(&mut self, rows: Vec<SessionRow>)
        ensures
            final(self)@ == (HudView { sessions: rows_of(rows@), ..old(self)@ }),
            final(self).has_room() == old(self).has_room(),
    {
        self.sessions = rows;
    }

    /// Selects a row.
    fn select(&mut self, active: usize)
        ensures
            final(self)@ == (HudView { active: active as int, ..old(self)@ }),
            final(self).has_room() == old(self).has_room(),
    {
        self.active = active;
    }

    /// Ranks the list anew.
    pub fn rerank_visible<D: Domain>(&mut self, d: &D) -> (fx: Vec<Effect>)
        ensures
            reranked(d, old(self)@, final(self)@),
            final(self)@ == (HudView {
                sessions: final(self)@.sessions,
                active: final(self)@.active,
                ..old(self)@
            }),
            effects_of(fx@) == seq![EffectView::ClampList(shown(final(self)@).len() as int)],
            final(self).has_room() == old(self).has_room(),
    {
        reveal(reranked);
        let places: Vec<usize> = if text::is_blank(self.query.as_str()) {
            let none: Vec<usize> = Vec::new();
            assert(none@ =~= seq![]);
            none
        } else {
            let query: String = text::trim_owned(self.query.as_str());
            ask_rank(d, &query, &self.all_sessions)
        };
        self.rank_by(&places)
    }
}

// ---------------------------------------------------------------------------
// Answers from control
// ---------------------------------------------------------------------------

/// The status line that counts the sessions.
pub open spec fn count_line(n: nat) -> Seq<char> {
    decimal(n) + " sessions · ready"@
}

/// The list is `rows` now, ranked anew.
#[verifier::opaque]
pub open spec fn refilled<D: Domain>(
    d: &D,
    pre: HudView,
    rows: Seq<RowView>,
    status: Seq<char>,
    status_err: bool,
    post: HudView,
    fx: Seq<EffectView>,
) -> bool {
    &&& reranked(d, HudView { all_sessions: rows, status, status_err, ..pre }, post)
    &&& fx == seq![EffectView::ClampList(shown(post).len() as int)]
}

/// The status line after a whole catalog came: it counts the sessions, or says
/// that there are none, or none that match.
pub open spec fn catalog_status(v: HudView) -> Seq<char> {
    if shown(v).len() > 0 {
        count_line(v.all_sessions.len())
    } else if trimmed(v.query).len() == 0 {
        "No sessions from control · is groket serve running?"@
    } else {
        "No matches for “"@ + trimmed(v.query) + "”"@
    }
}

/// The palette after a whole catalog came, with its status line; a quiet answer
/// leaves the text of it.
pub open spec fn catalog_told(v: HudView, quiet: bool) -> HudView {
    if quiet {
        HudView { status_err: false, ..v }
    } else {
        HudView {
            status: catalog_status(v),
            status_err: shown(v).len() == 0 && trimmed(v.query).len() == 0,
            ..v
        }
    }
}

/// The effects of a whole catalog: one without any session is logged.
pub open spec fn told_effects(v: HudView, quiet: bool) -> Seq<EffectView> {
    if !quiet && shown(v).len() == 0 && trimmed(v.query).len() == 0 {
        seq![EffectView::LogError("no sessions from control"@)]
    } else {
        Seq::empty()
    }
}

/// A part of the catalog came: what is in it is added to the list.
pub open spec fn part_taken<D: Domain>(
    d: &D,
    pre: HudView,
    incoming: Seq<RowView>,
    post: HudView,
    fx: Seq<EffectView>,
) -> bool {
    if incoming.len() == 0 {
        post == pre && fx == Seq::<EffectView>::empty()
    } else {
        &&& delta_says(d, pre.all_sessions, incoming, seq![], post.all_sessions)
        &&& refilled(d, pre, post.all_sessions, pre.status, false, post, fx)
    }
}

/// The catalog is `rows` now; the list is ranked anew, and the status line written.
#[verifier::opaque]
pub open spec fn catalog_put<D: Domain>(
    d: &D,
    pre: HudView,
    rows: Seq<RowView>,
    quiet: bool,
    post: HudView,
    fx: Seq<EffectView>,
) -> bool {
    let ranked = HudView { status: pre.status, status_err: pre.status_err, ..post };
    &&& reranked(d, HudView { all_sessions: rows, ..pre }, ranked)
    &&& post == catalog_told(ranked, quiet)
    &&& fx == seq![EffectView::ClampList(shown(post).len() as int)] + told_effects(ranked, quiet)
}

/// The catalog came. One that leaves nothing of a list with rows is not taken when
/// it is `doubtful`.
pub open spec fn whole_taken<D: Domain>(
    d: &D,
    pre: HudView,
    incoming: Seq<RowView>,
    doubtful: bool,
    quiet: bool,
    post: HudView,
    fx: Seq<EffectView>,
) -> bool {
    let known = pre.all_sessions.len() > 0;
    ||| {
        &&& known && doubtful
        &&& merge_says(d, pre.all_sessions, incoming, seq![])
        &&& post == pre
        &&& fx == Seq::<EffectView>::empty()
    }
    ||| {
        &&& !(known && doubtful && post.all_sessions.len() == 0)
        &&& merge_says(d, pre.all_sessions, incoming, post.all_sessions)
        &&& catalog_put(d, pre, post.all_sessions, quiet, post, fx)
    }
}

/// A list answer brought the rows `incoming`, as a whole catalog or a part of it.
#[verifier::opaque]
pub open spec fn catalog_taken<D: Domain>(
    d: &D,
    pre: HudView,
    incoming: Seq<RowView>,
    matched: i64,
    incomplete: bool,
    building: bool,
    quiet: bool,
    post: HudView,
    fx: Seq<EffectView>,
) -> bool {
    let known = pre.all_sessions.len() > 0;
    let n = incoming.len();
    let doubtful = quiet || incomplete || building;
    ||| {
        &&& known
        &&& partial_says(d, n, matched, false, incomplete, building, true)
        &&& part_taken(d, pre, incoming, post, fx)
    }
    ||| {
        &&& known ==> partial_says(d, n, matched, false, incomplete, building, false)
        &&& whole_taken(d, pre, incoming, doubtful, quiet, post, fx)
    }
}

/// The rows in a list answer without page: those that it lists, if any.
pub open spec fn bare_rows_are<D: Domain>(d: &D, data: Json, incoming: Seq<RowView>) -> bool {
    rows_say(d, data, Some(incoming)) || rows_say(d, data, None) && incoming == Seq::<
        RowView,
    >::empty()
}

/// The palette that knows of a revision of the catalog, if it is one.
pub open spec fn revised(v: HudView, revision: i64) -> HudView {
    if revision > 0 {
        HudView { catalog_revision: revision, ..v }
    } else {
        v
    }
}

/// A list answer came, with `page` in it.
pub open spec fn listed<D: Domain>(
    d: &D,
    pre: HudView,
    data: Json,
    page: Option<PageView>,
    quiet: bool,
    post: HudView,
    fx: Seq<EffectView>,
) -> bool {
    match page {
        Some(p) => {
            let v = revised(pre, p.revision);
            if quiet && p.unchanged {
                post == (HudView { status_err: false, ..v }) && fx == Seq::<EffectView>::empty()
            } else if p.delta {
                &&& delta_says(d, v.all_sessions, p.sessions, p.removed, post.all_sessions)
                &&& refilled(
                    d,
                    v,
                    post.all_sessions,
                    if quiet {
                        v.status
                    } else {
                        count_line(post.all_sessions.len())
                    },
                    false,
                    post,
                    fx,
                )
            } else {
                catalog_taken(
                    d,
                    v,
                    p.sessions,
                    p.matched,
                    p.incomplete,
                    p.building,
                    quiet,
                    post,
                    fx,
                )
            }
        },
        None => exists|incoming: Seq<RowView>| #[trigger]
            bare_rows_are(d, data, incoming) && catalog_taken(
                d,
                pre,
                incoming,
                0,
                false,
                false,
                quiet,
                post,
                fx,
            ),
    }
}

/// Writes the status line that counts the sessions.
pub fn write_count(n: usize) -> (r: String)
    ensures
        r@ == count_line(n as nat),
{
    let mut s: String = text::write_decimal(n as u64);
    s.append(" sessions · ready");
    s
}

impl Hud {
    /// Takes the rows of a list answer.
    fn take_catalog<D: Domain>(
        &mut self,
        d: &D,
        incoming: Vec<SessionRow>,
        matched: i64,
        incomplete: bool,
        building: bool,
        quiet: bool,
    ) -> (fx: Vec<Effect>)
        ensures
            catalog_taken(
                d,
                old(self)@,
                rows_of(incoming@),
                matched,
                incomplete,
                building,
                quiet,
                final(self)@,
                effects_of(fx@),
            ),
            final(self).has_room() == old(self).has_room(),
    {
        reveal(catalog_taken);
        let known: bool = self.all_sessions.len() > 0;
        if known && ask_partial(d, incoming.len(), matched, false, incomplete, building) {
            self.take_part(d, incoming)
        } else {
            self.take_whole(d, incoming, quiet || incomplete || building, quiet)
        }
    }

    /// Adds a part of the catalog to the list.
    fn take_part<D: Domain>(&mut self, d: &D, incoming: Vec<SessionRow>) -> (fx: Vec<Effect>)
        ensures
            part_taken(d, old(self)@, rows_of(incoming@), final(self)@, effects_of(fx@)),
            final(self).has_room() == old(self).has_room(),
    {
        if incoming.len() == 0 {
            return nothing();
        }
        let gone: Vec<String> = Vec::new();
        assert(texts_of(gone@) =~= seq![]);
        let rows: Vec<SessionRow> = ask_delta(d, &self.all_sessions, &incoming, &gone);
        let status: String = self.status.clone();
        self.refill(d, rows, status)
    }

    /// Takes a catalog.
    fn take_whole<D: Domain>(
        &mut self,
        d: &D,
        incoming: Vec<SessionRow>,
        doubtful: bool,
        quiet: bool,
    ) -> (fx: Vec<Effect>)
        ensures
            whole_taken(
                d,
                old(self)@,
                rows_of(incoming@),
                doubtful,
                quiet,
                final(self)@,
                effects_of(fx@),
            ),
            final(self).has_room() == old(self).has_room(),
    {
        let rows: Vec<SessionRow> = ask_merge(d, &self.all_sessions, &incoming);
        if doubtful && rows.len() == 0 && self.all_sessions.len() > 0 {
            assert(rows_of(rows@) =~= seq![]);
            return nothing();
        }
        self.put_catalog(d, rows, quiet)
    }

    /// Makes `rows` the catalog, ranks the list and writes the status line.
    fn put_catalog<D: Domain>(&mut self, d: &D, rows: Vec<SessionRow>, quiet: bool) -> (fx: Vec<
        Effect,
    >)
        ensures
            catalog_put(d, old(self)@, rows_of(rows@), quiet, final(self)@, effects_of(fx@)),
            final(self)@.all_sessions == rows_of(rows@),
            final(self).has_room() == old(self).has_room(),
    {
        reveal(catalog_put);
        let ghost pre = self@;
        self.replace_rows(rows);
        let fx: Vec<Effect> = self.rerank_visible(d);
        let ghost ranked = self@;
        let log: Vec<Effect> = self.tell_catalog(quiet);
        assert(ranked == HudView { status: pre.status, status_err: pre.status_err, ..self@ });
        both(fx, log)
    }

    /// Makes `rows` the catalog.
    fn replace_rows(&mut self, rows: Vec<SessionRow>)
        ensures
            final(self)@ == (HudView { all_sessions: rows_of(rows@), ..old(self)@ }),
            final(self).has_room() == old(self).has_room(),
    {
        self.all_sessions = rows;
    }

    /// Writes the status line after a whole catalog came.
    fn tell_catalog(&mut self, quiet: bool) -> (fx: Vec<Effect>)
        ensures
            final(self)@ == catalog_told(old(self)@, quiet),
            effects_of(fx@) == told_effects(old(self)@, quiet),
            final(self).has_room() == old(self).has_room(),
    {
        if quiet {
            self.mark_up();
            nothing()
        } else {
            let empty: bool = self.sessions().len() == 0;
            let blank: bool = text::is_blank(self.query.as_str());
            let status: String = if !empty {
                write_count(self.all_sessions.len())
            } else if blank {
                "No sessions from control · is groket serve running?".to_string()
            } else {
                let mut line: String = "No matches for “".to_string();
                line.append(text::trim_owned(self.query.as_str()).as_str());
                line.append("”");
                line
            };
            self.set_status(status, empty && blank);
            if empty && blank {
                only(Effect::LogError("no sessions from control".to_string()))
            } else {
                nothing()
            }
        }
    }

    /// Takes note of a revision of the catalog.
    fn revise(&mut self, revision: i64)
        ensures
            final(self)@ == revised(old(self)@, revision),
            final(self).has_room() == old(self).has_room(),
    {
        if revision > 0 {
            self.catalog_revision = revision;
        }
    }

    /// Makes `rows` the list.
    fn refill<D: Domain>(&mut self, d: &D, rows: Vec<SessionRow>, status: String) -> (fx: Vec<
        Effect,
    >)
        ensures
            final(self)@.all_sessions == rows_of(rows@),
            refilled(
                d,
                old(self)@,
                rows_of(rows@),
                status@,
                false,
                final(self)@,
                effects_of(fx@),
            ),
            final(self).has_room() == old(self).has_room(),
    {
        reveal(refilled);
        self.all_sessions = rows;
        self.status = status;
        self.status_err = false;
        self.rerank_visible(d)
    }

    /// Takes a list answer, with the page that was read from it.
    pub fn apply_list<D: Domain>(
        &mut self,
        d: &D,
        data: &Value,
        page: Option<SessionListPage>,
        quiet: bool,
    ) -> (fx: Vec<Effect>)
        ensures
            listed(
                d,
                old(self)@,
                json_of(*data),
                page_of(page),
                quiet,
                final(self)@,
                effects_of(fx@),
            ),
            final(self).has_room() == old(self).has_room(),
    {
        match page {
            Some(p) => {
                self.revise(p.revision);
                if quiet && p.unchanged {
                    self.mark_up();
                    return nothing();
                }
                if p.delta {
                    let rows: Vec<SessionRow> = ask_delta(
                        d,
                        &self.all_sessions,
                        &p.sessions,
                        &p.removed,
                    );
                    let status: String = if quiet {
                        self.status.clone()
                    } else {
                        write_count(rows.len())
                    };
                    return self.refill(d, rows, status);
                }
                self.take_catalog(d, p.sessions, p.matched, p.incomplete, p.building, quiet)
            },
            None => {
                let incoming: Vec<SessionRow> = match ask_rows(d, data) {
                    Some(rows) => rows,
                    None => {
                        let none: Vec<SessionRow> = Vec::new();
                        assert(rows_of(none@) =~= seq![]);
                        none
                    },
                };
                assert(bare_rows_are(d, json_of(*data), rows_of(incoming@)));
                self.take_catalog(d, incoming, 0, false, false, quiet)
            },
        }
    }
}

} // verus!
