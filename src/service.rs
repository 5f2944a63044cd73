use vstd::prelude::*;
use crate::model::{
    FieldError, GameView, JeuVideo, RecordId, is_valid, violations, same_content,
};
use crate::outside::{
    contains_str, fresh_object_id, id_bytes_of, is_id_text, is_infix, lower_of, lowercase,
    now_millis, parse_object_id,
};
use crate::stats::{GameStats, compute_stats};

verus! {

/// Why a service operation failed.
#[derive(Debug)]
pub enum ServiceError {
    /// The identifier text is not a well-formed identifier.
    BadRequest,
    /// The input breaks these constraints, every one of them listed.
    Validation(Vec<FieldError>),
    /// No record has the identifier.
    NotFound,
    /// The collection refused the write: the identifier is already taken.
    StoreError,
}

/// Whether the store answered its liveness probe.
#[derive(Clone, Copy, Debug, PartialEq, Eq, Structural)]
pub enum HealthStatus {
    Up,
    Down,
}

/// Reports the service as up exactly when the store answered its probe.
pub fn health_check(store_answered: bool) -> (r: HealthStatus)
    ensures
        (r == HealthStatus::Up) == store_answered,
        (r == HealthStatus::Down) == !store_answered,
{
    if store_answered {
        HealthStatus::Up
    } else {
        HealthStatus::Down
    }
}

/// Reads identifier text: `Some` exactly when it is 24 hexadecimal digits.
pub fn parse_id(s: &str) -> (r: Option<RecordId>)
    ensures
        r is Some <==> is_id_text(s@),
        r matches Some(id) ==> id@ == id_bytes_of(s@),
{
    match parse_object_id(s) {
        Some(b) => Some(RecordId { bytes: b }),
        None => None,
    }
}

/// Optional filters of a listing; each one present must hold.
#[derive(Debug)]
pub struct SearchParams {
    /// One of the record's genres equals this exactly.
    pub genre: Option<String>,
    /// One of the record's platforms equals this exactly.
    pub plateforme: Option<String>,
    /// The title holds this, ignoring case.
    pub titre: Option<String>,
}

pub struct SearchView {
    pub genre: Option<Seq<char>>,
    pub plateforme: Option<Seq<char>>,
    pub titre: Option<Seq<char>>,
}

impl View for SearchParams {
    type V = SearchView;

    open spec fn view(&self) -> SearchView {
        SearchView {
            genre: crate::model::opt_str_view(self.genre),
            plateforme: crate::model::opt_str_view(self.plateforme),
            titre: crate::model::opt_str_view(self.titre),
        }
    }
}

/// A record passes the filters of a listing.
pub open spec fn search_matches(g: GameView, p: SearchView) -> bool {
    &&& (p.genre matches Some(x) ==> g.genre.contains(x))
    &&& (p.plateforme matches Some(x) ==> g.plateforme.contains(x))
    &&& (p.titre matches Some(t) ==> is_infix(lower_of(t), lower_of(g.titre)))
}

/// The records of `s` that pass the filters, in their order.
pub open spec fn select(s: Seq<GameView>, p: SearchView) -> Seq<GameView>
    decreases s.len(),
{
    if s.len() == 0 {
        Seq::empty()
    } else if search_matches(s.last(), p) {
        select(s.drop_last(), p).push(s.last())
    } else {
        select(s.drop_last(), p)
    }
}

fn list_contains(v: &Vec<String>, x: &String) -> (r: bool)
    ensures
        r == v.deep_view().contains(x@),
{
    let mut i: usize = 0;
    while i < v.len()
        invariant
            0 <= i <= v.len(),
            forall|k: int| 0 <= k < i ==> v.deep_view()[k] != x@,
        decreases v.len() - i,
    {
        if v[i] == *x {
            assert(v.deep_view()[i as int] == x@);
            return true;
        }
        i = i + 1;
    }
    proof {
        if v.deep_view().contains(x@) {
            let k = choose|k: int| 0 <= k < v.deep_view().len() && v.deep_view()[k] == x@;
            assert(v.deep_view()[k] != x@);
        }
    }
    false
}

/// Whether a record passes the filters of a listing.
pub fn matches_search(g: &JeuVideo, p: &SearchParams) -> (r: bool)
    ensures
        r == search_matches(g@, p@),
{
    match &p.genre {
        Some(x) => {
            if !list_contains(&g.genre, x) {
                return false;
            }
        },
        None => {},
    }
    match &p.plateforme {
        Some(x) => {
            if !list_contains(&g.plateforme, x) {
                return false;
            }
        },
        None => {},
    }
    match &p.titre {
        Some(t) => {
            let lt = lowercase(t.as_str());
            let lg = lowercase(g.titre.as_str());
            contains_str(lg.as_str(), lt.as_str())
        },
        None => true,
    }
}

fn copy_strings(v: &Vec<String>) -> (r: Vec<String>)
    ensures
        r.deep_view() == v.deep_view(),
{
    let mut out: Vec<String> = Vec::new();
    let mut i: usize = 0;
    while i < v.len()
        invariant
            0 <= i <= v.len(),
            out@.len() == i,
            forall|k: int| 0 <= k < i ==> #[trigger] out@[k]@ == v@[k]@,
        decreases v.len() - i,
    {
        let s = v[i].clone();
        out.push(s);
        i = i + 1;
    }
    assert(out.deep_view() =~= v.deep_view());
    out
}

fn copy_opt(o: &Option<String>) -> (r: Option<String>)
    ensures
        crate::model::opt_str_view(r) == crate::model::opt_str_view(*o),
{
    match o {
        Some(s) => Some(s.clone()),
        None => None,
    }
}

impl JeuVideo {
    /// A copy of the record with the same value.
    pub fn duplicate(&self) -> (r: JeuVideo)
        ensures
            r@ == self@,
    {
        JeuVideo {
            id: self.id,
            titre: self.titre.clone(),
            genre: copy_strings(&self.genre),
            plateforme: copy_strings(&self.plateforme),
            editeur: copy_opt(&self.editeur),
            developpeur: copy_opt(&self.developpeur),
            annee_sortie: self.annee_sortie,
            metacritic_score: self.metacritic_score,
            temps_jeu_centiemes: self.temps_jeu_centiemes,
            termine: self.termine,
            date_ajout: self.date_ajout,
            date_modification: self.date_modification,
            favori: self.favori,
        }
    }
}

/// Some record of `s` has the identifier.
pub open spec fn holds_id(s: Seq<GameView>, id: Seq<u8>) -> bool {
    exists|i: int| 0 <= i < s.len() && #[trigger] s[i].id == Some(id)
}

/// The position of the record with the identifier.
pub open spec fn pos_of(s: Seq<GameView>, id: Seq<u8>) -> int {
    choose|i: int| 0 <= i < s.len() && #[trigger] s[i].id == Some(id)
}

/// Every record carries an identifier of twelve bytes, no two the same, and
/// meets every constraint.
pub open spec fn catalog_wf(s: Seq<GameView>) -> bool {
    &&& forall|i: int|
        0 <= i < s.len() ==> (#[trigger] s[i].id matches Some(b) && b.len() == 12 && is_valid(
            s[i],
        ))
    &&& forall|i: int, j: int|
        0 <= i < s.len() && 0 <= j < s.len() && i != j ==> #[trigger] s[i].id != #[trigger] s[j].id
}

/// The record that an input becomes when it is added under `id` at time `now`.
pub open spec fn stamped(g: GameView, id: Seq<u8>, now: i64) -> GameView {
    GameView { id: Some(id), date_ajout: now, date_modification: now, ..g }
}

/// The record that `old` becomes when an input replaces it at time `now`:
/// identifier and creation date are kept.
pub open spec fn replaced(old: GameView, g: GameView, now: i64) -> GameView {
    GameView { id: old.id, date_ajout: old.date_ajout, date_modification: now, ..g }
}

/// The catalog: the collection of game records.
pub struct AppState {
    games: Vec<JeuVideo>,
}

impl View for AppState {
    type V = Seq<GameView>;

    closed spec fn view(&self) -> Seq<GameView> {
        self.games@.map_values(|g: JeuVideo| g@)
    }
}

proof fn lemma_pos_unique(s: Seq<GameView>, id: Seq<u8>, i: int)
    requires
        catalog_wf(s),
        0 <= i < s.len(),
        s[i].id == Some(id),
    ensures
        holds_id(s, id),
        pos_of(s, id) == i,
{
    assert(holds_id(s, id));
    let p = pos_of(s, id);
    assert(s[p].id == Some(id));
}

impl AppState {
    pub open spec fn wf(&self) -> bool {
        catalog_wf(self@)
    }

    /// An empty catalog.
    pub fn new() -> (r: AppState)
        ensures
            r@ == Seq::<GameView>::empty(),
            r.wf(),
    {
        let r = AppState { games: Vec::new() };
        assert(r@ =~= Seq::<GameView>::empty());
        r
    }

    /// Number of records.
    pub fn len(&self) -> (r: usize)
        ensures
            r == self@.len(),
    {
        self.games.len()
    }

    fn find_index(&self, id: &RecordId) -> (r: Option<usize>)
        requires
            self.wf(),
        ensures
            r matches Some(i) ==> i < self@.len() && self@[i as int].id == Some(id@) && pos_of(
                self@,
                id@,
            ) == i,
            r is None ==> !holds_id(self@, id@),
    {
        let mut i: usize = 0;
        while i < self.games.len()
            invariant
                0 <= i <= self.games.len(),
                self.wf(),
                forall|k: int| 0 <= k < i ==> self@[k].id != Some(id@),
            decreases self.games.len() - i,
        {
            let found = match &self.games[i].id {
                Some(g) => g.same_as(id),
                None => false,
            };
            if found {
                proof {
                    lemma_pos_unique(self@, id@, i as int);
                }
                return Some(i);
            }
            i = i + 1;
        }
        proof {
            if holds_id(self@, id@) {
                let k = choose|k: int| 0 <= k < self@.len() && #[trigger] self@[k].id == Some(id@);
                assert(self@[k].id != Some(id@));
            }
        }
        None
    }
}

/// Finds the record that identifier text names.
pub fn get_game(state: &AppState, id: &str) -> (r: Result<JeuVideo, ServiceError>)
    requires
        state.wf(),
    ensures
        !is_id_text(id@) ==> r matches Err(ServiceError::BadRequest),
        is_id_text(id@) && !holds_id(state@, id_bytes_of(id@)) ==> r matches Err(
            ServiceError::NotFound,
        ),
        is_id_text(id@) && holds_id(state@, id_bytes_of(id@)) ==> (r matches Ok(g)
            && g@ == state@[pos_of(state@, id_bytes_of(id@))]),
{
    let rid = match parse_id(id) {
        Some(x) => x,
        None => return Err(ServiceError::BadRequest),
    };
    match state.find_index(&rid) {
        Some(i) => Ok(state.games[i].duplicate()),
        None => Err(ServiceError::NotFound),
    }
}

/// Keeps the records that pass the filters, in their order.
pub fn select_games(games: &Vec<JeuVideo>, params: &SearchParams) -> (r: Vec<JeuVideo>)
    ensures
        r@.map_values(|g: JeuVideo| g@) == select(games@.map_values(|g: JeuVideo| g@), params@),
{
    let ghost all = games@.map_values(|g: JeuVideo| g@);
    let mut out: Vec<JeuVideo> = Vec::new();
    let mut i: usize = 0;
    while i < games.len()
        invariant
            0 <= i <= games.len(),
            all == games@.map_values(|g: JeuVideo| g@),
            out@.map_values(|g: JeuVideo| g@) == select(all.subrange(0, i as int), params@),
        decreases games.len() - i,
    {
        let ghost pre = all.subrange(0, i as int);
        let ghost next = all.subrange(0, i + 1);
        proof {
            assert(next.drop_last() =~= pre);
            assert(next.last() == games@[i as int]@);
        }
        let g = &games[i];
        if matches_search(g, params) {
            let ghost before = out@;
            let c = g.duplicate();
            out.push(c);
            assert(out@.map_values(|g: JeuVideo| g@) =~= before.map_values(|g: JeuVideo| g@).push(c@));
        }
        i = i + 1;
    }
    assert(all.subrange(0, games.len() as int) =~= all);
    out
}

/// Lists the records of the catalog that pass the filters, in its order.
pub fn get_all_games(state: &AppState, params: &SearchParams) -> (r: Vec<JeuVideo>)
    ensures
        r@.map_values(|g: JeuVideo| g@) == select(state@, params@),
{
    select_games(&state.games, params)
}

/// The outcome of a write that the store reports by the number of records
/// it matched: one is success, any other number means no such record.
pub fn outcome_of_count(n: u64) -> (r: Result<(), ServiceError>)
    ensures
        n == 1 ==> r is Ok,
        n != 1 ==> r matches Err(ServiceError::NotFound),
{
    if n == 1 {
        Ok(())
    } else {
        Err(ServiceError::NotFound)
    }
}

/// What an update writes: every client-settable field and the update date.
/// The identifier and the creation date are not part of it.
#[derive(Debug)]
pub struct GameUpdate {
    pub titre: String,
    pub genre: Vec<String>,
    pub plateforme: Vec<String>,
    pub editeur: Option<String>,
    pub developpeur: Option<String>,
    pub annee_sortie: Option<i32>,
    pub metacritic_score: Option<i32>,
    pub temps_jeu_centiemes: Option<i64>,
    pub termine: bool,
    pub favori: bool,
    pub date_modification: i64,
}

/// The record that `prev` becomes when an update is written over it.
pub open spec fn applied(prev: GameView, u: GameUpdate) -> GameView {
    GameView {
        id: prev.id,
        titre: u.titre@,
        genre: u.genre.deep_view(),
        plateforme: u.plateforme.deep_view(),
        editeur: crate::model::opt_str_view(u.editeur),
        developpeur: crate::model::opt_str_view(u.developpeur),
        annee_sortie: u.annee_sortie,
        metacritic_score: u.metacritic_score,
        temps_jeu_centiemes: u.temps_jeu_centiemes,
        termine: u.termine,
        date_ajout: prev.date_ajout,
        date_modification: u.date_modification,
        favori: u.favori,
    }
}

/// Makes the update that a valid input writes at time `now`; whatever the
/// input holds as identifier or dates is dropped. An invalid input gives
/// every constraint it breaks.
pub fn update_fields(input: JeuVideo, now: i64) -> (r: Result<GameUpdate, Vec<FieldError>>)
    ensures
        is_valid(input@) ==> (r matches Ok(u) && u.date_modification == now && forall|
            prev: GameView,
        | #[trigger] applied(prev, u) == replaced(prev, input@, now)),
        !is_valid(input@) ==> (r matches Err(errs) && errs@ == violations(input@)),
{
    let errs = input.validate();
    proof {
        crate::model::lemma_valid_iff_no_violation(input@);
    }
    if errs.len() > 0 {
        return Err(errs);
    }
    let ghost v = input@;
    let u = GameUpdate {
        titre: input.titre,
        genre: input.genre,
        plateforme: input.plateforme,
        editeur: input.editeur,
        developpeur: input.developpeur,
        annee_sortie: input.annee_sortie,
        metacritic_score: input.metacritic_score,
        temps_jeu_centiemes: input.temps_jeu_centiemes,
        termine: input.termine,
        favori: input.favori,
        date_modification: now,
    };
    assert forall|prev: GameView| #[trigger] applied(prev, u) == replaced(prev, v, now) by {}
    Ok(u)
}

/// Writes an update over a record: identifier and creation date stay.
pub fn apply_update(prev: JeuVideo, u: GameUpdate) -> (r: JeuVideo)
    ensures
        r@ == applied(prev@, u),
{
    JeuVideo {
        id: prev.id,
        titre: u.titre,
        genre: u.genre,
        plateforme: u.plateforme,
        editeur: u.editeur,
        developpeur: u.developpeur,
        annee_sortie: u.annee_sortie,
        metacritic_score: u.metacritic_score,
        temps_jeu_centiemes: u.temps_jeu_centiemes,
        termine: u.termine,
        date_ajout: prev.date_ajout,
        date_modification: u.date_modification,
        favori: u.favori,
    }
}

/// Makes a new record of a valid input: it takes the identifier `id` and
/// both dates `now`, whatever the input held there. An invalid input gives
/// every constraint it breaks.
pub fn new_record(input: JeuVideo, id: RecordId, now: i64) -> (r: Result<JeuVideo, Vec<FieldError>>)
    ensures
        is_valid(input@) ==> (r matches Ok(g) && g@ == stamped(input@, id@, now)),
        !is_valid(input@) ==> (r matches Err(errs) && errs@ == violations(input@)),
{
    let errs = input.validate();
    proof {
        crate::model::lemma_valid_iff_no_violation(input@);
    }
    if errs.len() > 0 {
        return Err(errs);
    }
    let mut rec = input;
    rec.id = Some(id);
    rec.date_ajout = now;
    rec.date_modification = now;
    assert(rec@ == stamped(input@, id@, now));
    Ok(rec)
}

/// Adds a valid input under `id`, dated `now`; the input's own identifier
/// and dates are ignored.
pub fn insert_game(state: &mut AppState, input: JeuVideo, id: RecordId, now: i64) -> (r: Result<
    RecordId,
    ServiceError,
>)
    requires
        old(state).wf(),
    ensures
        final(state).wf(),
        !is_valid(input@) ==> (r matches Err(ServiceError::Validation(errs))
            && errs@ == violations(input@)),
        is_valid(input@) && holds_id(old(state)@, id@) ==> r matches Err(ServiceError::StoreError),
        is_valid(input@) && !holds_id(old(state)@, id@) ==> (r matches Ok(x) && x@ == id@),
        r is Ok ==> final(state)@ == old(state)@.push(stamped(input@, id@, now)),
        r is Err ==> final(state)@ == old(state)@,
{
    let rec = match new_record(input, id, now) {
        Ok(g) => g,
        Err(errs) => return Err(ServiceError::Validation(errs)),
    };
    if state.find_index(&id).is_some() {
        return Err(ServiceError::StoreError);
    }
    state.games.push(rec);
    assert(state@ =~= old(state)@.push(stamped(input@, id@, now)));
    proof {
        assert(id@.len() == 12);
        law_create_then_get(old(state)@, input@, id@, now);
    }
    Ok(id)
}

/// Adds a valid input under a fresh identifier, dated now.
pub fn create_game(state: &mut AppState, input: JeuVideo) -> (r: Result<RecordId, ServiceError>)
    requires
        old(state).wf(),
    ensures
        final(state).wf(),
        !is_valid(input@) ==> (r matches Err(ServiceError::Validation(errs))
            && errs@ == violations(input@)),
        is_valid(input@) && r is Err ==> r matches Err(ServiceError::StoreError),
        is_valid(input@) && old(state)@.len() == 0 ==> r is Ok,
        r matches Err(ServiceError::StoreError) ==> old(state)@.len() > 0,
        r matches Ok(x) ==> !holds_id(old(state)@, x@) && exists|now: i64|
            final(state)@ == old(state)@.push(#[trigger] stamped(input@, x@, now)),
        r is Err ==> final(state)@ == old(state)@,
{
    let id = RecordId { bytes: fresh_object_id() };
    let now = now_millis();
    let r = insert_game(state, input, id, now);
    proof {
        if r is Ok {
            assert(final(state)@ == old(state)@.push(stamped(input@, id@, now)));
        }
    }
    r
}

/// Replaces the record that identifier text names by a valid input, dated
/// `now`; its identifier and creation date are kept.
pub fn replace_game(state: &mut AppState, id: &str, input: JeuVideo, now: i64) -> (r: Result<
    (),
    ServiceError,
>)
    requires
        old(state).wf(),
    ensures
        final(state).wf(),
        !is_id_text(id@) ==> r matches Err(ServiceError::BadRequest),
        is_id_text(id@) && !is_valid(input@) ==> (r matches Err(
            ServiceError::Validation(errs),
        ) && errs@ == violations(input@)),
        is_id_text(id@) && is_valid(input@) && !holds_id(old(state)@, id_bytes_of(id@)) ==> r matches Err(
            ServiceError::NotFound,
        ),
        is_id_text(id@) && is_valid(input@) && holds_id(old(state)@, id_bytes_of(id@)) ==> r is Ok,
        r is Ok ==> ({
            let p = pos_of(old(state)@, id_bytes_of(id@));
            final(state)@ == old(state)@.update(p, replaced(old(state)@[p], input@, now))
        }),
        r is Err ==> final(state)@ == old(state)@,
{
    let rid = match parse_id(id) {
        Some(x) => x,
        None => return Err(ServiceError::BadRequest),
    };
    let ghost input_view = input@;
    let upd = match update_fields(input, now) {
        Ok(u) => u,
        Err(errs) => return Err(ServiceError::Validation(errs)),
    };
    let i = match state.find_index(&rid) {
        Some(i) => i,
        None => return Err(ServiceError::NotFound),
    };
    let ghost s0 = state@;
    let prev = state.games.remove(i);
    assert(prev@ == s0[i as int]);
    let rec = apply_update(prev, upd);
    assert(rec@ == replaced(s0[i as int], input_view, now));
    state.games.insert(i, rec);
    assert(state@ =~= s0.update(i as int, replaced(s0[i as int], input_view, now)));
    proof {
        law_update_keeps_identity(s0, rid@, input_view, now);
    }
    Ok(())
}

/// Replaces the record that identifier text names by a valid input, dated now.
pub fn update_game(state: &mut AppState, id: &str, input: JeuVideo) -> (r: Result<(), ServiceError>)
    requires
        old(state).wf(),
    ensures
        final(state).wf(),
        !is_id_text(id@) ==> r matches Err(ServiceError::BadRequest),
        is_id_text(id@) && !is_valid(input@) ==> (r matches Err(
            ServiceError::Validation(errs),
        ) && errs@ == violations(input@)),
        is_id_text(id@) && is_valid(input@) && !holds_id(old(state)@, id_bytes_of(id@)) ==> r matches Err(
            ServiceError::NotFound,
        ),
        is_id_text(id@) && is_valid(input@) && holds_id(old(state)@, id_bytes_of(id@)) ==> r is Ok,
        r is Ok ==> exists|now: i64|
            final(state)@ == old(state)@.update(
                pos_of(old(state)@, id_bytes_of(id@)),
                #[trigger] replaced(old(state)@[pos_of(old(state)@, id_bytes_of(id@))], input@, now),
            ),
        r is Err ==> final(state)@ == old(state)@,
{
    let now = now_millis();
    let r = replace_game(state, id, input, now);
    proof {
        if r is Ok {
            let p = pos_of(old(state)@, id_bytes_of(id@));
            assert(final(state)@ == old(state)@.update(p, replaced(old(state)@[p], input@, now)));
        }
    }
    r
}

/// Removes the record that identifier text names.
pub fn delete_game(state: &mut AppState, id: &str) -> (r: Result<(), ServiceError>)
    requires
        old(state).wf(),
    ensures
        final(state).wf(),
        !is_id_text(id@) ==> r matches Err(ServiceError::BadRequest),
        is_id_text(id@) && !holds_id(old(state)@, id_bytes_of(id@)) ==> r matches Err(
            ServiceError::NotFound,
        ),
        is_id_text(id@) && holds_id(old(state)@, id_bytes_of(id@)) ==> r is Ok,
        r is Ok ==> final(state)@ == old(state)@.remove(pos_of(old(state)@, id_bytes_of(id@))),
        r is Err ==> final(state)@ == old(state)@,
{
    let rid = match parse_id(id) {
        Some(x) => x,
        None => return Err(ServiceError::BadRequest),
    };
    let i = match state.find_index(&rid) {
        Some(i) => i,
        None => return Err(ServiceError::NotFound),
    };
    let ghost s0 = state@;
    let _gone = state.games.remove(i);
    assert(state@ =~= s0.remove(i as int));
    proof {
        assert forall|a: int, b: int|
            0 <= a < state@.len() && 0 <= b < state@.len() && a != b implies #[trigger] state@[a].id
            != #[trigger] state@[b].id by {
            let a0 = if a < i { a } else { a + 1 };
            let b0 = if b < i { b } else { b + 1 };
            assert(state@[a] == s0[a0]);
            assert(state@[b] == s0[b0]);
        }
        assert forall|a: int| 0 <= a < state@.len() implies (#[trigger] state@[a].id matches Some(b)
            && b.len() == 12 && is_valid(state@[a])) by {
            let a0 = if a < i { a } else { a + 1 };
            assert(state@[a] == s0[a0]);
        }
    }
    Ok(())
}

/// Computes the totals over the whole catalog.
pub fn get_stats(state: &AppState) -> (r: GameStats)
    ensures
        r.describes(state@),
{
    compute_stats(&state.games)
}

/// After a valid input is added under an identifier that was free, the
/// catalog stays well formed, the identifier finds the new record, and that
/// record holds the input's fields with equal creation and update dates.
pub proof fn law_create_then_get(s0: Seq<GameView>, input: GameView, id: Seq<u8>, now: i64)
    requires
        catalog_wf(s0),
        is_valid(input),
        id.len() == 12,
        !holds_id(s0, id),
    ensures
        catalog_wf(s0.push(stamped(input, id, now))),
        holds_id(s0.push(stamped(input, id, now)), id),
        ({
            let s1 = s0.push(stamped(input, id, now));
            let g = s1[pos_of(s1, id)];
            &&& same_content(g, input)
            &&& g.id == Some(id)
            &&& g.date_ajout == now
            &&& g.date_modification == now
        }),
{
    let s1 = s0.push(stamped(input, id, now));
    assert forall|i: int, j: int|
        0 <= i < s1.len() && 0 <= j < s1.len() && i != j implies #[trigger] s1[i].id
        != #[trigger] s1[j].id by {
        if i == s0.len() {
            assert(s0[j].id != Some(id));
        } else if j == s0.len() {
            assert(s0[i].id != Some(id));
        }
    }
    assert forall|i: int| 0 <= i < s1.len() implies (#[trigger] s1[i].id matches Some(b)
        && b.len() == 12 && is_valid(s1[i])) by {
        if i < s0.len() {
            assert(s1[i] == s0[i]);
        }
    }
    lemma_pos_unique(s1, id, s0.len() as int);
}

/// A successful update keeps the record's identifier and creation date,
/// sets its update date to the time of the update (later than before
/// whenever that time is), and the identifier still finds it.
pub proof fn law_update_keeps_identity(s0: Seq<GameView>, id: Seq<u8>, input: GameView, now: i64)
    requires
        catalog_wf(s0),
        holds_id(s0, id),
        is_valid(input),
    ensures
        ({
            let p = pos_of(s0, id);
            let s1 = s0.update(p, replaced(s0[p], input, now));
            &&& catalog_wf(s1)
            &&& holds_id(s1, id)
            &&& pos_of(s1, id) == p
            &&& s1[p].id == s0[p].id
            &&& s1[p].date_ajout == s0[p].date_ajout
            &&& s1[p].date_modification == now
            &&& (now > s0[p].date_modification ==> s1[p].date_modification
                > s0[p].date_modification)
            &&& same_content(s1[p], input)
        }),
{
    let p = pos_of(s0, id);
    assert(s0[p].id == Some(id));
    let s1 = s0.update(p, replaced(s0[p], input, now));
    assert forall|a: int, b: int|
        0 <= a < s1.len() && 0 <= b < s1.len() && a != b implies #[trigger] s1[a].id
        != #[trigger] s1[b].id by {
        assert(s1[a].id == s0[a].id);
        assert(s1[b].id == s0[b].id);
    }
    assert forall|a: int| 0 <= a < s1.len() implies (#[trigger] s1[a].id matches Some(b)
        && b.len() == 12 && is_valid(s1[a])) by {
        assert(s0[a].id matches Some(b) && b.len() == 12);
    }
    lemma_pos_unique(s1, id, p);
}

/// Once the record with an identifier is removed, no record has it.
pub proof fn law_delete_then_get(s0: Seq<GameView>, id: Seq<u8>)
    requires
        catalog_wf(s0),
        holds_id(s0, id),
    ensures
        !holds_id(s0.remove(pos_of(s0, id)), id),
{
    let p = pos_of(s0, id);
    assert(s0[p].id == Some(id));
    let s1 = s0.remove(p);
    if holds_id(s1, id) {
        let k = choose|k: int| 0 <= k < s1.len() && #[trigger] s1[k].id == Some(id);
        let k0 = if k < p { k } else { k + 1 };
        assert(s1[k] == s0[k0]);
        assert(s0[k0].id == s0[p].id);
    }
}

proof fn lemma_push_contains(q: Seq<GameView>, y: GameView, x: GameView)
    ensures
        q.push(y).contains(x) <==> (q.contains(x) || x == y),
{
    if q.push(y).contains(x) {
        let k = choose|k: int| 0 <= k < q.len() + 1 && #[trigger] q.push(y)[k] == x;
        if k < q.len() {
            assert(q[k] == x);
        }
    }
    if q.contains(x) {
        let k = choose|k: int| 0 <= k < q.len() && #[trigger] q[k] == x;
        assert(q.push(y)[k] == x);
    }
    if x == y {
        assert(q.push(y)[q.len() as int] == x);
    }
}

/// A listing holds exactly the records of the catalog that pass every filter
/// present: one of its genres (or platforms) equals the filter's exactly, and
/// its lower-cased title holds the lower-cased title filter.
pub proof fn law_listing_is_exact(s: Seq<GameView>, p: SearchView)
    ensures
        forall|x: GameView|
            #[trigger] select(s, p).contains(x) <==> (s.contains(x) && search_matches(x, p)),
    decreases s.len(),
{
    if s.len() > 0 {
        let t = s.drop_last();
        let y = s.last();
        law_listing_is_exact(t, p);
        assert(s =~= t.push(y));
        assert forall|x: GameView|
            #[trigger] select(s, p).contains(x) <==> (s.contains(x) && search_matches(x, p)) by {
            lemma_push_contains(t, y, x);
            if search_matches(y, p) {
                lemma_push_contains(select(t, p), y, x);
            }
        }
    }
}

} // verus!
