use vstd::prelude::*;

verus! {

/// Identifier of a record: the twelve bytes of a store identifier.
#[derive(Clone, Copy, Debug)]
pub struct RecordId {
    pub bytes: [u8; 12],
}

impl View for RecordId {
    type V = Seq<u8>;

    open spec fn view(&self) -> Seq<u8> {
        self.bytes@
    }
}

impl RecordId {
    /// Whether two identifiers name the same record.
    pub fn same_as(&self, other: &RecordId) -> (r: bool)
        ensures
            r == (self@ == other@),
    {
        let mut i: usize = 0;
        while i < 12
            invariant
                0 <= i <= 12,
                self@.len() == 12,
                other@.len() == 12,
                forall|k: int| 0 <= k < i ==> self@[k] == other@[k],
            decreases 12 - i,
        {
            if self.bytes[i] != other.bytes[i] {
                return false;
            }
            i = i + 1;
        }
        assert(self@ =~= other@);
        true
    }
}

/// A constraint of a record that an input broke.
#[derive(Clone, Copy, Debug, PartialEq, Eq, Structural)]
pub enum FieldError {
    /// The title is empty.
    Titre,
    /// The list of genres is empty.
    Genre,
    /// The release year is before 1950.
    AnneeSortie,
    /// The review score is outside 0..=100.
    MetacriticScore,
    /// The play time is negative.
    TempsJeu,
}

impl FieldError {
    /// What is wrong with the field, for the client.
    pub fn message(&self) -> (r: &'static str)
        ensures
            r@ == field_message(*self),
    {
        match self {
            FieldError::Titre => "Le titre ne peut pas être vide",
            FieldError::Genre => "Il faut au moins un genre",
            FieldError::AnneeSortie => "L'année doit être supérieure à 1950",
            FieldError::MetacriticScore => "Le score doit être entre 0 et 100",
            FieldError::TempsJeu => "Le temps de jeu ne peut pas être négatif",
        }
    }

    /// The name of the offending field.
    pub fn field(&self) -> (r: &'static str)
        ensures
            r@ == field_name(*self),
    {
        match self {
            FieldError::Titre => "titre",
            FieldError::Genre => "genre",
            FieldError::AnneeSortie => "annee_sortie",
            FieldError::MetacriticScore => "metacritic_score",
            FieldError::TempsJeu => "temps_jeu_heures",
        }
    }
}

pub open spec fn field_message(e: FieldError) -> Seq<char> {
    match e {
        FieldError::Titre => "Le titre ne peut pas être vide"@,
        FieldError::Genre => "Il faut au moins un genre"@,
        FieldError::AnneeSortie => "L'année doit être supérieure à 1950"@,
        FieldError::MetacriticScore => "Le score doit être entre 0 et 100"@,
        FieldError::TempsJeu => "Le temps de jeu ne peut pas être négatif"@,
    }
}

pub open spec fn field_name(e: FieldError) -> Seq<char> {
    match e {
        FieldError::Titre => "titre"@,
        FieldError::Genre => "genre"@,
        FieldError::AnneeSortie => "annee_sortie"@,
        FieldError::MetacriticScore => "metacritic_score"@,
        FieldError::TempsJeu => "temps_jeu_heures"@,
    }
}

/// Earliest release year a record may carry.
pub const MIN_YEAR: i32 = 1950;

/// Highest review score a record may carry.
pub const MAX_SCORE: i32 = 100;

/// One game of the catalog. As an input to create or update, `id` and the
/// two dates are ignored: the service assigns them.
///
/// Play time is kept in hundredths of an hour; dates are milliseconds since
/// the Unix epoch (UTC).
#[derive(Debug)]
pub struct JeuVideo {
    pub id: Option<RecordId>,
    pub titre: String,
    pub genre: Vec<String>,
    pub plateforme: Vec<String>,
    pub editeur: Option<String>,
    pub developpeur: Option<String>,
    pub annee_sortie: Option<i32>,
    pub metacritic_score: Option<i32>,
    pub temps_jeu_centiemes: Option<i64>,
    pub termine: bool,
    pub date_ajout: i64,
    pub date_modification: i64,
    pub favori: bool,
}

/// The mathematical value of a record.
pub struct GameView {
    pub id: Option<Seq<u8>>,
    pub titre: Seq<char>,
    pub genre: Seq<Seq<char>>,
    pub plateforme: Seq<Seq<char>>,
    pub editeur: Option<Seq<char>>,
    pub developpeur: Option<Seq<char>>,
    pub annee_sortie: Option<i32>,
    pub metacritic_score: Option<i32>,
    pub temps_jeu_centiemes: Option<i64>,
    pub termine: bool,
    pub date_ajout: i64,
    pub date_modification: i64,
    pub favori: bool,
}

pub open spec fn opt_str_view(o: Option<String>) -> Option<Seq<char>> {
    match o {
        Some(s) => Some(s@),
        None => None,
    }
}

impl View for JeuVideo {
    type V = GameView;

    open spec fn view(&self) -> GameView {
        GameView {
            id: match self.id {
                Some(i) => Some(i@),
                None => None,
            },
            titre: self.titre@,
            genre: self.genre.deep_view(),
            plateforme: self.plateforme.deep_view(),
            editeur: opt_str_view(self.editeur),
            developpeur: opt_str_view(self.developpeur),
            annee_sortie: self.annee_sortie,
            metacritic_score: self.metacritic_score,
            temps_jeu_centiemes: self.temps_jeu_centiemes,
            termine: self.termine,
            date_ajout: self.date_ajout,
            date_modification: self.date_modification,
            favori: self.favori,
        }
    }
}

/// The client-settable fields of two records agree: all but the identifier
/// and the two dates.
pub open spec fn same_content(a: GameView, b: GameView) -> bool {
    &&& a.titre == b.titre
    &&& a.genre == b.genre
    &&& a.plateforme == b.plateforme
    &&& a.editeur == b.editeur
    &&& a.developpeur == b.developpeur
    &&& a.annee_sortie == b.annee_sortie
    &&& a.metacritic_score == b.metacritic_score
    &&& a.temps_jeu_centiemes == b.temps_jeu_centiemes
    &&& a.termine == b.termine
    &&& a.favori == b.favori
}

pub open spec fn year_ok(y: Option<i32>) -> bool {
    match y {
        Some(v) => v >= MIN_YEAR,
        None => true,
    }
}

pub open spec fn score_ok(s: Option<i32>) -> bool {
    match s {
        Some(v) => 0 <= v <= MAX_SCORE,
        None => true,
    }
}

pub open spec fn hours_ok(h: Option<i64>) -> bool {
    match h {
        Some(v) => v >= 0,
        None => true,
    }
}

pub open spec fn check(ok: bool, e: FieldError) -> Seq<FieldError> {
    if ok {
        Seq::empty()
    } else {
        seq![e]
    }
}

/// Every constraint that a record breaks, in the order of its fields.
pub open spec fn violations(g: GameView) -> Seq<FieldError> {
    check(g.titre.len() > 0, FieldError::Titre) + check(g.genre.len() > 0, FieldError::Genre)
        + check(year_ok(g.annee_sortie), FieldError::AnneeSortie) + check(
        score_ok(g.metacritic_score),
        FieldError::MetacriticScore,
    ) + check(hours_ok(g.temps_jeu_centiemes), FieldError::TempsJeu)
}

/// A record meets every constraint.
pub open spec fn is_valid(g: GameView) -> bool {
    &&& g.titre.len() > 0
    &&& g.genre.len() > 0
    &&& year_ok(g.annee_sortie)
    &&& score_ok(g.metacritic_score)
    &&& hours_ok(g.temps_jeu_centiemes)
}

/// A record is valid exactly when it breaks no constraint.
pub proof fn lemma_valid_iff_no_violation(g: GameView)
    ensures
        is_valid(g) <==> violations(g).len() == 0,
{
}

/// A record breaks a constraint exactly when validation lists that
/// constraint's error; so an input that breaks one constraint names it.
pub proof fn law_violation_named(g: GameView)
    ensures
        (g.titre.len() == 0) <==> violations(g).contains(FieldError::Titre),
        (g.genre.len() == 0) <==> violations(g).contains(FieldError::Genre),
        !year_ok(g.annee_sortie) <==> violations(g).contains(FieldError::AnneeSortie),
        !score_ok(g.metacritic_score) <==> violations(g).contains(FieldError::MetacriticScore),
        !hours_ok(g.temps_jeu_centiemes) <==> violations(g).contains(FieldError::TempsJeu),
{
    let v = violations(g);
    let a = check(g.titre.len() > 0, FieldError::Titre);
    let b = check(g.genre.len() > 0, FieldError::Genre);
    let c = check(year_ok(g.annee_sortie), FieldError::AnneeSortie);
    let d = check(score_ok(g.metacritic_score), FieldError::MetacriticScore);
    let e = check(hours_ok(g.temps_jeu_centiemes), FieldError::TempsJeu);
    assert(v == a + b + c + d + e);
    if g.titre.len() == 0 {
        assert(v[0] == FieldError::Titre);
    }
    if g.genre.len() == 0 {
        assert(v[a.len() as int] == FieldError::Genre);
    }
    if !year_ok(g.annee_sortie) {
        assert(v[(a.len() + b.len()) as int] == FieldError::AnneeSortie);
    }
    if !score_ok(g.metacritic_score) {
        assert(v[(a.len() + b.len() + c.len()) as int] == FieldError::MetacriticScore);
    }
    if !hours_ok(g.temps_jeu_centiemes) {
        assert(v[(a.len() + b.len() + c.len() + d.len()) as int] == FieldError::TempsJeu);
    }
}

fn push_if(errs: &mut Vec<FieldError>, ok: bool, e: FieldError)
    ensures
        final(errs)@ == old(errs)@ + check(ok, e),
{
    if !ok {
        errs.push(e);
    } else {
        assert(old(errs)@ + check(ok, e) =~= old(errs)@);
    }
    proof {
        if !ok {
            assert(final(errs)@ =~= old(errs)@ + check(ok, e));
        }
    }
}

impl JeuVideo {
    /// Lists every constraint that this record breaks; empty when it is valid.
    pub fn validate(&self) -> (r: Vec<FieldError>)
        ensures
            r@ == violations(self@),
    {
        let mut errs: Vec<FieldError> = Vec::new();
        push_if(&mut errs, !self.titre.as_str().is_empty(), FieldError::Titre);
        push_if(&mut errs, self.genre.len() > 0, FieldError::Genre);
        let year = match self.annee_sortie {
            Some(y) => y >= MIN_YEAR,
            None => true,
        };
        push_if(&mut errs, year, FieldError::AnneeSortie);
        let score = match self.metacritic_score {
            Some(s) => 0 <= s && s <= MAX_SCORE,
            None => true,
        };
        push_if(&mut errs, score, FieldError::MetacriticScore);
        let hours = match self.temps_jeu_centiemes {
            Some(h) => h >= 0,
            None => true,
        };
        push_if(&mut errs, hours, FieldError::TempsJeu);
        assert(errs@ =~= violations(self@));
        errs
    }
}

} // verus!
