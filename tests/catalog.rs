use game_catalog::model::{FieldError, JeuVideo, RecordId};
use game_catalog::service::{
    apply_update, create_game, delete_game, get_all_games, get_game, get_stats, health_check,
    insert_game, outcome_of_count, parse_id, replace_game, select_games, update_fields,
    update_game, AppState, HealthStatus, SearchParams, ServiceError,
};

fn game(titre: &str, genres: &[&str], plateformes: &[&str]) -> JeuVideo {
    JeuVideo {
        id: None,
        titre: titre.to_string(),
        genre: genres.iter().map(|g| g.to_string()).collect(),
        plateforme: plateformes.iter().map(|p| p.to_string()).collect(),
        editeur: None,
        developpeur: None,
        annee_sortie: None,
        metacritic_score: None,
        temps_jeu_centiemes: None,
        termine: false,
        date_ajout: 0,
        date_modification: 0,
        favori: false,
    }
}

fn hex_of(id: &RecordId) -> String {
    id.bytes.iter().map(|b| format!("{:02x}", b)).collect()
}

fn no_params() -> SearchParams {
    SearchParams { genre: None, plateforme: None, titre: None }
}

fn validation_fields(r: Result<RecordId, ServiceError>) -> Vec<&'static str> {
    match r {
        Err(ServiceError::Validation(errs)) => errs.iter().map(|e| e.field()).collect(),
        other => panic!("expected a validation error, got {:?}", other),
    }
}

#[test]
fn chrono_trigger_scenario() {
    let mut st = AppState::new();
    let mut g = game("Chrono Trigger", &["RPG"], &["SNES"]);
    g.termine = true;
    g.metacritic_score = Some(92);
    g.temps_jeu_centiemes = Some(3000);
    let id = create_game(&mut st, g).expect("created");
    let found = get_game(&st, &hex_of(&id)).expect("found");
    assert!(found.id.unwrap().same_as(&id));
    assert_eq!(found.titre, "Chrono Trigger");
    assert_eq!(found.genre, vec!["RPG".to_string()]);
    assert_eq!(found.plateforme, vec!["SNES".to_string()]);
    assert!(found.termine);
    assert_eq!(found.metacritic_score, Some(92));
    assert_eq!(found.temps_jeu_centiemes, Some(3000));
    assert_eq!(found.date_ajout, found.date_modification);
    assert!(found.date_ajout > 0);
    let s = get_stats(&st);
    assert_eq!(s.total_jeux, 1);
    assert_eq!(s.jeux_termines, 1);
    assert_eq!(s.score_total, 92);
    assert_eq!(s.nb_scores, 1);
    assert!(s.has_average());
    assert_eq!(s.temps_total_centiemes, 3000);
}

#[test]
fn search_by_genre_platform_and_title() {
    let mut st = AppState::new();
    create_game(&mut st, game("Chrono Trigger", &["RPG"], &["SNES"])).unwrap();
    create_game(&mut st, game("Doom", &["FPS"], &["PC"])).unwrap();
    create_game(&mut st, game("Rogue", &["rpg"], &["PC"])).unwrap();
    let by_genre = get_all_games(
        &st,
        &SearchParams { genre: Some("RPG".to_string()), plateforme: None, titre: None },
    );
    assert_eq!(by_genre.len(), 1);
    assert_eq!(by_genre[0].titre, "Chrono Trigger");
    let by_title = get_all_games(
        &st,
        &SearchParams { genre: None, plateforme: None, titre: Some("chrono".to_string()) },
    );
    assert_eq!(by_title.len(), 1);
    assert_eq!(by_title[0].titre, "Chrono Trigger");
    let upper = get_all_games(
        &st,
        &SearchParams { genre: None, plateforme: None, titre: Some("DOO".to_string()) },
    );
    assert_eq!(upper.len(), 1);
    assert_eq!(upper[0].titre, "Doom");
    let pc = get_all_games(
        &st,
        &SearchParams { genre: None, plateforme: Some("PC".to_string()), titre: None },
    );
    assert_eq!(pc.len(), 2);
    assert_eq!(pc[0].titre, "Doom");
    assert_eq!(pc[1].titre, "Rogue");
    let both = get_all_games(
        &st,
        &SearchParams {
            genre: Some("rpg".to_string()),
            plateforme: Some("PC".to_string()),
            titre: Some("o".to_string()),
        },
    );
    assert_eq!(both.len(), 1);
    assert_eq!(both[0].titre, "Rogue");
    assert_eq!(get_all_games(&st, &no_params()).len(), 3);
}

#[test]
fn each_broken_constraint_is_named_and_nothing_stored() {
    let mut st = AppState::new();
    assert_eq!(validation_fields(create_game(&mut st, game("", &["RPG"], &[]))), vec!["titre"]);
    assert_eq!(validation_fields(create_game(&mut st, game("X", &[], &[]))), vec!["genre"]);
    let mut g = game("X", &["RPG"], &[]);
    g.annee_sortie = Some(1949);
    assert_eq!(validation_fields(create_game(&mut st, g)), vec!["annee_sortie"]);
    let mut g = game("X", &["RPG"], &[]);
    g.metacritic_score = Some(101);
    assert_eq!(validation_fields(create_game(&mut st, g)), vec!["metacritic_score"]);
    let mut g = game("X", &["RPG"], &[]);
    g.temps_jeu_centiemes = Some(-100);
    assert_eq!(validation_fields(create_game(&mut st, g)), vec!["temps_jeu_heures"]);
    assert_eq!(st.len(), 0);
    assert_eq!(get_all_games(&st, &no_params()).len(), 0);
}

#[test]
fn all_violations_listed_in_field_order() {
    let mut g = game("", &[], &[]);
    g.annee_sortie = Some(1900);
    g.metacritic_score = Some(-1);
    g.temps_jeu_centiemes = Some(-1);
    let errs = g.validate();
    assert_eq!(
        errs,
        vec![
            FieldError::Titre,
            FieldError::Genre,
            FieldError::AnneeSortie,
            FieldError::MetacriticScore,
            FieldError::TempsJeu
        ]
    );
}

#[test]
fn boundary_values_are_valid() {
    let mut g = game("X", &["RPG"], &[]);
    g.annee_sortie = Some(1950);
    g.metacritic_score = Some(0);
    g.temps_jeu_centiemes = Some(0);
    assert!(g.validate().is_empty());
    g.metacritic_score = Some(100);
    assert!(g.validate().is_empty());
}

#[test]
fn malformed_ids_are_bad_requests() {
    let mut st = AppState::new();
    create_game(&mut st, game("Doom", &["FPS"], &["PC"])).unwrap();
    for bad in ["", "abc", "0123456789abcdef0123456", "0123456789abcdef012345678", "0123456789abcdef0123456g"] {
        assert!(matches!(get_game(&st, bad), Err(ServiceError::BadRequest)));
        assert!(matches!(
            update_game(&mut st, bad, game("Y", &["RPG"], &[])),
            Err(ServiceError::BadRequest)
        ));
        assert!(matches!(delete_game(&mut st, bad), Err(ServiceError::BadRequest)));
    }
    assert_eq!(st.len(), 1);
}

#[test]
fn absent_ids_are_not_found() {
    let mut st = AppState::new();
    create_game(&mut st, game("Doom", &["FPS"], &["PC"])).unwrap();
    let absent = "000000000000000000000000";
    assert!(matches!(get_game(&st, absent), Err(ServiceError::NotFound)));
    assert!(matches!(
        update_game(&mut st, absent, game("Y", &["RPG"], &[])),
        Err(ServiceError::NotFound)
    ));
    assert!(matches!(delete_game(&mut st, absent), Err(ServiceError::NotFound)));
    assert_eq!(st.len(), 1);
}

#[test]
fn update_with_invalid_input_is_rejected() {
    let mut st = AppState::new();
    let id = create_game(&mut st, game("Doom", &["FPS"], &["PC"])).unwrap();
    let r = update_game(&mut st, &hex_of(&id), game("", &["FPS"], &[]));
    match r {
        Err(ServiceError::Validation(errs)) => assert_eq!(errs, vec![FieldError::Titre]),
        other => panic!("unexpected {:?}", other),
    }
    assert_eq!(get_game(&st, &hex_of(&id)).unwrap().titre, "Doom");
}

#[test]
fn update_keeps_id_and_creation_date() {
    let mut st = AppState::new();
    let id = RecordId { bytes: [0xab; 12] };
    insert_game(&mut st, game("Doom", &["FPS"], &["PC"]), id, 1_000).unwrap();
    let text = hex_of(&id);
    let mut repl = game("Doom II", &["FPS", "Action"], &["PC"]);
    repl.id = Some(RecordId { bytes: [1; 12] });
    repl.date_ajout = 7;
    repl.favori = true;
    replace_game(&mut st, &text, repl, 2_000).unwrap();
    let g = get_game(&st, &text).unwrap();
    assert!(g.id.unwrap().same_as(&id));
    assert_eq!(g.titre, "Doom II");
    assert_eq!(g.genre.len(), 2);
    assert!(g.favori);
    assert_eq!(g.date_ajout, 1_000);
    assert_eq!(g.date_modification, 2_000);
    update_game(&mut st, &text, game("Doom 3", &["FPS"], &[])).unwrap();
    let g = get_game(&st, &text).unwrap();
    assert_eq!(g.titre, "Doom 3");
    assert_eq!(g.date_ajout, 1_000);
    assert!(g.date_modification > 2_000);
}

#[test]
fn delete_then_get_is_not_found() {
    let mut st = AppState::new();
    let id = create_game(&mut st, game("Doom", &["FPS"], &["PC"])).unwrap();
    let other = create_game(&mut st, game("Quake", &["FPS"], &["PC"])).unwrap();
    delete_game(&mut st, &hex_of(&id)).unwrap();
    assert!(matches!(get_game(&st, &hex_of(&id)), Err(ServiceError::NotFound)));
    assert!(matches!(delete_game(&mut st, &hex_of(&id)), Err(ServiceError::NotFound)));
    assert_eq!(get_game(&st, &hex_of(&other)).unwrap().titre, "Quake");
    assert_eq!(st.len(), 1);
}

#[test]
fn stats_of_empty_catalog() {
    let st = AppState::new();
    let s = get_stats(&st);
    assert_eq!(s.total_jeux, 0);
    assert_eq!(s.temps_total_centiemes, 0);
    assert_eq!(s.jeux_termines, 0);
    assert_eq!(s.nb_scores, 0);
    assert!(!s.has_average());
}

#[test]
fn stats_skip_missing_values() {
    let mut st = AppState::new();
    let mut a = game("A", &["RPG"], &[]);
    a.metacritic_score = Some(80);
    a.temps_jeu_centiemes = Some(1050);
    let mut b = game("B", &["RPG"], &[]);
    b.termine = true;
    let mut c = game("C", &["RPG"], &[]);
    c.metacritic_score = Some(91);
    c.temps_jeu_centiemes = Some(250);
    c.termine = true;
    for g in [a, b, c] {
        create_game(&mut st, g).unwrap();
    }
    let s = get_stats(&st);
    assert_eq!(s.total_jeux, 3);
    assert_eq!(s.temps_total_centiemes, 1300);
    assert_eq!(s.jeux_termines, 2);
    assert_eq!(s.score_total, 171);
    assert_eq!(s.nb_scores, 2);
}

#[test]
fn duplicate_identifier_is_a_store_error() {
    let mut st = AppState::new();
    let id = RecordId { bytes: [7; 12] };
    insert_game(&mut st, game("A", &["RPG"], &[]), id, 1).unwrap();
    let r = insert_game(&mut st, game("B", &["RPG"], &[]), id, 2);
    assert!(matches!(r, Err(ServiceError::StoreError)));
    assert_eq!(st.len(), 1);
}

#[test]
fn created_ids_are_distinct() {
    let mut st = AppState::new();
    let a = create_game(&mut st, game("A", &["RPG"], &[])).unwrap();
    let b = create_game(&mut st, game("B", &["RPG"], &[])).unwrap();
    assert!(!a.same_as(&b));
    assert_eq!(st.len(), 2);
}

#[test]
fn parse_id_reads_hex_in_either_case() {
    let id = parse_id("0123456789ABCDEFabcdef00").expect("well formed");
    assert_eq!(
        id.bytes,
        [0x01, 0x23, 0x45, 0x67, 0x89, 0xab, 0xcd, 0xef, 0xab, 0xcd, 0xef, 0x00]
    );
    assert!(parse_id("0123456789abcdef0123456z").is_none());
    assert!(parse_id("").is_none());
}

#[test]
fn health_reflects_store_probe() {
    assert_eq!(health_check(true), HealthStatus::Up);
    assert_eq!(health_check(false), HealthStatus::Down);
}

#[test]
fn field_errors_carry_name_and_message() {
    assert_eq!(FieldError::Titre.field(), "titre");
    assert_eq!(FieldError::Titre.message(), "Le titre ne peut pas être vide");
    assert_eq!(FieldError::Genre.message(), "Il faut au moins un genre");
    assert_eq!(FieldError::AnneeSortie.message(), "L'année doit être supérieure à 1950");
    assert_eq!(FieldError::MetacriticScore.message(), "Le score doit être entre 0 et 100");
    assert_eq!(FieldError::TempsJeu.message(), "Le temps de jeu ne peut pas être négatif");
}

#[test]
fn store_counts_map_to_outcomes() {
    assert!(outcome_of_count(1).is_ok());
    assert!(matches!(outcome_of_count(0), Err(ServiceError::NotFound)));
    assert!(matches!(outcome_of_count(2), Err(ServiceError::NotFound)));
}

#[test]
fn select_games_on_fetched_records() {
    let records = vec![
        game("Chrono Trigger", &["RPG"], &["SNES"]),
        game("Chrono Cross", &["RPG"], &["PS1"]),
        game("Doom", &["FPS"], &["PC"]),
    ];
    let kept = select_games(
        &records,
        &SearchParams { genre: None, plateforme: None, titre: Some("CHRONO".to_string()) },
    );
    assert_eq!(kept.len(), 2);
    assert_eq!(kept[0].titre, "Chrono Trigger");
    assert_eq!(kept[1].titre, "Chrono Cross");
    let none = select_games(
        &records,
        &SearchParams { genre: Some("Rpg".to_string()), plateforme: None, titre: None },
    );
    assert!(none.is_empty());
}

#[test]
fn update_drops_identity_and_stamps_time() {
    let mut input = game("Doom II", &["FPS"], &["PC"]);
    input.id = Some(RecordId { bytes: [9; 12] });
    input.date_ajout = 5;
    input.date_modification = 6;
    input.favori = true;
    let u = update_fields(input, 4_000).unwrap();
    assert_eq!(u.titre, "Doom II");
    assert!(u.favori);
    assert_eq!(u.date_modification, 4_000);
    let mut prev = game("Doom", &["FPS"], &[]);
    prev.id = Some(RecordId { bytes: [3; 12] });
    prev.date_ajout = 1_000;
    prev.date_modification = 1_000;
    let r = apply_update(prev, u);
    assert!(r.id.unwrap().same_as(&RecordId { bytes: [3; 12] }));
    assert_eq!(r.date_ajout, 1_000);
    assert_eq!(r.date_modification, 4_000);
    assert_eq!(r.titre, "Doom II");
    match update_fields(game("X", &[], &[]), 1) {
        Err(errs) => assert_eq!(errs, vec![FieldError::Genre]),
        Ok(_) => panic!("invalid input accepted"),
    }
}
