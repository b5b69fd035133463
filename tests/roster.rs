use match_roster::db::Db;
use match_roster::errors::ServerError;
use match_roster::game_state::{Match, MatchEgg, Player};
use match_roster::pages::{default_get, internal_error, not_found, option};
use match_roster::label::{generate_label, label_from_indices, letter_at};
use match_roster::match_resource::{create_match, get_match, save_state};
use match_roster::players::{get_free_players, insert_free_players, insert_players};
use match_roster::teams::{get_team_one, get_team_two, insert_team_one, insert_team_two};

fn player(name: &str, elo: i32, avatar: Option<&str>) -> Player {
    Player { name: name.to_string(), elo, avatar: avatar.map(|a| a.to_string()) }
}

fn key(p: &Player) -> (String, i32, Option<String>) {
    (p.name.clone(), p.elo, p.avatar.clone())
}

fn keys(v: &[Player]) -> Vec<(String, i32, Option<String>)> {
    v.iter().map(key).collect()
}

fn same_view(a: &Match, b: &Match) -> bool {
    a.label == b.label
        && keys(&a.players) == keys(&b.players)
        && keys(&a.team_1) == keys(&b.team_1)
        && keys(&a.team_2) == keys(&b.team_2)
}

fn is_label(s: &str) -> bool {
    s.chars().count() == 4 && s.chars().all(|c| c.is_ascii_lowercase())
}

fn egg(players: Vec<Player>, team_1: Vec<Player>, team_2: Vec<Player>) -> MatchEgg {
    MatchEgg { players, team_1, team_2 }
}

#[test]
fn scenario_ann_and_bo() {
    let mut db = Db::new();
    let submitted = egg(
        vec![player("Ann", 1200, None)],
        vec![],
        vec![player("Bo", 1500, Some("url"))],
    );
    let created = save_state(&mut db, submitted).unwrap();
    assert!(is_label(&created.label));
    assert_eq!(keys(&created.players), vec![("Ann".to_string(), 1200, None)]);
    assert!(created.team_1.is_empty());
    assert_eq!(keys(&created.team_2), vec![("Bo".to_string(), 1500, Some("url".to_string()))]);
    let read = get_match(&db, created.label.clone()).unwrap();
    assert!(same_view(&created, &read));
}

#[test]
fn round_trip_keeps_every_roster_in_order() {
    let mut db = Db::new();
    let free = vec![player("a", 1, None), player("b", -2, Some("x")), player("a", 1, None)];
    let t1 = vec![player("c", 3, None), player("d", 4, None)];
    let t2 = vec![player("e", 5, Some("y"))];
    let created = save_state(&mut db, egg(free.clone(), t1.clone(), t2.clone())).unwrap();
    let read = get_match(&db, created.label.clone()).unwrap();
    assert_eq!(keys(&read.players), keys(&free));
    assert_eq!(keys(&read.team_1), keys(&t1));
    assert_eq!(keys(&read.team_2), keys(&t2));
    assert_eq!(read.label, created.label);
}

#[test]
fn generated_labels_are_four_lowercase_letters() {
    for _ in 0..200 {
        let l = generate_label();
        assert!(is_label(&l), "{}", l);
    }
}

#[test]
fn letters_of_the_alphabet() {
    assert_eq!(letter_at(0), 'a');
    assert_eq!(letter_at(12), 'm');
    assert_eq!(letter_at(25), 'z');
}

#[test]
fn label_spelt_from_positions() {
    assert_eq!(label_from_indices(&vec![0, 1, 25, 3]), "abzd");
    assert_eq!(label_from_indices(&vec![]), "");
}

#[test]
fn unknown_label_is_not_found() {
    let db = Db::new();
    assert!(matches!(get_match(&db, "zzzz".to_string()), Err(ServerError::NotFound)));
    let mut db = Db::new();
    create_match(&mut db, "abcd".to_string(), egg(vec![player("p", 1, None)], vec![], vec![])).unwrap();
    assert!(matches!(get_match(&db, "abce".to_string()), Err(ServerError::NotFound)));
    assert!(match_roster::matches::get_match(&db, &"abce".to_string()).is_none());
    assert_eq!(match_roster::matches::get_match(&db, &"abcd".to_string()).unwrap().label, "abcd");
}

#[test]
fn team_one_players_stay_in_team_one() {
    let mut db = Db::new();
    let created = create_match(
        &mut db,
        "qrst".to_string(),
        egg(vec![player("f", 10, None)], vec![player("t", 20, None)], vec![player("u", 30, None)]),
    )
    .unwrap();
    let read = get_match(&db, created.label).unwrap();
    assert!(keys(&read.team_1).contains(&("t".to_string(), 20, None)));
    assert!(!keys(&read.players).contains(&("t".to_string(), 20, None)));
    assert!(!keys(&read.team_2).contains(&("t".to_string(), 20, None)));
}

#[test]
fn two_reads_are_identical() {
    let mut db = Db::new();
    let created =
        save_state(&mut db, egg(vec![player("a", 1, None)], vec![player("b", 2, None)], vec![])).unwrap();
    let first = get_match(&db, created.label.clone()).unwrap();
    let second = get_match(&db, created.label.clone()).unwrap();
    assert!(same_view(&first, &second));
}

#[test]
fn creating_another_match_leaves_a_stored_one_alone() {
    let mut db = Db::new();
    create_match(&mut db, "aaaa".to_string(), egg(vec![player("a", 1, None)], vec![], vec![])).unwrap();
    let before = get_match(&db, "aaaa".to_string()).unwrap();
    create_match(&mut db, "bbbb".to_string(), egg(vec![player("b", 2, None)], vec![player("c", 3, None)], vec![]))
        .unwrap();
    let after = get_match(&db, "aaaa".to_string()).unwrap();
    assert!(same_view(&before, &after));
    let other = get_match(&db, "bbbb".to_string()).unwrap();
    assert_eq!(keys(&other.players), vec![("b".to_string(), 2, None)]);
    assert_eq!(keys(&other.team_1), vec![("c".to_string(), 3, None)]);
}

#[test]
fn empty_roster_creates_an_empty_match() {
    let mut db = Db::new();
    let created = save_state(&mut db, egg(vec![], vec![], vec![])).unwrap();
    assert!(is_label(&created.label));
    assert!(created.players.is_empty() && created.team_1.is_empty() && created.team_2.is_empty());
    let read = get_match(&db, created.label.clone()).unwrap();
    assert!(same_view(&created, &read));
}

#[test]
fn taken_label_is_refused_and_nothing_is_written() {
    let mut db = Db::new();
    create_match(&mut db, "abcd".to_string(), egg(vec![player("a", 1, None)], vec![], vec![])).unwrap();
    let again = create_match(&mut db, "abcd".to_string(), egg(vec![player("z", 9, None)], vec![], vec![]));
    assert!(matches!(again, Err(ServerError::Persistence)));
    let read = get_match(&db, "abcd".to_string()).unwrap();
    assert_eq!(keys(&read.players), vec![("a".to_string(), 1, None)]);
    assert_eq!(db.player_count(), 1);
}

#[test]
fn duplicate_match_row_is_refused() {
    let mut db = Db::new();
    assert!(match_roster::matches::insert_match(&mut db, "wxyz".to_string()).is_ok());
    assert!(matches!(match_roster::matches::insert_match(&mut db, "wxyz".to_string()), Err(ServerError::Persistence)));
    assert!(db.has_match(&"wxyz".to_string()));
}

#[test]
fn player_identifiers_count_up_from_one() {
    let mut db = Db::new();
    assert_eq!(insert_players(&mut db, player("a", 1, None)).unwrap(), 1);
    assert_eq!(insert_players(&mut db, player("a", 1, None)).unwrap(), 2);
    assert_eq!(insert_players(&mut db, player("b", 2, None)).unwrap(), 3);
    assert_eq!(db.player_count(), 3);
}

#[test]
fn relation_tables_join_players_by_identifier() {
    let mut db = Db::new();
    match_roster::matches::insert_match(&mut db, "mmmm".to_string()).unwrap();
    match_roster::matches::insert_match(&mut db, "nnnn".to_string()).unwrap();
    let a = insert_players(&mut db, player("a", 1, None)).unwrap();
    let b = insert_players(&mut db, player("b", 2, Some("pic"))).unwrap();
    let c = insert_players(&mut db, player("c", 3, None)).unwrap();
    insert_free_players(&mut db, "mmmm".to_string(), b);
    insert_free_players(&mut db, "nnnn".to_string(), c);
    insert_free_players(&mut db, "mmmm".to_string(), a);
    insert_team_one(&mut db, "mmmm".to_string(), c);
    insert_team_two(&mut db, "nnnn".to_string(), a);
    let m = "mmmm".to_string();
    let n = "nnnn".to_string();
    assert_eq!(
        keys(&get_free_players(&db, &m)),
        vec![("b".to_string(), 2, Some("pic".to_string())), ("a".to_string(), 1, None)]
    );
    assert_eq!(keys(&get_free_players(&db, &n)), vec![("c".to_string(), 3, None)]);
    assert_eq!(keys(&get_team_one(&db, &m)), vec![("c".to_string(), 3, None)]);
    assert!(get_team_one(&db, &n).is_empty());
    assert!(get_team_two(&db, &m).is_empty());
    assert_eq!(keys(&get_team_two(&db, &n)), vec![("a".to_string(), 1, None)]);
}

#[test]
fn unknown_label_lists_nobody() {
    let db = Db::new();
    assert!(get_free_players(&db, &"none".to_string()).is_empty());
    assert!(!db.has_match(&"none".to_string()));
}

#[test]
fn player_clone_keeps_every_field() {
    let p = player("Ann", -5, Some("u"));
    assert_eq!(key(&p.clone()), key(&p));
}

#[test]
fn error_pages_are_json_status_bodies() {
    assert_eq!(internal_error(), "{\"status\": \"internal error\"}");
    assert_eq!(not_found(), "{\"status\": \"not found\"}");
    assert_eq!(option(), "test");
    assert_eq!(default_get(), "default get");
}

#[test]
fn relation_rows_are_appended_without_a_stored_match_or_player() {
    let mut db = Db::new();
    let g = "ghst".to_string();
    insert_free_players(&mut db, g.clone(), 7);
    insert_team_one(&mut db, g.clone(), 8);
    insert_team_two(&mut db, g.clone(), 9);
    assert!(!db.has_match(&g));
    assert!(get_free_players(&db, &g).is_empty());
    assert!(get_team_one(&db, &g).is_empty());
    assert!(get_team_two(&db, &g).is_empty());
    let id = insert_players(&mut db, player("late", 4, None)).unwrap();
    assert_eq!(id, 1);
    insert_free_players(&mut db, g.clone(), id);
    assert_eq!(keys(&get_free_players(&db, &g)), vec![("late".to_string(), 4, None)]);
}
