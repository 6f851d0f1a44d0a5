use wayclip_core::models::clips::games::{normalize, ClipsGames, GameEntry, GamesDb};

fn entry(
    variant: &str,
    slug: &str,
    display: &str,
    appids: Vec<u64>,
    titles: Vec<&str>,
    processes: Vec<&str>,
    prefixes: Vec<&str>,
) -> GameEntry {
    GameEntry {
        variant: variant.to_string(),
        slug: slug.to_string(),
        display_name: display.to_string(),
        steam_appids: appids,
        titles: titles.into_iter().map(String::from).collect(),
        processes: processes.into_iter().map(String::from).collect(),
        prefixes: prefixes.into_iter().map(String::from).collect(),
    }
}

fn sample_db() -> GamesDb {
    GamesDb::init(vec![
        entry("CounterStrike2", "counter-strike-2", "Counter-Strike 2", vec![730], vec![], vec!["cs2"], vec![]),
        entry("Rust", "rust", "Rust", vec![252490], vec![], vec!["RustClient"], vec![]),
        entry("Minecraft", "minecraft", "Minecraft", vec![], vec!["Minecraft*"], vec![], vec!["minecraft"]),
        entry("Dota2", "dota-2", "Dota 2", vec![570], vec![], vec!["dota2"], vec![]),
    ])
}

#[test]
fn normalize_keeps_lowercased_letters_and_digits() {
    assert_eq!(normalize("Counter-Strike 2!"), "counterstrike2");
    assert_eq!(normalize("  "), "");
    assert_eq!(normalize("ÄbC"), "bc");
}

#[test]
fn variant_identifiers() {
    assert_eq!(ClipsGames::from_variant_ident("EldenRing"), Some(ClipsGames::EldenRing));
    assert_eq!(ClipsGames::from_variant_ident("eldenring"), None);
    assert_eq!(ClipsGames::from_variant_ident("Unknown"), Some(ClipsGames::Unknown));
    assert_eq!(ClipsGames::Balatro.as_ref(), "Balatro");
    let all = ClipsGames::all();
    assert_eq!(all.len(), 113);
    assert!(!all.contains(&ClipsGames::Unknown));
    assert_eq!(all[0], ClipsGames::TheFinals);
    for g in all {
        assert_eq!(ClipsGames::from_variant_ident(g.as_ref()), Some(g));
    }
}

#[test]
fn database_records_and_lookups() {
    let db = sample_db();
    assert!(db.records.len() == 4);
    assert_eq!(ClipsGames::from_steam_appid(&db, 730), ClipsGames::CounterStrike2);
    assert_eq!(ClipsGames::from_steam_appid(&db, 1), ClipsGames::Unknown);
    assert_eq!(ClipsGames::CounterStrike2.display_name(&db), "Counter-Strike 2");
    assert_eq!(ClipsGames::Dota2.slug(&db), "dota-2");
    assert_eq!(ClipsGames::Rust.steam_appids(&db), vec![252490]);
    assert_eq!(ClipsGames::EldenRing.display_name(&db), "Unknown");
    assert_eq!(ClipsGames::EldenRing.slug(&db), "unknown");
    assert!(ClipsGames::EldenRing.steam_appids(&db).is_empty());
    assert_eq!(ClipsGames::Dota2.to_string(&db), "Dota 2");
    let rec = db.record_for(ClipsGames::Rust).unwrap();
    assert_eq!(rec.slug, "rust");
}

#[test]
fn fuzzy_matching() {
    let db = sample_db();
    // longest patterns are tried first: "counterstrike2" before "rust"
    assert_eq!(ClipsGames::from_title(&db, "Counter-Strike 2 - Direct3D 11"), ClipsGames::CounterStrike2);
    assert_eq!(ClipsGames::from_process_name(&db, "RustClient.exe"), ClipsGames::Rust);
    assert_eq!(ClipsGames::from_title(&db, "minecraft 1.21"), ClipsGames::Minecraft);
    assert_eq!(ClipsGames::from_process_name(&db, "java"), ClipsGames::Unknown);
    assert_eq!(ClipsGames::from_title(&db, "!!!"), ClipsGames::Unknown);
    assert_eq!(ClipsGames::from_title(&db, "Notepad"), ClipsGames::Unknown);
    assert_eq!(db.fuzzy_match("dota2.exe"), ClipsGames::Dota2);
}

#[test]
fn fuzzy_order_prefers_longer_patterns() {
    let db = sample_db();
    // keys: CounterStrike2 14, Rust 10 ("rustclient"), Minecraft 9, Dota2 5
    assert_eq!(db.fuzzy_order, vec![0, 1, 2, 3]);
}

#[test]
fn games_from_text() {
    let db = sample_db();
    assert_eq!(ClipsGames::from_str(&db, "  unknown "), Ok(ClipsGames::Unknown));
    assert_eq!(ClipsGames::from_str(&db, "Rust"), Ok(ClipsGames::Rust));
    assert_eq!(ClipsGames::from_str(&db, "counter-strike-2"), Ok(ClipsGames::CounterStrike2));
    assert_eq!(ClipsGames::from_str(&db, "DOTA 2"), Ok(ClipsGames::Dota2));
    assert_eq!(ClipsGames::from_str(&db, "I play cs2 a lot"), Ok(ClipsGames::CounterStrike2));
    assert_eq!(ClipsGames::from_str(&db, "Solitaire"), Err("unknown game: Solitaire".to_string()));
    assert_eq!(ClipsGames::from_str(&db, "EldenRing"), Ok(ClipsGames::EldenRing));
}

#[test]
fn contains_patterns_sorted_once() {
    let db = sample_db();
    let r = &db.records[0];
    assert_eq!(r.contains_patterns, vec!["counterstrike2".to_string(), "cs2".to_string()]);
    let r = &db.records[1];
    assert_eq!(r.contains_patterns, vec!["rust".to_string(), "rustclient".to_string()]);
    let db2 = GamesDb::init(vec![entry("Pubg", "pubg", "PUBG", vec![], vec!["Zeta", "alpha", "Zeta"], vec!["beta"], vec![])]);
    assert_eq!(
        db2.records[0].contains_patterns,
        vec!["alpha".to_string(), "beta".to_string(), "pubg".to_string(), "zeta".to_string()]
    );
}

#[test]
fn later_entries_win_lookups() {
    let db = GamesDb::init(vec![
        entry("Rust", "rust", "Rust", vec![1, 2], vec![], vec![], vec![]),
        entry("Dota2", "dota-2", "Dota 2", vec![2], vec![], vec![], vec![]),
        entry("Rust", "rust-new", "Rust New", vec![3], vec![], vec![], vec![]),
    ]);
    assert_eq!(ClipsGames::from_steam_appid(&db, 1), ClipsGames::Rust);
    assert_eq!(ClipsGames::from_steam_appid(&db, 2), ClipsGames::Dota2);
    assert_eq!(ClipsGames::from_steam_appid(&db, 9), ClipsGames::Unknown);
    assert_eq!(ClipsGames::Rust.slug(&db), "rust-new");
    let mut order = db.fuzzy_order.clone();
    order.sort();
    assert_eq!(order, vec![0, 1, 2]);
}
