//! Round trips, the save law and the not-found rules, run against a real
//! database file.

use kaati_ako::database::{get_connection, initialise, DatabaseError, Db};
use kaati_ako::models::card::Card;
use kaati_ako::models::category::Category;
use kaati_ako::models::language::Language;
use kaati_ako::models::translation::Translation;
use kaati_ako::models::Model;

fn seeded_db(file: &tempfile::NamedTempFile) -> Db {
    let path = file.path().to_str().unwrap();
    let mut db = get_connection(path).unwrap();
    initialise(&mut db).unwrap();
    db
}

fn default_category_id(db: &Db) -> i64 {
    Category::load_by_name(db, "default".to_string()).unwrap().id
}

fn language_id_by_code(db: &Db, code: &str) -> i64 {
    let languages = Language::load_all(db).unwrap();
    languages.iter().find(|l| l.code == code).unwrap().id
}

#[test]
fn round_trip_card() {
    let file = tempfile::NamedTempFile::new().unwrap();
    let mut db = seeded_db(&file);
    let category_id = default_category_id(&db);
    let mut card = Card { id: 0, category_id };
    let id = card.save(&mut db).unwrap();
    assert!(id > 0);
    assert_eq!(card.id, id);
    let loaded = Card::load(&db, id).unwrap();
    assert_eq!(loaded.id, id);
    assert_eq!(loaded.category_id, category_id);
}

#[test]
fn round_trip_category() {
    let file = tempfile::NamedTempFile::new().unwrap();
    let mut db = seeded_db(&file);
    let mut category = Category::new(0, "animals".to_string());
    let id = category.save(&mut db).unwrap();
    assert!(id > 0);
    let loaded = Category::load(&db, id).unwrap();
    assert_eq!(loaded.id, id);
    assert_eq!(loaded.name, "animals");
}

#[test]
fn round_trip_language() {
    let file = tempfile::NamedTempFile::new().unwrap();
    let mut db = seeded_db(&file);
    let mut language = Language { id: 0, code: "fr".to_string(), name: "French".to_string() };
    let id = language.save(&mut db).unwrap();
    assert!(id > 0);
    let loaded = Language::load(&db, id).unwrap();
    assert_eq!(loaded.id, id);
    assert_eq!(loaded.code, "fr");
    assert_eq!(loaded.name, "French");
}

#[test]
fn round_trip_translation() {
    let file = tempfile::NamedTempFile::new().unwrap();
    let mut db = seeded_db(&file);
    let card_id = Card::random_id(&db).unwrap();
    let language_id = language_id_by_code(&db, "en");
    let mut translation = Translation {
        id: 0,
        card_id,
        language_id,
        text: "greeting".to_string(),
        description: "A word of welcome".to_string(),
    };
    let id = translation.save(&mut db).unwrap();
    assert!(id > 0);
    let loaded = Translation::load(&db, id).unwrap();
    assert_eq!(loaded.id, id);
    assert_eq!(loaded.card_id, card_id);
    assert_eq!(loaded.language_id, language_id);
    assert_eq!(loaded.text, "greeting");
    assert_eq!(loaded.description, "A word of welcome");
}

#[test]
fn save_fresh_twice_makes_two_rows() {
    let file = tempfile::NamedTempFile::new().unwrap();
    let mut db = seeded_db(&file);
    let before = Category::load_all(&db).unwrap().len();
    let mut first = Category::new(0, "one".to_string());
    let mut second = Category::new(0, "two".to_string());
    let id1 = first.save(&mut db).unwrap();
    let id2 = second.save(&mut db).unwrap();
    assert_ne!(id1, id2);
    let after = Category::load_all(&db).unwrap();
    assert_eq!(after.len(), before + 2);
    assert!(after.iter().any(|c| c.id == id1 && c.name == "one"));
    assert!(after.iter().any(|c| c.id == id2 && c.name == "two"));
}

#[test]
fn save_with_id_updates_in_place() {
    let file = tempfile::NamedTempFile::new().unwrap();
    let mut db = seeded_db(&file);
    let before = Category::load_all(&db).unwrap().len();
    let mut category = Category::load_by_name(&db, "default".to_string()).unwrap();
    category.name = "renamed".to_string();
    let id = category.save(&mut db).unwrap();
    assert_eq!(id, category.id);
    let after = Category::load_all(&db).unwrap();
    assert_eq!(after.len(), before);
    let loaded = Category::load(&db, id).unwrap();
    assert_eq!(loaded.name, "renamed");
}

#[test]
fn save_with_unknown_id_changes_no_row() {
    // An update whose id matches no row succeeds and leaves the table as
    // it was: the insert-or-update branch goes by the record's id alone.
    let file = tempfile::NamedTempFile::new().unwrap();
    let mut db = seeded_db(&file);
    let mut phantom = Category::new(4242, "phantom".to_string());
    let id = phantom.save(&mut db).unwrap();
    assert_eq!(id, 4242);
    let all = Category::load_all(&db).unwrap();
    assert_eq!(all.len(), 1);
    assert!(all.iter().all(|c| c.id != 4242));
    assert!(matches!(Category::load(&db, 4242), Err(DatabaseError::NotFound)));
}

#[test]
fn load_missing_row_is_not_found() {
    let file = tempfile::NamedTempFile::new().unwrap();
    let db = seeded_db(&file);
    assert!(matches!(Category::load(&db, 9999), Err(DatabaseError::NotFound)));
    assert!(matches!(Card::load(&db, 9999), Err(DatabaseError::NotFound)));
    assert!(matches!(Language::load(&db, 9999), Err(DatabaseError::NotFound)));
    assert!(matches!(Translation::load(&db, 9999), Err(DatabaseError::NotFound)));
}

#[test]
fn load_for_card_language_misses_with_blank_placeholder() {
    let file = tempfile::NamedTempFile::new().unwrap();
    let db = seeded_db(&file);
    let card_id = Card::random_id(&db).unwrap();
    let placeholder = Translation::load_for_card_language(&db, card_id, 9999).unwrap();
    assert_eq!(placeholder.id, 0);
    assert_eq!(placeholder.card_id, card_id);
    assert_eq!(placeholder.language_id, 9999);
    assert_eq!(placeholder.text, "");
    assert_eq!(placeholder.description, "");
}

#[test]
fn load_for_card_language_finds_stored_translation() {
    let file = tempfile::NamedTempFile::new().unwrap();
    let db = seeded_db(&file);
    let cards = Card::load_all(&db).unwrap();
    let first_card = cards.first().unwrap().id;
    let english = language_id_by_code(&db, "en");
    let translation = Translation::load_for_card_language(&db, first_card, english).unwrap();
    assert!(translation.id > 0);
    assert_eq!(translation.card_id, first_card);
    assert_eq!(translation.language_id, english);
    assert_eq!(translation.text, "card");
}

#[test]
fn random_id_returns_stored_ids() {
    let file = tempfile::NamedTempFile::new().unwrap();
    let db = seeded_db(&file);
    let ids: Vec<i64> = Card::load_all(&db).unwrap().iter().map(|c| c.id).collect();
    for _ in 0..50 {
        let id = Card::random_id(&db).unwrap();
        assert!(ids.contains(&id));
    }
}

#[test]
fn random_id_is_not_constant() {
    let file = tempfile::NamedTempFile::new().unwrap();
    let db = seeded_db(&file);
    let first = Card::random_id(&db).unwrap();
    let mut saw_other = false;
    for _ in 0..200 {
        if Card::random_id(&db).unwrap() != first {
            saw_other = true;
            break;
        }
    }
    assert!(saw_other, "two hundred draws from three rows never left the first id");
}

#[test]
fn random_id_on_empty_table_is_not_found() {
    let file = tempfile::NamedTempFile::new().unwrap();
    let mut db = seeded_db(&file);
    for translation in Translation::load_all(&db).unwrap() {
        assert!(Translation::delete(&mut db, translation.id).unwrap());
    }
    for card in Card::load_all(&db).unwrap() {
        assert!(Card::delete(&mut db, card.id).unwrap());
    }
    assert!(matches!(Card::random_id(&db), Err(DatabaseError::NotFound)));
    assert!(matches!(Card::get(&db, 0), Err(DatabaseError::NotFound)));
}

#[test]
fn get_resolves_zero_to_random_card() {
    let file = tempfile::NamedTempFile::new().unwrap();
    let db = seeded_db(&file);
    let ids: Vec<i64> = Card::load_all(&db).unwrap().iter().map(|c| c.id).collect();
    let any = Card::get(&db, 0).unwrap();
    assert!(ids.contains(&any.id));
    let specific = Card::get(&db, ids[1]).unwrap();
    assert_eq!(specific.id, ids[1]);
    assert!(matches!(Card::get(&db, 123456), Err(DatabaseError::NotFound)));
}

#[test]
fn referential_scenario() {
    let file = tempfile::NamedTempFile::new().unwrap();
    let mut db = seeded_db(&file);
    let category_id = Category::load_by_name(&db, "default".to_string()).unwrap().id;
    let english = language_id_by_code(&db, "en");
    let mut card = Card { id: 0, category_id };
    let card_id = card.save(&mut db).unwrap();
    let mut translation = Translation {
        id: 0,
        card_id,
        language_id: english,
        text: "card".to_string(),
        description: String::new(),
    };
    let translation_id = translation.save(&mut db).unwrap();
    let for_card = Translation::load_for_card(&db, card_id).unwrap();
    assert_eq!(for_card.len(), 1);
    assert_eq!(for_card[0].id, translation_id);
    assert_eq!(for_card[0].card_id, card_id);
    assert_eq!(for_card[0].language_id, english);
    assert_eq!(for_card[0].text, "card");
    assert_eq!(for_card[0].description, "");
    let language = Language::load(&db, for_card[0].language_id).unwrap();
    assert_eq!(language.code, "en");
    assert_eq!(language.name, "English");
}

#[test]
fn delete_card_leaves_orphaned_translations_accessible() {
    // The connection never turns foreign-key enforcement on, which is the
    // engine's default: deleting a referenced card succeeds and its
    // translations stay, reachable by their own ids.
    let file = tempfile::NamedTempFile::new().unwrap();
    let mut db = seeded_db(&file);
    let card_id = Card::load_all(&db).unwrap().first().unwrap().id;
    let translation_ids: Vec<i64> =
        Translation::load_for_card(&db, card_id).unwrap().iter().map(|t| t.id).collect();
    assert!(!translation_ids.is_empty());
    assert!(Card::delete(&mut db, card_id).unwrap());
    assert!(matches!(Card::load(&db, card_id), Err(DatabaseError::NotFound)));
    for id in translation_ids {
        let orphan = Translation::load(&db, id).unwrap();
        assert_eq!(orphan.card_id, card_id);
    }
}

#[test]
fn translations_for_card_come_ordered_by_language() {
    let file = tempfile::NamedTempFile::new().unwrap();
    let db = seeded_db(&file);
    let card_id = Card::load_all(&db).unwrap().first().unwrap().id;
    let translations = Translation::load_for_card(&db, card_id).unwrap();
    assert_eq!(translations.len(), 3);
    for pair in translations.windows(2) {
        assert!(pair[0].language_id <= pair[1].language_id);
    }
    let texts: Vec<&str> = translations.iter().map(|t| t.text.as_str()).collect();
    assert_eq!(texts, ["kaati", "card", "Karte"]);
}

#[test]
fn load_by_name_is_case_sensitive_exact_match() {
    let file = tempfile::NamedTempFile::new().unwrap();
    let db = seeded_db(&file);
    let found = Category::load_by_name(&db, "default".to_string()).unwrap();
    assert_eq!(found.name, "default");
    assert!(matches!(
        Category::load_by_name(&db, "Default".to_string()),
        Err(DatabaseError::NotFound)
    ));
    assert!(matches!(
        Category::load_by_name(&db, "missing".to_string()),
        Err(DatabaseError::NotFound)
    ));
}
