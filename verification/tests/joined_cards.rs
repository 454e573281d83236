//! The joined loaders: cards with their category and translations
//! resolved.

use kaati_ako::database::{get_connection, initialise, Db};
use kaati_ako::joined::{Card, Translation};
use kaati_ako::models::card::Card as CardRecord;
use kaati_ako::models::translation::Translation as TranslationRecord;
use kaati_ako::models::Model;

fn seeded_db(file: &tempfile::NamedTempFile) -> Db {
    let path = file.path().to_str().unwrap();
    let mut db = get_connection(path).unwrap();
    initialise(&mut db).unwrap();
    db
}

#[test]
fn get_all_resolves_categories_and_translations() {
    let file = tempfile::NamedTempFile::new().unwrap();
    let db = seeded_db(&file);
    let cards = Card::get_all(&db).unwrap();
    assert_eq!(cards.len(), 3);
    for pair in cards.windows(2) {
        assert!(pair[0].id < pair[1].id);
    }
    for card in &cards {
        assert_eq!(card.category.name, "default");
        assert_eq!(card.translations.len(), 3);
        for translation in &card.translations {
            assert!(translation.id > 0);
            assert!(["Tongan", "English", "German"]
                .contains(&translation.language.name.as_str()));
        }
    }
    let first = &cards[0];
    let texts: Vec<&str> = first.translations.iter().map(|t| t.text.as_str()).collect();
    assert!(texts.contains(&"kaati"));
    assert!(texts.contains(&"card"));
    assert!(texts.contains(&"Karte"));
}

#[test]
fn get_random_resolves_a_stored_card() {
    let file = tempfile::NamedTempFile::new().unwrap();
    let db = seeded_db(&file);
    let ids: Vec<i64> = CardRecord::load_all(&db).unwrap().iter().map(|c| c.id).collect();
    let card = Card::get_random(&db).unwrap();
    assert!(ids.contains(&card.id));
    assert_eq!(card.category.name, "default");
    assert_eq!(card.translations.len(), 3);
}

#[test]
fn get_random_on_empty_table_yields_the_empty_card() {
    let file = tempfile::NamedTempFile::new().unwrap();
    let mut db = seeded_db(&file);
    for t in TranslationRecord::load_all(&db).unwrap() {
        TranslationRecord::delete(&mut db, t.id).unwrap();
    }
    for c in CardRecord::load_all(&db).unwrap() {
        CardRecord::delete(&mut db, c.id).unwrap();
    }
    let card = Card::get_random(&db).unwrap();
    assert_eq!(card.id, 0);
    assert_eq!(card.category.id, 0);
    assert_eq!(card.category.name, "");
    assert!(card.translations.is_empty());
}

#[test]
fn get_empty_is_blank() {
    let card = Card::get_empty();
    assert_eq!(card.id, 0);
    assert_eq!(card.category.id, 0);
    assert_eq!(card.category.name, "");
    assert!(card.translations.is_empty());
}

#[test]
fn add_inserts_a_card() {
    let file = tempfile::NamedTempFile::new().unwrap();
    let mut db = seeded_db(&file);
    let category_id = CardRecord::load_all(&db).unwrap()[0].category_id;
    let id = Card::add(&mut db, category_id).unwrap();
    assert!(id > 0);
    let stored = CardRecord::load(&db, id).unwrap();
    assert_eq!(stored.id, id);
    assert_eq!(stored.category_id, category_id);
}

#[test]
fn add_inserts_a_translation() {
    let file = tempfile::NamedTempFile::new().unwrap();
    let mut db = seeded_db(&file);
    let card_id = CardRecord::load_all(&db).unwrap()[0].id;
    let language_id = 1;
    let id = Translation::add(&mut db, card_id, language_id, "mohe", "to sleep").unwrap();
    assert!(id > 0);
    let stored = TranslationRecord::load(&db, id).unwrap();
    assert_eq!(stored.card_id, card_id);
    assert_eq!(stored.language_id, language_id);
    assert_eq!(stored.text, "mohe");
    assert_eq!(stored.description, "to sleep");
}

#[test]
fn joined_translations_carry_their_language() {
    let file = tempfile::NamedTempFile::new().unwrap();
    let db = seeded_db(&file);
    let card_id = CardRecord::load_all(&db).unwrap()[0].id;
    let translations = Translation::get_all(&db, card_id).unwrap();
    assert_eq!(translations.len(), 3);
    for translation in &translations {
        let code = translation.language.code.as_str();
        assert!(["to", "en", "de"].contains(&code));
        assert_eq!(translation.language.id > 0, true);
    }
}
