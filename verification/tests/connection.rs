//! The connection provider and the bootstrap.

use kaati_ako::database::{get_connection, initialise, DatabaseError};
use kaati_ako::models::card::Card;
use kaati_ako::models::category::Category;
use kaati_ako::models::language::Language;
use kaati_ako::models::translation::Translation;
use kaati_ako::models::Model;

#[test]
fn missing_file_is_file_not_found_and_stays_missing() {
    let dir = tempfile::TempDir::new().unwrap();
    let path = dir.path().join("absent.sqlite");
    let path_str = path.to_str().unwrap();
    match get_connection(path_str) {
        Err(DatabaseError::FileNotFound(p)) => assert_eq!(p, path_str),
        other => panic!("expected FileNotFound, got {:?}", other.map(|_| ())),
    }
    // The provider must not have created the file: a second call still
    // fails the same way.
    assert!(matches!(
        get_connection(path_str),
        Err(DatabaseError::FileNotFound(_))
    ));
}

#[test]
fn existing_file_opens() {
    let file = tempfile::NamedTempFile::new().unwrap();
    let path = file.path().to_str().unwrap();
    assert!(get_connection(path).is_ok());
}

#[test]
fn initialise_seeds_the_fixture_data() {
    let file = tempfile::NamedTempFile::new().unwrap();
    let mut db = get_connection(file.path().to_str().unwrap()).unwrap();
    initialise(&mut db).unwrap();
    let categories = Category::load_all(&db).unwrap();
    assert_eq!(categories.len(), 1);
    assert_eq!(categories[0].name, "default");
    let languages = Language::load_all(&db).unwrap();
    assert_eq!(languages.len(), 3);
    // Languages come back ordered by name.
    let names: Vec<&str> = languages.iter().map(|l| l.name.as_str()).collect();
    assert_eq!(names, ["English", "German", "Tongan"]);
    let codes: Vec<&str> = languages.iter().map(|l| l.code.as_str()).collect();
    assert_eq!(codes, ["en", "de", "to"]);
    let cards = Card::load_all(&db).unwrap();
    assert_eq!(cards.len(), 3);
    for card in &cards {
        assert_eq!(card.category_id, categories[0].id);
    }
    let translations = Translation::load_all(&db).unwrap();
    assert_eq!(translations.len(), 9);
    for translation in &translations {
        assert!(cards.iter().any(|c| c.id == translation.card_id));
        assert!(languages.iter().any(|l| l.id == translation.language_id));
    }
}

#[test]
fn initialise_again_resets_the_database() {
    let file = tempfile::NamedTempFile::new().unwrap();
    let mut db = get_connection(file.path().to_str().unwrap()).unwrap();
    initialise(&mut db).unwrap();
    let mut extra = Category::new(0, "extra".to_string());
    extra.save(&mut db).unwrap();
    assert_eq!(Category::load_all(&db).unwrap().len(), 2);
    initialise(&mut db).unwrap();
    let categories = Category::load_all(&db).unwrap();
    assert_eq!(categories.len(), 1);
    assert_eq!(categories[0].name, "default");
    assert_eq!(Card::load_all(&db).unwrap().len(), 3);
    assert_eq!(Translation::load_all(&db).unwrap().len(), 9);
}

#[test]
fn error_messages_name_their_cause() {
    assert_eq!(
        DatabaseError::FileNotFound("db.sqlite".to_string()).message(),
        "DatabaseError: File not found: db.sqlite!"
    );
    assert_eq!(
        DatabaseError::NotFound.message(),
        "DatabaseError: Item has not been found!"
    );
    assert_eq!(
        DatabaseError::SQLiteError("no such table".to_string()).message(),
        "DatabaseError: SQLite error: no such table!"
    );
    assert_eq!(
        DatabaseError::ValueNotInteger.message(),
        "DatabaseError: Value not an integer!"
    );
    assert_eq!(
        DatabaseError::ValueNotString.message(),
        "DatabaseError: Value not a string!"
    );
}

#[test]
fn queries_on_an_uninitialised_file_report_the_engine_error() {
    let file = tempfile::NamedTempFile::new().unwrap();
    let db = get_connection(file.path().to_str().unwrap()).unwrap();
    match Category::load_all(&db) {
        Err(DatabaseError::SQLiteError(message)) => {
            assert!(!message.is_empty());
        },
        other => panic!("expected SQLiteError, got {:?}", other.map(|v| v.len())),
    }
}
