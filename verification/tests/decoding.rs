//! Row decoding: every column is type-checked, and each mismatch yields
//! its own error.

use kaati_ako::database::DatabaseError;
use kaati_ako::datum::Datum;
use kaati_ako::models::card::Card;
use kaati_ako::models::category::Category;
use kaati_ako::models::language::Language;
use kaati_ako::models::translation::Translation;
use kaati_ako::models::Model;

fn text(s: &str) -> Datum {
    Datum::Text(s.to_string())
}

#[test]
fn card_from_row_decodes_well_typed_row() {
    let row = vec![Datum::Integer(7), Datum::Integer(3)];
    let card = Card::from_row(&row).unwrap();
    assert_eq!(card.id, 7);
    assert_eq!(card.category_id, 3);
}

#[test]
fn card_from_row_rejects_non_integer_id() {
    let row = vec![text("seven"), Datum::Integer(3)];
    assert!(matches!(Card::from_row(&row), Err(DatabaseError::ValueNotInteger)));
    let row = vec![Datum::Null, Datum::Integer(3)];
    assert!(matches!(Card::from_row(&row), Err(DatabaseError::ValueNotInteger)));
}

#[test]
fn card_from_row_rejects_non_integer_category() {
    let row = vec![Datum::Integer(7), text("animals")];
    assert!(matches!(Card::from_row(&row), Err(DatabaseError::ValueNotInteger)));
}

#[test]
fn card_from_row_rejects_short_row() {
    let row = vec![Datum::Integer(7)];
    assert!(matches!(Card::from_row(&row), Err(DatabaseError::ValueNotInteger)));
}

#[test]
fn category_from_row_decodes_well_typed_row() {
    let row = vec![Datum::Integer(1), text("default")];
    let category = Category::from_row(&row).unwrap();
    assert_eq!(category.id, 1);
    assert_eq!(category.name, "default");
}

#[test]
fn category_from_row_rejects_non_string_name() {
    let row = vec![Datum::Integer(1), Datum::Integer(5)];
    assert!(matches!(Category::from_row(&row), Err(DatabaseError::ValueNotString)));
    let row = vec![Datum::Integer(1), Datum::Null];
    assert!(matches!(Category::from_row(&row), Err(DatabaseError::ValueNotString)));
}

#[test]
fn language_from_row_decodes_well_typed_row() {
    let row = vec![Datum::Integer(2), text("en"), text("English")];
    let language = Language::from_row(&row).unwrap();
    assert_eq!(language.id, 2);
    assert_eq!(language.code, "en");
    assert_eq!(language.name, "English");
}

#[test]
fn language_from_row_rejects_non_string_columns() {
    let row = vec![Datum::Integer(2), Datum::Integer(1), text("English")];
    assert!(matches!(Language::from_row(&row), Err(DatabaseError::ValueNotString)));
    let row = vec![Datum::Integer(2), text("en"), Datum::Null];
    assert!(matches!(Language::from_row(&row), Err(DatabaseError::ValueNotString)));
}

#[test]
fn translation_from_row_decodes_well_typed_row() {
    let row = vec![
        Datum::Integer(4),
        Datum::Integer(1),
        Datum::Integer(2),
        text("card"),
        text("A card as in flash card"),
    ];
    let translation = Translation::from_row(&row).unwrap();
    assert_eq!(translation.id, 4);
    assert_eq!(translation.card_id, 1);
    assert_eq!(translation.language_id, 2);
    assert_eq!(translation.text, "card");
    assert_eq!(translation.description, "A card as in flash card");
}

#[test]
fn translation_from_row_rejects_each_mismatch() {
    let good = vec![
        Datum::Integer(4),
        Datum::Integer(1),
        Datum::Integer(2),
        text("card"),
        text(""),
    ];
    let mut bad = good.clone();
    bad[0] = text("four");
    assert!(matches!(Translation::from_row(&bad), Err(DatabaseError::ValueNotInteger)));
    let mut bad = good.clone();
    bad[1] = Datum::Null;
    assert!(matches!(Translation::from_row(&bad), Err(DatabaseError::ValueNotInteger)));
    let mut bad = good.clone();
    bad[2] = text("two");
    assert!(matches!(Translation::from_row(&bad), Err(DatabaseError::ValueNotInteger)));
    let mut bad = good.clone();
    bad[3] = Datum::Integer(9);
    assert!(matches!(Translation::from_row(&bad), Err(DatabaseError::ValueNotString)));
    let mut bad = good.clone();
    bad[4] = Datum::Null;
    assert!(matches!(Translation::from_row(&bad), Err(DatabaseError::ValueNotString)));
}

#[test]
fn from_empty_yields_blank_records() {
    let card = Card::from_empty();
    assert_eq!(card.id, 0);
    assert_eq!(card.category_id, 0);
    let category = Category::from_empty();
    assert_eq!(category.id, 0);
    assert_eq!(category.name, "");
    let language = Language::from_empty();
    assert_eq!(language.id, 0);
    assert_eq!(language.code, "");
    assert_eq!(language.name, "");
    let translation = Translation::from_empty();
    assert_eq!(translation.id, 0);
    assert_eq!(translation.card_id, 0);
    assert_eq!(translation.language_id, 0);
    assert_eq!(translation.text, "");
    assert_eq!(translation.description, "");
}

#[test]
fn datum_accessors_type_check() {
    assert_eq!(Datum::Integer(5).as_integer(), Some(5));
    assert_eq!(text("x").as_integer(), None);
    assert_eq!(Datum::Null.as_integer(), None);
    assert_eq!(text("x").as_string().map(|s| s.as_str()), Some("x"));
    assert!(Datum::Integer(5).as_string().is_none());
    assert!(Datum::Null.as_string().is_none());
}
