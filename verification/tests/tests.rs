use enum_repr::model::VariantEntry;
use enum_repr::repr::ReprTag;
use enum_repr::table::{from_repr, table_fits, to_repr};

fn entry(name: &str, value: i128) -> VariantEntry {
    VariantEntry { name: name.to_string(), value }
}

fn foo_table() -> Vec<VariantEntry> {
    vec![entry("VAR1", -1), entry("VAR2", -3)]
}

fn foo32_table() -> Vec<VariantEntry> {
    vec![entry("VAR1", 1024)]
}

#[test]
fn test_i8() {
    let table = foo_table();
    assert_eq!(from_repr(&table, -1), Ok(0));
    assert_eq!(from_repr(&table, -3), Ok(1));
    assert_eq!(from_repr(&table, -9), Err(-9));

    assert_eq!(to_repr(&table, 0), -1);
    assert_eq!(to_repr(&table, 1), -3);
}

#[test]
fn test_u32() {
    let table = foo32_table();
    assert_eq!(from_repr(&table, 1024), Ok(0));
    assert_eq!(from_repr(&table, 50), Err(50));

    assert_eq!(to_repr(&table, 0), 1024);
}

#[test]
fn lookup_answers_with_entry_names() {
    let table = foo_table();
    let i: usize = from_repr(&table, -1).unwrap();
    assert_eq!(table[i].name, "VAR1");
    let j: usize = from_repr(&table, -3).unwrap();
    assert_eq!(table[j].name, "VAR2");
}

#[test]
fn round_trip_restores_each_variant() {
    let table = foo_table();
    for i in 0..table.len() {
        let v: i128 = to_repr(&table, i);
        assert_eq!(from_repr(&table, v), Ok(i));
    }
}

#[test]
fn duplicate_discriminant_first_entry_wins() {
    let table = vec![entry("FIRST", 7), entry("SECOND", 7)];
    assert_eq!(from_repr(&table, 7), Ok(0));
    assert_eq!(table[from_repr(&table, 7).unwrap()].name, "FIRST");
}

#[test]
fn empty_table_rejects_everything() {
    let table: Vec<VariantEntry> = Vec::new();
    assert_eq!(from_repr(&table, 0), Err(0));
    assert_eq!(from_repr(&table, -1), Err(-1));
}

#[test]
fn table_fits_checks_representability() {
    assert!(table_fits(ReprTag::I8, &foo_table()));
    assert!(!table_fits(ReprTag::U8, &foo_table()));
    assert!(table_fits(ReprTag::U32, &foo32_table()));
    assert!(!table_fits(ReprTag::I8, &foo32_table()));
    assert!(table_fits(ReprTag::I64, &Vec::new()));
}
