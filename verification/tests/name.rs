use gimei::name::error::NameError;
use gimei::name::gender::Gender;
use gimei::name::{First, Last, Name};
use gimei::value::Value;

fn entry(kanji: &str, hiragana: &str, katakana: &str) -> Value {
    Value::List(vec![
        Value::Text(kanji.to_string()),
        Value::Text(hiragana.to_string()),
        Value::Text(katakana.to_string()),
    ])
}

fn table_of(female: Vec<Value>, male: Vec<Value>, last: Vec<Value>) -> Value {
    Value::Table(vec![
        (
            "first_name".to_string(),
            Value::Table(vec![
                ("female".to_string(), Value::List(female)),
                ("male".to_string(), Value::List(male)),
            ]),
        ),
        ("last_name".to_string(), Value::List(last)),
    ])
}

fn names() -> Value {
    table_of(
        vec![
            entry("花子", "はなこ", "ハナコ"),
            entry("陽菜", "ひな", "ヒナ"),
            entry("美咲", "みさき", "ミサキ"),
        ],
        vec![
            entry("太郎", "たろう", "タロウ"),
            entry("大翔", "ひろと", "ヒロト"),
        ],
        vec![
            entry("山田", "やまだ", "ヤマダ"),
            entry("佐藤", "さとう", "サトウ"),
            entry("鈴木", "すずき", "スズキ"),
            entry("高橋", "たかはし", "タカハシ"),
        ],
    )
}

fn single() -> Value {
    table_of(
        vec![entry("花子", "はなこ", "ハナコ")],
        vec![entry("太郎", "たろう", "タロウ")],
        vec![entry("山田", "やまだ", "ヤマダ")],
    )
}

#[test]
fn kanji() {
    let name = Name::new(&names()).unwrap();
    assert!(!name.kanji().is_empty());
}

#[test]
fn hiragana() {
    let name = Name::new(&names()).unwrap();
    assert!(!name.hiragana().is_empty());
}

#[test]
fn katakana() {
    let name = Name::new(&names()).unwrap();
    assert!(!name.katakana().is_empty());
}

#[test]
fn gender() {
    {
        let name = Name::new_with_gender(&names(), Gender::Female).unwrap();
        assert!(name.is_female());
    }
    {
        let name = Name::new_with_gender(&names(), Gender::Male).unwrap();
        assert!(name.is_male());
    }
}

#[test]
fn first_name() {
    let first = Name::new(&names()).unwrap().first;
    assert!(!first.kanji().is_empty());
    assert!(!first.hiragana().is_empty());
    assert!(!first.katakana().is_empty());
}

#[test]
fn last_name() {
    let last = Name::new(&names()).unwrap().last;
    assert!(!last.kanji().is_empty());
    assert!(!last.hiragana().is_empty());
    assert!(!last.katakana().is_empty());
}

#[test]
fn single_entry_pools_fix_the_female_name() {
    let name = Name::new_with_gender(&single(), Gender::Female).unwrap();
    assert_eq!(name.kanji(), "山田 花子");
    assert_eq!(name.hiragana(), "やまだ はなこ");
    assert_eq!(name.katakana(), "ヤマダ ハナコ");
}

#[test]
fn single_entry_pools_fix_the_male_name() {
    let name = Name::new_with_gender(&single(), Gender::Male).unwrap();
    assert_eq!(name.kanji(), "山田 太郎");
    assert_eq!(name.hiragana(), "やまだ たろう");
    assert_eq!(name.katakana(), "ヤマダ タロウ");
}

#[test]
fn gender_predicates_exclude_each_other() {
    for _ in 0..50 {
        let female = Name::new_with_gender(&names(), Gender::Female).unwrap();
        assert!(female.is_female());
        assert!(!female.is_male());
        assert_eq!(female.first.gender, Gender::Female);
        assert!(female.first.is_female());
        assert!(!female.first.is_male());
        let male = Name::new_with_gender(&names(), Gender::Male).unwrap();
        assert!(male.is_male());
        assert!(!male.is_female());
        assert_eq!(male.first.gender, Gender::Male);
        assert!(male.first.is_male());
        assert!(!male.first.is_female());
    }
}

#[test]
fn random_gender_gives_both() {
    let table = names();
    let mut female = 0;
    let mut male = 0;
    for _ in 0..2000 {
        let name = Name::new(&table).unwrap();
        assert_ne!(name.is_female(), name.is_male());
        if name.is_female() {
            female += 1;
        } else {
            male += 1;
        }
    }
    assert!(female > 0);
    assert!(male > 0);
}

#[test]
fn full_forms_have_one_space_between_pool_entries() {
    let table = names();
    let lasts = ["山田", "佐藤", "鈴木", "高橋"];
    let females = ["花子", "陽菜", "美咲"];
    for _ in 0..500 {
        let name = Name::new_with_gender(&table, Gender::Female).unwrap();
        for full in [name.kanji(), name.hiragana(), name.katakana()] {
            assert!(!full.is_empty());
            assert_eq!(full.matches(' ').count(), 1);
        }
        let kanji = name.kanji();
        let (last, first) = kanji.split_once(' ').unwrap();
        assert!(lasts.contains(&last));
        assert!(females.contains(&first));
        assert_eq!(last, name.last.kanji());
        assert_eq!(first, name.first.kanji());
    }
}

#[test]
fn parts_are_never_empty() {
    let table = names();
    for _ in 0..500 {
        let name = Name::new(&table).unwrap();
        assert!(!name.first.kanji().is_empty());
        assert!(!name.first.hiragana().is_empty());
        assert!(!name.first.katakana().is_empty());
        assert!(!name.last.kanji().is_empty());
        assert!(!name.last.hiragana().is_empty());
        assert!(!name.last.katakana().is_empty());
    }
}

#[test]
fn an_empty_form_in_the_table_comes_out_empty() {
    let table = table_of(
        vec![entry("", "", "")],
        vec![entry("", "", "")],
        vec![entry("", "", "")],
    );
    let name = Name::new_with_gender(&table, Gender::Male).unwrap();
    assert_eq!(name.first.kanji(), "");
    assert_eq!(name.last.katakana(), "");
    assert_eq!(name.kanji(), " ");
}

#[test]
fn a_space_in_the_table_is_kept() {
    let table = table_of(
        vec![entry("花 子", "はなこ", "ハナコ")],
        vec![],
        vec![entry("山田", "やまだ", "ヤマダ")],
    );
    let name = Name::new_with_gender(&table, Gender::Female).unwrap();
    assert_eq!(name.kanji(), "山田 花 子");
    assert_eq!(name.kanji().matches(' ').count(), 2);
}

#[test]
fn ten_thousand_draws_visit_every_first_name_and_no_other() {
    let table = names();
    let pool = [
        ("花子", "はなこ", "ハナコ"),
        ("陽菜", "ひな", "ヒナ"),
        ("美咲", "みさき", "ミサキ"),
    ];
    let mut seen = [0usize; 3];
    for _ in 0..10_000 {
        let first = First::new(&table, Gender::Female).unwrap();
        let triple = (first.kanji(), first.hiragana(), first.katakana());
        let at = pool
            .iter()
            .position(|p| p.0 == triple.0 && p.1 == triple.1 && p.2 == triple.2);
        assert!(at.is_some());
        seen[at.unwrap()] += 1;
    }
    assert!(seen[0] > 0);
    assert!(seen[1] > 0);
    assert!(seen[2] > 0);
    assert_eq!(seen[0] + seen[1] + seen[2], 10_000);
}

#[test]
fn ten_thousand_draws_visit_every_last_name_and_no_other() {
    let table = names();
    let pool = ["山田", "佐藤", "鈴木", "高橋"];
    let mut seen = [0usize; 4];
    for _ in 0..10_000 {
        let last = Last::new(&table).unwrap();
        let at = pool.iter().position(|p| *p == last.kanji());
        assert!(at.is_some());
        seen[at.unwrap()] += 1;
    }
    for count in seen {
        assert!(count > 0);
    }
}

#[test]
fn a_draw_picks_the_entry_at_its_remainder() {
    let table = names();
    let first = First::with_draw(&table, Gender::Female, 4).unwrap();
    assert_eq!(first.kanji(), "陽菜");
    assert_eq!(first.hiragana(), "ひな");
    assert_eq!(first.katakana(), "ヒナ");
    assert_eq!(first.gender, Gender::Female);
    let first = First::with_draw(&table, Gender::Male, 4).unwrap();
    assert_eq!(first.kanji(), "太郎");
    assert_eq!(first.gender, Gender::Male);
    let first = First::with_draw(&table, Gender::Male, usize::MAX).unwrap();
    assert_eq!(first.kanji(), "大翔");
    let last = Last::with_draw(&table, 7).unwrap();
    assert_eq!(last.kanji(), "高橋");
    assert_eq!(last.hiragana(), "たかはし");
    assert_eq!(last.katakana(), "タカハシ");
    let last = Last::with_draw(&table, 0).unwrap();
    assert_eq!(last.kanji(), "山田");
}

#[test]
fn two_draws_fix_the_whole_name() {
    let table = names();
    let name = Name::with_draws(&table, Gender::Female, 2, 5).unwrap();
    assert_eq!(name.kanji(), "佐藤 美咲");
    assert_eq!(name.hiragana(), "さとう みさき");
    assert_eq!(name.katakana(), "サトウ ミサキ");
    assert!(name.is_female());
    assert!(!name.is_male());
    let name = Name::with_draws(&table, Gender::Male, 3, 2).unwrap();
    assert_eq!(name.kanji(), "鈴木 大翔");
    assert!(name.is_male());
    assert!(!name.is_female());
}

#[test]
fn every_index_is_reached_by_its_own_draw() {
    let table = names();
    let pool = ["山田", "佐藤", "鈴木", "高橋"];
    for (i, kanji) in pool.iter().enumerate() {
        assert_eq!(Last::with_draw(&table, i).unwrap().kanji(), *kanji);
        assert_eq!(Last::with_draw(&table, i + 4 * 1000).unwrap().kanji(), *kanji);
    }
}

#[test]
fn missing_last_name_is_a_missing_category() {
    let table = Value::Table(vec![(
        "first_name".to_string(),
        Value::Table(vec![(
            "female".to_string(),
            Value::List(vec![entry("花子", "はなこ", "ハナコ")]),
        )]),
    )]);
    let err = Last::new(&table).unwrap_err();
    assert_eq!(err, NameError::MissingCategory);
    assert_eq!(err.message(), "missing category");
    assert_eq!(Last::with_draw(&table, 0).unwrap_err(), NameError::MissingCategory);
    assert_eq!(
        Name::new_with_gender(&table, Gender::Female).unwrap_err(),
        NameError::MissingCategory
    );
    assert!(First::new(&table, Gender::Female).is_ok());
}

#[test]
fn missing_first_name_is_a_missing_category() {
    let table = Value::Table(vec![(
        "last_name".to_string(),
        Value::List(vec![entry("山田", "やまだ", "ヤマダ")]),
    )]);
    assert_eq!(
        First::new(&table, Gender::Male).unwrap_err(),
        NameError::MissingCategory
    );
    assert_eq!(
        First::with_draw(&table, Gender::Male, 3).unwrap_err(),
        NameError::MissingCategory
    );
    assert_eq!(Name::new(&table).unwrap_err(), NameError::MissingCategory);
    assert!(Last::new(&table).is_ok());
}

#[test]
fn a_table_that_is_no_table_has_no_category() {
    let table = Value::List(vec![entry("山田", "やまだ", "ヤマダ")]);
    assert_eq!(Last::new(&table).unwrap_err(), NameError::MissingCategory);
    assert_eq!(
        First::new(&Value::Integer(3), Gender::Female).unwrap_err(),
        NameError::MissingCategory
    );
}

#[test]
fn missing_gender_is_a_missing_bucket() {
    let table = Value::Table(vec![
        (
            "first_name".to_string(),
            Value::Table(vec![(
                "female".to_string(),
                Value::List(vec![entry("花子", "はなこ", "ハナコ")]),
            )]),
        ),
        (
            "last_name".to_string(),
            Value::List(vec![entry("山田", "やまだ", "ヤマダ")]),
        ),
    ]);
    let err = First::new(&table, Gender::Male).unwrap_err();
    assert_eq!(err, NameError::MissingGenderBucket);
    assert_eq!(err.message(), "missing gender bucket");
    assert_eq!(
        Name::new_with_gender(&table, Gender::Male).unwrap_err(),
        NameError::MissingGenderBucket
    );
    assert_eq!(
        Name::new_with_gender(&table, Gender::Female).unwrap().kanji(),
        "山田 花子"
    );
}

#[test]
fn an_empty_pool_is_an_error() {
    let table = table_of(vec![], vec![entry("太郎", "たろう", "タロウ")], vec![]);
    let err = First::new(&table, Gender::Female).unwrap_err();
    assert_eq!(err, NameError::EmptyPool);
    assert_eq!(err.message(), "empty pool");
    assert_eq!(
        First::with_draw(&table, Gender::Female, 9).unwrap_err(),
        NameError::EmptyPool
    );
    assert_eq!(Last::new(&table).unwrap_err(), NameError::EmptyPool);
    assert_eq!(
        Name::new_with_gender(&table, Gender::Male).unwrap_err(),
        NameError::EmptyPool
    );
}

#[test]
fn a_wrong_shape_is_a_malformed_entry() {
    let two = Value::List(vec![
        Value::Text("山田".to_string()),
        Value::Text("やまだ".to_string()),
    ]);
    let four = Value::List(vec![
        Value::Text("山田".to_string()),
        Value::Text("やまだ".to_string()),
        Value::Text("ヤマダ".to_string()),
        Value::Text("Yamada".to_string()),
    ]);
    let number = Value::List(vec![
        Value::Text("山田".to_string()),
        Value::Integer(7),
        Value::Text("ヤマダ".to_string()),
    ]);
    for bad in [two, four, number, Value::Text("山田".to_string()), Value::Opaque] {
        let table = table_of(vec![], vec![], vec![bad]);
        let err = Last::new(&table).unwrap_err();
        assert_eq!(err, NameError::MalformedEntry);
        assert_eq!(err.message(), "malformed entry shape");
    }
}

#[test]
fn a_pool_that_is_no_list_is_a_malformed_entry() {
    let table = Value::Table(vec![
        ("last_name".to_string(), Value::Text("山田".to_string())),
        (
            "first_name".to_string(),
            Value::Table(vec![("male".to_string(), Value::Boolean(true))]),
        ),
    ]);
    assert_eq!(Last::new(&table).unwrap_err(), NameError::MalformedEntry);
    assert_eq!(
        First::new(&table, Gender::Male).unwrap_err(),
        NameError::MalformedEntry
    );
}

#[test]
fn a_pool_that_is_one_entry_is_a_malformed_entry() {
    let table = Value::Table(vec![(
        "last_name".to_string(),
        entry("山田", "やまだ", "ヤマダ"),
    )]);
    assert_eq!(Last::new(&table).unwrap_err(), NameError::MalformedEntry);
    assert_eq!(Last::with_draw(&table, 1).unwrap_err(), NameError::MalformedEntry);
}

#[test]
fn a_mixed_pool_fails_only_on_the_bad_entry() {
    let table = table_of(
        vec![],
        vec![],
        vec![entry("山田", "やまだ", "ヤマダ"), Value::Integer(1)],
    );
    assert_eq!(Last::with_draw(&table, 0).unwrap().kanji(), "山田");
    assert_eq!(Last::with_draw(&table, 1).unwrap_err(), NameError::MalformedEntry);
    assert_eq!(Last::with_draw(&table, 2).unwrap().kanji(), "山田");
}

#[test]
fn the_given_name_fails_before_the_surname() {
    let table = Value::Table(vec![(
        "first_name".to_string(),
        Value::Table(vec![("female".to_string(), Value::List(vec![]))]),
    )]);
    assert_eq!(
        Name::new_with_gender(&table, Gender::Female).unwrap_err(),
        NameError::EmptyPool
    );
    assert_eq!(
        Name::with_draws(&table, Gender::Female, 0, 0).unwrap_err(),
        NameError::EmptyPool
    );
    assert_eq!(
        Name::with_draws(&table, Gender::Male, 0, 0).unwrap_err(),
        NameError::MissingGenderBucket
    );
}
