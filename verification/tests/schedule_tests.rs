use schedule_bot::json::{as_flag, as_items, as_text, at, equals_number, get, is_obj, Json};
use schedule_bot::schedule::{can_parse_day, can_parse_week, day_answer, parse_day, parse_week, week_answer};
use schedule_bot::service::schedule_url;

fn s(v: &str) -> Json {
    Json::Str(v.to_string())
}

fn obj(entries: Vec<(&str, Json)>) -> Json {
    Json::Object(entries.into_iter().map(|(k, v)| (k.to_string(), v)).collect())
}

fn lesson(subject: &str, kind: &str, start: &str, end: &str, building: &str, room: &str) -> Json {
    obj(vec![
        ("subject", s(subject)),
        ("typeObj", obj(vec![("name", s(kind))])),
        ("time_start", s(start)),
        ("time_end", s(end)),
        ("auditories", Json::Array(vec![obj(vec![
            ("building", obj(vec![("name", s(building))])),
            ("name", s(room)),
        ])])),
    ])
}

fn day(weekday: u64, lessons: Vec<Json>) -> Json {
    obj(vec![("weekday", Json::Number(Some(weekday))), ("lessons", Json::Array(lessons))])
}

fn week(days: Vec<Json>) -> Json {
    obj(vec![("days", Json::Array(days))])
}

const NOTHING: &str = "Тут ничего нет :С";

#[test]
fn json_accessors_are_lenient() {
    let doc = obj(vec![("a", obj(vec![("b", s("x"))])), ("n", Json::Number(Some(3))), ("t", Json::Bool(false))]);
    assert_eq!(as_text(get(get(Some(&doc), "a"), "b")), Some("x"));
    assert_eq!(as_text(get(get(Some(&doc), "missing"), "b")), None);
    assert_eq!(as_text(at(get(Some(&doc), "a"), 0)), None);
    assert!(equals_number(get(Some(&doc), "n"), 3));
    assert!(!equals_number(get(Some(&doc), "n"), 4));
    assert!(!equals_number(get(Some(&doc), "a"), 3));
    assert_eq!(as_flag(get(Some(&doc), "t")), Some(false));
    assert!(is_obj(Some(&doc)));
    assert!(as_items(Some(&doc)).is_none());
}

#[test]
fn day_lists_the_lessons_of_the_weekday() {
    let doc = week(vec![
        day(1, vec![lesson("Физика", "Лекция", "10:00", "11:40", "ГЗ", "237")]),
        day(2, vec![
            lesson("Математика", "Практика", "08:00", "09:40", "1 корпус", "101"),
            lesson("История", "Лекция", "10:00", "11:40", "2 корпус", "202"),
        ]),
    ]);
    assert!(can_parse_day(&doc, 2));
    assert_eq!(
        parse_day(&doc, 2),
        "*<08:00 - 09:40>* - Математика (Практика) 📍 1 корпус, ауд. 101\n*<10:00 - 11:40>* - История (Лекция) 📍 2 корпус, ауд. 202\n"
    );
    // weekdays are counted modulo 7
    assert_eq!(parse_day(&doc, 8), parse_day(&doc, 1));
    assert_eq!(parse_day(&doc, 1), "*<10:00 - 11:40>* - Физика (Лекция) 📍 ГЗ, ауд. 237\n");
}

#[test]
fn day_without_entry_is_empty() {
    let doc = week(vec![day(1, vec![lesson("a", "b", "c", "d", "e", "f")])]);
    assert_eq!(parse_day(&doc, 3), "");
    assert_eq!(parse_day(&doc, 7), "");
}

#[test]
fn day_entry_without_lessons_is_a_day_off() {
    let doc = week(vec![day(4, vec![])]);
    assert_eq!(parse_day(&doc, 4), NOTHING);
    let empty = week(vec![]);
    assert_eq!(parse_day(&empty, 4), NOTHING);
}

#[test]
fn empty_entry_replaces_what_came_before() {
    let doc = week(vec![day(5, vec![lesson("a", "b", "c", "d", "e", "f")]), day(5, vec![])]);
    assert_eq!(parse_day(&doc, 5), NOTHING);
    let doc = week(vec![day(5, vec![]), day(5, vec![lesson("a", "b", "c", "d", "e", "f")])]);
    assert_eq!(parse_day(&doc, 5), format!("{}*<c - d>* - a (b) 📍 e, ауд. f\n", NOTHING));
}

#[test]
fn missing_lesson_fields_print_empty() {
    let doc = week(vec![day(1, vec![obj(vec![("subject", s("Химия")), ("auditories", Json::Array(vec![]))])])]);
    assert_eq!(parse_day(&doc, 1), "*< - >* - Химия () 📍 , ауд. \n");
}

#[test]
fn unreadable_days_are_refused() {
    let no_days = obj(vec![("week", obj(vec![]))]);
    assert!(!can_parse_day(&no_days, 1));
    let no_lessons = week(vec![obj(vec![("weekday", Json::Number(Some(1)))])]);
    assert!(!can_parse_day(&no_lessons, 1));
    assert!(can_parse_day(&no_lessons, 2));
    assert_eq!(parse_day(&no_lessons, 2), "");
}

fn week_doc(odd: Json) -> Json {
    obj(vec![("week", obj(vec![
        ("date_start", s("2024.03.04")),
        ("date_end", s("2024.03.10")),
        ("is_odd", odd),
    ]))])
}

#[test]
fn week_headline() {
    assert_eq!(parse_week(&week_doc(Json::Bool(true))), "*2024.03.04 - 2024.03.10* Нечетная *Ⅰ*");
    assert_eq!(parse_week(&week_doc(Json::Bool(false))), "*2024.03.04 - 2024.03.10* Четная *Ⅱ*");
    assert_eq!(parse_week(&week_doc(Json::Null)), "*2024.03.04 - 2024.03.10* Нечетная *Ⅰ*");
}

#[test]
fn week_needs_its_fields() {
    assert!(can_parse_week(&week_doc(Json::Null)));
    assert!(!can_parse_week(&obj(vec![("week", s("x"))])));
    assert!(!can_parse_week(&obj(vec![("week", obj(vec![("date_start", s("a")), ("date_end", s("b"))]))])));
    assert!(!can_parse_week(&obj(vec![])));
}

#[test]
fn schedule_url_for_a_date() {
    assert_eq!(
        schedule_url("13/21301", 2024, 3, 5),
        Some("http://ruz2.spbstu.ru/api/v1/ruz/scheduler/13/21301?date=2024-03-05".to_string())
    );
    assert_eq!(
        schedule_url("12345", 999, 12, 31),
        Some("http://ruz2.spbstu.ru/api/v1/ruz/scheduler/12345?date=0999-12-31".to_string())
    );
    assert_eq!(
        schedule_url("1", 12345, 1, 1),
        Some("http://ruz2.spbstu.ru/api/v1/ruz/scheduler/1?date=+12345-01-01".to_string())
    );
}

#[test]
fn schedule_url_normalises_the_address() {
    assert_eq!(
        schedule_url("a b", 2024, 2, 29),
        Some("http://ruz2.spbstu.ru/api/v1/ruz/scheduler/a%20b?date=2024-02-29".to_string())
    );
}

#[test]
fn schedule_url_refuses_missing_dates() {
    assert_eq!(schedule_url("1", 2023, 2, 29), None);
    assert_eq!(schedule_url("1", 2024, 13, 1), None);
    assert_eq!(schedule_url("1", 2024, 4, 31), None);
    assert_eq!(schedule_url("1", 400000, 1, 1), None);
}

#[test]
fn day_answer_reads_the_service_text() {
    let answer = r#"{"week": {"date_start": "a", "date_end": "b", "is_odd": true},
        "days": [{"weekday": 2, "lessons": [{"subject": "Физика", "typeObj": {"name": "Лекция"},
        "time_start": "10:00", "time_end": "11:40",
        "auditories": [{"name": "237", "building": {"name": "ГЗ"}}]}]}]}"#;
    assert_eq!(day_answer(answer, 2), Some("*<10:00 - 11:40>* - Физика (Лекция) 📍 ГЗ, ауд. 237\n".to_string()));
    assert_eq!(day_answer(answer, 9), day_answer(answer, 2));
    assert_eq!(day_answer(answer, 3), Some(String::new()));
    assert_eq!(week_answer(answer), Some("*a - b* Нечетная *Ⅰ*".to_string()));
}

#[test]
fn answer_numbers_are_compared_as_integers() {
    assert_eq!(day_answer(r#"{"days": [{"weekday": 2.0, "lessons": []}]}"#, 2), Some(String::new()));
    assert_eq!(day_answer(r#"{"days": [{"weekday": 2, "lessons": []}]}"#, 2), Some(NOTHING.to_string()));
}

#[test]
fn unreadable_answers_give_nothing() {
    assert_eq!(day_answer("not json", 1), None);
    assert_eq!(week_answer("{\"week\": 1"), None);
    assert_eq!(day_answer(r#"{"days": 5}"#, 1), None);
    assert_eq!(day_answer(r#"{"days": [{"weekday": 1}]}"#, 1), None);
    assert_eq!(week_answer(r#"{"week": {"date_start": "a"}}"#), None);
    assert_eq!(day_answer(r#"{"days": []}"#, 1), Some(NOTHING.to_string()));
}
