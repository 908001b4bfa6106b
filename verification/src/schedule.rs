//! Turning the timetable service's answers into the bot's Markdown texts.
use vstd::prelude::*;
use crate::json::{
    Json, json_parse_result, parse_json, as_flag, as_items, as_text, at, deref_json, element, equals_number, equals_u64, flag_of,
    get, is_obj, is_object, items_of, member, text_or_empty,
};

verus! {

/// The text shown for a day without lessons.
pub open spec fn nothing_text() -> Seq<char> {
    "Тут ничего нет :С"@
}

/// The line that describes one lesson:
/// `*<start - end>* - subject (kind) 📍 building, ауд. room` and a line break.
pub open spec fn lesson_line(lesson: Json) -> Seq<char> {
    let l = Some(lesson);
    let room = element(member(l, "auditories"@), 0);
    "*<"@ + text_or_empty(member(l, "time_start"@)) + " - "@ + text_or_empty(member(l, "time_end"@))
        + ">* - "@ + text_or_empty(member(l, "subject"@)) + " ("@
        + text_or_empty(member(member(l, "typeObj"@), "name"@)) + ") 📍 "@
        + text_or_empty(member(member(room, "building"@), "name"@)) + ", ауд. "@
        + text_or_empty(member(room, "name"@)) + "\n"@
}

/// The lines of all `lessons`, in order.
pub open spec fn lessons_text(lessons: Seq<Json>) -> Seq<char>
    decreases lessons.len(),
{
    if lessons.len() == 0 {
        Seq::empty()
    } else {
        lessons_text(lessons.drop_last()) + lesson_line(lessons.last())
    }
}

/// `day` is the entry of the weekday numbered `weekday`.
pub open spec fn day_matches(day: Json, weekday: u32) -> bool {
    equals_u64(member(Some(day), "weekday"@), weekday as u64)
}

/// The lessons of `day`.
pub open spec fn day_lessons(day: Json) -> Seq<Json> {
    items_of(member(Some(day), "lessons"@)).unwrap()
}

/// The text after looking at one more day: a matching day adds its lessons, or, when it
/// has none, replaces the text with [`nothing_text`]; other days change nothing.
pub open spec fn apply_day(text: Seq<char>, day: Json, weekday: u32) -> Seq<char> {
    if day_matches(day, weekday) {
        if day_lessons(day).len() > 0 {
            text + lessons_text(day_lessons(day))
        } else {
            nothing_text()
        }
    } else {
        text
    }
}

/// The text built from `days`, looked at in order.
pub open spec fn days_text(days: Seq<Json>, weekday: u32) -> Seq<char>
    decreases days.len(),
{
    if days.len() == 0 {
        Seq::empty()
    } else {
        apply_day(days_text(days.drop_last(), weekday), days.last(), weekday)
    }
}

/// The days of a week's timetable.
pub open spec fn schedule_days(schedule: Json) -> Seq<Json> {
    items_of(member(Some(schedule), "days"@)).unwrap()
}

/// A week's timetable can be read for weekday `date`: it has a list of days, and every
/// day of that weekday (counted modulo 7) has a list of lessons.
pub open spec fn day_input_ok(schedule: Json, date: u32) -> bool {
    &&& items_of(member(Some(schedule), "days"@)) is Some
    &&& forall|i: int|
        0 <= i < schedule_days(schedule).len() && day_matches(
            #[trigger] schedule_days(schedule)[i],
            date % 7,
        ) ==> items_of(member(Some(schedule_days(schedule)[i]), "lessons"@)) is Some
}

/// The text for weekday `date` (counted modulo 7, Sunday being 0 or 7) of a week's
/// timetable.
pub open spec fn day_text(schedule: Json, date: u32) -> Seq<char> {
    if schedule_days(schedule).len() == 0 {
        nothing_text()
    } else {
        days_text(schedule_days(schedule), date % 7)
    }
}

/// The object that describes the week of a timetable.
pub open spec fn week_info(schedule: Json) -> Option<Json> {
    member(Some(schedule), "week"@)
}

/// A timetable describes its week: an object with the dates of its first and last day and
/// whether the week is odd.
pub open spec fn week_input_ok(schedule: Json) -> bool {
    &&& is_object(week_info(schedule))
    &&& member(week_info(schedule), "date_start"@) is Some
    &&& member(week_info(schedule), "date_end"@) is Some
    &&& member(week_info(schedule), "is_odd"@) is Some
}

/// The week is odd; a week that does not say counts as odd.
pub open spec fn week_is_odd(schedule: Json) -> bool {
    match flag_of(member(week_info(schedule), "is_odd"@)) {
        Some(b) => b,
        None => true,
    }
}

/// The headline of a week: `*first - last* ` and whether the week is odd or even.
pub open spec fn week_text(schedule: Json) -> Seq<char> {
    let w = week_info(schedule);
    "*"@ + text_or_empty(member(w, "date_start"@)) + " - "@ + text_or_empty(member(w, "date_end"@))
        + "* "@ + if week_is_odd(schedule) {
        "Нечетная *Ⅰ*"@
    } else {
        "Четная *Ⅱ*"@
    }
}

/// Appends the text of `v`, or nothing when it is not a string.
fn append_text(out: &mut String, v: Option<&Json>)
    ensures
        final(out)@ == old(out)@ + text_or_empty(deref_json(v)),
{
    match as_text(v) {
        Some(s) => out.append(s),
        None => {
            assert(old(out)@ + text_or_empty(deref_json(v)) =~= old(out)@);
        },
    }
}

/// Appends the line that describes `lesson`.
fn append_lesson(out: &mut String, lesson: &Json)
    ensures
        final(out)@ == old(out)@ + lesson_line(*lesson),
{
    let l = Some(lesson);
    let room = at(get(l, "auditories"), 0);
    out.append("*<");
    append_text(out, get(l, "time_start"));
    out.append(" - ");
    append_text(out, get(l, "time_end"));
    out.append(">* - ");
    append_text(out, get(l, "subject"));
    out.append(" (");
    append_text(out, get(get(l, "typeObj"), "name"));
    out.append(") 📍 ");
    append_text(out, get(get(room, "building"), "name"));
    out.append(", ауд. ");
    append_text(out, get(room, "name"));
    out.append("\n");
    assert(out@ =~= old(out)@ + lesson_line(*lesson));
}

/// Whether [`parse_day`] can read `schedule` for weekday `date`.
pub fn can_parse_day(schedule: &Json, date: u32) -> (r: bool)
    ensures
        r == day_input_ok(*schedule, date),
{
    let days = match as_items(get(Some(schedule), "days")) {
        Some(days) => days,
        None => return false,
    };
    let weekday = date % 7;
    let mut i: usize = 0;
    while i < days.len()
        invariant
            i <= days@.len(),
            weekday == date % 7,
            days@ == schedule_days(*schedule),
            items_of(member(Some(*schedule), "days"@)) is Some,
            forall|k: int|
                0 <= k < i && day_matches(#[trigger] days@[k], weekday) ==> items_of(
                    member(Some(days@[k]), "lessons"@),
                ) is Some,
        decreases days@.len() - i,
    {
        let day = &days[i];
        if equals_number(get(Some(day), "weekday"), weekday as u64) {
            if as_items(get(Some(day), "lessons")).is_none() {
                return false;
            }
        }
        i = i + 1;
    }
    true
}

/// The text for weekday `date` of a week's timetable: the lessons of each day entry of
/// that weekday (counted modulo 7), one line each; the day-off text where such an entry
/// has no lessons or the week has no days at all.
pub fn parse_day(schedule: &Json, date: u32) -> (r: String)
    requires
        day_input_ok(*schedule, date),
    ensures
        r@ == day_text(*schedule, date),
{
    let days = as_items(get(Some(schedule), "days")).unwrap();
    let weekday = date % 7;
    if days.len() == 0 {
        return String::from_str("Тут ничего нет :С");
    }
    let mut out = String::new();
    let mut i: usize = 0;
    assert(days@.take(0) =~= Seq::<Json>::empty());
    while i < days.len()
        invariant
            i <= days@.len(),
            weekday == date % 7,
            days@ == schedule_days(*schedule),
            day_input_ok(*schedule, date),
            out@ == days_text(days@.take(i as int), weekday),
        decreases days@.len() - i,
    {
        let day = &days[i];
        assert(days@.take(i + 1).drop_last() =~= days@.take(i as int));
        assert(days@.take(i + 1).last() == *day);
        if equals_number(get(Some(day), "weekday"), weekday as u64) {
            let lessons = as_items(get(Some(day), "lessons")).unwrap();
            if lessons.len() > 0 {
                let ghost start = out@;
                let mut j: usize = 0;
                assert(lessons@.take(0) =~= Seq::<Json>::empty());
                assert(out@ =~= start + lessons_text(lessons@.take(0)));
                while j < lessons.len()
                    invariant
                        j <= lessons@.len(),
                        out@ == start + lessons_text(lessons@.take(j as int)),
                    decreases lessons@.len() - j,
                {
                    assert(lessons@.take(j + 1).drop_last() =~= lessons@.take(j as int));
                    append_lesson(&mut out, &lessons[j]);
                    assert(out@ =~= start + lessons_text(lessons@.take(j + 1)));
                    j = j + 1;
                }
                assert(lessons@.take(lessons@.len() as int) =~= lessons@);
            } else {
                out = String::from_str("Тут ничего нет :С");
            }
        }
        i = i + 1;
    }
    assert(days@.take(days@.len() as int) =~= days@);
    out
}

/// Whether [`parse_week`] can read `schedule`.
pub fn can_parse_week(schedule: &Json) -> (r: bool)
    ensures
        r == week_input_ok(*schedule),
{
    let week = get(Some(schedule), "week");
    is_obj(week) && get(week, "date_start").is_some() && get(week, "date_end").is_some() && get(
        week,
        "is_odd",
    ).is_some()
}

/// The headline of a week's timetable: `*first - last* ` and the parity of the week.
pub fn parse_week(schedule: &Json) -> (r: String)
    requires
        week_input_ok(*schedule),
    ensures
        r@ == week_text(*schedule),
{
    let week = get(Some(schedule), "week");
    let mut out = String::from_str("*");
    append_text(&mut out, get(week, "date_start"));
    out.append(" - ");
    append_text(&mut out, get(week, "date_end"));
    out.append("* ");
    let odd = match as_flag(get(week, "is_odd")) {
        Some(b) => b,
        None => true,
    };
    if odd {
        out.append("Нечетная *Ⅰ*");
    } else {
        out.append("Четная *Ⅱ*");
    }
    assert(out@ =~= week_text(*schedule));
    out
}

/// The text for weekday `date` of the timetable that the service answered with `answer`:
/// none where the answer is not JSON or cannot be read for that weekday.
pub fn day_answer(answer: &str, date: u32) -> (r: Option<String>)
    ensures
        match json_parse_result(answer@) {
            Some(doc) => if day_input_ok(doc, date) {
                r matches Some(t) && t@ == day_text(doc, date)
            } else {
                r is None
            },
            None => r is None,
        },
{
    match parse_json(answer) {
        Some(doc) => if can_parse_day(&doc, date) {
            Some(parse_day(&doc, date))
        } else {
            None
        },
        None => None,
    }
}

/// The headline of the week that the service answered with `answer`: none where the
/// answer is not JSON or does not describe its week.
pub fn week_answer(answer: &str) -> (r: Option<String>)
    ensures
        match json_parse_result(answer@) {
            Some(doc) => if week_input_ok(doc) {
                r matches Some(t) && t@ == week_text(doc)
            } else {
                r is None
            },
            None => r is None,
        },
{
    match parse_json(answer) {
        Some(doc) => if can_parse_week(&doc) {
            Some(parse_week(&doc))
        } else {
            None
        },
        None => None,
    }
}

/// A week whose only day entry is of weekday `date` (modulo 7) and holds the single lesson
/// `lesson` reads as that lesson's line.
pub proof fn law_day_of_one_lesson(schedule: Json, date: u32, day: Json, lesson: Json)
    requires
        day_input_ok(schedule, date),
        schedule_days(schedule) == seq![day],
        day_matches(day, date % 7),
        day_lessons(day) == seq![lesson],
    ensures
        day_text(schedule, date) == lesson_line(lesson),
{
    let w = date % 7;
    assert(seq![day].drop_last() =~= Seq::<Json>::empty());
    assert(seq![lesson].drop_last() =~= Seq::<Json>::empty());
    assert(days_text(seq![day], w) == apply_day(days_text(Seq::<Json>::empty(), w), day, w));
    assert(lessons_text(seq![lesson]) == lessons_text(Seq::<Json>::empty()) + lesson_line(lesson));
    assert(day_text(schedule, date) == days_text(seq![day], w));
    assert(Seq::<char>::empty() + lesson_line(lesson) =~= lesson_line(lesson));
    assert(Seq::<char>::empty() + (Seq::<char>::empty() + lesson_line(lesson)) =~= lesson_line(
        lesson,
    ));
}

/// One more lesson in the day entry adds exactly that lesson's line at the end: of two
/// weeks whose only day entry is of weekday `date`, one with lessons `lessons` (at least
/// one) and one with `lessons` and then `lesson`, the second reads as the first followed by
/// the line of `lesson`. So a day with n lessons shows n lines, in order.
pub proof fn law_day_lists_every_lesson(
    short: Json,
    long: Json,
    date: u32,
    short_day: Json,
    long_day: Json,
    lessons: Seq<Json>,
    lesson: Json,
)
    requires
        day_input_ok(short, date),
        day_input_ok(long, date),
        schedule_days(short) == seq![short_day],
        schedule_days(long) == seq![long_day],
        day_matches(short_day, date % 7),
        day_matches(long_day, date % 7),
        lessons.len() > 0,
        day_lessons(short_day) == lessons,
        day_lessons(long_day) == lessons.push(lesson),
    ensures
        day_text(long, date) == day_text(short, date) + lesson_line(lesson),
{
    assert(seq![short_day].drop_last() =~= Seq::<Json>::empty());
    assert(seq![long_day].drop_last() =~= Seq::<Json>::empty());
    assert(lessons.push(lesson).drop_last() =~= lessons);
    assert(lessons_text(lessons.push(lesson)) == lessons_text(lessons) + lesson_line(lesson));
    let w = date % 7;
    assert(days_text(seq![short_day], w) == apply_day(days_text(Seq::<Json>::empty(), w), short_day, w));
    assert(days_text(seq![long_day], w) == apply_day(days_text(Seq::<Json>::empty(), w), long_day, w));
    assert(day_text(short, date) == days_text(seq![short_day], w));
    assert(day_text(long, date) == days_text(seq![long_day], w));
    assert(day_text(short, date) =~= lessons_text(lessons));
    assert(day_text(long, date) =~= lessons_text(lessons) + lesson_line(lesson));
}

/// A lesson's line names the first room of its list of rooms, whatever else the list
/// holds: two lessons that agree on their times, subject and kind, and whose room lists
/// (neither empty) start with the same room, have the same line.
pub proof fn law_lesson_names_first_room(first: Json, second: Json, rooms1: Seq<Json>, rooms2: Seq<Json>)
    requires
        member(Some(first), "time_start"@) == member(Some(second), "time_start"@),
        member(Some(first), "time_end"@) == member(Some(second), "time_end"@),
        member(Some(first), "subject"@) == member(Some(second), "subject"@),
        member(Some(first), "typeObj"@) == member(Some(second), "typeObj"@),
        items_of(member(Some(first), "auditories"@)) == Some(rooms1),
        items_of(member(Some(second), "auditories"@)) == Some(rooms2),
        rooms1.len() > 0,
        rooms2.len() > 0,
        rooms1[0] == rooms2[0],
    ensures
        lesson_line(first) == lesson_line(second),
{
    assert(element(member(Some(first), "auditories"@), 0) == Some(rooms1[0]));
    assert(element(member(Some(second), "auditories"@), 0) == Some(rooms2[0]));
}

/// A lesson's line ends with the name of the first room of its (non-empty) list of rooms
/// and a line break.
pub proof fn law_lesson_line_ends_with_first_room(lesson: Json, rooms: Seq<Json>)
    requires
        items_of(member(Some(lesson), "auditories"@)) == Some(rooms),
        rooms.len() > 0,
    ensures
        ({
            let room = text_or_empty(member(Some(rooms[0]), "name"@)) + "\n"@;
            let line = lesson_line(lesson);
            line.len() >= room.len() && line.subrange(line.len() - room.len(), line.len() as int)
                == room
        }),
{
    assert(element(member(Some(lesson), "auditories"@), 0) == Some(rooms[0]));
    let room = text_or_empty(member(Some(rooms[0]), "name"@)) + "\n"@;
    let line = lesson_line(lesson);
    assert(line.subrange(line.len() - room.len(), line.len() as int) =~= room);
}

} // verus!
