//! The keyboards the bot attaches to its messages, and the callback data of their buttons.
use vstd::prelude::*;
use crate::text::{decimal_int, i64_text};

verus! {

/// A button under a message: its label and the callback data it sends back.
pub struct Button {
    pub text: String,
    pub data: String,
}

impl View for Button {
    type V = (Seq<char>, Seq<char>);

    open spec fn view(&self) -> (Seq<char>, Seq<char>) {
        (self.text@, self.data@)
    }
}

/// Buttons under a message, row by row.
pub struct InlineKeyboard {
    pub rows: Vec<Vec<Button>>,
}

/// The labels and callback data of a row of buttons.
pub open spec fn row_view(row: Vec<Button>) -> Seq<(Seq<char>, Seq<char>)> {
    row@.map_values(|b: Button| b@)
}

impl View for InlineKeyboard {
    type V = Seq<Seq<(Seq<char>, Seq<char>)>>;

    open spec fn view(&self) -> Seq<Seq<(Seq<char>, Seq<char>)>> {
        self.rows@.map_values(|r: Vec<Button>| row_view(r))
    }
}

/// A keyboard that replaces the user's keyboard: rows of labels, and whether the client
/// should shrink it to fit.
pub struct ReplyKeyboard {
    pub rows: Vec<Vec<String>>,
    pub resize: bool,
}

impl View for ReplyKeyboard {
    type V = (Seq<Seq<Seq<char>>>, bool);

    open spec fn view(&self) -> (Seq<Seq<Seq<char>>>, bool) {
        (self.rows@.map_values(|r: Vec<String>| r@.map_values(|s: String| s@)), self.resize)
    }
}

/// The callback data of a request for the week of `link`, `offset` days from now.
pub open spec fn week_data(link: Seq<char>, offset: int) -> Seq<char> {
    "week,"@ + link + ","@ + decimal_int(offset)
}

/// The callback data of a request for weekday `weekday` (a one-character digit string) of
/// the week of `link` that lies `offset` days from now.
pub open spec fn weekday_data(weekday: Seq<char>, link: Seq<char>, offset: int) -> Seq<char> {
    "week-"@ + weekday + ","@ + link + ","@ + decimal_int(offset)
}

/// The menu of a group: today, tomorrow, and the week of `link`; the tomorrow button
/// names `tomorrow_link`.
pub open spec fn menu_spec(link: Seq<char>, tomorrow_link: Seq<char>) -> Seq<
    Seq<(Seq<char>, Seq<char>)>,
> {
    seq![
        seq![("На сегодня"@, "day,"@ + link + ",0"@), ("На завтра"@, "day,"@ + tomorrow_link + ",1"@)],
        seq![("Неделя"@, "week,"@ + link + ",0"@)],
    ]
}

/// A single back button that sends `data`.
pub open spec fn back_spec(data: Seq<char>) -> Seq<Seq<(Seq<char>, Seq<char>)>> {
    seq![seq![("←"@, data)]]
}

/// The week view's keyboard: the six weekdays, the previous and next week, and back to
/// the group of `link`.
pub open spec fn week_keyboard_spec(link: Seq<char>, offset: int) -> Seq<
    Seq<(Seq<char>, Seq<char>)>,
> {
    seq![
        seq![
            ("Пн"@, weekday_data("1"@, link, offset)),
            ("Вт"@, weekday_data("2"@, link, offset)),
            ("Ср"@, weekday_data("3"@, link, offset)),
        ],
        seq![
            ("Чт"@, weekday_data("4"@, link, offset)),
            ("Пт"@, weekday_data("5"@, link, offset)),
            ("Сб"@, weekday_data("6"@, link, offset)),
        ],
        seq![("⇠"@, week_data(link, offset - 7)), ("⇢"@, week_data(link, offset + 7))],
        seq![("←"@, link)],
    ]
}

/// The label of the reply button that switches the evening timetable: it offers to switch
/// off what is on, and on what is off.
pub open spec fn notify_label(notify: bool) -> Seq<char> {
    if notify {
        "Выкл. уведомления 🔕"@
    } else {
        "Вкл. уведомления 🔔"@
    }
}

/// The reply keyboard with the single switch button for the state `notify`, resized.
pub open spec fn notify_keyboard_spec(notify: bool) -> (Seq<Seq<Seq<char>>>, bool) {
    (seq![seq![notify_label(notify)]], true)
}

fn button(text: &str, data: String) -> (r: Button)
    ensures
        r@ == (text@, data@),
{
    Button { text: String::from_str(text), data }
}

fn row1(a: Button) -> (r: Vec<Button>)
    ensures
        row_view(r) == seq![a@],
{
    let mut r = Vec::new();
    r.push(a);
    assert(row_view(r) =~= seq![a@]);
    r
}

fn row2(a: Button, b: Button) -> (r: Vec<Button>)
    ensures
        row_view(r) == seq![a@, b@],
{
    let mut r = Vec::new();
    r.push(a);
    r.push(b);
    assert(row_view(r) =~= seq![a@, b@]);
    r
}

fn row3(a: Button, b: Button, c: Button) -> (r: Vec<Button>)
    ensures
        row_view(r) == seq![a@, b@, c@],
{
    let mut r = Vec::new();
    r.push(a);
    r.push(b);
    r.push(c);
    assert(row_view(r) =~= seq![a@, b@, c@]);
    r
}

/// `first`, `link` and `last` one after the other.
fn joined(first: &str, link: &str, last: &str) -> (r: String)
    ensures
        r@ == first@ + link@ + last@,
{
    let mut s = String::from_str(first);
    s.append(link);
    s.append(last);
    s
}

/// The menu of a group whose timetable is `link`, the tomorrow button naming
/// `tomorrow_link`.
pub fn menu_keyboard(link: &str, tomorrow_link: &str) -> (r: InlineKeyboard)
    ensures
        r@ == menu_spec(link@, tomorrow_link@),
{
    let first = row2(
        button("На сегодня", joined("day,", link, ",0")),
        button("На завтра", joined("day,", tomorrow_link, ",1")),
    );
    let second = row1(button("Неделя", joined("week,", link, ",0")));
    let mut rows = Vec::new();
    rows.push(first);
    rows.push(second);
    let r = InlineKeyboard { rows };
    assert(r@ =~= menu_spec(link@, tomorrow_link@));
    r
}

/// The menu of the group whose timetable is `link`.
pub fn group_menu(link: &str) -> (r: InlineKeyboard)
    ensures
        r@ == menu_spec(link@, link@),
{
    menu_keyboard(link, link)
}

/// A keyboard with a single back button that sends `data`.
pub fn back_keyboard(data: &str) -> (r: InlineKeyboard)
    ensures
        r@ == back_spec(data@),
{
    let mut rows = Vec::new();
    rows.push(row1(button("←", String::from_str(data))));
    let r = InlineKeyboard { rows };
    assert(r@ =~= back_spec(data@));
    r
}

/// The callback data of the week of `link`, `offset` days from now.
pub fn week_callback(link: &str, offset: i64) -> (r: String)
    ensures
        r@ == week_data(link@, offset as int),
{
    let mut s = joined("week,", link, ",");
    s.append(i64_text(offset).as_str());
    s
}

fn weekday_button(label: &str, weekday: &str, link: &str, offset: i64) -> (r: Button)
    ensures
        r@ == (label@, weekday_data(weekday@, link@, offset as int)),
{
    let mut s = joined("week-", weekday, ",");
    s.append(link);
    s.append(",");
    s.append(i64_text(offset).as_str());
    assert(s@ =~= weekday_data(weekday@, link@, offset as int));
    button(label, s)
}

/// The keyboard of the week view of `link`, `offset` days from now.
pub fn week_keyboard(link: &str, offset: i64) -> (r: InlineKeyboard)
    requires
        i64::MIN + 7 <= offset <= i64::MAX - 7,
    ensures
        r@ == week_keyboard_spec(link@, offset as int),
{
    let first = row3(
        weekday_button("Пн", "1", link, offset),
        weekday_button("Вт", "2", link, offset),
        weekday_button("Ср", "3", link, offset),
    );
    let second = row3(
        weekday_button("Чт", "4", link, offset),
        weekday_button("Пт", "5", link, offset),
        weekday_button("Сб", "6", link, offset),
    );
    let third = row2(
        button("⇠", week_callback(link, offset - 7)),
        button("⇢", week_callback(link, offset + 7)),
    );
    let fourth = row1(button("←", String::from_str(link)));
    let mut rows = Vec::new();
    rows.push(first);
    rows.push(second);
    rows.push(third);
    rows.push(fourth);
    let r = InlineKeyboard { rows };
    assert(r@ =~= week_keyboard_spec(link@, offset as int));
    r
}

/// The reply keyboard that offers to switch the evening timetable from state `notify`.
pub fn notify_keyboard(notify: bool) -> (r: ReplyKeyboard)
    ensures
        r@ == notify_keyboard_spec(notify),
{
    let label = if notify {
        String::from_str("Выкл. уведомления 🔕")
    } else {
        String::from_str("Вкл. уведомления 🔔")
    };
    let mut row = Vec::new();
    row.push(label);
    let mut rows = Vec::new();
    rows.push(row);
    let r = ReplyKeyboard { rows, resize: true };
    assert(r.rows@[0]@.map_values(|s: String| s@) =~= seq![notify_label(notify)]);
    assert(r@.0 =~= seq![seq![notify_label(notify)]]);
    r
}

} // verus!
