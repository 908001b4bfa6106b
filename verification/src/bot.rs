//! The bot's decisions: what a text message asks for, what a button press shows, how the
//! evening timetable is switched and when it is sent.
use vstd::prelude::*;
use crate::keyboard::{
    weekday_data,
    InlineKeyboard, ReplyKeyboard, back_keyboard, back_spec, group_menu, menu_keyboard, menu_spec,
    notify_keyboard, notify_keyboard_spec, notify_label, week_callback, week_data, week_keyboard,
    week_keyboard_spec,
};
use crate::models::Group;
use crate::text::{
    decimal_int, lemma_contains_first_char, lemma_contains_prefix, lemma_contains_shorter,
    lemma_decimal_int_chars, lemma_parse_decimal, lemma_split_single, lemma_split_three,
    contains, digit_value, is_digit, last_digit, lemma_split_nonempty, parse_i64, parse_i64_spec,
    seq_contains, split, split_on, views,
};

verus! {

/// What a text message asks for.
#[derive(PartialEq, Eq, Structural, Debug, Clone, Copy)]
pub enum Route {
    /// The text names a group: show that group's menu.
    Group,
    /// `/start`: ask for a group.
    Start,
    /// One of the two switch buttons: switch the evening timetable.
    Notify,
    /// Anything else: no answer.
    Ignore,
}

/// What the message `text` asks for, `group_exists` telling whether a group has that name.
pub open spec fn route_spec(text: Seq<char>, group_exists: bool) -> Route {
    if group_exists {
        Route::Group
    } else if text == "/start"@ {
        Route::Start
    } else if text == "Вкл. уведомления 🔔"@ || text == "Выкл. уведомления 🔕"@ {
        Route::Notify
    } else {
        Route::Ignore
    }
}

/// What the message `text` asks for; `group_exists` tells whether a group has that name.
pub fn route_text(text: &str, group_exists: bool) -> (r: Route)
    ensures
        r == route_spec(text@, group_exists),
{
    if group_exists {
        return Route::Group;
    }
    let t = String::from_str(text);
    if t.eq(&String::from_str("/start")) {
        Route::Start
    } else if t.eq(&String::from_str("Вкл. уведомления 🔔")) || t.eq(&String::from_str("Выкл. уведомления 🔕")) {
        Route::Notify
    } else {
        Route::Ignore
    }
}

/// The answer to `/start`.
pub open spec fn start_prompt_spec() -> Seq<char> {
    "Напиши номер группы."@
}

/// The answer to `/start`: it asks for the number of a group.
pub fn start_prompt() -> (r: String)
    ensures
        r@ == start_prompt_spec(),
{
    String::from_str("Напиши номер группы.")
}

/// The title of a group's menu.
pub open spec fn group_title(name: Seq<char>) -> Seq<char> {
    "Группа - "@ + name
}

/// The title of the menu of the group called `name`.
pub fn title(name: &str) -> (r: String)
    ensures
        r@ == group_title(name@),
{
    let mut s = String::from_str("Группа - ");
    s.append(name);
    s
}

/// The two messages that answer the name of a group: a prompt with the switch keyboard,
/// then the group's title with its menu.
pub struct GroupReply {
    pub prompt: String,
    pub reply_keyboard: ReplyKeyboard,
    pub title: String,
    pub menu: InlineKeyboard,
}

/// The answer to the name of `group`, for a user whose evening timetable is `notify`.
pub fn group_reply(group: &Group, notify: bool) -> (r: GroupReply)
    ensures
        r.prompt@ == "Выбирай"@,
        r.reply_keyboard@ == notify_keyboard_spec(notify),
        r.title@ == group_title(group.name@),
        r.menu@ == menu_spec(group.api_id@, group.api_id@),
{
    GroupReply {
        prompt: String::from_str("Выбирай"),
        reply_keyboard: notify_keyboard(notify),
        title: title(group.name.as_str()),
        menu: group_menu(group.api_id.as_str()),
    }
}

/// The outcome of pressing the switch button: the new state, the confirmation and the
/// keyboard for the new state.
pub struct NotifyReply {
    pub notify: bool,
    pub text: String,
    pub keyboard: ReplyKeyboard,
}

/// The confirmation after the evening timetable was switched from `notify`.
pub open spec fn notify_confirmation(notify: bool) -> Seq<char> {
    if notify {
        "Уведомления выключены."@
    } else {
        "Уведомления включены, в ~20:00 будет расписание на завтра."@
    }
}

/// Switches the evening timetable of a user whose state is `notify`.
pub fn toggle_notify(notify: bool) -> (r: NotifyReply)
    ensures
        r.notify == !notify,
        r.text@ == notify_confirmation(notify),
        r.keyboard@ == notify_keyboard_spec(!notify),
{
    let text = if notify {
        String::from_str("Уведомления выключены.")
    } else {
        String::from_str("Уведомления включены, в ~20:00 будет расписание на завтра.")
    };
    NotifyReply { notify: !notify, text, keyboard: notify_keyboard(!notify) }
}

/// The evening timetable goes out at 20 o'clock, except on Saturdays (weekday 6 counted
/// from Monday as 1).
pub open spec fn daily_due_spec(hour: u32, weekday: u32) -> bool {
    hour == 20 && weekday != 6
}

/// Whether the evening timetable is due at `hour` on `weekday` (Monday 1 to Sunday 7).
pub fn daily_due(hour: u32, weekday: u32) -> (r: bool)
    ensures
        r == daily_due_spec(hour, weekday),
{
    hour == 20 && weekday != 6
}

/// The header of the evening timetable.
pub open spec fn daily_header() -> Seq<char> {
    "Пары на завтра:\n"@
}

/// The evening message: the header, then tomorrow's timetable text.
pub fn daily_message(timetable: &str) -> (r: String)
    ensures
        r@ == daily_header() + timetable@,
{
    let mut s = String::from_str("Пары на завтра:\n");
    s.append(timetable);
    s
}

/// The comma-separated fields of a button's callback data.
pub open spec fn callback_fields(data: Seq<char>) -> Seq<Seq<char>> {
    split_on(data, ',')
}

/// The day offset that callback data carries in its third field; 0 when there is no
/// third field, more fields, or no number there.
pub open spec fn callback_offset(data: Seq<char>) -> i64 {
    let f = callback_fields(data);
    if f.len() == 3 {
        match parse_i64_spec(f[2]) {
            Some(v) => v,
            None => 0,
        }
    } else {
        0
    }
}

/// The timetable identifier of the group that callback data concerns: the only field, or
/// else the second.
pub open spec fn group_key_spec(data: Seq<char>) -> Seq<char> {
    let f = callback_fields(data);
    if f.len() == 1 {
        f[0]
    } else {
        f[1]
    }
}

/// What pressing a button shows, as values.
pub enum ActionView {
    ShowDay {
        link: Seq<char>,
        weekday: u32,
        offset: i64,
        keyboard: Seq<Seq<(Seq<char>, Seq<char>)>>,
    },
    ShowWeek { link: Seq<char>, offset: i64, keyboard: Seq<Seq<(Seq<char>, Seq<char>)>> },
    ToggleNotify { notify: bool, text: Seq<char>, keyboard: Seq<Seq<(Seq<char>, Seq<char>)>> },
    ShowGroup { text: Seq<char>, keyboard: Seq<Seq<(Seq<char>, Seq<char>)>> },
}

/// What pressing a button shows.
pub enum CallbackAction {
    /// The timetable of weekday `weekday` of the week `offset` days from now, of `link`,
    /// in Markdown, with `keyboard`.
    ShowDay { link: String, weekday: u32, offset: i64, keyboard: InlineKeyboard },
    /// The headline of the week `offset` days from now of `link`, in Markdown, with
    /// `keyboard`.
    ShowWeek { link: String, offset: i64, keyboard: InlineKeyboard },
    /// Switch the user's evening timetable to `notify` (and set their group), then show
    /// `text` with `keyboard`.
    ToggleNotify { notify: bool, text: String, keyboard: InlineKeyboard },
    /// Show `text` with `keyboard`.
    ShowGroup { text: String, keyboard: InlineKeyboard },
}

impl View for CallbackAction {
    type V = ActionView;

    open spec fn view(&self) -> ActionView {
        match self {
            CallbackAction::ShowDay { link, weekday, offset, keyboard } => ActionView::ShowDay {
                link: link@,
                weekday: *weekday,
                offset: *offset,
                keyboard: keyboard@,
            },
            CallbackAction::ShowWeek { link, offset, keyboard } => ActionView::ShowWeek {
                link: link@,
                offset: *offset,
                keyboard: keyboard@,
            },
            CallbackAction::ToggleNotify { notify, text, keyboard } => ActionView::ToggleNotify {
                notify: *notify,
                text: text@,
                keyboard: keyboard@,
            },
            CallbackAction::ShowGroup { text, keyboard } => ActionView::ShowGroup {
                text: text@,
                keyboard: keyboard@,
            },
        }
    }
}

/// Callback data that the bot can act on: the views that need a timetable have a second
/// field, a weekday request ends in a digit, the "today" weekday plus the offset stays
/// within `u32`, and the week view's neighbours stay within `i64`.
pub open spec fn callback_ok(data: Seq<char>, today: u32) -> bool {
    let f = callback_fields(data);
    let kind = f[0];
    let offset = callback_offset(data);
    if seq_contains(kind, "day"@) {
        f.len() >= 2 && today + (offset as u32) <= u32::MAX
    } else if seq_contains(kind, "week-"@) {
        f.len() >= 2 && is_digit(kind.last())
    } else if seq_contains(kind, "week"@) {
        f.len() >= 2 && i64::MIN + 7 <= offset <= i64::MAX - 7
    } else {
        true
    }
}

/// What pressing a button with callback `data` shows, on weekday `today` (Monday 1 to
/// Sunday 7), for a user of `group` whose evening timetable is `notify`. The first field
/// decides: one naming `day` shows weekday `today` plus the offset of this week; `week-N`
/// shows weekday N of the week at the offset; `week` shows the week at the offset;
/// `notify` switches the evening timetable; anything else shows the group's menu.
pub open spec fn plan_spec(data: Seq<char>, today: u32, group: Group, notify: bool) -> ActionView {
    let f = callback_fields(data);
    let kind = f[0];
    let offset = callback_offset(data);
    if seq_contains(kind, "day"@) {
        ActionView::ShowDay {
            link: f[1],
            weekday: (today + (offset as u32)) as u32,
            offset: 0,
            keyboard: back_spec(f[1]),
        }
    } else if seq_contains(kind, "week-"@) {
        ActionView::ShowDay {
            link: f[1],
            weekday: digit_value(kind.last()) as u32,
            offset,
            keyboard: back_spec(week_data(f[1], offset as int)),
        }
    } else if seq_contains(kind, "week"@) {
        ActionView::ShowWeek {
            link: f[1],
            offset,
            keyboard: week_keyboard_spec(f[1], offset as int),
        }
    } else if seq_contains(kind, "notify"@) {
        ActionView::ToggleNotify {
            notify: !notify,
            text: group_title(group.name@),
            keyboard: menu_spec(group.api_id@, kind),
        }
    } else {
        ActionView::ShowGroup {
            text: group_title(group.name@),
            keyboard: menu_spec(group.api_id@, group.api_id@),
        }
    }
}

/// The fields of `data`, with the number of fields at least 1.
fn fields_of(data: &str) -> (r: Vec<String>)
    ensures
        views(r@) == callback_fields(data@),
        r@.len() >= 1,
        forall|i: int| 0 <= i < r@.len() ==> #[trigger] r@[i]@ == callback_fields(data@)[i],
{
    let r = split(data, ',');
    proof {
        lemma_split_nonempty(data@, ',');
        assert(views(r@).len() == r@.len());
        assert forall|i: int| 0 <= i < r@.len() implies #[trigger] r@[i]@ == callback_fields(data@)[i] by {
            assert(views(r@)[i] == r@[i]@);
        }
    }
    r
}

/// The day offset carried by the fields `f`.
fn offset_of(f: &Vec<String>, data: &str) -> (r: i64)
    requires
        views(f@) == callback_fields(data@),
        forall|i: int| 0 <= i < f@.len() ==> #[trigger] f@[i]@ == callback_fields(data@)[i],
    ensures
        r == callback_offset(data@),
{
    if f.len() == 3 {
        match parse_i64(f[2].as_str()) {
            Some(v) => v,
            None => 0,
        }
    } else {
        0
    }
}

/// The timetable identifier of the group that callback `data` concerns.
pub fn callback_group_key(data: &str) -> (r: String)
    ensures
        r@ == group_key_spec(data@),
{
    let f = fields_of(data);
    if f.len() == 1 {
        f[0].clone()
    } else {
        f[1].clone()
    }
}

/// Whether [`plan_callback`] can act on `data` on weekday `today`.
pub fn callback_is_valid(data: &str, today: u32) -> (r: bool)
    ensures
        r == callback_ok(data@, today),
{
    let f = fields_of(data);
    let kind = f[0].as_str();
    let offset = offset_of(&f, data);
    assert(kind@ == callback_fields(data@)[0]);
    assert(f@.len() >= 2 ==> f@[1]@ == callback_fields(data@)[1]);
    proof {
        reveal_strlit("week-");
    }
    if contains(kind, "day") {
        f.len() >= 2 && (today as u64) + ((offset as u32) as u64) <= 4294967295u64
    } else if contains(kind, "week-") {
        f.len() >= 2 && last_digit(kind).is_some()
    } else if contains(kind, "week") {
        f.len() >= 2 && i64::MIN + 7 <= offset && offset <= i64::MAX - 7
    } else {
        true
    }
}

/// What pressing a button with callback `data` shows on weekday `today`, for a user of
/// `group` whose evening timetable is `notify`.
pub fn plan_callback(data: &str, today: u32, group: &Group, notify: bool) -> (r: CallbackAction)
    requires
        callback_ok(data@, today),
    ensures
        r@ == plan_spec(data@, today, *group, notify),
{
    let f = fields_of(data);
    let kind = f[0].as_str();
    let offset = offset_of(&f, data);
    assert(kind@ == callback_fields(data@)[0]);
    assert(f@.len() >= 2 ==> f@[1]@ == callback_fields(data@)[1]);
    proof {
        reveal_strlit("week-");
    }
    if contains(kind, "day") {
        let link = f[1].as_str();
        CallbackAction::ShowDay {
            link: String::from_str(link),
            weekday: today + (offset as u32),
            offset: 0,
            keyboard: back_keyboard(link),
        }
    } else if contains(kind, "week-") {
        let link = f[1].as_str();
        let weekday = last_digit(kind).unwrap();
        let back = week_callback(link, offset);
        CallbackAction::ShowDay {
            link: String::from_str(link),
            weekday,
            offset,
            keyboard: back_keyboard(back.as_str()),
        }
    } else if contains(kind, "week") {
        let link = f[1].as_str();
        CallbackAction::ShowWeek {
            link: String::from_str(link),
            offset,
            keyboard: week_keyboard(link, offset),
        }
    } else if contains(kind, "notify") {
        CallbackAction::ToggleNotify {
            notify: !notify,
            text: title(group.name.as_str()),
            keyboard: menu_keyboard(group.api_id.as_str(), kind),
        }
    } else {
        CallbackAction::ShowGroup {
            text: title(group.name.as_str()),
            keyboard: group_menu(group.api_id.as_str()),
        }
    }
}

/// Pressing a button with callback `data` on weekday `today` is accepted and shows `view`.
pub open spec fn opens(data: Seq<char>, today: u32, group: Group, notify: bool, view: ActionView) -> bool {
    callback_ok(data, today) && plan_spec(data, today, group, notify) == view
}

proof fn lemma_three_fields(kind: Seq<char>, link: Seq<char>, offset: i64)
    requires
        !kind.contains(','),
        !link.contains(','),
    ensures
        callback_fields(kind + seq![','] + link + seq![','] + decimal_int(offset as int)) == seq![
            kind,
            link,
            decimal_int(offset as int),
        ],
        callback_offset(kind + seq![','] + link + seq![','] + decimal_int(offset as int)) == offset,
        group_key_spec(kind + seq![','] + link + seq![','] + decimal_int(offset as int)) == link,
{
    lemma_decimal_int_chars(offset as int, ',');
    lemma_split_three(kind, link, decimal_int(offset as int), ',');
    lemma_parse_decimal(offset);
}

/// The button that asks for the week `offset` days from now of the group `link` (a link
/// without commas) opens that week, as long as its neighbouring weeks stay within `i64`.
pub proof fn law_week_button(link: Seq<char>, offset: i64, today: u32, group: Group, notify: bool)
    requires
        !link.contains(','),
        i64::MIN + 7 <= offset <= i64::MAX - 7,
    ensures
        opens(
            week_data(link, offset as int),
            today,
            group,
            notify,
            ActionView::ShowWeek { link, offset, keyboard: week_keyboard_spec(link, offset as int) },
        ),
        group_key_spec(week_data(link, offset as int)) == link,
{
    reveal_strlit("week,");
    reveal_strlit(",");
    reveal_strlit("week");
    reveal_strlit("week-");
    reveal_strlit("day");
    let kind = "week"@;
    assert(week_data(link, offset as int) =~= kind + seq![','] + link + seq![','] + decimal_int(
        offset as int,
    ));
    assert(!kind.contains(','));
    lemma_three_fields(kind, link, offset);
    assert(!kind.contains('d'));
    lemma_contains_first_char(kind, "day"@);
    assert(kind.subrange(0, 4) =~= kind);
    lemma_contains_prefix(kind, "week"@);
}

/// The button that asks for weekday `weekday` (one digit) of the week `offset` days from
/// now of the group `link` (a link without commas) opens that day, with a way back to
/// that week.
pub proof fn law_weekday_button(
    weekday: Seq<char>,
    link: Seq<char>,
    offset: i64,
    today: u32,
    group: Group,
    notify: bool,
)
    requires
        weekday.len() == 1,
        is_digit(weekday[0]),
        !link.contains(','),
    ensures
        opens(
            weekday_data(weekday, link, offset as int),
            today,
            group,
            notify,
            ActionView::ShowDay {
                link,
                weekday: digit_value(weekday[0]) as u32,
                offset,
                keyboard: back_spec(week_data(link, offset as int)),
            },
        ),
        group_key_spec(weekday_data(weekday, link, offset as int)) == link,
{
    reveal_strlit("week-");
    reveal_strlit(",");
    reveal_strlit("day");
    let kind = "week-"@ + weekday;
    assert(weekday_data(weekday, link, offset as int) =~= kind + seq![','] + link + seq![',']
        + decimal_int(offset as int));
    assert(!kind.contains(',')) by {
        if kind.contains(',') {
            let i = choose|i: int| 0 <= i < kind.len() && kind[i] == ',';
            if i == 5 {
                assert(kind[i] == weekday[0]);
            }
        }
    }
    lemma_three_fields(kind, link, offset);
    assert(!kind.contains('d')) by {
        if kind.contains('d') {
            let i = choose|i: int| 0 <= i < kind.len() && kind[i] == 'd';
            if i == 5 {
                assert(kind[i] == weekday[0]);
            }
        }
    }
    lemma_contains_first_char(kind, "day"@);
    assert(kind.subrange(0, 5) =~= "week-"@);
    lemma_contains_prefix(kind, "week-"@);
    assert(kind.last() == weekday[0]);
}

/// Callback data that is just the group's link (without commas or command words) opens
/// the group's menu.
pub proof fn law_back_button(link: Seq<char>, today: u32, group: Group, notify: bool)
    requires
        !link.contains(','),
        !seq_contains(link, "day"@),
        !seq_contains(link, "week"@),
        !seq_contains(link, "notify"@),
    ensures
        opens(
            link,
            today,
            group,
            notify,
            ActionView::ShowGroup {
                text: group_title(group.name@),
                keyboard: menu_spec(group.api_id@, group.api_id@),
            },
        ),
        group_key_spec(link) == link,
{
    lemma_split_single(link, ',');
    reveal_strlit("week-");
    reveal_strlit("week");
    if seq_contains(link, "week-"@) {
        lemma_contains_shorter(link, "week-"@, 4);
        assert("week-"@.subrange(0, 4) =~= "week"@);
    }
}

/// Each button of a group's menu opens the view it names: today, tomorrow (on a weekday
/// `today` before the last `u32`), and the week.
pub proof fn law_menu_buttons(link: Seq<char>, today: u32, group: Group, notify: bool)
    requires
        !link.contains(','),
        today < u32::MAX,
    ensures
        opens(
            menu_spec(link, link)[0][0].1,
            today,
            group,
            notify,
            ActionView::ShowDay { link, weekday: today, offset: 0, keyboard: back_spec(link) },
        ),
        opens(
            menu_spec(link, link)[0][1].1,
            today,
            group,
            notify,
            ActionView::ShowDay {
                link,
                weekday: (today + 1) as u32,
                offset: 0,
                keyboard: back_spec(link),
            },
        ),
        opens(
            menu_spec(link, link)[1][0].1,
            today,
            group,
            notify,
            ActionView::ShowWeek { link, offset: 0, keyboard: week_keyboard_spec(link, 0) },
        ),
        group_key_spec(menu_spec(link, link)[0][0].1) == link,
        group_key_spec(menu_spec(link, link)[0][1].1) == link,
        group_key_spec(menu_spec(link, link)[1][0].1) == link,
{
    reveal_strlit("day,");
    reveal_strlit("week,");
    reveal_strlit(",0");
    reveal_strlit(",1");
    reveal_strlit(",");
    reveal_strlit("day");
    let day = "day"@;
    assert(decimal_int(0) =~= seq!['0']);
    assert(decimal_int(1) =~= seq!['1']);
    assert(menu_spec(link, link)[0][0].1 =~= day + seq![','] + link + seq![','] + decimal_int(0));
    assert(menu_spec(link, link)[0][1].1 =~= day + seq![','] + link + seq![','] + decimal_int(1));
    assert(!day.contains(','));
    lemma_three_fields(day, link, 0);
    lemma_three_fields(day, link, 1);
    assert(day.subrange(0, 3) =~= day);
    lemma_contains_prefix(day, "day"@);
    assert(menu_spec(link, link)[1][0].1 =~= week_data(link, 0));
    law_week_button(link, 0, today, group, notify);
}

/// Every button of the week view of `link` (a link without commas or command words),
/// `offset` days from now, opens the view it names: the six weekdays of that week, the
/// previous and the next week, and the group's menu.
pub proof fn law_week_view_buttons(link: Seq<char>, offset: i64, today: u32, group: Group, notify: bool)
    requires
        !link.contains(','),
        !seq_contains(link, "day"@),
        !seq_contains(link, "week"@),
        !seq_contains(link, "notify"@),
        i64::MIN + 14 <= offset <= i64::MAX - 14,
    ensures
        forall|row: int, col: int|
            0 <= row < 2 && 0 <= col < 3 ==> opens(
                #[trigger] week_keyboard_spec(link, offset as int)[row][col].1,
                today,
                group,
                notify,
                ActionView::ShowDay {
                    link,
                    weekday: (3 * row + col + 1) as u32,
                    offset,
                    keyboard: back_spec(week_data(link, offset as int)),
                },
            ),
        opens(
            week_keyboard_spec(link, offset as int)[2][0].1,
            today,
            group,
            notify,
            ActionView::ShowWeek {
                link,
                offset: (offset - 7) as i64,
                keyboard: week_keyboard_spec(link, offset - 7),
            },
        ),
        opens(
            week_keyboard_spec(link, offset as int)[2][1].1,
            today,
            group,
            notify,
            ActionView::ShowWeek {
                link,
                offset: (offset + 7) as i64,
                keyboard: week_keyboard_spec(link, offset + 7),
            },
        ),
        opens(
            week_keyboard_spec(link, offset as int)[3][0].1,
            today,
            group,
            notify,
            ActionView::ShowGroup {
                text: group_title(group.name@),
                keyboard: menu_spec(group.api_id@, group.api_id@),
            },
        ),
{
    reveal_strlit("1");
    reveal_strlit("2");
    reveal_strlit("3");
    reveal_strlit("4");
    reveal_strlit("5");
    reveal_strlit("6");
    let keys = week_keyboard_spec(link, offset as int);
    let back = back_spec(week_data(link, offset as int));
    law_weekday_button("1"@, link, offset, today, group, notify);
    law_weekday_button("2"@, link, offset, today, group, notify);
    law_weekday_button("3"@, link, offset, today, group, notify);
    law_weekday_button("4"@, link, offset, today, group, notify);
    law_weekday_button("5"@, link, offset, today, group, notify);
    law_weekday_button("6"@, link, offset, today, group, notify);
    assert forall|row: int, col: int| 0 <= row < 2 && 0 <= col < 3 implies opens(
        #[trigger] keys[row][col].1,
        today,
        group,
        notify,
        ActionView::ShowDay { link, weekday: (3 * row + col + 1) as u32, offset, keyboard: back },
    ) by {
        if row == 0 && col == 0 {
            assert(keys[row][col].1 == weekday_data("1"@, link, offset as int));
        } else if row == 0 && col == 1 {
            assert(keys[row][col].1 == weekday_data("2"@, link, offset as int));
        } else if row == 0 && col == 2 {
            assert(keys[row][col].1 == weekday_data("3"@, link, offset as int));
        } else if row == 1 && col == 0 {
            assert(keys[row][col].1 == weekday_data("4"@, link, offset as int));
        } else if row == 1 && col == 1 {
            assert(keys[row][col].1 == weekday_data("5"@, link, offset as int));
        } else {
            assert(keys[row][col].1 == weekday_data("6"@, link, offset as int));
        }
    }
    law_week_button(link, (offset - 7) as i64, today, group, notify);
    law_week_button(link, (offset + 7) as i64, today, group, notify);
    law_back_button(link, today, group, notify);
}

/// The switch button that the reply keyboard shows, in either state, asks to switch
/// (unless a group bears its label as name).
pub proof fn law_switch_button_routes(notify: bool)
    ensures
        route_spec(notify_label(notify), false) == Route::Notify,
{
    reveal_strlit("/start");
    reveal_strlit("Вкл. уведомления 🔔");
    reveal_strlit("Выкл. уведомления 🔕");
    assert("Вкл. уведомления 🔔"@ != "/start"@ && "Выкл. уведомления 🔕"@ != "/start"@) by {
        assert("Вкл. уведомления 🔔"@.len() != "/start"@.len());
        assert("Выкл. уведомления 🔕"@.len() != "/start"@.len());
    }
}

/// At 20 o'clock the evening timetable is due on every weekday but Saturday; at any
/// other hour it is not.
pub proof fn law_evening_timetable_days(hour: u32, weekday: u32)
    requires
        1 <= weekday <= 7,
    ensures
        weekday != 6 ==> daily_due_spec(20, weekday),
        !daily_due_spec(20, 6),
        hour != 20 ==> !daily_due_spec(hour, weekday),
{
}

/// A button whose first field names `notify` (and neither `day` nor `week`) switches the
/// evening timetable to the opposite of the user's state, whichever it is; pressing it
/// again from the new state switches back.
pub proof fn law_notify_button_switches(data: Seq<char>, today: u32, group: Group, notify: bool)
    requires
        seq_contains(callback_fields(data)[0], "notify"@),
        !seq_contains(callback_fields(data)[0], "day"@),
        !seq_contains(callback_fields(data)[0], "week"@),
    ensures
        callback_ok(data, today),
        plan_spec(data, today, group, notify) matches ActionView::ToggleNotify { notify: now, .. }
            && now != notify,
        plan_spec(data, today, group, !notify) matches ActionView::ToggleNotify { notify: back, .. }
            && back == notify,
{
    reveal_strlit("week-");
    reveal_strlit("week");
    if seq_contains(callback_fields(data)[0], "week-"@) {
        lemma_contains_shorter(callback_fields(data)[0], "week-"@, 4);
        assert("week-"@.subrange(0, 4) =~= "week"@);
    }
}

} // verus!
