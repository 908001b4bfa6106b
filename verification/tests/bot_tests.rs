use schedule_bot::bot::{
    callback_group_key, callback_is_valid, daily_due, daily_message, group_reply, plan_callback,
    route_text, start_prompt, title, toggle_notify, CallbackAction, Route,
};
use schedule_bot::keyboard::{
    back_keyboard, group_menu, menu_keyboard, notify_keyboard, week_callback, week_keyboard,
    InlineKeyboard,
};
use schedule_bot::models::Group;

fn buttons(k: &InlineKeyboard) -> Vec<Vec<(String, String)>> {
    k.rows.iter().map(|r| r.iter().map(|b| (b.text.clone(), b.data.clone())).collect()).collect()
}

fn pairs(rows: Vec<Vec<(&str, &str)>>) -> Vec<Vec<(String, String)>> {
    rows.into_iter().map(|r| r.into_iter().map(|(a, b)| (a.to_string(), b.to_string())).collect()).collect()
}

fn group() -> Group {
    Group { id: 4, name: "3530901/10001".to_string(), api_id: "35432".to_string() }
}

#[test]
fn texts_route_to_their_handlers() {
    assert_eq!(route_text("3530901/10001", true), Route::Group);
    assert_eq!(route_text("/start", true), Route::Group);
    assert_eq!(route_text("/start", false), Route::Start);
    assert_eq!(route_text("Вкл. уведомления 🔔", false), Route::Notify);
    assert_eq!(route_text("Выкл. уведомления 🔕", false), Route::Notify);
    assert_eq!(route_text("Выкл уведомления 🔕", false), Route::Ignore);
    assert_eq!(route_text("hello", false), Route::Ignore);
}

#[test]
fn start_asks_for_a_group() {
    assert_eq!(start_prompt(), "Напиши номер группы.");
}

#[test]
fn group_menu_buttons() {
    assert_eq!(
        buttons(&group_menu("35432")),
        pairs(vec![
            vec![("На сегодня", "day,35432,0"), ("На завтра", "day,35432,1")],
            vec![("Неделя", "week,35432,0")],
        ])
    );
    assert_eq!(
        buttons(&menu_keyboard("35432", "notify")),
        pairs(vec![
            vec![("На сегодня", "day,35432,0"), ("На завтра", "day,notify,1")],
            vec![("Неделя", "week,35432,0")],
        ])
    );
    assert_eq!(buttons(&back_keyboard("35432")), pairs(vec![vec![("←", "35432")]]));
}

#[test]
fn week_view_buttons() {
    assert_eq!(
        buttons(&week_keyboard("35432", -7)),
        pairs(vec![
            vec![("Пн", "week-1,35432,-7"), ("Вт", "week-2,35432,-7"), ("Ср", "week-3,35432,-7")],
            vec![("Чт", "week-4,35432,-7"), ("Пт", "week-5,35432,-7"), ("Сб", "week-6,35432,-7")],
            vec![("⇠", "week,35432,-14"), ("⇢", "week,35432,0")],
            vec![("←", "35432")],
        ])
    );
    assert_eq!(week_callback("35432", 21), "week,35432,21");
}

#[test]
fn switch_keyboard_offers_the_other_state() {
    let on = notify_keyboard(true);
    assert_eq!(on.rows, vec![vec!["Выкл. уведомления 🔕".to_string()]]);
    assert!(on.resize);
    let off = notify_keyboard(false);
    assert_eq!(off.rows, vec![vec!["Вкл. уведомления 🔔".to_string()]]);
}

#[test]
fn switching_notifications() {
    let r = toggle_notify(true);
    assert!(!r.notify);
    assert_eq!(r.text, "Уведомления выключены.");
    assert_eq!(r.keyboard.rows, vec![vec!["Вкл. уведомления 🔔".to_string()]]);
    let r = toggle_notify(false);
    assert!(r.notify);
    assert_eq!(r.text, "Уведомления включены, в ~20:00 будет расписание на завтра.");
    assert_eq!(r.keyboard.rows, vec![vec!["Выкл. уведомления 🔕".to_string()]]);
    // the button shown after a switch asks to switch again
    assert_eq!(route_text(&r.keyboard.rows[0][0], false), Route::Notify);
    assert_eq!(toggle_notify(toggle_notify(true).notify).notify, true);
}

#[test]
fn group_reply_messages() {
    let r = group_reply(&group(), false);
    assert_eq!(r.prompt, "Выбирай");
    assert_eq!(r.reply_keyboard.rows, vec![vec!["Вкл. уведомления 🔔".to_string()]]);
    assert_eq!(r.title, "Группа - 3530901/10001");
    assert_eq!(buttons(&r.menu), buttons(&group_menu("35432")));
    assert_eq!(title("x"), "Группа - x");
}

#[test]
fn evening_timetable_schedule() {
    assert!(daily_due(20, 1));
    assert!(daily_due(20, 7));
    assert!(!daily_due(20, 6));
    assert!(!daily_due(19, 1));
    assert_eq!(daily_message("x"), "Пары на завтра:\nx");
}

#[test]
fn group_key_of_callbacks() {
    assert_eq!(callback_group_key("35432"), "35432");
    assert_eq!(callback_group_key("day,35432,1"), "35432");
    assert_eq!(callback_group_key("notify,35432"), "35432");
}

#[test]
fn today_and_tomorrow_buttons() {
    match plan_callback("day,35432,1", 3, &group(), false) {
        CallbackAction::ShowDay { link, weekday, offset, keyboard } => {
            assert_eq!(link, "35432");
            assert_eq!(weekday, 4);
            assert_eq!(offset, 0);
            assert_eq!(buttons(&keyboard), pairs(vec![vec![("←", "35432")]]));
        }
        _ => panic!("expected a day"),
    }
    match plan_callback("day,35432,zz", 7, &group(), false) {
        CallbackAction::ShowDay { weekday, offset, .. } => {
            assert_eq!(weekday, 7);
            assert_eq!(offset, 0);
        }
        _ => panic!("expected a day"),
    }
    match plan_callback("day,35432", 2, &group(), false) {
        CallbackAction::ShowDay { weekday, .. } => assert_eq!(weekday, 2),
        _ => panic!("expected a day"),
    }
}

#[test]
fn negative_day_offset_wraps_like_a_cast() {
    match plan_callback("day,35432,-1", 3, &group(), false) {
        CallbackAction::ShowDay { weekday, .. } => assert_eq!(weekday, 2),
        _ => panic!("expected a day"),
    }
}

#[test]
fn weekday_buttons() {
    match plan_callback("week-5,35432,7", 1, &group(), false) {
        CallbackAction::ShowDay { link, weekday, offset, keyboard } => {
            assert_eq!(link, "35432");
            assert_eq!(weekday, 5);
            assert_eq!(offset, 7);
            assert_eq!(buttons(&keyboard), pairs(vec![vec![("←", "week,35432,7")]]));
        }
        _ => panic!("expected a day"),
    }
}

#[test]
fn week_buttons() {
    match plan_callback("week,35432,14", 1, &group(), true) {
        CallbackAction::ShowWeek { link, offset, keyboard } => {
            assert_eq!(link, "35432");
            assert_eq!(offset, 14);
            assert_eq!(buttons(&keyboard), buttons(&week_keyboard("35432", 14)));
        }
        _ => panic!("expected a week"),
    }
}

#[test]
fn notify_button_switches() {
    match plan_callback("notify,35432", 1, &group(), true) {
        CallbackAction::ToggleNotify { notify, text, keyboard } => {
            assert!(!notify);
            assert_eq!(text, "Группа - 3530901/10001");
            assert_eq!(buttons(&keyboard), buttons(&menu_keyboard("35432", "notify")));
        }
        _ => panic!("expected a switch"),
    }
}

#[test]
fn other_data_shows_the_menu() {
    match plan_callback("35432", 1, &group(), true) {
        CallbackAction::ShowGroup { text, keyboard } => {
            assert_eq!(text, "Группа - 3530901/10001");
            assert_eq!(buttons(&keyboard), buttons(&group_menu("35432")));
        }
        _ => panic!("expected the menu"),
    }
}

#[test]
fn invalid_callbacks_are_refused() {
    assert!(!callback_is_valid("day", 1));
    assert!(!callback_is_valid("week-x,35432,0", 1));
    assert!(!callback_is_valid("week,35432,9223372036854775807", 1));
    assert!(!callback_is_valid("day,35432,4294967295", 2));
    assert!(callback_is_valid("day,35432,4294967295", 0));
    assert!(callback_is_valid("week", 1) == false);
    assert!(callback_is_valid("35432", 1));
    assert!(callback_is_valid("notify", 1));
    assert!(callback_is_valid("week-3,35432,-100", 1));
}

#[test]
fn every_menu_button_leads_to_its_view() {
    let g = group();
    for row in group_menu(&g.api_id).rows {
        for b in row {
            assert!(callback_is_valid(&b.data, 3));
            assert_eq!(callback_group_key(&b.data), g.api_id);
        }
    }
    for row in week_keyboard(&g.api_id, 0).rows {
        for b in row {
            assert!(callback_is_valid(&b.data, 3));
            assert_eq!(callback_group_key(&b.data), g.api_id);
        }
    }
}
