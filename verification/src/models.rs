//! The rows of the bot's database.
use vstd::prelude::*;

verus! {

/// A study group: its display name and its identifier at the timetable service.
pub struct Group {
    pub id: i32,
    pub name: String,
    pub api_id: String,
}

/// A Telegram user of the bot, the group they follow and whether they get the evening
/// timetable.
pub struct User {
    pub id: i32,
    pub tg_id: i32,
    pub tg_name: String,
    pub notify: bool,
    pub group_id: i32,
}

} // verus!
