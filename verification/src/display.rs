//! Dates of commits (through `chrono` and `humantime`) and the common set-up
//! of the tables (through `comfy_table`).
use crate::color::TermColor;
use crate::primitives::FuError;
use chrono::TimeZone;
use vstd::prelude::*;
use vstd::string::*;

verus! {

// ---------------------------------------------------------------------------
// Time
// ---------------------------------------------------------------------------

/// Whether `chrono` can represent the UTC date-time `secs` seconds after the
/// Unix epoch: from `DateTime::<Utc>::MIN_UTC` (-262143-01-01 00:00:00) to
/// `DateTime::<Utc>::MAX_UTC` (+262142-12-31 23:59:59).
pub open spec fn chrono_utc_in_range(secs: i64) -> bool {
    -8334601228800 <= secs <= 8210266876799
}

/// The text `chrono` renders for the UTC date-time `secs` with a format
/// pattern.
pub uninterp spec fn chrono_utc_format(secs: i64, pattern: Seq<char>) -> Seq<char>;

/// The text `humantime::format_duration` renders for a whole number of
/// seconds.
pub uninterp spec fn humantime_text(secs: u64) -> Seq<char>;

/// `chrono::Utc.timestamp_opt(secs, 0).single().is_some()`: whether the
/// timestamp lies between the first and the last date-time `chrono` holds.
#[verifier::external_body]
fn utc_timestamp_in_range(secs: i64) -> (r: bool)
    ensures
        r == chrono_utc_in_range(secs),
{
    chrono::Utc.timestamp_opt(secs, 0).single().is_some()
}

/// The pattern of the commit dates, `YYYY-MM-DD HH:MM:SS`.
pub open spec fn iso_pattern() -> Seq<char> {
    "%Y-%m-%d %H:%M:%S"@
}

/// `DateTime::<Utc>::format(pattern).to_string()` for an in-range timestamp
/// and the commit date pattern. Claims only that the text is a function of
/// the timestamp and the pattern.
#[verifier::external_body]
fn utc_format(secs: i64, pattern: &str) -> (r: String)
    requires
        chrono_utc_in_range(secs),
        pattern@ == iso_pattern(),
    ensures
        r@ == chrono_utc_format(secs, pattern@),
{
    chrono::Utc.timestamp_opt(secs, 0).unwrap().format(pattern).to_string()
}

/// `humantime::format_duration(Duration::from_secs(secs)).to_string()`.
/// Claims only that the text is a function of `secs`.
#[verifier::external_body]
fn format_duration_secs(secs: u64) -> (r: String)
    ensures
        r@ == humantime_text(secs),
{
    humantime::format_duration(std::time::Duration::from_secs(secs)).to_string()
}

/// `chrono::Utc::now().timestamp()`: the current time. Nothing is claimed of
/// the value, which depends on the clock.
#[verifier::external_body]
fn utc_now_timestamp() -> (r: i64) {
    chrono::Utc::now().timestamp()
}

/// A UTC date-time, as whole seconds since the Unix epoch.
#[derive(Clone, Copy, Debug)]
pub struct UtcDateTime {
    pub secs: i64,
}

/// Whether `e` is the custom error with message `m`.
pub open spec fn is_custom_error(e: FuError, m: Seq<char>) -> bool {
    e matches FuError::Custom(s) && s@ == m
}

/// The message for a timestamp `chrono` cannot represent.
pub open spec fn out_of_range_message() -> Seq<char> {
    "Time out of range"@
}

/// The date-time of a timestamp, or an error when `chrono` cannot represent
/// it.
pub fn timestamp_to_datetime(ts: i64) -> (r: Result<UtcDateTime, FuError>)
    ensures
        r is Ok <==> chrono_utc_in_range(ts),
        r matches Ok(dt) ==> dt.secs == ts,
        r matches Err(e) ==> is_custom_error(e, out_of_range_message()),
{
    if utc_timestamp_in_range(ts) {
        Ok(UtcDateTime { secs: ts })
    } else {
        Err(FuError::Custom(String::from_str("Time out of range")))
    }
}

/// The seconds elapsed from `ts` to `now`, as the unsigned count the age is
/// rendered from (taken modulo 2^64, as the cast to `u64` does).
pub open spec fn age_secs(ts: i64, now: i64) -> u64 {
    (now - ts) as u64
}

/// The date and the age of a commit made at `ts`, the age measured at `now`.
pub fn format_commit_time_at(ts: i64, now: i64) -> (r: Result<(String, String), FuError>)
    ensures
        r is Ok <==> chrono_utc_in_range(ts),
        r matches Ok(p) ==> p.0@ == chrono_utc_format(ts, iso_pattern()) && p.1@
            == humantime_text(age_secs(ts, now)),
        r matches Err(e) ==> is_custom_error(e, out_of_range_message()),
{
    let datetime = timestamp_to_datetime(ts)?;
    let iso_date = utc_format(datetime.secs, "%Y-%m-%d %H:%M:%S");
    let age: u64 = (now as i128 - ts as i128) as u64;
    let delta = format_duration_secs(age);
    Ok((iso_date, delta))
}

/// The date and the age of a commit made at `ts`, the age measured now.
pub fn format_commit_time(ts: i64) -> (r: Result<(String, String), FuError>)
    ensures
        r is Ok <==> chrono_utc_in_range(ts),
        r matches Ok(p) ==> p.0@ == chrono_utc_format(ts, iso_pattern()) && exists|now: i64|
            p.1@ == humantime_text(age_secs(ts, now)),
        r matches Err(e) ==> is_custom_error(e, out_of_range_message()),
{
    let now = utc_now_timestamp();
    format_commit_time_at(ts, now)
}

// ---------------------------------------------------------------------------
// Tables
// ---------------------------------------------------------------------------

/// `comfy_table::Table` is held as it is.
#[verifier::external_type_specification]
#[verifier::external_body]
pub struct ExTable(comfy_table::Table);

/// The rows added to a table: per cell, the text it was made from and its
/// foreground colour.
pub uninterp spec fn table_rows(t: comfy_table::Table) -> Seq<Seq<(Seq<char>, TermColor)>>;

/// The frame of a table: its header, if one was set (the text of each
/// header cell); its drawing characters, one per table component in
/// `TableComponent` order, a space for a component not drawn (what
/// `Table::current_style_as_preset` returns); and its content arrangement.
pub uninterp spec fn table_frame(t: comfy_table::Table) -> (
    Option<Seq<Seq<char>>>,
    Seq<char>,
    TableArrangement,
);

/// The header of a table, if one was set.
pub open spec fn table_header(t: comfy_table::Table) -> Option<Seq<Seq<char>>> {
    table_frame(t).0
}

/// The drawing characters of a table.
pub open spec fn table_style(t: comfy_table::Table) -> Seq<char> {
    table_frame(t).1
}

/// How a table fits its content to the terminal.
pub open spec fn table_arrangement(t: comfy_table::Table) -> TableArrangement {
    table_frame(t).2
}

/// The number of drawable table components.
pub open spec fn style_len() -> nat {
    19
}

/// How a table fits its content to the terminal.
#[derive(Clone, Copy, Debug)]
pub enum TableArrangement {
    Disabled,
    Dynamic,
    DynamicFullWidth,
}

/// `Table::new()`: no rows, no header, the `ASCII_FULL` style, arrangement
/// disabled.
#[verifier::external_body]
fn table_new() -> (r: comfy_table::Table)
    ensures
        table_rows(r) == Seq::<Seq<(Seq<char>, TermColor)>>::empty(),
        table_frame(r).0 is None,
        table_frame(r).1 == "||--+==+|-+||++++++"@,
        table_frame(r).2 == TableArrangement::Disabled,
{
    comfy_table::Table::new()
}

/// `Table::set_content_arrangement`: the arrangement is the given one; rows,
/// header and style stay as they are.
#[verifier::external_body]
fn table_set_arrangement(t: &mut comfy_table::Table, arrangement: TableArrangement)
    ensures
        table_rows(*final(t)) == table_rows(*old(t)),
        table_frame(*final(t)).0 == table_frame(*old(t)).0,
        table_frame(*final(t)).1 == table_frame(*old(t)).1,
        table_frame(*final(t)).2 == arrangement,
{
    let a = match arrangement {
        TableArrangement::Disabled => comfy_table::ContentArrangement::Disabled,
        TableArrangement::Dynamic => comfy_table::ContentArrangement::Dynamic,
        TableArrangement::DynamicFullWidth => comfy_table::ContentArrangement::DynamicFullWidth,
    };
    t.set_content_arrangement(a);
}

/// `Table::apply_modifier`: the i-th character of the modifier, unless it is
/// a space, replaces the i-th style character; rows and header stay.
#[verifier::external_body]
fn table_apply_modifier(t: &mut comfy_table::Table, modifier: &str)
    ensures
        table_rows(*final(t)) == table_rows(*old(t)),
        table_frame(*final(t)).0 == table_frame(*old(t)).0,
        table_frame(*final(t)).2 == table_frame(*old(t)).2,
        table_frame(*old(t)).1.len() == style_len() ==> table_frame(*final(t)).1 == Seq::new(
            style_len(),
            |i: int|
                if i < modifier@.len() && modifier@[i] != ' ' {
                    modifier@[i]
                } else {
                    table_frame(*old(t)).1[i]
                },
        ),
{
    t.apply_modifier(modifier);
}

/// `Table::load_preset`: the i-th character of the preset, space included,
/// becomes the i-th style character; rows and header stay.
#[verifier::external_body]
fn table_load_preset(t: &mut comfy_table::Table, preset: &str)
    ensures
        table_rows(*final(t)) == table_rows(*old(t)),
        table_frame(*final(t)).0 == table_frame(*old(t)).0,
        table_frame(*final(t)).2 == table_frame(*old(t)).2,
        table_frame(*old(t)).1.len() == style_len() ==> table_frame(*final(t)).1 == Seq::new(
            style_len(),
            |i: int|
                if i < preset@.len() {
                    preset@[i]
                } else {
                    table_frame(*old(t)).1[i]
                },
        ),
{
    t.load_preset(preset);
}

/// `comfy_table::presets::NOTHING`: nothing is drawn.
#[verifier::external_body]
fn preset_nothing() -> (r: &'static str)
    ensures
        r@ == "                   "@,
{
    comfy_table::presets::NOTHING
}

/// `comfy_table::presets::ASCII_BORDERS_ONLY_CONDENSED`.
#[verifier::external_body]
fn preset_ascii_borders_only_condensed() -> (r: &'static str)
    ensures
        r@ == "||--+==+     --++++"@,
{
    comfy_table::presets::ASCII_BORDERS_ONLY_CONDENSED
}

/// `comfy_table::modifiers::UTF8_ROUND_CORNERS`.
#[verifier::external_body]
fn modifier_utf8_round_corners() -> (r: &'static str)
    ensures
        r@ == "               ╭╮╰╯"@,
{
    comfy_table::modifiers::UTF8_ROUND_CORNERS
}

/// `Table::set_header` with one plain cell per name; rows and style stay.
#[verifier::external_body]
pub(crate) fn table_set_header(t: &mut comfy_table::Table, names: Vec<&str>)
    ensures
        table_rows(*final(t)) == table_rows(*old(t)),
        table_frame(*final(t)).1 == table_frame(*old(t)).1,
        table_frame(*final(t)).2 == table_frame(*old(t)).2,
        table_frame(*final(t)).0 == Some(names@.map_values(|n: &str| n@)),
{
    let cells: Vec<comfy_table::Cell> = names.into_iter().map(comfy_table::Cell::new).collect();
    t.set_header(cells);
}

/// The view of one row of coloured cells.
pub open spec fn row_view(cells: Seq<(String, TermColor)>) -> Seq<(Seq<char>, TermColor)> {
    cells.map_values(|c: (String, TermColor)| (c.0@, c.1))
}

/// `Table::add_row` with cells made by `Cell::new(text).fg(colour)`; the row
/// goes last, header and style stay.
#[verifier::external_body]
pub(crate) fn table_add_row(t: &mut comfy_table::Table, cells: Vec<(String, TermColor)>)
    ensures
        table_rows(*final(t)) == table_rows(*old(t)).push(row_view(cells@)),
        table_frame(*final(t)) == table_frame(*old(t)),
{
    let row: Vec<comfy_table::Cell> = cells.into_iter().map(|(text, color)| {
        let fg = match color {
            TermColor::Red => comfy_table::Color::Red,
            TermColor::Green => comfy_table::Color::Green,
            TermColor::Yellow => comfy_table::Color::Yellow,
            TermColor::Blue => comfy_table::Color::Blue,
            TermColor::Magenta => comfy_table::Color::Magenta,
            TermColor::Cyan => comfy_table::Color::Cyan,
            TermColor::White => comfy_table::Color::White,
        };
        comfy_table::Cell::new(text).fg(fg)
    }).collect();
    t.add_row(row);
}

/// The style of the tables: nothing drawn for plain tables, else ASCII
/// borders only.
pub open spec fn standard_style(plain_tables: bool) -> Seq<char> {
    if plain_tables {
        "                   "@
    } else {
        "||--+==+     --++++"@
    }
}

/// An empty table, arranged to the terminal, in the plain or bordered style.
pub fn standard_table_setup(plain_tables: bool) -> (r: comfy_table::Table)
    ensures
        table_rows(r) == Seq::<Seq<(Seq<char>, TermColor)>>::empty(),
        table_header(r) is None,
        table_style(r) == standard_style(plain_tables),
        table_arrangement(r) == TableArrangement::Dynamic,
{
    let mut table = table_new();
    table_set_arrangement(&mut table, TableArrangement::Dynamic);
    proof {
        reveal_strlit("||--+==+|-+||++++++");
    }
    let corners = modifier_utf8_round_corners();
    table_apply_modifier(&mut table, corners);
    let preset = if plain_tables {
        preset_nothing()
    } else {
        preset_ascii_borders_only_condensed()
    };
    proof {
        reveal_strlit("                   ");
        reveal_strlit("||--+==+     --++++");
        reveal_strlit("               ╭╮╰╯");
    }
    table_load_preset(&mut table, preset);
    proof {
        assert(table_style(table) =~= standard_style(plain_tables));
    }
    table
}

} // verus!
