//! Rows read from the signup form and from the practice sheets, turned into
//! participants and practice data.
use vstd::prelude::*;

use crate::clock::{
    current_year, format_datetime, formatted_datetime, heading_format, parse_datetime,
    parsed_datetime, valid_instant, HOUR_MS,
};
use crate::practice::{Practice, MAIN_CAPACITY, WAITLIST_CAPACITY};
use crate::slots::empty_slots;
use crate::text::{
    contains, contains_text, decimal_text, find_char, index_of_from, is_u32_text,
    last_index_before, lemma_last_index_before, parses_as_u32, rfind_char,
    trim, trim_both, trim_end, trim_end_matches, trim_matches, trimmed, u32_to_text, CharClass,
};
use crate::user::{Gender, Side, User, UserType};

verus! {

/// One answer to the signup form.
#[derive(Clone, Debug)]
pub struct FormResponse {
    pub email_address: String,
    pub full_name: String,
    pub mcgill_id: String,
    pub preferred_email: String,
    pub paddle_side: String,
}

/// How far a sheet has been read.
#[derive(Clone, Debug)]
pub struct SheetMetaData {
    pub sheet_id: String,
    pub last_processed_row: usize,
}

/// A practice as read from its sheet: its start and the names per slot.
#[derive(Clone, Debug)]
pub struct PracticeSheetData {
    pub date: i64,
    pub left_side: Vec<Option<String>>,
    pub right_side: Vec<Option<String>>,
    pub left_waitlist: Vec<Option<String>>,
    pub right_waitlist: Vec<Option<String>>,
}

/// Why a practice sheet could not be read.
#[derive(Clone, Copy, Debug, PartialEq, Eq, Structural)]
pub enum SheetError {
    /// No rows, or no date cell in the first row.
    EmptySheet,
    /// The date cell has no `(` before the time.
    MissingDatePart,
    /// The date and time do not form a valid date.
    BadDate,
}

/// First and last name: the trimmed full name split at its first space.
pub open spec fn name_parts(full: Seq<char>) -> (Seq<char>, Seq<char>) {
    let t = trimmed(full);
    let k = index_of_from(t, 0, ' ');
    if k < 0 {
        (t, Seq::empty())
    } else {
        (t.subrange(0, k), t.subrange(k + 1, t.len() as int))
    }
}

/// The side a form answer names; anything but `Left` and `Right` is `NA`.
pub open spec fn side_of_answer(a: Seq<char>) -> Side {
    if a == "Left"@ {
        Side::Left
    } else if a == "Right"@ {
        Side::Right
    } else {
        Side::NA
    }
}

impl User {
    /// The participant a form answer describes, not yet stored and without a
    /// contact handle.
    pub fn convert_form_to_user(form: &FormResponse) -> (r: User)
        ensures
            r.id is None,
            r.first_name@ == name_parts(form.full_name@).0,
            r.last_name@ == name_parts(form.full_name@).1,
            r.gender == Gender::NA,
            r.discord_id is None,
            r.mcgill_id@ == form.mcgill_id@,
            r.email@ == form.preferred_email@,
            r.user_type == UserType::Regular,
            r.side == side_of_answer(form.paddle_side@),
    {
        let t = trim(form.full_name.as_str());
        let (first_name, last_name) = match find_char(t.as_str(), ' ') {
            Some(k) => {
                let n = t.as_str().unicode_len();
                (
                    String::from_str(t.as_str().substring_char(0, k)),
                    String::from_str(t.as_str().substring_char(k + 1, n)),
                )
            },
            None => (t.clone(), String::new()),
        };
        let side = if form.paddle_side == String::from_str("Left") {
            Side::Left
        } else if form.paddle_side == String::from_str("Right") {
            Side::Right
        } else {
            Side::NA
        };
        User {
            id: None,
            first_name,
            last_name,
            gender: Gender::NA,
            discord_id: None,
            mcgill_id: form.mcgill_id.clone(),
            email: form.preferred_email.clone(),
            user_type: UserType::Regular,
            side,
        }
    }
}

/// Columns of a form row: email, full name, id, preferred email, side.
pub open spec fn form_row_ok(row: Vec<String>) -> bool {
    row@.len() >= 8
}

pub open spec fn response_of_row(r: FormResponse, row: Vec<String>) -> bool {
    &&& r.email_address@ == row@[1]@
    &&& r.full_name@ == row@[2]@
    &&& r.mcgill_id@ == row@[3]@
    &&& r.preferred_email@ == row@[4]@
    &&& r.paddle_side@ == row@[7]@
}

/// The form rows from index `start` on that have all eight columns, in order.
pub open spec fn complete_rows(rows: Seq<Vec<String>>, start: int) -> Seq<Vec<String>>
    decreases rows.len(),
{
    if rows.len() <= start || rows.len() == 0 {
        Seq::empty()
    } else if form_row_ok(rows.last()) {
        complete_rows(rows.drop_last(), start).push(rows.last())
    } else {
        complete_rows(rows.drop_last(), start)
    }
}

/// Reads the new answers of the form: the rows after the first `start`
/// that have all eight columns. Also gives the new count of processed
/// rows, `start` plus the number of answers read.
pub fn fetch_new_form_responses(rows: &Vec<Vec<String>>, start: usize) -> (r: (
    Vec<FormResponse>,
    usize,
))
    ensures
        r.0@.len() == complete_rows(rows@, start as int).len(),
        forall|i: int| 0 <= i < r.0@.len() ==> response_of_row(#[trigger] r.0@[i], complete_rows(rows@, start as int)[i]),
        r.1 == start + r.0@.len(),
{
    let mut out: Vec<FormResponse> = Vec::new();
    let mut i: usize = start;
    if i > rows.len() {
        i = rows.len();
    }
    assert(complete_rows(rows@.take(i as int), start as int) =~= Seq::<Vec<String>>::empty());
    while i < rows.len()
        invariant
            i <= rows@.len(),
            start <= i || i == rows@.len(),
            out@.len() == complete_rows(rows@.take(i as int), start as int).len(),
            out@.len() == 0 || out@.len() + start <= i,
            forall|k: int| 0 <= k < out@.len() ==> response_of_row(#[trigger] out@[k], complete_rows(rows@.take(i as int), start as int)[k]),
        decreases rows.len() - i,
    {
        assert(rows@.take(i as int + 1).drop_last() =~= rows@.take(i as int));
        let row = &rows[i];
        if row.len() >= 8 {
            let resp = FormResponse {
                email_address: row[1].clone(),
                full_name: row[2].clone(),
                mcgill_id: row[3].clone(),
                preferred_email: row[4].clone(),
                paddle_side: row[7].clone(),
            };
            out.push(resp);
        }
        i = i + 1;
    }
    assert(rows@.take(i as int) =~= rows@);
    if start > rows.len() {
        assert(complete_rows(rows@, start as int) =~= Seq::<Vec<String>>::empty());
    }
    let n = out.len();
    (out, start + n)
}

/// The strftime-style format of the date text built from a practice sheet.
pub open spec fn sheet_date_format() -> Seq<char> {
    "%B %d %I:%M %p %Y"@
}

/// The text handed to the date parser for a sheet's date cell such as
/// `"Thursday, November 28 (7:00 PM)"` in `year`: month and day, time, year,
/// separated by spaces (`November 28 7:00 PM 2024`). `None` when the cell
/// has no `(`.
pub open spec fn practice_date_text(cell: Seq<char>, year: nat) -> Option<Seq<char>> {
    let t = trimmed(trim_both(cell, CharClass::Exactly('"')));
    let p = last_index_before(t, t.len() as int, '(');
    if p < 0 {
        None
    } else {
        let time = trimmed(trim_end(trimmed(t.subrange(p + 1, t.len() as int)), CharClass::Exactly(')')));
        let date = trim_end(trimmed(t.subrange(0, p)), CharClass::Exactly(','));
        let c = last_index_before(date, date.len() as int, ',');
        let month_day = trimmed(date.subrange(c + 1, date.len() as int));
        Some(month_day + " "@ + time + " "@ + decimal_text(year))
    }
}

/// Builds the date text of a sheet's date cell for `year`.
pub fn practice_datetime_text(cell: &str, year: u32) -> (r: Option<String>)
    ensures
        match practice_date_text(cell@, year as nat) {
            Some(t) => r is Some && r->0@ == t,
            None => r is None,
        },
{
    let unquoted = trim_matches(cell, CharClass::Exactly('"'));
    let t = trim(unquoted.as_str());
    let ts = t.as_str();
    let n = ts.unicode_len();
    proof {
        lemma_last_index_before(ts@, n as int, '(');
    }
    let p = match rfind_char(ts, '(') {
        Some(p) => p,
        None => return None,
    };
    let after = trim(ts.substring_char(p + 1, n));
    let no_paren = trim_end_matches(after.as_str(), CharClass::Exactly(')'));
    let time = trim(no_paren.as_str());
    let before = trim(ts.substring_char(0, p));
    let date = trim_end_matches(before.as_str(), CharClass::Exactly(','));
    let ds = date.as_str();
    let dn = ds.unicode_len();
    proof {
        lemma_last_index_before(ds@, dn as int, ',');
    }
    let from = match rfind_char(ds, ',') {
        Some(c) => c + 1,
        None => 0,
    };
    let mut text = trim(ds.substring_char(from, dn));
    text.append(" ");
    text.append(time.as_str());
    text.append(" ");
    let y = u32_to_text(year);
    text.append(y.as_str());
    Some(text)
}

/// The date outcome for a date cell read in `year`.
pub open spec fn practice_date(cell: Seq<char>, year: nat) -> Result<i64, SheetError> {
    match practice_date_text(cell, year) {
        None => Err(SheetError::MissingDatePart),
        Some(t) => match parsed_datetime(t, sheet_date_format()) {
            Some(ms) => Ok(ms),
            None => Err(SheetError::BadDate),
        },
    }
}

/// The start of the practice named by a sheet's date cell, in `year`.
pub fn parse_practice_date(cell: &str, year: u32) -> (r: Result<i64, SheetError>)
    ensures
        r == practice_date(cell@, year as nat),
        r is Ok ==> valid_instant(r->Ok_0),
{
    let text = match practice_datetime_text(cell, year) {
        Some(t) => t,
        None => return Err(SheetError::MissingDatePart),
    };
    match parse_datetime(text.as_str(), "%B %d %I:%M %p %Y") {
        Some(ms) => Ok(ms),
        None => Err(SheetError::BadDate),
    }
}

/// Where the reading of a practice sheet stands: which section it is in and
/// the names gathered so far.
pub struct SheetScan {
    pub in_main: bool,
    pub in_wait: bool,
    pub left: Seq<Option<Seq<char>>>,
    pub right: Seq<Option<Seq<char>>>,
    pub left_wait: Seq<Option<Seq<char>>>,
    pub right_wait: Seq<Option<Seq<char>>>,
}

pub open spec fn cell_is(row: Vec<String>, j: int, text: Seq<char>) -> bool {
    j < row@.len() && row@[j]@ == text
}

pub open spec fn cell_contains(row: Vec<String>, j: int, text: Seq<char>) -> bool {
    j < row@.len() && contains_text(row@[j]@, text)
}

/// A slot row starts with a number.
pub open spec fn numbered(row: Vec<String>) -> bool {
    row@.len() > 0 && is_u32_text(row@[0]@)
}

/// The name in columns `a` (first) and `b` (last): both present and
/// non-empty, joined by a space after trimming each.
pub open spec fn entry(row: Vec<String>, a: int, b: int) -> Option<Seq<char>> {
    if b < row@.len() && row@[a]@.len() > 0 && row@[b]@.len() > 0 {
        Some(trimmed(row@[a]@) + " "@ + trimmed(row@[b]@))
    } else {
        None
    }
}

/// One row of a practice sheet. Column 1 marks the sections (`LEFTIES`,
/// `WAITLIST`, `DO NOT SIGN UP`); numbered rows of a section give the left
/// name in columns 1 and 2 and the right name in columns 5 and 6.
pub open spec fn scan_step(st: SheetScan, row: Vec<String>) -> SheetScan {
    if row@.len() == 0 {
        st
    } else if cell_is(row, 1, "LEFTIES"@) {
        SheetScan { in_main: true, in_wait: false, ..st }
    } else if cell_contains(row, 1, "WAITLIST"@) {
        SheetScan { in_main: false, in_wait: true, ..st }
    } else if cell_contains(row, 1, "DO NOT SIGN UP"@) {
        SheetScan { in_main: false, in_wait: false, ..st }
    } else if st.in_main && cell_is(row, 1, "First Name"@) {
        st
    } else {
        let st1 = if st.in_main && numbered(row) {
            SheetScan { left: st.left.push(entry(row, 1, 2)), right: st.right.push(entry(row, 5, 6)), ..st }
        } else {
            st
        };
        if st1.in_wait && numbered(row) {
            SheetScan {
                left_wait: st1.left_wait.push(entry(row, 1, 2)),
                right_wait: st1.right_wait.push(entry(row, 5, 6)),
                ..st1
            }
        } else {
            st1
        }
    }
}

pub open spec fn scan_rows(rows: Seq<Vec<String>>) -> SheetScan
    decreases rows.len(),
{
    if rows.len() == 0 {
        SheetScan {
            in_main: false,
            in_wait: false,
            left: Seq::empty(),
            right: Seq::empty(),
            left_wait: Seq::empty(),
            right_wait: Seq::empty(),
        }
    } else {
        scan_step(scan_rows(rows.drop_last()), rows.last())
    }
}

/// `s` filled up with empty entries to length `n`.
pub open spec fn pad(s: Seq<Option<Seq<char>>>, n: nat) -> Seq<Option<Seq<char>>> {
    if s.len() < n {
        s + Seq::new((n - s.len()) as nat, |i: int| None)
    } else {
        s
    }
}

pub open spec fn opt_text(o: Option<String>) -> Option<Seq<char>> {
    match o {
        Some(s) => Some(s@),
        None => None,
    }
}

pub open spec fn texts(v: Seq<Option<String>>) -> Seq<Option<Seq<char>>> {
    v.map_values(|o: Option<String>| opt_text(o))
}

fn entry_of(row: &Vec<String>, a: usize, b: usize) -> (r: Option<String>)
    requires
        a < b,
    ensures
        opt_text(r) == entry(*row, a as int, b as int),
{
    if b < row.len() && row[a].as_str().unicode_len() > 0 && row[b].as_str().unicode_len() > 0 {
        let mut name = trim(row[a].as_str());
        name.append(" ");
        let last = trim(row[b].as_str());
        name.append(last.as_str());
        Some(name)
    } else {
        None
    }
}

fn cell_equals(row: &Vec<String>, j: usize, text: &str) -> (r: bool)
    ensures
        r == cell_is(*row, j as int, text@),
{
    j < row.len() && row[j] == String::from_str(text)
}

fn cell_has(row: &Vec<String>, j: usize, text: &str) -> (r: bool)
    ensures
        r == cell_contains(*row, j as int, text@),
{
    j < row.len() && contains(row[j].as_str(), text)
}

fn push_text(v: &mut Vec<Option<String>>, x: Option<String>)
    ensures
        texts(final(v)@) == texts(old(v)@).push(opt_text(x)),
{
    v.push(x);
    assert(texts(v@) =~= texts(old(v)@).push(opt_text(x)));
}

fn pad_to(v: &mut Vec<Option<String>>, n: usize)
    ensures
        texts(final(v)@) == pad(texts(old(v)@), n as nat),
{
    let ghost start = texts(v@);
    while v.len() < n
        invariant
            start.len() <= texts(v@).len(),
            texts(v@) == if start.len() < n {
                start + Seq::new((texts(v@).len() - start.len()) as nat, |i: int| None)
            } else {
                start
            },
            texts(v@).len() == v@.len(),
            start.len() >= n ==> v@.len() == start.len(),
            start.len() < n ==> v@.len() <= n,
            start == texts(old(v)@),
        decreases n - v.len(),
    {
        push_text(v, None);
        assert(texts(v@) =~= start + Seq::new((texts(v@).len() - start.len()) as nat, |i: int| None));
    }
    assert(texts(v@) =~= pad(start, n as nat));
}

pub const MAIN_ROWS: usize = 17;

pub const WAITLIST_ROWS: usize = 6;

/// What reading `rows` in `year` gives.
pub open spec fn sheet_result_matches(r: Result<PracticeSheetData, SheetError>, rows: Seq<Vec<String>>, year: nat) -> bool {
    if rows.len() == 0 || rows[0]@.len() == 0 {
        r == Err::<PracticeSheetData, SheetError>(SheetError::EmptySheet)
    } else {
        match practice_date(rows[0]@[0]@, year) {
            Err(e) => r == Err::<PracticeSheetData, SheetError>(e),
            Ok(ms) => r is Ok && {
                let d = r->Ok_0;
                let st = scan_rows(rows);
                &&& d.date == ms
                &&& texts(d.left_side@) == pad(st.left, MAIN_ROWS as nat)
                &&& texts(d.right_side@) == pad(st.right, MAIN_ROWS as nat)
                &&& texts(d.left_waitlist@) == pad(st.left_wait, WAITLIST_ROWS as nat)
                &&& texts(d.right_waitlist@) == pad(st.right_wait, WAITLIST_ROWS as nat)
            },
        }
    }
}

impl PracticeSheetData {
    /// Reads a practice sheet whose date cell carries no year as one in `year`.
    pub fn parse_from_rows_in_year(rows: &Vec<Vec<String>>, year: u32) -> (r: Result<
        PracticeSheetData,
        SheetError,
    >)
        ensures
            sheet_result_matches(r, rows@, year as nat),
            r is Ok ==> valid_instant(r->Ok_0.date),
    {
        if rows.len() == 0 || rows[0].len() == 0 {
            return Err(SheetError::EmptySheet);
        }
        let date = match parse_practice_date(rows[0][0].as_str(), year) {
            Ok(ms) => ms,
            Err(e) => return Err(e),
        };
        let mut in_main = false;
        let mut in_wait = false;
        let mut left: Vec<Option<String>> = Vec::new();
        let mut right: Vec<Option<String>> = Vec::new();
        let mut left_wait: Vec<Option<String>> = Vec::new();
        let mut right_wait: Vec<Option<String>> = Vec::new();
        let mut i: usize = 0;
        while i < rows.len()
            invariant
                i <= rows@.len(),
                ({
                    let st = scan_rows(rows@.take(i as int));
                    &&& st.in_main == in_main
                    &&& st.in_wait == in_wait
                    &&& st.left == texts(left@)
                    &&& st.right == texts(right@)
                    &&& st.left_wait == texts(left_wait@)
                    &&& st.right_wait == texts(right_wait@)
                }),
            decreases rows.len() - i,
        {
            assert(rows@.take(i as int + 1).drop_last() =~= rows@.take(i as int));
            let row = &rows[i];
            i = i + 1;
            if row.len() == 0 {
                continue;
            }
            if cell_equals(row, 1, "LEFTIES") {
                in_main = true;
                in_wait = false;
                continue;
            }
            if cell_has(row, 1, "WAITLIST") {
                in_main = false;
                in_wait = true;
                continue;
            }
            if cell_has(row, 1, "DO NOT SIGN UP") {
                in_main = false;
                in_wait = false;
                continue;
            }
            if in_main && cell_equals(row, 1, "First Name") {
                continue;
            }
            let numbered_row = parses_as_u32(row[0].as_str());
            if in_main && numbered_row {
                push_text(&mut left, entry_of(row, 1, 2));
                push_text(&mut right, entry_of(row, 5, 6));
            }
            if in_wait && numbered_row {
                push_text(&mut left_wait, entry_of(row, 1, 2));
                push_text(&mut right_wait, entry_of(row, 5, 6));
            }
        }
        assert(rows@.take(i as int) =~= rows@);
        pad_to(&mut left, MAIN_ROWS);
        pad_to(&mut right, MAIN_ROWS);
        pad_to(&mut left_wait, WAITLIST_ROWS);
        pad_to(&mut right_wait, WAITLIST_ROWS);
        Ok(PracticeSheetData { date, left_side: left, right_side: right, left_waitlist: left_wait, right_waitlist: right_wait })
    }

    /// Reads a practice sheet; its date cell is taken to be in the current year.
    pub fn parse_from_rows(rows: Vec<Vec<String>>) -> (r: Result<PracticeSheetData, SheetError>)
        ensures
            exists|year: u32| year >= 1970 && sheet_result_matches(r, rows@, year as nat),
            r is Ok ==> valid_instant(r->Ok_0.date),
    {
        let year = current_year();
        Self::parse_from_rows_in_year(&rows, year)
    }
}

/// The cells of a sheet row as texts.
pub open spec fn cells(row: Vec<String>) -> Seq<Seq<char>> {
    row@.map_values(|c: String| c@)
}

pub open spec fn blank() -> Seq<char> {
    Seq::empty()
}

/// A slot row of the sheet: first and last name of the left participant in
/// columns 1 and 2, of the right one in columns 5 and 6, blank elsewhere.
pub open spec fn slot_row(left: Option<(String, String)>, right: Option<(String, String)>) -> Seq<
    Seq<char>,
> {
    let l = match left {
        Some(n) => seq![n.0@, n.1@],
        None => seq![blank(), blank()],
    };
    let r = match right {
        Some(n) => seq![n.0@, n.1@],
        None => seq![blank(), blank()],
    };
    seq![blank()] + l + seq![blank(), blank()] + r
}

pub open spec fn section_header() -> Seq<Seq<char>> {
    seq![blank(), "LEFTIES"@, blank(), blank(), blank(), "RIGHTIES"@]
}

pub open spec fn waitlist_header() -> Seq<Seq<char>> {
    seq!["WAITLIST"@, blank(), blank(), blank(), blank(), blank()]
}

/// Row index in the sheet of the first main slot and of the first waitlist slot.
pub const FIRST_SLOT_ROW: usize = 4;

pub const FIRST_WAITLIST_ROW: usize = 22;

fn push_cell(row: &mut Vec<String>, c: String)
    ensures
        cells(*final(row)) == cells(*old(row)).push(c@),
{
    row.push(c);
    assert(cells(*row) =~= cells(*old(row)).push(c@));
}

fn name_cells(row: &mut Vec<String>, name: &Option<(String, String)>)
    ensures
        cells(*final(row)) == cells(*old(row)) + match *name {
            Some(n) => seq![n.0@, n.1@],
            None => seq![blank(), blank()],
        },
{
    match name {
        Some(n) => {
            push_cell(row, n.0.clone());
            push_cell(row, n.1.clone());
        },
        None => {
            push_cell(row, String::new());
            push_cell(row, String::new());
        },
    }
    assert(cells(*row) =~= cells(*old(row)) + match *name {
        Some(n) => seq![n.0@, n.1@],
        None => seq![blank(), blank()],
    });
}

fn slot_row_of(left: &Option<(String, String)>, right: &Option<(String, String)>) -> (r: Vec<
    String,
>)
    ensures
        cells(r) == slot_row(*left, *right),
{
    let mut row: Vec<String> = Vec::new();
    push_cell(&mut row, String::new());
    name_cells(&mut row, left);
    push_cell(&mut row, String::new());
    push_cell(&mut row, String::new());
    name_cells(&mut row, right);
    proof {
        assert(cells(row) =~= slot_row(*left, *right));
    }
    row
}

/// Appends one slot row per pair of left and right names.
fn push_slot_rows(
    out: &mut Vec<Vec<String>>,
    left: &Vec<Option<(String, String)>>,
    right: &Vec<Option<(String, String)>>,
)
    requires
        left@.len() == right@.len(),
    ensures
        final(out)@.len() == old(out)@.len() + left@.len(),
        forall|k: int| 0 <= k < old(out)@.len() ==> #[trigger] final(out)@[k] == old(out)@[k],
        forall|i: int| 0 <= i < left@.len() ==> cells(#[trigger] final(out)@[old(out)@.len() + i]) == slot_row(left@[i], right@[i]),
{
    let ghost base = out@.len();
    let mut i: usize = 0;
    while i < left.len()
        invariant
            i <= left@.len(),
            left@.len() == right@.len(),
            base == old(out)@.len(),
            out@.len() == base + i,
            forall|k: int| 0 <= k < base ==> #[trigger] out@[k] == old(out)@[k],
            forall|j: int| 0 <= j < i ==> cells(#[trigger] out@[base + j]) == slot_row(left@[j], right@[j]),
        decreases left.len() - i,
    {
        let row = slot_row_of(&left[i], &right[i]);
        out.push(row);
        i = i + 1;
    }
}

/// Lays a practice out as sheet rows: the heading, two blank rows, the
/// section header, the 17 main slot rows, the waitlist header and the 6
/// waitlist slot rows. Each name is a first and last name, `None` for an
/// empty slot or an unknown participant.
pub fn format_practice_for_sheet(
    heading: String,
    left: &Vec<Option<(String, String)>>,
    right: &Vec<Option<(String, String)>>,
    left_wait: &Vec<Option<(String, String)>>,
    right_wait: &Vec<Option<(String, String)>>,
) -> (r: Vec<Vec<String>>)
    requires
        left@.len() == MAIN_ROWS,
        right@.len() == MAIN_ROWS,
        left_wait@.len() == WAITLIST_ROWS,
        right_wait@.len() == WAITLIST_ROWS,
    ensures
        r@.len() == FIRST_WAITLIST_ROW + WAITLIST_ROWS,
        cells(r@[0]) == seq![heading@],
        cells(r@[1]) == Seq::<Seq<char>>::empty(),
        cells(r@[2]) == Seq::<Seq<char>>::empty(),
        cells(r@[3]) == section_header(),
        forall|i: int| 0 <= i < MAIN_ROWS ==> cells(#[trigger] r@[FIRST_SLOT_ROW + i]) == slot_row(left@[i], right@[i]),
        cells(r@[FIRST_WAITLIST_ROW - 1]) == waitlist_header(),
        forall|i: int| 0 <= i < WAITLIST_ROWS ==> cells(#[trigger] r@[FIRST_WAITLIST_ROW + i]) == slot_row(left_wait@[i], right_wait@[i]),
{
    let ghost h = heading@;
    let mut out: Vec<Vec<String>> = Vec::new();
    let mut first: Vec<String> = Vec::new();
    first.push(heading);
    out.push(first);
    out.push(Vec::new());
    out.push(Vec::new());
    let mut header: Vec<String> = Vec::new();
    push_cell(&mut header, String::new());
    push_cell(&mut header, String::from_str("LEFTIES"));
    push_cell(&mut header, String::new());
    push_cell(&mut header, String::new());
    push_cell(&mut header, String::new());
    push_cell(&mut header, String::from_str("RIGHTIES"));
    out.push(header);
    proof {
        assert(cells(out@[0]) =~= seq![h]);
        assert(cells(out@[1]) =~= Seq::<Seq<char>>::empty());
        assert(cells(out@[2]) =~= Seq::<Seq<char>>::empty());
        assert(cells(out@[3]) =~= section_header());
    }
    push_slot_rows(&mut out, left, right);
    let mut wl: Vec<String> = Vec::new();
    push_cell(&mut wl, String::from_str("WAITLIST"));
    push_cell(&mut wl, String::new());
    push_cell(&mut wl, String::new());
    push_cell(&mut wl, String::new());
    push_cell(&mut wl, String::new());
    push_cell(&mut wl, String::new());
    out.push(wl);
    proof {
        assert(cells(out@[FIRST_WAITLIST_ROW - 1]) =~= waitlist_header());
    }
    push_slot_rows(&mut out, left_wait, right_wait);
    out
}

/// The heading of a practice's sheet: its date in the heading format.
pub fn practice_heading(practice: &Practice) -> (r: Option<String>)
    ensures
        match r {
            Some(t) => formatted_datetime(practice.date, heading_format()) == Some(t@),
            None => formatted_datetime(practice.date, heading_format()) is None,
        },
{
    format_datetime(practice.date, "%A, %B %d (%I:%M %p)")
}

impl Practice {
    /// A new practice for the sheet data: starting at its date, one hour
    /// long, with every slot empty.
    pub fn from_sheet_data(data: &PracticeSheetData) -> (r: Practice)
        requires
            valid_instant(data.date),
        ensures
            r.wf(),
            r.id is None,
            r.date == data.date,
            r.start_time == data.date,
            r.end_time == data.date + HOUR_MS,
            r.left_side@ == empty_slots(MAIN_CAPACITY as nat),
            r.right_side@ == empty_slots(MAIN_CAPACITY as nat),
            r.left_side_waitlist@ == empty_slots(WAITLIST_CAPACITY as nat),
            r.right_side_waitlist@ == empty_slots(WAITLIST_CAPACITY as nat),
    {
        Practice::new(data.date, data.date)
    }
}

} // verus!
