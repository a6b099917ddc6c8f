use chrono::Datelike;
use practice_roster::practice::Practice;
use practice_roster::sheets::{
    fetch_new_form_responses, format_practice_for_sheet, parse_practice_date, practice_datetime_text, FormResponse,
    PracticeSheetData, SheetError,
};
use practice_roster::text::{contains, parses_as_u32, trim, u32_to_text};
use practice_roster::user::{Side, User};

fn row(cells: &[&str]) -> Vec<String> {
    cells.iter().map(|c| c.to_string()).collect()
}

#[test]
fn form_answer_becomes_user() {
    let form = FormResponse {
        email_address: "a@b.c".to_string(),
        full_name: "  Ada Lovelace King ".to_string(),
        mcgill_id: "260111222".to_string(),
        preferred_email: "ada@example.com".to_string(),
        paddle_side: "Right".to_string(),
    };
    let u = User::convert_form_to_user(&form);
    assert_eq!(u.first_name, "Ada");
    assert_eq!(u.last_name, "Lovelace King");
    assert_eq!(u.side, Side::Right);
    assert_eq!(u.email, "ada@example.com");
    assert_eq!(u.mcgill_id, "260111222");
    assert!(u.discord_id.is_none());
    let single = FormResponse { full_name: "Cher".to_string(), paddle_side: "Not sure yet!".to_string(), ..form };
    let u = User::convert_form_to_user(&single);
    assert_eq!(u.first_name, "Cher");
    assert_eq!(u.last_name, "");
    assert_eq!(u.side, Side::NA);
}

#[test]
fn form_rows_after_start_with_all_columns() {
    let rows = vec![
        row(&["ts", "e", "n", "i", "p", "", "", "Left"]),
        row(&["ts", "e1", "Ann Lee", "1", "ann@x", "", "", "Left"]),
        row(&["short"]),
        row(&["ts", "e2", "Bo Ray", "2", "bo@x", "", "", "Right"]),
    ];
    let (responses, last) = fetch_new_form_responses(&rows, 1);
    assert_eq!(responses.len(), 2);
    assert_eq!(responses[0].full_name, "Ann Lee");
    assert_eq!(responses[1].paddle_side, "Right");
    assert_eq!(last, 3);
    let (none, last) = fetch_new_form_responses(&rows, 9);
    assert!(none.is_empty());
    assert_eq!(last, 9);
}

#[test]
fn date_cell_text_and_instant() {
    assert_eq!(
        practice_datetime_text("\"Thursday, November 28 (7:00 PM)\"", 2024),
        Some("November 28 7:00 PM 2024".to_string())
    );
    assert_eq!(practice_datetime_text("November 28 7:00 PM", 2024), None);
    assert_eq!(parse_practice_date("Thursday, November 28 (7:00 PM)", 2024), Ok(1_732_820_400_000));
    assert_eq!(parse_practice_date("Thursday, March 6 (7:30 AM)", 2025), Ok(1_741_246_200_000));
    assert_eq!(parse_practice_date("no time here", 2024), Err(SheetError::MissingDatePart));
    assert_eq!(parse_practice_date("Thursday, Smarch 40 (7:00 PM)", 2024), Err(SheetError::BadDate));
}

#[test]
fn practice_sheet_sections() {
    let rows = vec![
        row(&["Thursday, November 28 (7:00 PM)"]),
        vec![],
        row(&["", "LEFTIES", "", "", "", "RIGHTIES"]),
        row(&["", "First Name", "Last Name", "", "", "First Name", "Last Name"]),
        row(&["1", " Ann ", "Lee", "", "", "Bo", "Ray"]),
        row(&["2", "", "", "", "", "Cy", "Dee"]),
        row(&["", "WAITLIST"]),
        row(&["1", "Ed", "Fox"]),
        row(&["", "DO NOT SIGN UP BELOW"]),
        row(&["3", "Gus", "Hay"]),
    ];
    let d = PracticeSheetData::parse_from_rows_in_year(&rows, 2024).unwrap();
    assert_eq!(d.date, 1_732_820_400_000);
    assert_eq!(d.left_side.len(), 17);
    assert_eq!(d.left_side[0], Some("Ann Lee".to_string()));
    assert_eq!(d.left_side[1], None);
    assert_eq!(d.right_side[0], Some("Bo Ray".to_string()));
    assert_eq!(d.right_side[1], Some("Cy Dee".to_string()));
    assert_eq!(d.left_side[2], None);
    assert_eq!(d.left_waitlist.len(), 6);
    assert_eq!(d.left_waitlist[0], Some("Ed Fox".to_string()));
    assert_eq!(d.right_waitlist[0], None);
    let p = Practice::from_sheet_data(&d);
    assert_eq!(p.start_time, d.date);
    assert!(p.left_side.iter().all(|s| s.is_none()));
}

#[test]
fn empty_sheet_is_refused() {
    assert_eq!(PracticeSheetData::parse_from_rows_in_year(&vec![], 2024).unwrap_err(), SheetError::EmptySheet);
    assert_eq!(
        PracticeSheetData::parse_from_rows_in_year(&vec![vec![]], 2024).unwrap_err(),
        SheetError::EmptySheet
    );
}

#[test]
fn text_helpers() {
    assert_eq!(trim("\u{3000} a b \t\n"), "a b");
    assert!(contains("XX WAITLIST", "WAITLIST"));
    assert!(!contains("WAIT", "WAITLIST"));
    assert!(parses_as_u32("17"));
    assert!(parses_as_u32("+4"));
    assert!(parses_as_u32("4294967295"));
    assert!(!parses_as_u32("4294967296"));
    assert!(!parses_as_u32(""));
    assert!(!parses_as_u32("+"));
    assert!(!parses_as_u32("-1"));
    assert!(!parses_as_u32("1a"));
    assert_eq!(u32_to_text(2024), "2024");
    assert_eq!(u32_to_text(0), "0");
}

#[test]
fn sheet_heading_names_weekday_date_and_time() {
    let p = Practice::new(1_732_820_400_000, 1_732_820_400_000);
    assert_eq!(
        practice_roster::sheets::practice_heading(&p),
        Some("Thursday, November 28 (07:00 PM)".to_string())
    );
}

#[test]
fn practice_sheet_is_read_in_current_year() {
    let rows = vec![row(&["Thursday, November 28 (7:00 PM)"])];
    let year = chrono::Utc::now().year() as u32;
    let now_read = PracticeSheetData::parse_from_rows(rows.clone());
    let in_year = PracticeSheetData::parse_from_rows_in_year(&rows, year);
    match (now_read, in_year) {
        (Ok(a), Ok(b)) => assert_eq!(a.date, b.date),
        (Err(a), Err(b)) => assert_eq!(a, b),
        _ => panic!("reading in the current year differs"),
    }
}

#[test]
fn sheet_grid_layout() {
    let mut left = vec![None; 17];
    left[0] = Some(("Ann".to_string(), "Lee".to_string()));
    let mut right = vec![None; 17];
    right[0] = Some(("Bo".to_string(), "Ray".to_string()));
    let mut left_wait = vec![None; 6];
    left_wait[5] = Some(("Ed".to_string(), "Fox".to_string()));
    let right_wait = vec![None; 6];
    let grid = format_practice_for_sheet("Heading".to_string(), &left, &right, &left_wait, &right_wait);
    assert_eq!(grid.len(), 28);
    assert_eq!(grid[0], vec!["Heading".to_string()]);
    assert!(grid[1].is_empty() && grid[2].is_empty());
    assert_eq!(grid[3], row(&["", "LEFTIES", "", "", "", "RIGHTIES"]));
    assert_eq!(grid[4], row(&["", "Ann", "Lee", "", "", "Bo", "Ray"]));
    assert_eq!(grid[5], row(&["", "", "", "", "", "", ""]));
    assert_eq!(grid[21], row(&["WAITLIST", "", "", "", "", ""]));
    assert_eq!(grid[27], row(&["", "Ed", "Fox", "", "", "", ""]));
}
