use trail::app::App;
use trail::git::summary;
use trail::git::detect;
use trail::input::Input;
use trail::field::text_field;
use trail::layout::{centered_popup, resolve_directory, table_viewport, Area, DirectoryPath};
use trail::model::{Release, Update};
use trail::text::{parse_i64_str, path_file_name, trim_str};
use trail::update::{SemVer, UpdateCheck};

fn check(ignored: Option<&str>) -> UpdateCheck {
    UpdateCheck {
        last_checked: 10,
        ignored_version: ignored.map(|v| SemVer::parse(v).unwrap()),
        latest_version: None,
    }
}

#[test]
fn versions_are_read_and_rejected() {
    assert_eq!(SemVer::parse("1.2.3").unwrap().as_str(), "1.2.3");
    assert_eq!(SemVer::parse("1.0.0-alpha.1+build").unwrap().as_str(), "1.0.0-alpha.1+build");
    assert_eq!(SemVer::parse("").unwrap_err().text, "");
    assert_eq!(SemVer::parse("1.0").unwrap_err().text, "1.0");
    assert!(SemVer::parse("1.0.01").is_err());
    assert!(SemVer::parse("v1.0.0").is_err());
}

#[test]
fn versions_are_ordered() {
    let v = |s: &str| SemVer::parse(s).unwrap();
    assert!(v("1.3.0").is_newer_than(&v("1.2.9")));
    assert!(v("1.0.0").is_newer_than(&v("1.0.0-rc.1")));
    assert!(!v("1.2.0").is_newer_than(&v("1.2.0")));
    assert!(!v("0.9.0").is_newer_than(&v("1.0.0")));
    assert!(v("2.0.0").same_as(&v("2.0.0")));
    assert!(!v("2.0.0").same_as(&v("2.0.1")));
}

#[test]
fn a_check_is_due_once_a_day() {
    let mut c = check(None);
    assert!(c.needs_check(11));
    assert!(!c.needs_check(10));
    assert_eq!(c.record_release(11, "v1.3.0", "1.2.0").unwrap(), true);
    assert!(!c.needs_check(11));
    assert_eq!(c.last_checked, 11);
    assert_eq!(c.latest_version.as_ref().unwrap().as_str(), "1.3.0");
}

#[test]
fn the_check_reads_today_from_the_clock() {
    let c = UpdateCheck { last_checked: i32::MIN, ignored_version: None, latest_version: None };
    let (today, due) = c.due_today();
    assert!(due);
    assert!(today > 730_000);
    let again = UpdateCheck { last_checked: today, ignored_version: None, latest_version: None };
    let (day, due) = again.due_today();
    assert_eq!(due, day != today);
}

#[test]
fn newer_releases_are_offered_unless_ignored() {
    let mut c = check(None);
    assert_eq!(c.record_release(11, "v2.0.0", "1.9.9").unwrap(), true);
    let mut c = check(Some("2.0.0"));
    assert_eq!(c.record_release(11, "v2.0.0", "1.9.9").unwrap(), false);
    assert_eq!(c.last_checked, 11);
    let mut c = check(Some("1.5.0"));
    assert_eq!(c.record_release(11, "vv2.0.0", "1.9.9").unwrap(), true);
    let mut c = check(None);
    assert_eq!(c.record_release(11, "1.0.0", "1.0.0").unwrap(), false);
    let mut c = check(None);
    assert_eq!(c.record_release(11, "v0.1.0", "1.0.0").unwrap(), false);
}

#[test]
fn an_unreadable_tag_records_nothing() {
    let mut c = check(None);
    assert_eq!(c.record_release(11, "vlatest", "1.0.0").unwrap_err().text, "latest");
    assert_eq!(c.last_checked, 10);
    assert!(c.latest_version.is_none());
    assert_eq!(c.record_release(11, "v1.0.0", "local").unwrap_err().text, "local");
    assert_eq!(c.last_checked, 10);
    assert!(c.latest_version.is_none());
}

#[test]
fn timestamps_outside_the_calendar_are_dropped() {
    let info = detect(true, true, Some("main"), None);
    let sum = summary(info, "", Some("99999999999999999\n")).unwrap();
    assert_eq!(sum.last_commit, None);
    let info = detect(true, true, Some("main"), None);
    let sum = summary(info, "", Some("-5\n")).unwrap();
    assert_eq!(sum.last_commit, Some(-5));
    for (text, kept) in [
        ("8210266876799", Some(8_210_266_876_799)),
        ("8210266876800", None),
        ("-8334601228800", Some(-8_334_601_228_800)),
        ("-8334601228801", None),
    ] {
        let info = detect(true, true, Some("main"), None);
        assert_eq!(summary(info, "", Some(text)).unwrap().last_commit, kept);
    }
}

#[test]
fn the_table_viewport_keeps_the_view_full() {
    let v = table_viewport(17, 8, 0);
    assert_eq!(v.visible_rows, 4);
    assert_eq!(v.max_offset, 4);
    assert_eq!(v.offset, 0);
    assert!(v.scrollbar);
    let v = table_viewport(17, 8, 7);
    assert_eq!(v.offset, 4);
    let v = table_viewport(36, 8, 4);
    assert_eq!(v.visible_rows, 8);
    assert_eq!(v.offset, 0);
    assert!(!v.scrollbar);
    let v = table_viewport(0, 3, 2);
    assert_eq!(v.visible_rows, 0);
    assert_eq!(v.offset, 2);
    assert!(!v.scrollbar);
}

#[test]
fn fitting_the_table_brings_the_offset_back() {
    let mut app = App::new();
    for i in 0..8 {
        app.updates.push(Update {
            id: format!("u{i}"),
            project_id: "a".to_string(),
            title: format!("Update {i}"),
            body: String::new(),
            next: String::new(),
            created_at: 0,
            updated_at: 0,
        });
    }
    app.update_selection.offset = 6;
    let v = app.fit_update_table(17);
    assert_eq!(v.offset, 4);
    assert_eq!(app.update_selection.offset, 4);
    app.fit_update_table(40);
    assert_eq!(app.update_selection.offset, 0);
}

#[test]
fn the_delete_popup_is_centred() {
    let r = centered_popup(Area { x: 0, y: 0, width: 100, height: 12 });
    assert_eq!((r.x, r.y, r.width, r.height), (20, 2, 60, 8));
    let r = centered_popup(Area { x: 5, y: 1, width: 40, height: 6 });
    assert_eq!((r.x, r.y, r.width, r.height), (5, 1, 40, 6));
}

fn frame(width: u16, height: u16) -> Area {
    Area { x: 0, y: 0, width, height }
}

#[test]
fn input_forms_show_placeholders_centered_with_help_below() {
    let field = text_field(frame(100, 24), "", 0).unwrap();
    assert_eq!((field.area.x, field.area.y), (14, 10));
    assert_eq!(field.area.x + field.area.width - 1, 85);
    assert_eq!(field.area.y + field.area.height - 1, 12);
    assert_eq!(field.help_row, 13);
    assert_eq!(field.cursor, (15, 11));
}

#[test]
fn input_wraps_grows_and_scrolls_with_the_cursor() {
    let mut input = Input::new();
    input.input = format!("{}界e\u{301}Z", "x".repeat(69));
    input.character_index = input.input.chars().count();
    let field = text_field(frame(100, 24), &input.input, input.character_index).unwrap();
    assert_eq!((field.area.x, field.area.y), (14, 10));
    assert_eq!(field.area.x + field.area.width - 1, 85);
    assert_eq!(field.area.y + field.area.height - 1, 13);
    assert_eq!(field.rows[68], 0);
    assert_eq!(field.rows[69], 1);
    assert_eq!(field.cursor, (19, 12));

    input.move_cursor_left();
    input.delete_char();
    let field = text_field(frame(100, 24), &input.input, input.character_index).unwrap();
    assert_eq!(field.cursor, (18, 12));

    input.input = "line\n".repeat(40);
    let count = input.input.chars().count();
    for (width, height) in [(100u16, 24u16), (20, 8), (3, 5)] {
        let field = text_field(frame(width, height), &input.input, count).unwrap();
        let (x, y) = field.cursor;
        assert!(x > 0 && x < width - 1);
        assert!(y > 0 && y < height - 1);
        let field = text_field(frame(width, height), &input.input, 0).unwrap();
        assert_eq!(field.scroll, 0);
        let first_row_has_l =
            input.input.chars().zip(field.rows.iter()).any(|(c, r)| c == 'l' && *r == 0);
        assert!(first_row_has_l);
    }
}

#[test]
fn a_frame_too_small_for_a_field_gives_none() {
    assert!(text_field(frame(2, 24), "abc", 0).is_none());
    assert!(text_field(frame(100, 3), "abc", 0).is_none());
    let field = text_field(frame(3, 4), "abc", 3).unwrap();
    assert_eq!(field.rows, [0, 1, 2]);
    assert_eq!(field.area.height, 3);
    assert_eq!(field.scroll, 3);
    assert_eq!(field.cursor, (1, 1));
}

#[test]
fn home_directories_are_resolved() {
    assert!(matches!(resolve_directory("~"), DirectoryPath::Home));
    assert!(matches!(resolve_directory("~/code/trail"), DirectoryPath::InHome(ref r) if r == "code/trail"));
    assert!(matches!(resolve_directory("~user"), DirectoryPath::AsTyped(ref p) if p == "~user"));
    assert!(matches!(resolve_directory("/srv"), DirectoryPath::AsTyped(ref p) if p == "/srv"));
}

#[test]
fn path_names_and_numbers() {
    assert_eq!(path_file_name("/home/me/Trail").as_deref(), Some("Trail"));
    assert_eq!(path_file_name("/home/me/Trail/").as_deref(), Some("Trail"));
    assert_eq!(path_file_name("/"), None);
    assert_eq!(path_file_name("a/.."), None);
    assert_eq!(parse_i64_str("-42"), Some(-42));
    assert_eq!(parse_i64_str("+7"), Some(7));
    assert_eq!(parse_i64_str("9223372036854775808"), None);
    assert_eq!(parse_i64_str(""), None);
    assert_eq!(trim_str("  hi \n"), "hi");
}

#[test]
fn typing_then_deleting_restores_the_field() {
    let mut input = Input::new();
    for c in "abc".chars() {
        input.enter_char(c);
    }
    input.move_cursor_left();
    let before = (input.input.clone(), input.character_index);
    input.enter_char('é');
    assert_eq!(input.input, "abéc");
    input.delete_char();
    assert_eq!((input.input.clone(), input.character_index), before);
}

#[test]
fn the_cursor_stays_in_the_text() {
    let mut input = Input::new();
    input.move_cursor_left();
    assert_eq!(input.character_index, 0);
    input.enter_char('x');
    input.move_cursor_right();
    input.move_cursor_right();
    assert_eq!(input.character_index, 1);
    input.delete_char();
    input.delete_char();
    assert_eq!(input.character_index, 0);
    assert!(input.input.is_empty());
}

#[test]
fn a_found_release_waits_until_nothing_is_open() {
    let mut app = App::new();
    app.show_help = true;
    app.note_release(Some(Release { tag_name: "v2.0.0".to_string(), assets: Vec::new() }));
    assert!(!app.show_update_popup);
    assert!(app.pending_release.is_some());
    app.show_help = false;
    app.note_release(None);
    assert!(app.show_update_popup);
}
