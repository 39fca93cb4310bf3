use zermelo_cli::appointment::{
    appointment_kind, classify_color, is_visible, parse_type, Appointment, AppointmentType, Color,
};
use zermelo_cli::render::{format_appointment, render_appointment};
use zermelo_cli::text::{i64_to_string, join_comma, u64_to_string};

fn strings(values: &[&str]) -> Vec<String> {
    values.iter().map(|v| v.to_string()).collect()
}

#[test]
fn parse_type_known_words() {
    assert_eq!(parse_type("exam"), AppointmentType::Exam);
    assert_eq!(parse_type("lesson"), AppointmentType::Lesson);
    assert_eq!(parse_type("activity"), AppointmentType::Activity);
    assert_eq!(parse_type("choice"), AppointmentType::Choice);
    assert_eq!(parse_type("talk"), AppointmentType::Talk);
    assert_eq!(parse_type("unknown"), AppointmentType::Unknown);
}

#[test]
fn parse_type_unrecognized_is_other() {
    assert_eq!(parse_type("Exam"), AppointmentType::Other);
    assert_eq!(parse_type("examx"), AppointmentType::Other);
    assert_eq!(parse_type(""), AppointmentType::Other);
}

#[test]
fn absent_type_is_other() {
    let a = Appointment::empty();
    assert_eq!(appointment_kind(&a), AppointmentType::Other);
}

#[test]
fn color_default_white() {
    let a = Appointment::empty();
    assert_eq!(classify_color(&a), Color::White);
}

#[test]
fn color_exam_yellow() {
    let mut a = Appointment::empty();
    a.appointment_type = Some("exam".to_string());
    assert_eq!(classify_color(&a), Color::Yellow);
}

#[test]
fn color_modified_new_moved_yellow() {
    let mut a = Appointment::empty();
    a.modified = Some(true);
    assert_eq!(classify_color(&a), Color::Yellow);
    let mut b = Appointment::empty();
    b.new = Some(true);
    assert_eq!(classify_color(&b), Color::Yellow);
    let mut c = Appointment::empty();
    c.moved = Some(true);
    assert_eq!(classify_color(&c), Color::Yellow);
}

#[test]
fn color_cancelled_red_beats_exam() {
    let mut a = Appointment::empty();
    a.appointment_type = Some("exam".to_string());
    a.cancelled = Some(true);
    assert_eq!(classify_color(&a), Color::Red);
}

#[test]
fn color_invalid_red_beats_modified() {
    let mut a = Appointment::empty();
    a.modified = Some(true);
    a.valid = Some(false);
    assert_eq!(classify_color(&a), Color::Red);
}

#[test]
fn color_false_flags_stay_white() {
    let mut a = Appointment::empty();
    a.cancelled = Some(false);
    a.valid = Some(true);
    a.modified = Some(false);
    a.new = Some(false);
    a.moved = Some(false);
    assert_eq!(classify_color(&a), Color::White);
}

#[test]
fn color_table_is_total() {
    for exam in [false, true] {
        for yellow_flag in [false, true] {
            for cancelled in [false, true] {
                for invalid in [false, true] {
                    let mut a = Appointment::empty();
                    if exam {
                        a.appointment_type = Some("exam".to_string());
                    }
                    a.modified = Some(yellow_flag);
                    a.cancelled = Some(cancelled);
                    a.valid = Some(!invalid);
                    let expected = if cancelled || invalid {
                        Color::Red
                    } else if exam || yellow_flag {
                        Color::Yellow
                    } else {
                        Color::White
                    };
                    assert_eq!(classify_color(&a), expected);
                }
            }
        }
    }
}

#[test]
fn cancelled_hidden_only_when_asked() {
    let mut a = Appointment::empty();
    a.cancelled = Some(true);
    assert!(!is_visible(&a, true, false));
    assert!(is_visible(&a, false, false));
}

#[test]
fn invalid_hidden_unless_shown() {
    let mut a = Appointment::empty();
    a.valid = Some(false);
    assert!(!is_visible(&a, false, false));
    assert!(is_visible(&a, false, true));
}

#[test]
fn absent_flags_always_visible() {
    let a = Appointment::empty();
    assert!(is_visible(&a, true, false));
}

#[test]
fn render_suppressed_appointment_is_none() {
    let mut a = Appointment::empty();
    a.cancelled = Some(true);
    assert!(render_appointment(&a, true, false).is_none());
}

#[test]
fn equal_slots_show_single_number() {
    let mut a = Appointment::empty();
    a.start_time_slot = Some(2);
    a.end_time_slot = Some(2);
    assert_eq!(format_appointment(&a), "#2");
}

#[test]
fn different_slots_show_range() {
    let mut a = Appointment::empty();
    a.start_time_slot = Some(2);
    a.end_time_slot = Some(4);
    assert_eq!(format_appointment(&a), "#2-4");
}

#[test]
fn end_slot_alone_shows_nothing() {
    let mut a = Appointment::empty();
    a.end_time_slot = Some(4);
    assert_eq!(format_appointment(&a), "");
}

#[test]
fn exam_scenario_renders_raised_hours_in_yellow() {
    let mut a = Appointment::empty();
    a.start = Some(3600);
    a.end = Some(7200);
    a.appointment_type = Some("exam".to_string());
    a.cancelled = Some(false);
    a.valid = Some(true);
    let (text, color) = render_appointment(&a, false, false).unwrap();
    assert!(text.starts_with(" 2:00 - 3:00"));
    assert_eq!(text, " 2:00 - 3:00\n");
    assert_eq!(color, Color::Yellow);
}

#[test]
fn midnight_displays_as_one() {
    let mut a = Appointment::empty();
    a.start = Some(0);
    assert_eq!(format_appointment(&a), " 1:00\n");
}

#[test]
fn minutes_get_leading_zero() {
    let mut a = Appointment::empty();
    a.start = Some(3660);
    assert_eq!(format_appointment(&a), " 2:01\n");
}

#[test]
fn late_evening_time() {
    let mut a = Appointment::empty();
    a.start = Some(86399);
    assert_eq!(format_appointment(&a), " 24:59\n");
}

#[test]
fn end_time_without_start_is_omitted() {
    let mut a = Appointment::empty();
    a.end = Some(7200);
    assert_eq!(format_appointment(&a), "");
}

#[test]
fn subjects_joined_with_commas() {
    let mut a = Appointment::empty();
    a.subjects = Some(strings(&["math", "art"]));
    assert_eq!(format_appointment(&a), "Subjects: math, art\n");
}

#[test]
fn empty_lists_are_omitted() {
    let mut a = Appointment::empty();
    a.subjects = Some(Vec::new());
    a.teachers = Some(Vec::new());
    assert_eq!(format_appointment(&a), "");
}

#[test]
fn all_list_lines_in_order() {
    let mut a = Appointment::empty();
    a.subjects = Some(strings(&["math"]));
    a.teachers = Some(strings(&["t1", "t2"]));
    a.locations = Some(strings(&["room 5"]));
    a.groups = Some(strings(&["g1"]));
    assert_eq!(
        format_appointment(&a),
        "Subjects: math\nTeachers: t1, t2\nLocations: room 5\nGroups: g1\n"
    );
}

#[test]
fn remark_newlines_collapse_to_spaces() {
    let mut a = Appointment::empty();
    a.remark = Some("bring\nyour\nbooks".to_string());
    assert_eq!(format_appointment(&a), "! bring your books\n");
}

#[test]
fn empty_remark_is_omitted() {
    let mut a = Appointment::empty();
    a.remark = Some(String::new());
    assert_eq!(format_appointment(&a), "");
}

#[test]
fn empty_appointment_renders_nothing() {
    let a = Appointment::empty();
    assert_eq!(format_appointment(&a), "");
}

#[test]
fn full_block_composition() {
    let mut a = Appointment::empty();
    a.start_time_slot = Some(1);
    a.end_time_slot = Some(2);
    a.start = Some(3600);
    a.end = Some(5400);
    a.subjects = Some(strings(&["bio"]));
    a.remark = Some("moved".to_string());
    assert_eq!(format_appointment(&a), "#1-2 2:00 - 2:30\nSubjects: bio\n! moved\n");
}

#[test]
fn decimal_rendering() {
    assert_eq!(u64_to_string(0), "0");
    assert_eq!(u64_to_string(1234), "1234");
    assert_eq!(i64_to_string(-5), "-5");
    assert_eq!(i64_to_string(i64::MIN), "-9223372036854775808");
    assert_eq!(i64_to_string(i64::MAX), "9223372036854775807");
}

#[test]
fn join_comma_shapes() {
    assert_eq!(join_comma(&Vec::new()), "");
    assert_eq!(join_comma(&strings(&["a"])), "a");
    assert_eq!(join_comma(&strings(&["a", "b", "c"])), "a, b, c");
}
