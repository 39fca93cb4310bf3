use vstd::prelude::*;

use crate::text::str_eq;

verus! {

/// One scheduled entry as the remote service reports it.  Every field is
/// individually optional: absence is distinct from false or zero, so each
/// is an explicit `Option`, never a sentinel.
#[derive(Debug, Clone, PartialEq, Eq)]
pub struct Appointment {
    pub start: Option<i64>,
    pub end: Option<i64>,
    pub start_time_slot: Option<i64>,
    pub end_time_slot: Option<i64>,
    pub subjects: Option<Vec<String>>,
    pub teachers: Option<Vec<String>>,
    pub locations: Option<Vec<String>>,
    pub groups: Option<Vec<String>>,
    pub remark: Option<String>,
    pub appointment_type: Option<String>,
    pub cancelled: Option<bool>,
    pub valid: Option<bool>,
    pub modified: Option<bool>,
    pub moved: Option<bool>,
    pub new: Option<bool>,
}

impl Appointment {
    /// An appointment with every field absent; tests and callers fill in
    /// what a scenario needs.
    pub fn empty() -> (a: Appointment)
        ensures
            a == (Appointment {
                start: None,
                end: None,
                start_time_slot: None,
                end_time_slot: None,
                subjects: None,
                teachers: None,
                locations: None,
                groups: None,
                remark: None,
                appointment_type: None,
                cancelled: None,
                valid: None,
                modified: None,
                moved: None,
                new: None,
            }),
    {
        Appointment {
            start: None,
            end: None,
            start_time_slot: None,
            end_time_slot: None,
            subjects: None,
            teachers: None,
            locations: None,
            groups: None,
            remark: None,
            appointment_type: None,
            cancelled: None,
            valid: None,
            modified: None,
            moved: None,
            new: None,
        }
    }
}

/// The kinds of appointment the remote service names; anything it does not
/// name is `Other`.
#[derive(Debug, Clone, Copy, PartialEq, Eq, Structural)]
pub enum AppointmentType {
    Unknown,
    Lesson,
    Exam,
    Activity,
    Choice,
    Talk,
    Other,
}

/// The kind named by a type string; an unrecognized string is `Other`.
pub open spec fn spec_parse_type(s: Seq<char>) -> AppointmentType {
    if s == "unknown"@ {
        AppointmentType::Unknown
    } else if s == "lesson"@ {
        AppointmentType::Lesson
    } else if s == "exam"@ {
        AppointmentType::Exam
    } else if s == "activity"@ {
        AppointmentType::Activity
    } else if s == "choice"@ {
        AppointmentType::Choice
    } else if s == "talk"@ {
        AppointmentType::Talk
    } else {
        AppointmentType::Other
    }
}

/// Maps a type string from the remote service to the kind it names.
pub fn parse_type(s: &str) -> (t: AppointmentType)
    ensures
        t == spec_parse_type(s@),
{
    if str_eq(s, "unknown") {
        AppointmentType::Unknown
    } else if str_eq(s, "lesson") {
        AppointmentType::Lesson
    } else if str_eq(s, "exam") {
        AppointmentType::Exam
    } else if str_eq(s, "activity") {
        AppointmentType::Activity
    } else if str_eq(s, "choice") {
        AppointmentType::Choice
    } else if str_eq(s, "talk") {
        AppointmentType::Talk
    } else {
        AppointmentType::Other
    }
}

/// The kind of an appointment: its type string's kind, `Other` when the
/// string is absent.
pub open spec fn spec_appointment_kind(a: Appointment) -> AppointmentType {
    match a.appointment_type {
        Some(t) => spec_parse_type(t@),
        None => AppointmentType::Other,
    }
}

/// Derives an appointment's kind, treating an absent type as `Other`.
pub fn appointment_kind(a: &Appointment) -> (t: AppointmentType)
    ensures
        t == spec_appointment_kind(*a),
{
    match &a.appointment_type {
        Some(t) => parse_type(t.as_str()),
        None => AppointmentType::Other,
    }
}

/// Whether an appointment is shown: suppressed only when it is cancelled
/// and cancelled entries are hidden, or invalid and invalid entries are
/// not shown.
pub open spec fn spec_visible(a: Appointment, hide_cancelled: bool, show_invalid: bool) -> bool {
    !(a.cancelled == Some(true) && hide_cancelled) && !(a.valid == Some(false) && !show_invalid)
}

/// Decides visibility from the two display flags.
pub fn is_visible(a: &Appointment, hide_cancelled: bool, show_invalid: bool) -> (r: bool)
    ensures
        r == spec_visible(*a, hide_cancelled, show_invalid),
{
    let cancelled = match a.cancelled {
        Some(true) => true,
        _ => false,
    };
    let invalid = match a.valid {
        Some(false) => true,
        _ => false,
    };
    !(cancelled && hide_cancelled) && !(invalid && !show_invalid)
}

/// The foreground color an appointment is printed in.
#[derive(Debug, Clone, Copy, PartialEq, Eq, Structural)]
pub enum Color {
    White,
    Yellow,
    Red,
}

/// The color priority table: red for a cancelled or invalid appointment,
/// else yellow for an exam or a modified, new or moved one, else white.
pub open spec fn spec_color(a: Appointment) -> Color {
    if a.cancelled == Some(true) || a.valid == Some(false) {
        Color::Red
    } else if spec_appointment_kind(a) == AppointmentType::Exam || a.modified == Some(true)
        || a.new == Some(true) || a.moved == Some(true) {
        Color::Yellow
    } else {
        Color::White
    }
}

/// Classifies an appointment's color by running the override rules in
/// order, each later rule overwriting an earlier match; the result is
/// exactly the priority table `spec_color`.
pub fn classify_color(a: &Appointment) -> (c: Color)
    ensures
        c == spec_color(*a),
{
    let mut color = Color::White;
    let kind = appointment_kind(a);
    if kind == AppointmentType::Exam {
        color = Color::Yellow;
    }
    let modified = match a.modified {
        Some(true) => true,
        _ => false,
    };
    let new = match a.new {
        Some(true) => true,
        _ => false,
    };
    let moved = match a.moved {
        Some(true) => true,
        _ => false,
    };
    if modified || new || moved {
        color = Color::Yellow;
    }
    if let Some(true) = a.cancelled {
        color = Color::Red;
    }
    if let Some(false) = a.valid {
        color = Color::Red;
    }
    color
}

/// The color rules cover every combination of kind and flags: red exactly
/// for a cancelled or invalid appointment, yellow exactly for an exam or
/// a modified, new or moved one that red does not claim, white otherwise.
pub proof fn lemma_color_priority(a: Appointment)
    ensures
        spec_color(a) == Color::Red <==> (a.cancelled == Some(true) || a.valid == Some(false)),
        spec_color(a) == Color::Yellow <==> (!(a.cancelled == Some(true) || a.valid == Some(
            false,
        )) && (spec_appointment_kind(a) == AppointmentType::Exam || a.modified == Some(true)
            || a.new == Some(true) || a.moved == Some(true))),
        spec_color(a) == Color::White <==> (!(a.cancelled == Some(true) || a.valid == Some(
            false,
        )) && !(spec_appointment_kind(a) == AppointmentType::Exam || a.modified == Some(true)
            || a.new == Some(true) || a.moved == Some(true))),
{
}

/// A cancelled appointment is omitted exactly when cancelled entries are
/// hidden, as long as the invalidity rule does not also suppress it.
pub proof fn lemma_cancelled_visibility(a: Appointment, hide_cancelled: bool, show_invalid: bool)
    requires
        a.cancelled == Some(true),
        !(a.valid == Some(false) && !show_invalid),
    ensures
        spec_visible(a, hide_cancelled, show_invalid) == !hide_cancelled,
{
}

/// An invalid appointment is omitted exactly when invalid entries are not
/// shown, as long as the cancellation rule does not also suppress it.
pub proof fn lemma_invalid_visibility(a: Appointment, hide_cancelled: bool, show_invalid: bool)
    requires
        a.valid == Some(false),
        !(a.cancelled == Some(true) && hide_cancelled),
    ensures
        spec_visible(a, hide_cancelled, show_invalid) == show_invalid,
{
}

} // verus!
