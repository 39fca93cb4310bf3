use vstd::prelude::*;

use crate::appointment::{
    classify_color, is_visible, spec_color, spec_visible, Appointment, Color,
};
use crate::text::{
    collapse_newlines, join_comma, push_char, spec_collapse_newlines, spec_i64_dec,
    spec_join_comma, spec_two_digits, spec_u64_dec, i64_to_string, two_digits, u64_to_string,
};
use vstd::arithmetic::div_mod::{lemma_fundamental_div_mod, lemma_fundamental_div_mod_converse};

verus! {

/// The second of the day an instant falls on, in universal time.
pub open spec fn spec_day_sec(t: int) -> int {
    t % 86400
}

/// The displayed hour: the hour of day raised by one, a deliberate display
/// convention of the schedule, not a time-zone conversion.
pub open spec fn spec_hour(t: int) -> int {
    spec_day_sec(t) / 3600 + 1
}

/// The minute of the hour.
pub open spec fn spec_minute(t: int) -> int {
    (spec_day_sec(t) % 3600) / 60
}

/// A clock time `H:MM`: the raised hour, a colon, the two-digit minute.
pub open spec fn spec_clock(t: int) -> Seq<char> {
    spec_u64_dec(spec_hour(t) as nat) + seq![':'] + spec_two_digits(spec_minute(t))
}

/// The slot heading: `#<start>` and, when a different end slot is present,
/// `-<end>`; nothing when the start slot is absent.
pub open spec fn spec_slot_block(a: Appointment) -> Seq<char> {
    match a.start_time_slot {
        Some(ss) => seq!['#'] + spec_i64_dec(ss as int) + match a.end_time_slot {
            Some(es) => if es != ss {
                seq!['-'] + spec_i64_dec(es as int)
            } else {
                Seq::empty()
            },
            None => Seq::empty(),
        },
        None => Seq::empty(),
    }
}

/// The time range: a space and the start clock time, then ` - ` and the end
/// clock time when an end is present, closed by a line break; nothing when
/// the start instant is absent.
pub open spec fn spec_time_block(a: Appointment) -> Seq<char> {
    match a.start {
        Some(st) => seq![' '] + spec_clock(st as int) + (match a.end {
            Some(en) => seq![' ', '-', ' '] + spec_clock(en as int),
            None => Seq::empty(),
        }) + seq!['\n'],
        None => Seq::empty(),
    }
}

/// One labelled line of joined values, closed by a line break; nothing when
/// the list is absent or empty.
pub open spec fn spec_list_line(label: Seq<char>, xs: Option<Vec<String>>) -> Seq<char> {
    match xs {
        Some(v) => if v@.len() > 0 {
            label + spec_join_comma(v@) + seq!['\n']
        } else {
            Seq::empty()
        },
        None => Seq::empty(),
    }
}

/// The remark line `! <remark>` with line breaks collapsed to spaces,
/// closed by a line break; nothing when the remark is absent or empty.
pub open spec fn spec_remark_block(a: Appointment) -> Seq<char> {
    match a.remark {
        Some(r) => if r@.len() > 0 {
            seq!['!', ' '] + spec_collapse_newlines(r@) + seq!['\n']
        } else {
            Seq::empty()
        },
        None => Seq::empty(),
    }
}

/// The whole text block for one appointment: slot heading, time range, the
/// four labelled lists, the remark — each only when present.
pub open spec fn spec_render(a: Appointment) -> Seq<char> {
    spec_slot_block(a) + spec_time_block(a) + spec_list_line("Subjects: "@, a.subjects)
        + spec_list_line("Teachers: "@, a.teachers) + spec_list_line("Locations: "@, a.locations)
        + spec_list_line("Groups: "@, a.groups) + spec_remark_block(a)
}

proof fn lemma_day_sec_negative(t: int, m: int)
    requires
        t < 0,
        m == (-(t + 1)) % 86400,
    ensures
        spec_day_sec(t) == 86399 - m,
{
    let k = -(t + 1);
    lemma_fundamental_div_mod(k, 86400);
    let q = k / 86400;
    lemma_fundamental_div_mod_converse(t, 86400, -q - 1, 86399 - m);
}

/// Renders an instant as the displayed clock time.
fn clock_time(t: i64) -> (s: String)
    ensures
        s@ == spec_clock(t as int),
{
    let day_sec: u64 = if t >= 0 {
        (t as u64) % 86400
    } else {
        let m: u64 = ((-(t + 1)) as u64) % 86400;
        proof {
            lemma_day_sec_negative(t as int, m as int);
        }
        86399 - m
    };
    let hour: u64 = day_sec / 3600 + 1;
    let minute: u64 = (day_sec % 3600) / 60;
    let mut s = u64_to_string(hour);
    push_char(&mut s, ':');
    let mm = two_digits(minute);
    let r = s.concat(mm.as_str());
    proof {
        assert(r@ =~= spec_clock(t as int));
    }
    r
}

/// Renders one labelled list line.
fn list_line(label: &str, xs: &Option<Vec<String>>) -> (s: String)
    ensures
        s@ == spec_list_line(label@, *xs),
{
    match xs {
        Some(v) => {
            if v.len() > 0 {
                let mut s = String::from_str(label);
                let joined = join_comma(v);
                s.append(joined.as_str());
                push_char(&mut s, '\n');
                proof {
                    assert(s@ =~= spec_list_line(label@, *xs));
                }
                s
            } else {
                String::new()
            }
        },
        None => String::new(),
    }
}

/// Turns one appointment into its multi-line text block, exactly the lines
/// for the fields that are present.
pub fn format_appointment(a: &Appointment) -> (s: String)
    ensures
        s@ == spec_render(*a),
{
    let mut out = String::new();

    match a.start_time_slot {
        Some(ss) => {
            push_char(&mut out, '#');
            let n = i64_to_string(ss);
            out.append(n.as_str());
            match a.end_time_slot {
                Some(es) => {
                    if es != ss {
                        push_char(&mut out, '-');
                        let n2 = i64_to_string(es);
                        out.append(n2.as_str());
                    }
                },
                None => {},
            }
        },
        None => {},
    }
    proof {
        assert(out@ =~= spec_slot_block(*a));
    }

    match a.start {
        Some(st) => {
            push_char(&mut out, ' ');
            let c = clock_time(st);
            out.append(c.as_str());
            match a.end {
                Some(en) => {
                    push_char(&mut out, ' ');
                    push_char(&mut out, '-');
                    push_char(&mut out, ' ');
                    let c2 = clock_time(en);
                    out.append(c2.as_str());
                },
                None => {},
            }
            push_char(&mut out, '\n');
        },
        None => {},
    }
    proof {
        assert(out@ =~= spec_slot_block(*a) + spec_time_block(*a));
    }

    let subjects = list_line("Subjects: ", &a.subjects);
    out.append(subjects.as_str());
    let teachers = list_line("Teachers: ", &a.teachers);
    out.append(teachers.as_str());
    let locations = list_line("Locations: ", &a.locations);
    out.append(locations.as_str());
    let groups = list_line("Groups: ", &a.groups);
    out.append(groups.as_str());

    match &a.remark {
        Some(r) => {
            if r.as_str().unicode_len() > 0 {
                push_char(&mut out, '!');
                push_char(&mut out, ' ');
                let collapsed = collapse_newlines(r.as_str());
                out.append(collapsed.as_str());
                push_char(&mut out, '\n');
            }
        },
        None => {},
    }
    proof {
        assert(out@ =~= spec_render(*a));
    }
    out
}

/// The whole per-appointment decision: nothing when the display flags
/// suppress the appointment, otherwise its text block and the color it is
/// printed in.
pub fn render_appointment(a: &Appointment, hide_cancelled: bool, show_invalid: bool) -> (r: Option<
    (String, Color),
>)
    ensures
        r is Some <==> spec_visible(*a, hide_cancelled, show_invalid),
        r is Some ==> r.unwrap().0@ == spec_render(*a),
        r is Some ==> r.unwrap().1 == spec_color(*a),
{
    if !is_visible(a, hide_cancelled, show_invalid) {
        return None;
    }
    let text = format_appointment(a);
    let color = classify_color(a);
    Some((text, color))
}

} // verus!
