use vstd::prelude::*;

use crate::choice::ColorChoice;

verus! {

/// The characters of a variable's value, or `None` when it is unset.
pub open spec fn value_view(value: Option<&str>) -> Option<Seq<char>> {
    match value {
        Some(s) => Some(s@),
        None => None,
    }
}

/// Whether a variable with this value expresses an opinion at all: it is set,
/// and not to the empty string.
pub open spec fn is_set(value: Option<Seq<char>>) -> bool {
    value is Some && value->0.len() > 0
}

/// Whether a variable is set to exactly `"0"`.
pub open spec fn is_zero(value: Option<Seq<char>>) -> bool {
    value == Some(seq!['0'])
}

/// What the `NO_COLOR` variable asks for: `Never` when it is set to anything
/// but the empty string.
pub open spec fn suppress_signal(value: Option<Seq<char>>) -> Option<ColorChoice> {
    if is_set(value) {
        Some(ColorChoice::Never)
    } else {
        None
    }
}

/// What the `CLICOLOR` variable asks for: `Never` for `"0"`, `Auto` for any
/// other non-empty value.
pub open spec fn toggle_signal(value: Option<Seq<char>>) -> Option<ColorChoice> {
    if !is_set(value) {
        None
    } else if is_zero(value) {
        Some(ColorChoice::Never)
    } else {
        Some(ColorChoice::Auto)
    }
}

/// What the `CLICOLOR_FORCE` variable asks for: `Always` for any non-empty
/// value but `"0"`.
pub open spec fn force_signal(value: Option<Seq<char>>) -> Option<ColorChoice> {
    if is_set(value) && !is_zero(value) {
        Some(ColorChoice::Always)
    } else {
        None
    }
}

/// Whether the variable is set to a non-empty value.
fn set_value(value: Option<&str>) -> (r: bool)
    ensures
        r == is_set(value_view(value)),
{
    match value {
        Some(s) => !s.is_empty(),
        None => false,
    }
}

/// Whether the variable is set to exactly `"0"`.
fn zero_value(value: Option<&str>) -> (r: bool)
    ensures
        r == is_zero(value_view(value)),
{
    match value {
        Some(s) => {
            if s.unicode_len() != 1 {
                false
            } else {
                let c = s.get_char(0);
                proof {
                    if c == '0' {
                        assert(s@ =~= seq!['0']);
                    }
                }
                c == '0'
            }
        },
        None => false,
    }
}

/// Interpret the value of the `NO_COLOR` variable (`None` when unset):
/// `Some(Never)` when it is set to a non-empty value, `None` otherwise.
pub fn no_color(value: Option<&str>) -> (r: Option<ColorChoice>)
    ensures
        r == suppress_signal(value_view(value)),
{
    if set_value(value) {
        Some(ColorChoice::Never)
    } else {
        None
    }
}

/// Interpret the value of the `CLICOLOR` variable (`None` when unset):
/// `Some(Never)` for `"0"`, `Some(Auto)` for any other non-empty value, and
/// `None` when unset or empty.
pub fn clicolor(value: Option<&str>) -> (r: Option<ColorChoice>)
    ensures
        r == toggle_signal(value_view(value)),
{
    if !set_value(value) {
        None
    } else if zero_value(value) {
        Some(ColorChoice::Never)
    } else {
        Some(ColorChoice::Auto)
    }
}

/// Interpret the value of the `CLICOLOR_FORCE` variable (`None` when unset):
/// `Some(Always)` for any non-empty value but `"0"`, `None` otherwise.
pub fn clicolor_force(value: Option<&str>) -> (r: Option<ColorChoice>)
    ensures
        r == force_signal(value_view(value)),
{
    if set_value(value) && !zero_value(value) {
        Some(ColorChoice::Always)
    } else {
        None
    }
}

/// A variable that is unset and one set to the empty string express no
/// opinion, whichever of the three variables it is.
pub proof fn lemma_unset_or_empty_is_silent(value: Option<Seq<char>>)
    requires
        value is None || value == Some(Seq::<char>::empty()),
    ensures
        suppress_signal(value) is None,
        toggle_signal(value) is None,
        force_signal(value) is None,
{
}

/// `CLICOLOR_FORCE` set to `"0"` expresses no opinion; set to any other
/// non-empty value it forces colors on.
pub proof fn lemma_force_values(s: Seq<char>)
    ensures
        s == seq!['0'] ==> force_signal(Some(s)) is None,
        s.len() > 0 && s != seq!['0'] ==> force_signal(Some(s)) == Some(ColorChoice::Always),
{
}

/// `CLICOLOR` set to `"0"` turns colors off; set to any other non-empty value
/// it turns them on when the output is a terminal.
pub proof fn lemma_toggle_values(s: Seq<char>)
    ensures
        s == seq!['0'] ==> toggle_signal(Some(s)) == Some(ColorChoice::Never),
        s.len() > 0 && s != seq!['0'] ==> toggle_signal(Some(s)) == Some(ColorChoice::Auto),
{
}

/// `NO_COLOR` set to any non-empty value suppresses colors.
pub proof fn lemma_suppress_values(s: Seq<char>)
    requires
        s.len() > 0,
    ensures
        suppress_signal(Some(s)) == Some(ColorChoice::Never),
{
}

} // verus!
