use vstd::prelude::*;

use crate::choice::ColorChoice;
use crate::signals::{
    clicolor, clicolor_force, force_signal, no_color, suppress_signal, toggle_signal, value_view,
};

verus! {

/// The first opinion in order of priority: the force signal, then the
/// explicit preference, then the toggle signal, then the suppress signal.
pub open spec fn precedence(
    force: Option<ColorChoice>,
    cli: Option<ColorChoice>,
    toggle: Option<ColorChoice>,
    suppress: Option<ColorChoice>,
) -> Option<ColorChoice> {
    if force is Some {
        force
    } else if cli is Some {
        cli
    } else if toggle is Some {
        toggle
    } else {
        suppress
    }
}

/// The choice held by `o`, or `default` when there is none.
pub open spec fn or_default(o: Option<ColorChoice>, default: ColorChoice) -> ColorChoice {
    match o {
        Some(c) => c,
        None => default,
    }
}

/// What the variables `NO_COLOR`, `CLICOLOR` and `CLICOLOR_FORCE` with the
/// given values (`None` when unset) decide together with the preference `cli`.
pub open spec fn resolution(
    cli: Option<ColorChoice>,
    no_color: Option<Seq<char>>,
    clicolor: Option<Seq<char>>,
    clicolor_force: Option<Seq<char>>,
) -> Option<ColorChoice> {
    precedence(
        force_signal(clicolor_force),
        cli,
        toggle_signal(clicolor),
        suppress_signal(no_color),
    )
}

/// Resolve the output color choice from an explicit preference and the
/// values of the `NO_COLOR`, `CLICOLOR` and `CLICOLOR_FORCE` environment
/// variables (`None` for an unset one). `None` comes back when none of them
/// expresses an opinion, leaving the default to the caller.
pub fn resolve(
    cli: Option<ColorChoice>,
    no_color_value: Option<&str>,
    clicolor_value: Option<&str>,
    clicolor_force_value: Option<&str>,
) -> (r: Option<ColorChoice>)
    ensures
        r == resolution(
            cli,
            value_view(no_color_value),
            value_view(clicolor_value),
            value_view(clicolor_force_value),
        ),
{
    let force = clicolor_force(clicolor_force_value);
    if force.is_some() {
        return force;
    }
    if cli.is_some() {
        return cli;
    }
    let toggle = clicolor(clicolor_value);
    if toggle.is_some() {
        return toggle;
    }
    no_color(no_color_value)
}

/// Resolve as `resolve` does, falling back on `default` when nothing
/// expresses an opinion.
pub fn resolve_or(
    default: ColorChoice,
    cli: Option<ColorChoice>,
    no_color_value: Option<&str>,
    clicolor_value: Option<&str>,
    clicolor_force_value: Option<&str>,
) -> (r: ColorChoice)
    ensures
        r == or_default(
            resolution(
                cli,
                value_view(no_color_value),
                value_view(clicolor_value),
                value_view(clicolor_force_value),
            ),
            default,
        ),
{
    match resolve(cli, no_color_value, clicolor_value, clicolor_force_value) {
        Some(c) => c,
        None => default,
    }
}

/// The opinion of a force signal given as a flag: `Always` when it is on.
pub open spec fn force_choice(force: Option<bool>) -> Option<ColorChoice> {
    if force == Some(true) {
        Some(ColorChoice::Always)
    } else {
        None
    }
}

/// The opinion of a toggle signal given as a flag: `Auto` when it is on,
/// `Never` when it is off.
pub open spec fn toggle_choice(toggle: Option<bool>) -> Option<ColorChoice> {
    match toggle {
        Some(true) => Some(ColorChoice::Auto),
        Some(false) => Some(ColorChoice::Never),
        None => None,
    }
}

/// The opinion of a suppress signal given as a flag: `Never` when it is on.
pub open spec fn suppress_choice(suppress: Option<bool>) -> Option<ColorChoice> {
    if suppress == Some(true) {
        Some(ColorChoice::Never)
    } else {
        None
    }
}

/// What `resolve_all` returns for the given default, signal flags and
/// explicit preference.
pub open spec fn resolved(
    default: ColorChoice,
    suppress: Option<bool>,
    toggle: Option<bool>,
    force: Option<bool>,
    cli: Option<ColorChoice>,
) -> ColorChoice {
    or_default(
        precedence(force_choice(force), cli, toggle_choice(toggle), suppress_choice(suppress)),
        default,
    )
}

/// Resolve the output color choice from signals that the caller has already
/// computed, with the same order of priority as `resolve`: a force signal
/// that is on gives `Always`; else an explicit preference is returned as it
/// is; else a toggle signal gives `Auto` when on and `Never` when off; else a
/// suppress signal that is on gives `Never`; else `default` is returned.
pub fn resolve_all(
    default: ColorChoice,
    suppress: Option<bool>,
    toggle: Option<bool>,
    force: Option<bool>,
    cli: Option<ColorChoice>,
) -> (r: ColorChoice)
    ensures
        r == resolved(default, suppress, toggle, force, cli),
{
    if let Some(true) = force {
        return ColorChoice::Always;
    }
    if let Some(c) = cli {
        return c;
    }
    match toggle {
        Some(true) => ColorChoice::Auto,
        Some(false) => ColorChoice::Never,
        None => {
            if let Some(true) = suppress {
                ColorChoice::Never
            } else {
                default
            }
        },
    }
}

/// A force signal that is on gives `Always`, whatever the explicit
/// preference, the toggle and suppress signals, and the default.
pub proof fn lemma_force_wins(
    default: ColorChoice,
    cli: Option<ColorChoice>,
    no_color: Option<Seq<char>>,
    clicolor: Option<Seq<char>>,
    clicolor_force: Option<Seq<char>>,
    suppress: Option<bool>,
    toggle: Option<bool>,
)
    requires
        force_signal(clicolor_force) is Some,
    ensures
        resolution(cli, no_color, clicolor, clicolor_force) == Some(ColorChoice::Always),
        or_default(resolution(cli, no_color, clicolor, clicolor_force), default)
            == ColorChoice::Always,
        resolved(default, suppress, toggle, Some(true), cli) == ColorChoice::Always,
{
}

/// Without a force signal, an explicit preference is returned exactly,
/// whatever the toggle and suppress signals and the default.
pub proof fn lemma_preference_wins(
    default: ColorChoice,
    c: ColorChoice,
    no_color: Option<Seq<char>>,
    clicolor: Option<Seq<char>>,
    clicolor_force: Option<Seq<char>>,
    suppress: Option<bool>,
    toggle: Option<bool>,
    force: Option<bool>,
)
    requires
        force_signal(clicolor_force) is None,
        force != Some(true),
    ensures
        resolution(Some(c), no_color, clicolor, clicolor_force) == Some(c),
        or_default(resolution(Some(c), no_color, clicolor, clicolor_force), default) == c,
        resolved(default, suppress, toggle, force, Some(c)) == c,
{
}

/// Without a force signal and a preference, a toggle signal that is off
/// gives `Never` and one that is on gives `Auto`, whatever the suppress
/// signal and the default.
pub proof fn lemma_toggle_wins(
    default: ColorChoice,
    no_color: Option<Seq<char>>,
    clicolor: Option<Seq<char>>,
    clicolor_force: Option<Seq<char>>,
    suppress: Option<bool>,
    on: bool,
    force: Option<bool>,
)
    requires
        force_signal(clicolor_force) is None,
        force != Some(true),
    ensures
        toggle_signal(clicolor) == Some(ColorChoice::Never) ==> resolution(
            None,
            no_color,
            clicolor,
            clicolor_force,
        ) == Some(ColorChoice::Never),
        toggle_signal(clicolor) == Some(ColorChoice::Auto) ==> resolution(
            None,
            no_color,
            clicolor,
            clicolor_force,
        ) == Some(ColorChoice::Auto),
        toggle_signal(clicolor) is Some ==> or_default(
            resolution(None, no_color, clicolor, clicolor_force),
            default,
        ) == toggle_signal(clicolor)->0,
        resolved(default, suppress, Some(on), force, None) == if on {
            ColorChoice::Auto
        } else {
            ColorChoice::Never
        },
{
}

/// Without a force signal, a preference or a toggle signal, a suppress
/// signal that is on gives `Never`.
pub proof fn lemma_suppress_applies(
    default: ColorChoice,
    no_color: Option<Seq<char>>,
    clicolor: Option<Seq<char>>,
    clicolor_force: Option<Seq<char>>,
    force: Option<bool>,
)
    requires
        force_signal(clicolor_force) is None,
        toggle_signal(clicolor) is None,
        suppress_signal(no_color) is Some,
        force != Some(true),
    ensures
        resolution(None, no_color, clicolor, clicolor_force) == Some(ColorChoice::Never),
        or_default(resolution(None, no_color, clicolor, clicolor_force), default)
            == ColorChoice::Never,
        resolved(default, Some(true), None, force, None) == ColorChoice::Never,
{
}

/// With no signal and no preference at all, the default is returned, or
/// `None` where the caller is left to choose it.
pub proof fn lemma_default_applies(
    default: ColorChoice,
    no_color: Option<Seq<char>>,
    clicolor: Option<Seq<char>>,
    clicolor_force: Option<Seq<char>>,
    suppress: Option<bool>,
    force: Option<bool>,
)
    requires
        force_signal(clicolor_force) is None,
        toggle_signal(clicolor) is None,
        suppress_signal(no_color) is None,
        suppress != Some(true),
        force != Some(true),
    ensures
        resolution(None, no_color, clicolor, clicolor_force) is None,
        or_default(resolution(None, no_color, clicolor, clicolor_force), default) == default,
        resolved(default, suppress, None, force, None) == default,
{
}

} // verus!
