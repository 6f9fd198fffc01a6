use vstd::prelude::*;

use crate::outside::stream_is_terminal;

verus! {

/// Possible color choices for the output, ordered from `Never` to `Always`.
#[derive(Clone, Copy, Debug, PartialEq, Eq, Structural, PartialOrd, Ord)]
pub enum ColorChoice {
    /// The output will not be colorized.
    Never,
    /// The output will be colorized if the output device is a terminal.
    Auto,
    /// The output will be colorized.
    Always,
}

/// Whether output colored under `choice` uses colors on a stream whose
/// terminal status is `is_terminal`.
pub open spec fn colors_stream(choice: ColorChoice, is_terminal: bool) -> bool {
    match choice {
        ColorChoice::Never => false,
        ColorChoice::Auto => is_terminal,
        ColorChoice::Always => true,
    }
}

/// The variant of `clap::ColorChoice` that stands for `c`.
pub open spec fn to_clap(c: ColorChoice) -> clap::ColorChoice {
    match c {
        ColorChoice::Never => clap::ColorChoice::Never,
        ColorChoice::Auto => clap::ColorChoice::Auto,
        ColorChoice::Always => clap::ColorChoice::Always,
    }
}

/// The color choice that stands for the variant `c` of `clap::ColorChoice`.
pub open spec fn from_clap(c: clap::ColorChoice) -> ColorChoice {
    match c {
        clap::ColorChoice::Never => ColorChoice::Never,
        clap::ColorChoice::Auto => ColorChoice::Auto,
        clap::ColorChoice::Always => ColorChoice::Always,
    }
}

impl ColorChoice {
    /// Collapse the choice to an on/off decision for a stream that is, or is
    /// not, connected to a terminal.
    pub fn for_terminal(&self, is_terminal: bool) -> (r: bool)
        ensures
            r == colors_stream(*self, is_terminal),
            *self == ColorChoice::Never ==> !r,
            *self == ColorChoice::Always ==> r,
            *self == ColorChoice::Auto ==> r == is_terminal,
    {
        match self {
            ColorChoice::Never => false,
            ColorChoice::Auto => is_terminal,
            ColorChoice::Always => true,
        }
    }
}

} // verus!

verus! {

impl ColorChoice {
    /// Determine the color setting for one standard stream: `Never` and
    /// `Always` give `false` and `true`; `Auto` asks whether the stream is a
    /// terminal.
    pub fn for_stream(&self, stream: atty::Stream) -> (r: bool)
        ensures
            *self == ColorChoice::Never ==> !r,
            *self == ColorChoice::Always ==> r,
    {
        match self {
            ColorChoice::Never => false,
            ColorChoice::Always => true,
            ColorChoice::Auto => self.for_terminal(stream_is_terminal(stream)),
        }
    }
}

impl From<ColorChoice> for clap::ColorChoice {
    fn from(c: ColorChoice) -> (r: clap::ColorChoice)
        ensures
            r == to_clap(c),
    {
        match c {
            ColorChoice::Never => clap::ColorChoice::Never,
            ColorChoice::Auto => clap::ColorChoice::Auto,
            ColorChoice::Always => clap::ColorChoice::Always,
        }
    }
}

impl vstd::std_specs::convert::FromSpecImpl<ColorChoice> for clap::ColorChoice {
    open spec fn obeys_from_spec() -> bool {
        true
    }

    open spec fn from_spec(c: ColorChoice) -> clap::ColorChoice {
        to_clap(c)
    }
}

impl From<clap::ColorChoice> for ColorChoice {
    fn from(c: clap::ColorChoice) -> (r: ColorChoice)
        ensures
            r == from_clap(c),
    {
        match c {
            clap::ColorChoice::Never => ColorChoice::Never,
            clap::ColorChoice::Auto => ColorChoice::Auto,
            clap::ColorChoice::Always => ColorChoice::Always,
        }
    }
}

impl vstd::std_specs::convert::FromSpecImpl<clap::ColorChoice> for ColorChoice {
    open spec fn obeys_from_spec() -> bool {
        true
    }

    open spec fn from_spec(c: clap::ColorChoice) -> ColorChoice {
        from_clap(c)
    }
}

/// Converting to `clap::ColorChoice` and back gives the choice unchanged, and
/// so does the round trip the other way.
pub proof fn lemma_clap_round_trip(c: ColorChoice, k: clap::ColorChoice)
    ensures
        from_clap(to_clap(c)) == c,
        to_clap(from_clap(k)) == k,
{
}

} // verus!
