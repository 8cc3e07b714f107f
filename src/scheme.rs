use vstd::prelude::*;

use crate::palette::{rule_of, CorePalette, PaletteKind, PaletteRule, TONE_COUNT};

verus! {

/// The ARGB color of each role of a color scheme.
#[derive(Clone, Copy, Debug, PartialEq, Eq, Structural)]
pub struct Scheme {
    pub primary: u32,
    pub on_primary: u32,
    pub primary_container: u32,
    pub on_primary_container: u32,
    pub secondary: u32,
    pub on_secondary: u32,
    pub secondary_container: u32,
    pub on_secondary_container: u32,
    pub tertiary: u32,
    pub on_tertiary: u32,
    pub tertiary_container: u32,
    pub on_tertiary_container: u32,
    pub error: u32,
    pub on_error: u32,
    pub error_container: u32,
    pub on_error_container: u32,
    pub background: u32,
    pub on_background: u32,
    pub surface: u32,
    pub on_surface: u32,
    pub surface_variant: u32,
    pub on_surface_variant: u32,
    pub outline: u32,
    pub shadow: u32,
    pub inverse_surface: u32,
    pub inverse_on_surface: u32,
    pub inverse_primary: u32,
}

/// The light layout: strong accents at tone 40 on near-white backgrounds.
pub open spec fn light_layout(core: CorePalette) -> Scheme {
    Scheme {
        primary: core.a1@[40],
        on_primary: core.a1@[100],
        primary_container: core.a1@[90],
        on_primary_container: core.a1@[10],
        secondary: core.a2@[40],
        on_secondary: core.a2@[100],
        secondary_container: core.a2@[90],
        on_secondary_container: core.a2@[10],
        tertiary: core.a3@[40],
        on_tertiary: core.a3@[100],
        tertiary_container: core.a3@[90],
        on_tertiary_container: core.a3@[10],
        error: core.error@[40],
        on_error: core.error@[100],
        error_container: core.error@[90],
        on_error_container: core.error@[10],
        background: core.n1@[99],
        on_background: core.n1@[10],
        surface: core.n1@[99],
        on_surface: core.n1@[10],
        surface_variant: core.n2@[90],
        on_surface_variant: core.n2@[30],
        outline: core.n2@[50],
        shadow: core.n1@[0],
        inverse_surface: core.n1@[20],
        inverse_on_surface: core.n1@[95],
        inverse_primary: core.a1@[80],
    }
}

/// The dark layout: light accents at tone 80 on near-black backgrounds.
pub open spec fn dark_layout(core: CorePalette) -> Scheme {
    Scheme {
        primary: core.a1@[80],
        on_primary: core.a1@[20],
        primary_container: core.a1@[30],
        on_primary_container: core.a1@[90],
        secondary: core.a2@[80],
        on_secondary: core.a2@[20],
        secondary_container: core.a2@[30],
        on_secondary_container: core.a2@[90],
        tertiary: core.a3@[80],
        on_tertiary: core.a3@[20],
        tertiary_container: core.a3@[30],
        on_tertiary_container: core.a3@[90],
        error: core.error@[80],
        on_error: core.error@[20],
        error_container: core.error@[30],
        on_error_container: core.error@[80],
        background: core.n1@[10],
        on_background: core.n1@[90],
        surface: core.n1@[10],
        on_surface: core.n1@[90],
        surface_variant: core.n2@[30],
        on_surface_variant: core.n2@[80],
        outline: core.n2@[60],
        shadow: core.n1@[0],
        inverse_surface: core.n1@[90],
        inverse_on_surface: core.n1@[20],
        inverse_primary: core.a1@[40],
    }
}

impl Scheme {
    /// The light scheme of a seed color, with vivid accents. `solve` gives the color of a palette rule at a
    /// whole tone; the scheme is the light layout of one core palette solved
    /// that way, so roles of the same palette and tone are equal.
    pub fn light<F: Fn(u32, PaletteRule, usize) -> u32>(argb: u32, solve: &F) -> (s: Scheme)
        requires
            forall|r: PaletteRule, t: usize| t < TONE_COUNT ==> #[trigger] solve.requires((argb, r, t)),
        ensures
            exists|p: CorePalette| #[trigger] p.follows(argb, false, *solve) && s == light_layout(p),
            s.background == s.surface,
            s.on_background == s.on_surface,
            solve.ensures((argb, rule_of(false, PaletteKind::A1), 40usize), s.primary),
            solve.ensures((argb, rule_of(false, PaletteKind::A1), 100usize), s.on_primary),
            solve.ensures((argb, rule_of(false, PaletteKind::A1), 90usize), s.primary_container),
            solve.ensures((argb, rule_of(false, PaletteKind::A1), 10usize), s.on_primary_container),
            solve.ensures((argb, rule_of(false, PaletteKind::A2), 40usize), s.secondary),
            solve.ensures((argb, rule_of(false, PaletteKind::A2), 100usize), s.on_secondary),
            solve.ensures((argb, rule_of(false, PaletteKind::A2), 90usize), s.secondary_container),
            solve.ensures((argb, rule_of(false, PaletteKind::A2), 10usize), s.on_secondary_container),
            solve.ensures((argb, rule_of(false, PaletteKind::A3), 40usize), s.tertiary),
            solve.ensures((argb, rule_of(false, PaletteKind::A3), 100usize), s.on_tertiary),
            solve.ensures((argb, rule_of(false, PaletteKind::A3), 90usize), s.tertiary_container),
            solve.ensures((argb, rule_of(false, PaletteKind::A3), 10usize), s.on_tertiary_container),
            solve.ensures((argb, rule_of(false, PaletteKind::Error), 40usize), s.error),
            solve.ensures((argb, rule_of(false, PaletteKind::Error), 100usize), s.on_error),
            solve.ensures((argb, rule_of(false, PaletteKind::Error), 90usize), s.error_container),
            solve.ensures((argb, rule_of(false, PaletteKind::Error), 10usize), s.on_error_container),
            solve.ensures((argb, rule_of(false, PaletteKind::N1), 99usize), s.background),
            solve.ensures((argb, rule_of(false, PaletteKind::N1), 10usize), s.on_background),
            solve.ensures((argb, rule_of(false, PaletteKind::N1), 99usize), s.surface),
            solve.ensures((argb, rule_of(false, PaletteKind::N1), 10usize), s.on_surface),
            solve.ensures((argb, rule_of(false, PaletteKind::N2), 90usize), s.surface_variant),
            solve.ensures((argb, rule_of(false, PaletteKind::N2), 30usize), s.on_surface_variant),
            solve.ensures((argb, rule_of(false, PaletteKind::N2), 50usize), s.outline),
            solve.ensures((argb, rule_of(false, PaletteKind::N1), 0usize), s.shadow),
            solve.ensures((argb, rule_of(false, PaletteKind::N1), 20usize), s.inverse_surface),
            solve.ensures((argb, rule_of(false, PaletteKind::N1), 95usize), s.inverse_on_surface),
            solve.ensures((argb, rule_of(false, PaletteKind::A1), 80usize), s.inverse_primary),
    {
        let core = CorePalette::of(argb, solve);
        let s = Self::light_from_core_palette(&core);
        assert(core.follows(argb, false, *solve) && s == light_layout(core));
        s
    }

    /// The light scheme of a seed color, with chromas that follow the seed's. `solve` gives the color of a palette rule at a
    /// whole tone; the scheme is the light layout of one core palette solved
    /// that way, so roles of the same palette and tone are equal.
    pub fn light_content<F: Fn(u32, PaletteRule, usize) -> u32>(argb: u32, solve: &F) -> (s: Scheme)
        requires
            forall|r: PaletteRule, t: usize| t < TONE_COUNT ==> #[trigger] solve.requires((argb, r, t)),
        ensures
            exists|p: CorePalette| #[trigger] p.follows(argb, true, *solve) && s == light_layout(p),
            s.background == s.surface,
            s.on_background == s.on_surface,
            solve.ensures((argb, rule_of(true, PaletteKind::A1), 40usize), s.primary),
            solve.ensures((argb, rule_of(true, PaletteKind::A1), 100usize), s.on_primary),
            solve.ensures((argb, rule_of(true, PaletteKind::A1), 90usize), s.primary_container),
            solve.ensures((argb, rule_of(true, PaletteKind::A1), 10usize), s.on_primary_container),
            solve.ensures((argb, rule_of(true, PaletteKind::A2), 40usize), s.secondary),
            solve.ensures((argb, rule_of(true, PaletteKind::A2), 100usize), s.on_secondary),
            solve.ensures((argb, rule_of(true, PaletteKind::A2), 90usize), s.secondary_container),
            solve.ensures((argb, rule_of(true, PaletteKind::A2), 10usize), s.on_secondary_container),
            solve.ensures((argb, rule_of(true, PaletteKind::A3), 40usize), s.tertiary),
            solve.ensures((argb, rule_of(true, PaletteKind::A3), 100usize), s.on_tertiary),
            solve.ensures((argb, rule_of(true, PaletteKind::A3), 90usize), s.tertiary_container),
            solve.ensures((argb, rule_of(true, PaletteKind::A3), 10usize), s.on_tertiary_container),
            solve.ensures((argb, rule_of(true, PaletteKind::Error), 40usize), s.error),
            solve.ensures((argb, rule_of(true, PaletteKind::Error), 100usize), s.on_error),
            solve.ensures((argb, rule_of(true, PaletteKind::Error), 90usize), s.error_container),
            solve.ensures((argb, rule_of(true, PaletteKind::Error), 10usize), s.on_error_container),
            solve.ensures((argb, rule_of(true, PaletteKind::N1), 99usize), s.background),
            solve.ensures((argb, rule_of(true, PaletteKind::N1), 10usize), s.on_background),
            solve.ensures((argb, rule_of(true, PaletteKind::N1), 99usize), s.surface),
            solve.ensures((argb, rule_of(true, PaletteKind::N1), 10usize), s.on_surface),
            solve.ensures((argb, rule_of(true, PaletteKind::N2), 90usize), s.surface_variant),
            solve.ensures((argb, rule_of(true, PaletteKind::N2), 30usize), s.on_surface_variant),
            solve.ensures((argb, rule_of(true, PaletteKind::N2), 50usize), s.outline),
            solve.ensures((argb, rule_of(true, PaletteKind::N1), 0usize), s.shadow),
            solve.ensures((argb, rule_of(true, PaletteKind::N1), 20usize), s.inverse_surface),
            solve.ensures((argb, rule_of(true, PaletteKind::N1), 95usize), s.inverse_on_surface),
            solve.ensures((argb, rule_of(true, PaletteKind::A1), 80usize), s.inverse_primary),
    {
        let core = CorePalette::content_of(argb, solve);
        let s = Self::light_from_core_palette(&core);
        assert(core.follows(argb, true, *solve) && s == light_layout(core));
        s
    }

    /// The dark scheme of a seed color, with vivid accents. `solve` gives the color of a palette rule at a
    /// whole tone; the scheme is the dark layout of one core palette solved
    /// that way, so roles of the same palette and tone are equal.
    pub fn dark<F: Fn(u32, PaletteRule, usize) -> u32>(argb: u32, solve: &F) -> (s: Scheme)
        requires
            forall|r: PaletteRule, t: usize| t < TONE_COUNT ==> #[trigger] solve.requires((argb, r, t)),
        ensures
            exists|p: CorePalette| #[trigger] p.follows(argb, false, *solve) && s == dark_layout(p),
            s.error == s.on_error_container,
            s.background == s.surface,
            s.on_background == s.on_surface,
            s.on_background == s.inverse_surface,
            s.on_surface == s.inverse_surface,
            solve.ensures((argb, rule_of(false, PaletteKind::A1), 80usize), s.primary),
            solve.ensures((argb, rule_of(false, PaletteKind::A1), 20usize), s.on_primary),
            solve.ensures((argb, rule_of(false, PaletteKind::A1), 30usize), s.primary_container),
            solve.ensures((argb, rule_of(false, PaletteKind::A1), 90usize), s.on_primary_container),
            solve.ensures((argb, rule_of(false, PaletteKind::A2), 80usize), s.secondary),
            solve.ensures((argb, rule_of(false, PaletteKind::A2), 20usize), s.on_secondary),
            solve.ensures((argb, rule_of(false, PaletteKind::A2), 30usize), s.secondary_container),
            solve.ensures((argb, rule_of(false, PaletteKind::A2), 90usize), s.on_secondary_container),
            solve.ensures((argb, rule_of(false, PaletteKind::A3), 80usize), s.tertiary),
            solve.ensures((argb, rule_of(false, PaletteKind::A3), 20usize), s.on_tertiary),
            solve.ensures((argb, rule_of(false, PaletteKind::A3), 30usize), s.tertiary_container),
            solve.ensures((argb, rule_of(false, PaletteKind::A3), 90usize), s.on_tertiary_container),
            solve.ensures((argb, rule_of(false, PaletteKind::Error), 80usize), s.error),
            solve.ensures((argb, rule_of(false, PaletteKind::Error), 20usize), s.on_error),
            solve.ensures((argb, rule_of(false, PaletteKind::Error), 30usize), s.error_container),
            solve.ensures((argb, rule_of(false, PaletteKind::Error), 80usize), s.on_error_container),
            solve.ensures((argb, rule_of(false, PaletteKind::N1), 10usize), s.background),
            solve.ensures((argb, rule_of(false, PaletteKind::N1), 90usize), s.on_background),
            solve.ensures((argb, rule_of(false, PaletteKind::N1), 10usize), s.surface),
            solve.ensures((argb, rule_of(false, PaletteKind::N1), 90usize), s.on_surface),
            solve.ensures((argb, rule_of(false, PaletteKind::N2), 30usize), s.surface_variant),
            solve.ensures((argb, rule_of(false, PaletteKind::N2), 80usize), s.on_surface_variant),
            solve.ensures((argb, rule_of(false, PaletteKind::N2), 60usize), s.outline),
            solve.ensures((argb, rule_of(false, PaletteKind::N1), 0usize), s.shadow),
            solve.ensures((argb, rule_of(false, PaletteKind::N1), 90usize), s.inverse_surface),
            solve.ensures((argb, rule_of(false, PaletteKind::N1), 20usize), s.inverse_on_surface),
            solve.ensures((argb, rule_of(false, PaletteKind::A1), 40usize), s.inverse_primary),
    {
        let core = CorePalette::of(argb, solve);
        let s = Self::dark_from_core_palette(&core);
        assert(core.follows(argb, false, *solve) && s == dark_layout(core));
        s
    }

    /// The dark scheme of a seed color, with chromas that follow the seed's. `solve` gives the color of a palette rule at a
    /// whole tone; the scheme is the dark layout of one core palette solved
    /// that way, so roles of the same palette and tone are equal.
    pub fn dark_content<F: Fn(u32, PaletteRule, usize) -> u32>(argb: u32, solve: &F) -> (s: Scheme)
        requires
            forall|r: PaletteRule, t: usize| t < TONE_COUNT ==> #[trigger] solve.requires((argb, r, t)),
        ensures
            exists|p: CorePalette| #[trigger] p.follows(argb, true, *solve) && s == dark_layout(p),
            s.error == s.on_error_container,
            s.background == s.surface,
            s.on_background == s.on_surface,
            s.on_background == s.inverse_surface,
            s.on_surface == s.inverse_surface,
            solve.ensures((argb, rule_of(true, PaletteKind::A1), 80usize), s.primary),
            solve.ensures((argb, rule_of(true, PaletteKind::A1), 20usize), s.on_primary),
            solve.ensures((argb, rule_of(true, PaletteKind::A1), 30usize), s.primary_container),
            solve.ensures((argb, rule_of(true, PaletteKind::A1), 90usize), s.on_primary_container),
            solve.ensures((argb, rule_of(true, PaletteKind::A2), 80usize), s.secondary),
            solve.ensures((argb, rule_of(true, PaletteKind::A2), 20usize), s.on_secondary),
            solve.ensures((argb, rule_of(true, PaletteKind::A2), 30usize), s.secondary_container),
            solve.ensures((argb, rule_of(true, PaletteKind::A2), 90usize), s.on_secondary_container),
            solve.ensures((argb, rule_of(true, PaletteKind::A3), 80usize), s.tertiary),
            solve.ensures((argb, rule_of(true, PaletteKind::A3), 20usize), s.on_tertiary),
            solve.ensures((argb, rule_of(true, PaletteKind::A3), 30usize), s.tertiary_container),
            solve.ensures((argb, rule_of(true, PaletteKind::A3), 90usize), s.on_tertiary_container),
            solve.ensures((argb, rule_of(true, PaletteKind::Error), 80usize), s.error),
            solve.ensures((argb, rule_of(true, PaletteKind::Error), 20usize), s.on_error),
            solve.ensures((argb, rule_of(true, PaletteKind::Error), 30usize), s.error_container),
            solve.ensures((argb, rule_of(true, PaletteKind::Error), 80usize), s.on_error_container),
            solve.ensures((argb, rule_of(true, PaletteKind::N1), 10usize), s.background),
            solve.ensures((argb, rule_of(true, PaletteKind::N1), 90usize), s.on_background),
            solve.ensures((argb, rule_of(true, PaletteKind::N1), 10usize), s.surface),
            solve.ensures((argb, rule_of(true, PaletteKind::N1), 90usize), s.on_surface),
            solve.ensures((argb, rule_of(true, PaletteKind::N2), 30usize), s.surface_variant),
            solve.ensures((argb, rule_of(true, PaletteKind::N2), 80usize), s.on_surface_variant),
            solve.ensures((argb, rule_of(true, PaletteKind::N2), 60usize), s.outline),
            solve.ensures((argb, rule_of(true, PaletteKind::N1), 0usize), s.shadow),
            solve.ensures((argb, rule_of(true, PaletteKind::N1), 90usize), s.inverse_surface),
            solve.ensures((argb, rule_of(true, PaletteKind::N1), 20usize), s.inverse_on_surface),
            solve.ensures((argb, rule_of(true, PaletteKind::A1), 40usize), s.inverse_primary),
    {
        let core = CorePalette::content_of(argb, solve);
        let s = Self::dark_from_core_palette(&core);
        assert(core.follows(argb, true, *solve) && s == dark_layout(core));
        s
    }

    /// Lays out a light scheme from the tones of a core palette.
    pub fn light_from_core_palette(core: &CorePalette) -> (s: Scheme)
        ensures
            s == light_layout(*core),
            s.background == s.surface,
            s.on_background == s.on_surface,
    {
        Scheme {
            primary: core.a1.tone(40),
            on_primary: core.a1.tone(100),
            primary_container: core.a1.tone(90),
            on_primary_container: core.a1.tone(10),
            secondary: core.a2.tone(40),
            on_secondary: core.a2.tone(100),
            secondary_container: core.a2.tone(90),
            on_secondary_container: core.a2.tone(10),
            tertiary: core.a3.tone(40),
            on_tertiary: core.a3.tone(100),
            tertiary_container: core.a3.tone(90),
            on_tertiary_container: core.a3.tone(10),
            error: core.error.tone(40),
            on_error: core.error.tone(100),
            error_container: core.error.tone(90),
            on_error_container: core.error.tone(10),
            background: core.n1.tone(99),
            on_background: core.n1.tone(10),
            surface: core.n1.tone(99),
            on_surface: core.n1.tone(10),
            surface_variant: core.n2.tone(90),
            on_surface_variant: core.n2.tone(30),
            outline: core.n2.tone(50),
            shadow: core.n1.tone(0),
            inverse_surface: core.n1.tone(20),
            inverse_on_surface: core.n1.tone(95),
            inverse_primary: core.a1.tone(80),
        }
    }

    /// Lays out a dark scheme from the tones of a core palette.
    pub fn dark_from_core_palette(core: &CorePalette) -> (s: Scheme)
        ensures
            s == dark_layout(*core),
            s.error == s.on_error_container,
            s.background == s.surface,
            s.on_background == s.on_surface,
            s.on_background == s.inverse_surface,
            s.on_surface == s.inverse_surface,
    {
        Scheme {
            primary: core.a1.tone(80),
            on_primary: core.a1.tone(20),
            primary_container: core.a1.tone(30),
            on_primary_container: core.a1.tone(90),
            secondary: core.a2.tone(80),
            on_secondary: core.a2.tone(20),
            secondary_container: core.a2.tone(30),
            on_secondary_container: core.a2.tone(90),
            tertiary: core.a3.tone(80),
            on_tertiary: core.a3.tone(20),
            tertiary_container: core.a3.tone(30),
            on_tertiary_container: core.a3.tone(90),
            error: core.error.tone(80),
            on_error: core.error.tone(20),
            error_container: core.error.tone(30),
            on_error_container: core.error.tone(80),
            background: core.n1.tone(10),
            on_background: core.n1.tone(90),
            surface: core.n1.tone(10),
            on_surface: core.n1.tone(90),
            surface_variant: core.n2.tone(30),
            on_surface_variant: core.n2.tone(80),
            outline: core.n2.tone(60),
            shadow: core.n1.tone(0),
            inverse_surface: core.n1.tone(90),
            inverse_on_surface: core.n1.tone(20),
            inverse_primary: core.a1.tone(40),
        }
    }
}

} // verus!
