use vstd::prelude::*;

verus! {

/// Number of tones a palette holds: every whole tone from 0 (black) to 100
/// (white).
pub const TONE_COUNT: usize = 101;

/// How a palette's hue follows from the seed color's hue, in degrees.
#[derive(Clone, Copy, Debug, PartialEq, Eq, Structural)]
pub enum HueRule {
    /// The seed's hue.
    Seed,
    /// The seed's hue turned by this many degrees.
    SeedPlus(u32),
    /// This hue, whatever the seed.
    Fixed(u32),
}

/// How a palette's chroma follows from the seed color's chroma.
#[derive(Clone, Copy, Debug, PartialEq, Eq, Structural)]
pub enum ChromaRule {
    /// This chroma, whatever the seed.
    Fixed(u32),
    /// The seed's chroma, raised to at least this value.
    SeedAtLeast(u32),
    /// The seed's chroma divided by this divisor.
    SeedDividedBy(u32),
    /// The seed's chroma divided by the first value, capped at the second.
    SeedDividedByAtMost(u32, u32),
}

/// The hue and chroma of a palette, relative to a seed color.
#[derive(Clone, Copy, Debug, PartialEq, Eq, Structural)]
pub struct PaletteRule {
    pub hue: HueRule,
    pub chroma: ChromaRule,
}

/// The six palettes of a core palette.
#[derive(Clone, Copy, Debug, PartialEq, Eq, Structural)]
pub enum PaletteKind {
    A1,
    A2,
    A3,
    N1,
    N2,
    Error,
}

/// The rule of each palette: vivid accents of fixed chroma by default, or,
/// for content, chromas that follow the seed's own.
pub open spec fn rule_of(content: bool, kind: PaletteKind) -> PaletteRule {
    let (hue, chroma) = if content {
        match kind {
            PaletteKind::A1 => (HueRule::Seed, ChromaRule::SeedDividedBy(1)),
            PaletteKind::A2 => (HueRule::Seed, ChromaRule::SeedDividedBy(3)),
            PaletteKind::A3 => (HueRule::SeedPlus(60), ChromaRule::SeedDividedBy(2)),
            PaletteKind::N1 => (HueRule::Seed, ChromaRule::SeedDividedByAtMost(12, 4)),
            PaletteKind::N2 => (HueRule::Seed, ChromaRule::SeedDividedByAtMost(6, 8)),
            PaletteKind::Error => (HueRule::Fixed(25), ChromaRule::Fixed(84)),
        }
    } else {
        match kind {
            PaletteKind::A1 => (HueRule::Seed, ChromaRule::SeedAtLeast(48)),
            PaletteKind::A2 => (HueRule::Seed, ChromaRule::Fixed(16)),
            PaletteKind::A3 => (HueRule::SeedPlus(60), ChromaRule::Fixed(24)),
            PaletteKind::N1 => (HueRule::Seed, ChromaRule::Fixed(4)),
            PaletteKind::N2 => (HueRule::Seed, ChromaRule::Fixed(8)),
            PaletteKind::Error => (HueRule::Fixed(25), ChromaRule::Fixed(84)),
        }
    };
    PaletteRule { hue, chroma }
}

/// The rule of one palette of a core palette.
pub fn rule(content: bool, kind: PaletteKind) -> (r: PaletteRule)
    ensures
        r == rule_of(content, kind),
{
    let (hue, chroma) = if content {
        match kind {
            PaletteKind::A1 => (HueRule::Seed, ChromaRule::SeedDividedBy(1)),
            PaletteKind::A2 => (HueRule::Seed, ChromaRule::SeedDividedBy(3)),
            PaletteKind::A3 => (HueRule::SeedPlus(60), ChromaRule::SeedDividedBy(2)),
            PaletteKind::N1 => (HueRule::Seed, ChromaRule::SeedDividedByAtMost(12, 4)),
            PaletteKind::N2 => (HueRule::Seed, ChromaRule::SeedDividedByAtMost(6, 8)),
            PaletteKind::Error => (HueRule::Fixed(25), ChromaRule::Fixed(84)),
        }
    } else {
        match kind {
            PaletteKind::A1 => (HueRule::Seed, ChromaRule::SeedAtLeast(48)),
            PaletteKind::A2 => (HueRule::Seed, ChromaRule::Fixed(16)),
            PaletteKind::A3 => (HueRule::SeedPlus(60), ChromaRule::Fixed(24)),
            PaletteKind::N1 => (HueRule::Seed, ChromaRule::Fixed(4)),
            PaletteKind::N2 => (HueRule::Seed, ChromaRule::Fixed(8)),
            PaletteKind::Error => (HueRule::Fixed(25), ChromaRule::Fixed(84)),
        }
    };
    PaletteRule { hue, chroma }
}

/// `p` holds at each tone `t` a color that `solve` returns for the seed, the
/// rule and `t`.
pub open spec fn solved_by<F: Fn(u32, PaletteRule, usize) -> u32>(
    p: TonalPalette,
    seed: u32,
    rule: PaletteRule,
    solve: F,
) -> bool {
    forall|t: int| 0 <= t < TONE_COUNT ==> solve.ensures((seed, rule, t as usize), #[trigger] p@[t])
}

/// The colors of one hue and chroma at every whole tone, indexed by tone.
pub struct TonalPalette {
    tones: Vec<u32>,
}

impl View for TonalPalette {
    type V = Seq<u32>;

    closed spec fn view(&self) -> Seq<u32> {
        self.tones@
    }
}

impl TonalPalette {
    #[verifier::type_invariant]
    spec fn well_formed(&self) -> bool {
        self.tones@.len() == TONE_COUNT
    }

    /// Builds a palette from the ARGB colors of its tones, the color of tone
    /// `t` at index `t`. There must be one color per whole tone, 0 to 100.
    pub fn from_tones(tones: Vec<u32>) -> (r: Option<TonalPalette>)
        ensures
            r is Some <==> tones@.len() == TONE_COUNT,
            r matches Some(p) ==> p@ == tones@,
    {
        if tones.len() == TONE_COUNT {
            Some(TonalPalette { tones })
        } else {
            None
        }
    }

    /// The palette of a rule applied to a seed color: `solve` gives the color
    /// of the rule's hue and chroma at each whole tone.
    pub fn solved<F: Fn(u32, PaletteRule, usize) -> u32>(seed: u32, rule: PaletteRule, solve: &F) -> (p: TonalPalette)
        requires
            forall|t: usize| t < TONE_COUNT ==> #[trigger] solve.requires((seed, rule, t)),
        ensures
            solved_by(p, seed, rule, *solve),
    {
        let mut tones: Vec<u32> = Vec::new();
        let mut t: usize = 0;
        while t < TONE_COUNT
            invariant
                t <= TONE_COUNT,
                tones@.len() == t,
                forall|t: usize| t < TONE_COUNT ==> #[trigger] solve.requires((seed, rule, t)),
                forall|i: int| 0 <= i < t ==> solve.ensures((seed, rule, i as usize), #[trigger] tones@[i]),
            decreases TONE_COUNT - t,
        {
            let argb = solve(seed, rule, t);
            tones.push(argb);
            t = t + 1;
        }
        TonalPalette { tones }
    }

    /// The ARGB color of this palette at the given whole tone.
    pub fn tone(&self, tone: usize) -> (argb: u32)
        requires
            tone < TONE_COUNT,
        ensures
            argb == self@[tone as int],
    {
        proof {
            use_type_invariant(self);
        }
        self.tones[tone]
    }

}

/// The six palettes a color scheme draws from: three accents, two neutrals
/// and an error palette.
pub struct CorePalette {
    pub a1: TonalPalette,
    pub a2: TonalPalette,
    pub a3: TonalPalette,
    pub n1: TonalPalette,
    pub n2: TonalPalette,
    pub error: TonalPalette,
}

impl CorePalette {
    /// The core palette of a seed color, with vivid accents whatever the
    /// seed's chroma.
    pub fn of<F: Fn(u32, PaletteRule, usize) -> u32>(argb: u32, solve: &F) -> (p: CorePalette)
        requires
            forall|r: PaletteRule, t: usize| t < TONE_COUNT ==> #[trigger] solve.requires((argb, r, t)),
        ensures
            p.follows(argb, false, *solve),
    {
        Self::new(argb, false, solve)
    }

    /// The core palette of a seed color whose chromas follow the seed's own.
    pub fn content_of<F: Fn(u32, PaletteRule, usize) -> u32>(argb: u32, solve: &F) -> (p: CorePalette)
        requires
            forall|r: PaletteRule, t: usize| t < TONE_COUNT ==> #[trigger] solve.requires((argb, r, t)),
        ensures
            p.follows(argb, true, *solve),
    {
        Self::new(argb, true, solve)
    }

    /// Each palette is the one its rule gives for the seed.
    pub open spec fn follows<F: Fn(u32, PaletteRule, usize) -> u32>(self, seed: u32, content: bool, solve: F) -> bool {
        &&& solved_by(self.a1, seed, rule_of(content, PaletteKind::A1), solve)
        &&& solved_by(self.a2, seed, rule_of(content, PaletteKind::A2), solve)
        &&& solved_by(self.a3, seed, rule_of(content, PaletteKind::A3), solve)
        &&& solved_by(self.n1, seed, rule_of(content, PaletteKind::N1), solve)
        &&& solved_by(self.n2, seed, rule_of(content, PaletteKind::N2), solve)
        &&& solved_by(self.error, seed, rule_of(content, PaletteKind::Error), solve)
    }

    fn new<F: Fn(u32, PaletteRule, usize) -> u32>(argb: u32, content: bool, solve: &F) -> (p: CorePalette)
        requires
            forall|r: PaletteRule, t: usize| t < TONE_COUNT ==> #[trigger] solve.requires((argb, r, t)),
        ensures
            p.follows(argb, content, *solve),
    {
        CorePalette {
            a1: TonalPalette::solved(argb, rule(content, PaletteKind::A1), solve),
            a2: TonalPalette::solved(argb, rule(content, PaletteKind::A2), solve),
            a3: TonalPalette::solved(argb, rule(content, PaletteKind::A3), solve),
            n1: TonalPalette::solved(argb, rule(content, PaletteKind::N1), solve),
            n2: TonalPalette::solved(argb, rule(content, PaletteKind::N2), solve),
            error: TonalPalette::solved(argb, rule(content, PaletteKind::Error), solve),
        }
    }
}

} // verus!
