use vstd::prelude::*;
use crate::color::Rgba8;

verus! {

/// The kind of response the single-degree-of-freedom oscillator shows.
#[derive(Debug, Clone, Copy, PartialEq, Eq, Structural)]
pub enum ResponseCase {
    UndampedFree,
    UnderdampedFree,
    CriticallyDamped,
    OverdampedFree,
    Resonance,
    ForcedVibration,
}

impl ResponseCase {
    /// The name shown for the case.
    pub open spec fn label_text(self) -> Seq<char> {
        match self {
            ResponseCase::UndampedFree => "Undamped Free"@,
            ResponseCase::UnderdampedFree => "Underdamped Free"@,
            ResponseCase::CriticallyDamped => "Critically Damped"@,
            ResponseCase::OverdampedFree => "Overdamped Free"@,
            ResponseCase::Resonance => "Resonance"@,
            ResponseCase::ForcedVibration => "Forced Vibration"@,
        }
    }

    /// The colour the case is shown in.
    pub open spec fn color_spec(self) -> Rgba8 {
        match self {
            ResponseCase::UndampedFree => Rgba8 { r: 80, g: 200, b: 80, a: 255 },
            ResponseCase::UnderdampedFree => Rgba8 { r: 80, g: 150, b: 220, a: 255 },
            ResponseCase::CriticallyDamped => Rgba8 { r: 210, g: 170, b: 40, a: 255 },
            ResponseCase::OverdampedFree => Rgba8 { r: 210, g: 110, b: 40, a: 255 },
            ResponseCase::Resonance => Rgba8 { r: 230, g: 40, b: 40, a: 255 },
            ResponseCase::ForcedVibration => Rgba8 { r: 200, g: 70, b: 40, a: 255 },
        }
    }

    /// The name shown for the case, such as `"Resonance"`.
    pub fn label(&self) -> (s: &'static str)
        ensures
            s@ == self.label_text(),
    {
        match self {
            ResponseCase::UndampedFree => "Undamped Free",
            ResponseCase::UnderdampedFree => "Underdamped Free",
            ResponseCase::CriticallyDamped => "Critically Damped",
            ResponseCase::OverdampedFree => "Overdamped Free",
            ResponseCase::Resonance => "Resonance",
            ResponseCase::ForcedVibration => "Forced Vibration",
        }
    }

    /// The colour the case is shown in.
    pub fn color(&self) -> (c: Rgba8)
        ensures
            c == self.color_spec(),
    {
        match self {
            ResponseCase::UndampedFree => Rgba8::opaque(80, 200, 80),
            ResponseCase::UnderdampedFree => Rgba8::opaque(80, 150, 220),
            ResponseCase::CriticallyDamped => Rgba8::opaque(210, 170, 40),
            ResponseCase::OverdampedFree => Rgba8::opaque(210, 110, 40),
            ResponseCase::Resonance => Rgba8::opaque(230, 40, 40),
            ResponseCase::ForcedVibration => Rgba8::opaque(200, 70, 40),
        }
    }
}

/// Different cases have different names, so a case is known again by its name.
pub proof fn lemma_case_labels_distinct(a: ResponseCase, b: ResponseCase)
    requires
        a != b,
    ensures
        a.label_text() != b.label_text(),
{
    reveal_strlit("Undamped Free");
    reveal_strlit("Underdamped Free");
    reveal_strlit("Critically Damped");
    reveal_strlit("Overdamped Free");
    reveal_strlit("Resonance");
    reveal_strlit("Forced Vibration");
    let x = a.label_text();
    let y = b.label_text();
    if x.len() == y.len() {
        if x[0] == y[0] {
            assert(x[2] != y[2]);
        } else {
            assert(x[0] != y[0]);
        }
    }
}

/// Different cases are shown in different colours.
pub proof fn lemma_case_colors_distinct(a: ResponseCase, b: ResponseCase)
    requires
        a != b,
    ensures
        a.color_spec() != b.color_spec(),
{
}

} // verus!
