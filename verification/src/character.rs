use vstd::prelude::*;

verus! {

/// Skin tones offered on the character screen, lightest first.
#[derive(Clone, Copy, Debug, PartialEq, Eq, Structural)]
pub enum SkinTone {
    Light,
    MediumLight,
    Medium,
    MediumDark,
    Dark,
}

/// The name shown for a skin tone.
pub open spec fn tone_label(tone: SkinTone) -> Seq<char> {
    match tone {
        SkinTone::Light => "Light"@,
        SkinTone::MediumLight => "Medium Light"@,
        SkinTone::Medium => "Medium"@,
        SkinTone::MediumDark => "Medium Dark"@,
        SkinTone::Dark => "Dark"@,
    }
}

/// Different skin tones have different names, and no name is empty.
pub proof fn tone_labels_differ(a: SkinTone, b: SkinTone)
    ensures
        tone_label(a) == tone_label(b) <==> a == b,
        tone_label(a).len() > 0,
{
    reveal_strlit("Light");
    reveal_strlit("Medium Light");
    reveal_strlit("Medium");
    reveal_strlit("Medium Dark");
    reveal_strlit("Dark");
    if a != b && tone_label(a) == tone_label(b) {
        let l = tone_label(a);
        let m = tone_label(b);
        assert(l.len() != m.len() || l[0] != m[0] || l[7] != m[7]);
    }
}

impl SkinTone {
    /// Every skin tone, lightest first.
    pub fn all() -> (r: &'static [SkinTone])
        ensures
            r@ == seq![
                SkinTone::Light,
                SkinTone::MediumLight,
                SkinTone::Medium,
                SkinTone::MediumDark,
                SkinTone::Dark,
            ],
    {
        &[SkinTone::Light, SkinTone::MediumLight, SkinTone::Medium, SkinTone::MediumDark, SkinTone::Dark]
    }

    /// The name shown for this skin tone.
    pub fn label(&self) -> (r: &'static str)
        ensures
            r@ == tone_label(*self),
    {
        match self {
            SkinTone::Light => "Light",
            SkinTone::MediumLight => "Medium Light",
            SkinTone::Medium => "Medium",
            SkinTone::MediumDark => "Medium Dark",
            SkinTone::Dark => "Dark",
        }
    }
}

} // verus!
