//! Focus and theme: the two small cyclic state machines of the editor.

use vstd::prelude::*;

verus! {

/// The pane that receives keyboard input.
#[derive(Debug, Clone, Copy, PartialEq, Eq, Structural)]
pub enum Focused {
    Editor,
    SideBar,
}

impl Focused {
    /// The other pane.
    pub open spec fn spec_toggled(self) -> Focused {
        match self {
            Focused::Editor => Focused::SideBar,
            Focused::SideBar => Focused::Editor,
        }
    }

    /// Swaps the focus between the editor and the sidebar.
    #[verifier::when_used_as_spec(spec_toggled)]
    pub fn toggled(self) -> (other: Focused)
        ensures
            other == self.spec_toggled(),
            other != self,
    {
        match self {
            Focused::Editor => Focused::SideBar,
            Focused::SideBar => Focused::Editor,
        }
    }

    /// Toggling the focus twice gives back the pane it started from.
    pub proof fn lemma_toggle_is_involution(self)
        ensures
            self.toggled().toggled() == self,
    {
    }
}

impl Default for Focused {
    /// Input starts in the editor.
    fn default() -> (focus: Self)
        ensures
            focus == Focused::Editor,
    {
        Focused::Editor
    }
}

/// The colour a palette lends to the border of the focused pane.
#[derive(Debug, Clone, Copy, PartialEq, Eq, Structural)]
pub enum AccentColor {
    LightYellow,
    LightBlue,
    LightCyan,
    Cyan,
    LightMagenta,
    LightRed,
}

/// The palette the focused pane's border is drawn in.
#[derive(Debug, Clone, Copy, PartialEq, Eq, Structural)]
pub enum Theme {
    Calm,
    Vibe,
    Modern,
    Professional,
    Creative,
    Warm,
}

impl Theme {
    /// The place of a palette in the cycle, counted from zero.
    pub open spec fn position(self) -> int {
        match self {
            Theme::Calm => 0,
            Theme::Vibe => 1,
            Theme::Modern => 2,
            Theme::Professional => 3,
            Theme::Creative => 4,
            Theme::Warm => 5,
        }
    }

    /// The palette at a place of the cycle; places are taken modulo the
    /// number of palettes.
    pub open spec fn at(place: int) -> Theme {
        let p = place % 6;
        if p == 0 {
            Theme::Calm
        } else if p == 1 {
            Theme::Vibe
        } else if p == 2 {
            Theme::Modern
        } else if p == 3 {
            Theme::Professional
        } else if p == 4 {
            Theme::Creative
        } else {
            Theme::Warm
        }
    }

    /// The palette one place further on, the first following the last.
    pub open spec fn spec_next_option(&self) -> Theme {
        Theme::at(self.position() + 1)
    }

    /// The palette reached by advancing `steps` times.
    pub open spec fn advanced(self, steps: nat) -> Theme
        decreases steps,
    {
        if steps == 0 {
            self
        } else {
            self.advanced((steps - 1) as nat).spec_next_option()
        }
    }

    /// The accent of each palette.
    pub open spec fn spec_accent_color(&self) -> AccentColor {
        match self {
            Theme::Calm => AccentColor::LightYellow,
            Theme::Vibe => AccentColor::LightBlue,
            Theme::Modern => AccentColor::LightCyan,
            Theme::Professional => AccentColor::Cyan,
            Theme::Creative => AccentColor::LightMagenta,
            Theme::Warm => AccentColor::LightRed,
        }
    }

    /// The colour this palette highlights the focused pane with.
    #[verifier::when_used_as_spec(spec_accent_color)]
    pub fn accent_color(&self) -> (accent: AccentColor)
        ensures
            accent == self.spec_accent_color(),
    {
        match self {
            Theme::Calm => AccentColor::LightYellow,
            Theme::Vibe => AccentColor::LightBlue,
            Theme::Modern => AccentColor::LightCyan,
            Theme::Professional => AccentColor::Cyan,
            Theme::Creative => AccentColor::LightMagenta,
            Theme::Warm => AccentColor::LightRed,
        }
    }

    /// The palette that follows this one; the last is followed by the first.
    #[verifier::when_used_as_spec(spec_next_option)]
    pub fn next_option(&self) -> (next: Self)
        ensures
            next == self.spec_next_option(),
            next != *self,
    {
        match self {
            Theme::Calm => Theme::Vibe,
            Theme::Vibe => Theme::Modern,
            Theme::Modern => Theme::Professional,
            Theme::Professional => Theme::Creative,
            Theme::Creative => Theme::Warm,
            Theme::Warm => Theme::Calm,
        }
    }

    /// Every palette sits at its own place of the cycle.
    pub proof fn lemma_position_identifies(self)
        ensures
            0 <= self.position() < 6,
            Theme::at(self.position()) == self,
    {
    }

    /// Advancing `steps` times moves a palette `steps` places round the cycle.
    pub proof fn lemma_advanced_position(self, steps: nat)
        ensures
            self.advanced(steps).position() == (self.position() + steps) % 6,
        decreases steps,
    {
        if steps > 0 {
            self.lemma_advanced_position((steps - 1) as nat);
        }
    }

    /// Advancing once for every palette leads back to the palette one started
    /// from, and no smaller positive number of steps does.
    pub proof fn lemma_full_cycle(self, steps: nat)
        ensures
            self.advanced(6) == self,
            0 < steps < 6 ==> self.advanced(steps) != self,
    {
        self.lemma_advanced_position(6);
        self.lemma_advanced_position(steps);
        self.advanced(6).lemma_position_identifies();
        self.lemma_position_identifies();
    }
}

impl Default for Theme {
    /// The palette a new editor starts with.
    fn default() -> (theme: Self)
        ensures
            theme == Theme::Professional,
    {
        Theme::Professional
    }
}

} // verus!
