//! Which region of the interface owns directional input.

use vstd::prelude::*;

verus! {

/// The focus level: the tab bar, the widget list, or one widget that takes
/// directional input itself.
#[derive(Debug, Clone, Copy, PartialEq, Eq, Structural)]
pub enum Focus {
    TabBar,
    Widgets,
    WidgetSingle,
}

impl Focus {
    /// The depth of a level: `TabBar < Widgets < WidgetSingle`.
    pub open spec fn level(self) -> int {
        match self {
            Focus::TabBar => 0,
            Focus::Widgets => 1,
            Focus::WidgetSingle => 2,
        }
    }

    pub open spec fn bumped_up(self) -> Focus {
        match self {
            Focus::TabBar => Focus::TabBar,
            Focus::Widgets => Focus::TabBar,
            Focus::WidgetSingle => Focus::Widgets,
        }
    }

    pub open spec fn bumped_down(self) -> Focus {
        match self {
            Focus::TabBar => Focus::Widgets,
            Focus::Widgets => Focus::WidgetSingle,
            Focus::WidgetSingle => Focus::Widgets,
        }
    }

    /// Moves one level up, staying at `TabBar`.
    pub fn bump_up(&mut self)
        ensures
            *final(self) == old(self).bumped_up(),
    {
        *self = match *self {
            Focus::TabBar => Focus::TabBar,
            Focus::Widgets => Focus::TabBar,
            Focus::WidgetSingle => Focus::Widgets,
        }
    }

    /// Moves one level down; from `WidgetSingle` it goes back to `Widgets`.
    pub fn bump_down(&mut self)
        ensures
            *final(self) == old(self).bumped_down(),
    {
        *self = match *self {
            Focus::TabBar => Focus::Widgets,
            Focus::Widgets => Focus::WidgetSingle,
            Focus::WidgetSingle => Focus::Widgets,
        }
    }
}

/// Going down then up never ends deeper than where it started; going up from
/// `TabBar` stays at `TabBar`, however often; going down never passes
/// `WidgetSingle`.
pub proof fn lemma_bump_laws(f: Focus)
    ensures
        f.bumped_down().bumped_up().level() <= f.level(),
        Focus::TabBar.bumped_up() == Focus::TabBar,
        Focus::TabBar.bumped_up().bumped_up() == Focus::TabBar.bumped_up(),
        f.bumped_down().level() <= Focus::WidgetSingle.level(),
{
}

} // verus!
