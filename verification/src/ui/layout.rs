//! Where a tape panel is shown, and the placement it returns to.

use vstd::prelude::*;

verus! {

#[derive(Clone, Copy, Debug, PartialEq, Eq, Structural)]
pub enum PanelPlacement {
    Docked,
    Undocked,
    Hidden,
}

/// A panel's placement, remembering the last visible one while hidden.
#[derive(Clone, Copy, Debug, PartialEq, Eq, Structural)]
pub struct PanelPresentation {
    placement: PanelPlacement,
    last_visible: PanelPlacement,
}

impl PanelPresentation {
    pub closed spec fn spec_placement(self) -> PanelPlacement {
        self.placement
    }

    /// The placement `show` returns to.
    pub closed spec fn spec_last_visible(self) -> PanelPlacement {
        self.last_visible
    }

    /// The remembered placement is never `Hidden`, and a visible panel remembers
    /// where it is.
    pub closed spec fn wf(self) -> bool {
        &&& self.last_visible != PanelPlacement::Hidden
        &&& (self.placement != PanelPlacement::Hidden ==> self.placement == self.last_visible)
    }

    pub fn docked() -> (panel: Self)
        ensures
            panel.wf(),
            panel.spec_placement() == PanelPlacement::Docked,
            panel.spec_last_visible() == PanelPlacement::Docked,
    {
        PanelPresentation { placement: PanelPlacement::Docked, last_visible: PanelPlacement::Docked }
    }

    pub fn placement(self) -> (placement: PanelPlacement)
        ensures
            placement == self.spec_placement(),
    {
        self.placement
    }

    pub fn dock(&mut self)
        ensures
            final(self).spec_placement() == PanelPlacement::Docked,
            final(self).spec_last_visible() == PanelPlacement::Docked,
    {
        self.set_visible(PanelPlacement::Docked);
    }

    pub fn undock(&mut self)
        ensures
            final(self).spec_placement() == PanelPlacement::Undocked,
            final(self).spec_last_visible() == PanelPlacement::Undocked,
    {
        self.set_visible(PanelPlacement::Undocked);
    }

    /// Hide the panel, remembering where it was shown.
    pub fn hide_panel(&mut self)
        ensures
            *final(self) == after_hide(*old(self)),
            final(self).spec_placement() == PanelPlacement::Hidden,
            final(self).spec_last_visible() == if old(self).spec_placement() != PanelPlacement::Hidden {
                old(self).spec_placement()
            } else {
                old(self).spec_last_visible()
            },
    {
        if self.placement != PanelPlacement::Hidden {
            self.last_visible = self.placement;
        }
        self.placement = PanelPlacement::Hidden;
    }

    /// Show the panel where it was last visible.
    pub fn show(&mut self)
        ensures
            *final(self) == after_show(*old(self)),
            final(self).spec_placement() == old(self).spec_last_visible(),
            final(self).spec_last_visible() == old(self).spec_last_visible(),
    {
        self.placement = self.last_visible;
    }

    fn set_visible(&mut self, placement: PanelPlacement)
        ensures
            final(self).spec_placement() == placement,
            final(self).spec_last_visible() == placement,
    {
        self.placement = placement;
        self.last_visible = placement;
    }
}

impl Default for PanelPresentation {
    fn default() -> (panel: Self)
        ensures
            panel == PanelPresentation::docked_value(),
    {
        Self::docked()
    }
}

impl PanelPresentation {
    pub closed spec fn docked_value() -> PanelPresentation {
        PanelPresentation { placement: PanelPlacement::Docked, last_visible: PanelPlacement::Docked }
    }
}

/// The panel after `hide_panel`: hidden, remembering the placement it had if visible.
pub closed spec fn after_hide(panel: PanelPresentation) -> PanelPresentation {
    PanelPresentation {
        placement: PanelPlacement::Hidden,
        last_visible: if panel.placement != PanelPlacement::Hidden {
            panel.placement
        } else {
            panel.last_visible
        },
    }
}

/// The panel after `show`: back at the remembered placement.
pub closed spec fn after_show(panel: PanelPresentation) -> PanelPresentation {
    PanelPresentation { placement: panel.last_visible, ..panel }
}

/// What hiding and showing do to the placement and the remembered placement.
pub proof fn lemma_hide_show_effect(panel: PanelPresentation)
    ensures
        after_hide(panel).spec_placement() == PanelPlacement::Hidden,
        after_hide(panel).spec_last_visible() == if panel.spec_placement() != PanelPlacement::Hidden {
            panel.spec_placement()
        } else {
            panel.spec_last_visible()
        },
        after_show(panel).spec_placement() == panel.spec_last_visible(),
        after_show(panel).spec_last_visible() == panel.spec_last_visible(),
{
}

/// Hiding a panel and showing it again puts it back where it was visible, and
/// the remembered placement is never `Hidden`.
pub proof fn lemma_hide_then_show_restores(panel: PanelPresentation)
    requires
        panel.wf(),
    ensures
        after_hide(panel).wf(),
        after_show(panel).wf(),
        panel.spec_placement() != PanelPlacement::Hidden ==> after_show(after_hide(panel))
            == panel,
        panel.spec_placement() == PanelPlacement::Hidden ==> after_show(after_hide(panel)).spec_placement()
            == panel.spec_last_visible(),
{
}

} // verus!
