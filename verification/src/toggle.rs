//! The pair of switches that chooses where reference values come from: the
//! values typed in by the user, or the values saved in the meter's EEPROM.
//! Exactly one of the two sources is active at any time.
use vstd::prelude::*;

verus! {

/// Widget indices of the switch pair: the parent canvas, the two switches
/// and their two labels.
#[derive(Clone, Copy, PartialEq, Eq, Structural)]
pub struct ToggleIds {
    pub parent: usize,
    pub input: usize,
    pub eeprom: usize,
    pub input_label: usize,
    pub eeprom_label: usize,
}

pub struct BToggle {
    ids: ToggleIds,
    cref_input_active: bool,
    cref_eeprom_active: bool,
    inited_ids: bool,
}

impl BToggle {
    #[verifier::type_invariant]
    closed spec fn one_source(self) -> bool {
        self.cref_input_active != self.cref_eeprom_active
    }

    /// Whether the typed-in values are the active source.
    pub closed spec fn input_active(&self) -> bool {
        self.cref_input_active
    }

    /// Whether the saved values are the active source.
    pub closed spec fn eeprom_active(&self) -> bool {
        self.cref_eeprom_active
    }

    /// Whether the widget indices have been set, so the pair can be shown.
    pub closed spec fn has_ids(&self) -> bool {
        self.inited_ids
    }

    pub closed spec fn widget_ids(&self) -> ToggleIds {
        self.ids
    }

    /// Records the widget indices; from now on the pair can be shown.
    pub fn set_ids(
        &mut self,
        parent_id: usize,
        input_id: usize,
        eeprom_id: usize,
        input_label_id: usize,
        eeprom_label_id: usize,
    )
        ensures
            final(self).widget_ids() == (ToggleIds {
                parent: parent_id,
                input: input_id,
                eeprom: eeprom_id,
                input_label: input_label_id,
                eeprom_label: eeprom_label_id,
            }),
            final(self).has_ids(),
            final(self).input_active() == old(self).input_active(),
            final(self).eeprom_active() == old(self).eeprom_active(),
    {
        proof {
            use_type_invariant(&*self);
        }
        *self = BToggle {
            ids: ToggleIds {
                parent: parent_id,
                input: input_id,
                eeprom: eeprom_id,
                input_label: input_label_id,
                eeprom_label: eeprom_label_id,
            },
            cref_input_active: self.cref_input_active,
            cref_eeprom_active: self.cref_eeprom_active,
            inited_ids: true,
        };
    }

    /// The widget indices last recorded.
    pub fn ids(&self) -> (ids: ToggleIds)
        ensures
            ids == self.widget_ids(),
    {
        self.ids
    }

    /// Whether the widget indices have been set.
    pub fn inited(&self) -> (inited: bool)
        ensures
            inited == self.has_ids(),
    {
        self.inited_ids
    }

    /// The user switched the typed-in source on (`on`) or off; the saved
    /// source takes the opposite position.
    pub fn input_toggled(&mut self, on: bool)
        ensures
            final(self).input_active() == on,
            final(self).eeprom_active() == !on,
            final(self).widget_ids() == old(self).widget_ids(),
            final(self).has_ids() == old(self).has_ids(),
    {
        *self = BToggle {
            ids: self.ids,
            cref_input_active: on,
            cref_eeprom_active: !on,
            inited_ids: self.inited_ids,
        };
    }

    /// The user switched the saved source on (`on`) or off; the typed-in
    /// source takes the opposite position.
    pub fn eeprom_toggled(&mut self, on: bool)
        ensures
            final(self).input_active() == !on,
            final(self).eeprom_active() == on,
            final(self).widget_ids() == old(self).widget_ids(),
            final(self).has_ids() == old(self).has_ids(),
    {
        *self = BToggle {
            ids: self.ids,
            cref_input_active: !on,
            cref_eeprom_active: on,
            inited_ids: self.inited_ids,
        };
    }

    /// The positions of the two switches: (typed-in, saved).
    pub fn get(&self) -> (active: (bool, bool))
        ensures
            active == (self.input_active(), self.eeprom_active()),
            active.0 != active.1,
    {
        proof {
            use_type_invariant(self);
        }
        (self.cref_input_active, self.cref_eeprom_active)
    }

    /// The saved values are missing: fall back to the typed-in source.
    pub fn eeprom_undefined(&mut self)
        ensures
            final(self).input_active(),
            !final(self).eeprom_active(),
            final(self).widget_ids() == old(self).widget_ids(),
            final(self).has_ids() == old(self).has_ids(),
    {
        *self = BToggle {
            ids: self.ids,
            cref_input_active: true,
            cref_eeprom_active: false,
            inited_ids: self.inited_ids,
        };
    }

    /// The pair of reference values to use: the saved pair when the saved
    /// source is active and both saved values are present, otherwise the
    /// typed-in pair.
    pub fn select<V: Copy>(&self, input: (Option<V>, Option<V>), saved: (Option<V>, Option<V>)) -> (r: (
        Option<V>,
        Option<V>,
    ))
        ensures
            r == (if self.eeprom_active() && saved.0 is Some && saved.1 is Some {
                saved
            } else {
                input
            }),
    {
        let (typed_in, stored) = self.get();
        if !typed_in && stored && saved.0.is_some() && saved.1.is_some() {
            saved
        } else {
            input
        }
    }
}

impl Default for BToggle {
    fn default() -> (t: BToggle)
        ensures
            t.input_active(),
            !t.eeprom_active(),
            !t.has_ids(),
            t.widget_ids() == (ToggleIds {
                parent: 0,
                input: 0,
                eeprom: 0,
                input_label: 0,
                eeprom_label: 0,
            }),
    {
        BToggle {
            ids: ToggleIds { parent: 0, input: 0, eeprom: 0, input_label: 0, eeprom_label: 0 },
            cref_input_active: true,
            cref_eeprom_active: false,
            inited_ids: false,
        }
    }
}

} // verus!
