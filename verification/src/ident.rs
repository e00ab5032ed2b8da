//! Identifiers that tag the interaction result.

use vstd::prelude::*;
use crate::chart::Piechart;

verus! {

/// `egui::Id`, the identifier of a widget or of a part of one. Nothing of
/// what it holds is visible here; it is only carried through.
#[verifier::external_type_specification]
#[verifier::external_body]
pub struct ExId(egui::Id);

/// Calls `egui::Id::new`, which hashes its argument. The identifier depends
/// on how the hasher was built for the machine, so nothing is claimed of it.
#[verifier::external_body]
pub(crate) fn id_of<H: std::hash::Hash>(source: H) -> (id: egui::Id)
{
    egui::Id::new(source)
}

/// The identifier that an interaction with a slice reports: the slice's own
/// identifier where it has one, else the one derived from its name.
pub fn pick_id(own: Option<egui::Id>, derived: egui::Id) -> (id: egui::Id)
    ensures
        id == (match own { Some(i) => i, None => derived }),
{
    match own {
        Some(i) => i,
        None => derived,
    }
}

impl Piechart {
    /// The identifier that the interaction result carries: `unset` where no
    /// slice is hovered, else the hovered slice's identifier, which is its
    /// own where it has one and otherwise derived from its name.
    pub fn response_id(&self, hovered: Option<usize>, unset: egui::Id) -> (id: egui::Id)
        requires
            hovered is Some ==> hovered.unwrap() < self.slices@.len(),
        ensures
            hovered is None ==> id == unset,
            hovered is Some && self.slices@[hovered.unwrap() as int].id is Some ==> id
                == self.slices@[hovered.unwrap() as int].id.unwrap(),
    {
        match hovered {
            None => unset,
            Some(i) => pick_id(self.slices[i].id, id_of(&self.slices[i].name)),
        }
    }
}

} // verus!
