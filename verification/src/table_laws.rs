//! How the tables of moves are read: from the top, and the first row that fits counts.

use vstd::prelude::*;

use crate::action::FighterAction;
use crate::input::TechniqueButton;
use crate::technique::{
    ActiveTechnique, CharacterMoveSlot, MoveSlotEntry, RawTechnique, TechniqueDefinition,
    TechniqueId, active_in, definition_in, raw_in, slot_in,
};

verus! {

/// The first definition with the name asked for is found, and none where nothing has
/// it.
pub proof fn the_first_definition_is_found(
    rows: Seq<TechniqueDefinition>,
    id: TechniqueId,
    place: int,
)
    requires
        0 <= place <= rows.len(),
        place < rows.len() ==> rows[place].id == id,
        forall|i: int| 0 <= i < place ==> (#[trigger] rows[i]).id != id,
    ensures
        definition_in(rows, id) == (if place < rows.len() {
            Some(rows[place])
        } else {
            None
        }),
    decreases rows.len(),
{
    if rows.len() > 0 && place > 0 {
        assert(rows[0].id != id);
        assert forall|i: int| 0 <= i < place - 1 implies (#[trigger] rows.drop_first()[i]).id
            != id by {
            assert(rows.drop_first()[i] == rows[i + 1]);
        }
        the_first_definition_is_found(rows.drop_first(), id, place - 1);
    }
}

/// The first entry of a move slot is found, and none where there is none.
pub proof fn the_first_entry_is_found(
    rows: Seq<MoveSlotEntry>,
    slot: CharacterMoveSlot,
    place: int,
)
    requires
        0 <= place <= rows.len(),
        place < rows.len() ==> rows[place].slot == slot,
        forall|i: int| 0 <= i < place ==> (#[trigger] rows[i]).slot != slot,
    ensures
        slot_in(rows, slot) == (if place < rows.len() {
            Some(rows[place])
        } else {
            None
        }),
    decreases rows.len(),
{
    if rows.len() > 0 && place > 0 {
        assert(rows[0].slot != slot);
        assert forall|i: int| 0 <= i < place - 1 implies (#[trigger] rows.drop_first()[i]).slot
            != slot by {
            assert(rows.drop_first()[i] == rows[i + 1]);
        }
        the_first_entry_is_found(rows.drop_first(), slot, place - 1);
    }
}

/// The row is about an action under a technique.
pub open spec fn about(
    row: ActiveTechnique,
    action: FighterAction,
    technique: Option<TechniqueId>,
) -> bool {
    row.action == action && row.technique_id == technique
}

/// The first row about an action under a technique is in force, and none where no row
/// is about both.
pub proof fn the_first_row_is_in_force(
    rows: Seq<ActiveTechnique>,
    action: FighterAction,
    technique: Option<TechniqueId>,
    place: int,
)
    requires
        0 <= place <= rows.len(),
        place < rows.len() ==> about(rows[place], action, technique),
        forall|i: int| 0 <= i < place ==> !about(#[trigger] rows[i], action, technique),
    ensures
        active_in(rows, action, technique) == (if place < rows.len() {
            Some(rows[place])
        } else {
            None
        }),
    decreases rows.len(),
{
    if rows.len() > 0 && place > 0 {
        assert(!about(rows[0], action, technique));
        assert forall|i: int| 0 <= i < place - 1 implies !about(
            #[trigger] rows.drop_first()[i],
            action,
            technique,
        ) by {
            assert(rows.drop_first()[i] == rows[i + 1]);
        }
        the_first_row_is_in_force(rows.drop_first(), action, technique, place - 1);
    }
}

/// The row is behind a button on the ground or in the air.
pub open spec fn behind(row: RawTechnique, button: TechniqueButton, grounded: bool) -> bool {
    row.button == button && row.grounded == grounded
}

/// The first technique behind a button is meant, on the ground and in the air apart.
pub proof fn the_first_technique_is_meant(
    rows: Seq<RawTechnique>,
    button: TechniqueButton,
    grounded: bool,
    place: int,
)
    requires
        0 <= place <= rows.len(),
        place < rows.len() ==> behind(rows[place], button, grounded),
        forall|i: int| 0 <= i < place ==> !behind(#[trigger] rows[i], button, grounded),
    ensures
        raw_in(rows, button, grounded) == (if place < rows.len() {
            Some(rows[place].technique)
        } else {
            None
        }),
    decreases rows.len(),
{
    if rows.len() > 0 && place > 0 {
        assert(!behind(rows[0], button, grounded));
        assert forall|i: int| 0 <= i < place - 1 implies !behind(
            #[trigger] rows.drop_first()[i],
            button,
            grounded,
        ) by {
            assert(rows.drop_first()[i] == rows[i + 1]);
        }
        the_first_technique_is_meant(rows.drop_first(), button, grounded, place - 1);
    }
}

} // verus!
