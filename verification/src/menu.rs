//! Feedback of menu buttons to the pointer.
use vstd::prelude::*;

verus! {

/// What the pointer does with a button.
#[derive(Debug, Clone, Copy, PartialEq, Eq, Hash, Structural)]
pub enum Interaction {
    /// The button is being pressed.
    Clicked,
    /// The pointer rests on the button.
    Hovered,
    /// The pointer is elsewhere.
    Idle,
}

/// The three looks of a menu button. Each stands for one material of the
/// user interface's assets.
#[derive(Debug, Clone, Copy, PartialEq, Eq, Hash, Structural)]
pub enum ButtonMaterial {
    /// The pointer is elsewhere.
    Normal,
    /// The pointer rests on the button.
    Hover,
    /// The button is being pressed.
    Active,
}

/// The look that a button takes for an interaction.
pub open spec fn material_for(interaction: Interaction) -> ButtonMaterial {
    match interaction {
        Interaction::Clicked => ButtonMaterial::Active,
        Interaction::Hovered => ButtonMaterial::Hover,
        Interaction::Idle => ButtonMaterial::Normal,
    }
}

/// The looks that a row of buttons takes, each for its own interaction.
pub open spec fn materials_for(interactions: Seq<Interaction>) -> Seq<ButtonMaterial> {
    interactions.map_values(|interaction: Interaction| material_for(interaction))
}

/// Whether one of the interactions is a click.
pub open spec fn any_clicked(interactions: Seq<Interaction>) -> bool {
    interactions.contains(Interaction::Clicked)
}

/// A row of buttons triggers its action exactly when one of them shows the
/// active material: what the player sees agrees with what the game does.
pub proof fn active_exactly_when_clicked(interactions: Seq<Interaction>)
    ensures
        any_clicked(interactions) == materials_for(interactions).contains(ButtonMaterial::Active),
{
    let materials = materials_for(interactions);
    if any_clicked(interactions) {
        let i = choose|i: int| 0 <= i < interactions.len() && interactions[i] == Interaction::Clicked;
        assert(materials[i] == ButtonMaterial::Active);
    }
    if materials.contains(ButtonMaterial::Active) {
        let i = choose|i: int| 0 <= i < materials.len() && materials[i] == ButtonMaterial::Active;
        assert(interactions[i] == Interaction::Clicked);
    }
}

/// The look of one button for its interaction.
pub fn button_material(interaction: Interaction) -> (material: ButtonMaterial)
    ensures
        material == material_for(interaction),
{
    match interaction {
        Interaction::Clicked => ButtonMaterial::Active,
        Interaction::Hovered => ButtonMaterial::Hover,
        Interaction::Idle => ButtonMaterial::Normal,
    }
}

/// Answers the interactions that changed in this frame, one per button of
/// one action. Returns the new look of each button, in the order given, and
/// whether the action was triggered, that is, whether some button was
/// clicked.
pub fn button_interact(interactions: &[Interaction]) -> (out: (Vec<ButtonMaterial>, bool))
    ensures
        out.0@ == materials_for(interactions@),
        out.1 == any_clicked(interactions@),
{
    let mut materials: Vec<ButtonMaterial> = Vec::new();
    let mut clicked = false;
    let mut n: usize = 0;
    while n < interactions.len()
        invariant
            n <= interactions@.len(),
            materials@ == materials_for(interactions@.take(n as int)),
            clicked == any_clicked(interactions@.take(n as int)),
        decreases interactions@.len() - n,
    {
        let interaction = interactions[n];
        proof {
            let seen = interactions@.take(n as int);
            assert(interactions@.take(n + 1) == seen.push(interaction));
            assert(materials_for(seen.push(interaction)) == materials_for(seen).push(
                material_for(interaction),
            ));
            if any_clicked(seen) {
                let i = choose|i: int| 0 <= i < seen.len() && seen[i] == Interaction::Clicked;
                assert(seen.push(interaction)[i] == Interaction::Clicked);
            }
            if interaction == Interaction::Clicked {
                assert(seen.push(interaction)[n as int] == Interaction::Clicked);
            }
        }
        materials.push(button_material(interaction));
        match interaction {
            Interaction::Clicked => {
                clicked = true;
            },
            _ => {},
        }
        n = n + 1;
    }
    proof {
        assert(interactions@.take(n as int) == interactions@);
    }
    (materials, clicked)
}

} // verus!
