use sotora::menu::{button_interact, button_material, ButtonMaterial, Interaction};

#[test]
fn clicked_button_shows_active_material() {
    assert_eq!(button_material(Interaction::Clicked), ButtonMaterial::Active);
}

#[test]
fn hovered_button_shows_hover_material() {
    assert_eq!(button_material(Interaction::Hovered), ButtonMaterial::Hover);
}

#[test]
fn idle_button_shows_normal_material() {
    assert_eq!(button_material(Interaction::Idle), ButtonMaterial::Normal);
}

#[test]
fn no_changed_button_means_no_click() {
    let (materials, clicked) = button_interact(&[]);
    assert!(materials.is_empty());
    assert!(!clicked);
}

#[test]
fn hover_alone_is_no_click() {
    let (materials, clicked) = button_interact(&[Interaction::Hovered]);
    assert_eq!(materials, vec![ButtonMaterial::Hover]);
    assert!(!clicked);
}

#[test]
fn release_alone_is_no_click() {
    let (materials, clicked) = button_interact(&[Interaction::Idle]);
    assert_eq!(materials, vec![ButtonMaterial::Normal]);
    assert!(!clicked);
}

#[test]
fn single_click_is_reported() {
    let (materials, clicked) = button_interact(&[Interaction::Clicked]);
    assert_eq!(materials, vec![ButtonMaterial::Active]);
    assert!(clicked);
}

#[test]
fn materials_follow_the_order_of_the_buttons() {
    let changed = vec![
        Interaction::Idle,
        Interaction::Clicked,
        Interaction::Hovered,
        Interaction::Idle,
    ];
    let (materials, clicked) = button_interact(&changed);
    assert_eq!(
        materials,
        vec![
            ButtonMaterial::Normal,
            ButtonMaterial::Active,
            ButtonMaterial::Hover,
            ButtonMaterial::Normal,
        ]
    );
    assert!(clicked);
}

#[test]
fn click_is_reported_wherever_it_stands() {
    let first = [Interaction::Clicked, Interaction::Hovered, Interaction::Idle];
    let last = [Interaction::Idle, Interaction::Hovered, Interaction::Clicked];
    assert!(button_interact(&first).1);
    assert!(button_interact(&last).1);
}

#[test]
fn click_stays_reported_after_later_buttons() {
    let changed = [Interaction::Clicked, Interaction::Idle, Interaction::Idle];
    let (materials, clicked) = button_interact(&changed);
    assert_eq!(materials.len(), 3);
    assert!(clicked);
}

#[test]
fn many_buttons_without_click() {
    let changed = [
        Interaction::Hovered,
        Interaction::Idle,
        Interaction::Hovered,
        Interaction::Idle,
    ];
    let (materials, clicked) = button_interact(&changed);
    assert_eq!(
        materials,
        vec![
            ButtonMaterial::Hover,
            ButtonMaterial::Normal,
            ButtonMaterial::Hover,
            ButtonMaterial::Normal,
        ]
    );
    assert!(!clicked);
}

#[test]
fn active_material_exactly_where_clicked() {
    let changed = [Interaction::Hovered, Interaction::Clicked, Interaction::Clicked];
    let (materials, clicked) = button_interact(&changed);
    let active = materials
        .iter()
        .filter(|m| **m == ButtonMaterial::Active)
        .count();
    assert_eq!(active, 2);
    assert_eq!(clicked, active > 0);
}
