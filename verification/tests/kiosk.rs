use espbox_kiosk::buttons::{
    classify, is_left, is_middle, is_right, window_contains, Button, LEFT_BUTTON_HIGH,
    LEFT_BUTTON_LOW, MIDDLE_BUTTON_HIGH, MIDDLE_BUTTON_LOW, RIGHT_BUTTON_HIGH, RIGHT_BUTTON_LOW,
};
use espbox_kiosk::inventory::{FoodItem, Inventory, Selection};
use espbox_kiosk::panel::{sensor_screen_action, Panel, Reading, UiAction};
use espbox_kiosk::payload::decimal_payload;

#[test]
fn button_windows_are_inclusive() {
    assert!(window_contains(10, 20, 10));
    assert!(window_contains(10, 20, 20));
    assert!(!window_contains(10, 20, 9));
    assert!(!window_contains(10, 20, 21));
    assert!(is_left(LEFT_BUTTON_LOW) && is_left(LEFT_BUTTON_HIGH));
    assert!(is_middle(MIDDLE_BUTTON_LOW) && is_middle(MIDDLE_BUTTON_HIGH));
    assert!(is_right(RIGHT_BUTTON_LOW) && is_right(RIGHT_BUTTON_HIGH));
    assert!(!is_left(2679) && !is_left(2721));
}

#[test]
fn classify_readings() {
    assert_eq!(classify(2700), Some(Button::Left));
    assert_eq!(classify(2150), Some(Button::Middle));
    assert_eq!(classify(725), Some(Button::Right));
    assert_eq!(classify(0), None);
    assert_eq!(classify(3300), None);
    assert_eq!(classify(704), None);
    assert_eq!(classify(2171), None);
}

#[test]
fn no_reading_stands_for_two_buttons() {
    for mv in 0..=u16::MAX {
        let hits = [is_left(mv), is_middle(mv), is_right(mv)]
            .iter()
            .filter(|b| **b)
            .count();
        assert!(hits <= 1, "reading {} hits {} windows", mv, hits);
    }
}

#[test]
fn decimal_payload_values() {
    assert_eq!(decimal_payload(0), b"0".to_vec());
    assert_eq!(decimal_payload(7), b"7".to_vec());
    assert_eq!(decimal_payload(10), b"10".to_vec());
    assert_eq!(decimal_payload(11), b"11".to_vec());
    assert_eq!(decimal_payload(4294967295), b"4294967295".to_vec());
}

#[test]
fn decimal_payload_matches_std_formatting() {
    for n in [0u32, 1, 9, 10, 99, 100, 101, 65535, 1000000, 123456789, u32::MAX] {
        let p = decimal_payload(n);
        assert_eq!(p, n.to_string().into_bytes());
        assert!(p.len() <= 10);
        let back: u32 = String::from_utf8(p).unwrap().parse().unwrap();
        assert_eq!(back, n);
    }
}

#[test]
fn initial_inventory() {
    let inv = Inventory::initial();
    assert_eq!(inv.selection, Selection::Hotdog);
    assert_eq!(inv.hotdog, FoodItem { amount: 10, highlighted: true, purchased: false });
    assert_eq!(inv.sandwich, FoodItem { amount: 9, highlighted: false, purchased: false });
    assert_eq!(inv.energy_drink, FoodItem { amount: 11, highlighted: false, purchased: false });
    assert_eq!(inv.stock_payload(Selection::Hotdog), b"10".to_vec());
    assert_eq!(inv.stock_payload(Selection::Sandwich), b"9".to_vec());
    assert_eq!(inv.stock_payload(Selection::EnergyDrink), b"11".to_vec());
}

#[test]
fn selection_cycles_through_three_items() {
    let mut inv = Inventory::initial();
    assert_eq!(inv.select_next(), Selection::Sandwich);
    assert!(!inv.hotdog.highlighted && inv.sandwich.highlighted && !inv.energy_drink.highlighted);
    assert_eq!(inv.select_next(), Selection::EnergyDrink);
    assert!(!inv.hotdog.highlighted && !inv.sandwich.highlighted && inv.energy_drink.highlighted);
    assert_eq!(inv.select_next(), Selection::Hotdog);
    assert_eq!(inv, Inventory::initial());
}

#[test]
fn purchase_sells_one_unit_of_selected_item() {
    let mut inv = Inventory::initial();
    let shown = inv.purchase();
    assert_eq!(shown, Some(FoodItem { amount: 9, highlighted: true, purchased: true }));
    assert_eq!(inv.hotdog, FoodItem { amount: 9, highlighted: true, purchased: false });
    assert_eq!(inv.sandwich.amount, 9);
    assert_eq!(inv.energy_drink.amount, 11);
    assert_eq!(inv.selection, Selection::Hotdog);
}

#[test]
fn purchase_of_sold_out_item_changes_nothing() {
    let mut inv = Inventory::initial();
    for _ in 0..10 {
        assert!(inv.purchase().is_some());
    }
    assert_eq!(inv.hotdog.amount, 0);
    let before = inv;
    assert_eq!(inv.purchase(), None);
    assert_eq!(inv, before);
}

#[test]
fn panel_left_hold_shows_sensors_once() {
    let mut p = Panel::new();
    assert_eq!(p.handle_reading(2700), vec![sensor_screen_action()]);
    assert!(p.left_pressed);
    assert_eq!(p.handle_reading(2690), Vec::<UiAction>::new());
    assert!(p.left_pressed);
    let inv = p.inventory;
    assert_eq!(p.handle_reading(0), vec![UiAction::ShowInventory(inv)]);
    assert!(!p.left_pressed);
    assert_eq!(p.handle_reading(0), Vec::<UiAction>::new());
}

#[test]
fn panel_middle_moves_cursor_and_redraws() {
    let mut p = Panel::new();
    let acts = p.handle_reading(2150);
    assert_eq!(p.inventory.selection, Selection::Sandwich);
    assert_eq!(
        acts,
        vec![UiAction::Selected(Selection::Sandwich), UiAction::DrawInventory(p.inventory)]
    );
}

#[test]
fn panel_release_then_middle() {
    let mut p = Panel::new();
    p.handle_reading(2700);
    let before = p.inventory;
    let acts = p.handle_reading(2150);
    assert_eq!(acts.len(), 3);
    assert_eq!(acts[0], UiAction::ShowInventory(before));
    assert_eq!(acts[1], UiAction::Selected(Selection::Sandwich));
    assert_eq!(acts[2], UiAction::DrawInventory(p.inventory));
}

#[test]
fn panel_right_buys_and_sells_out() {
    let mut p = Panel::new();
    p.handle_reading(2150);
    for left in (0..9u32).rev() {
        let acts = p.handle_reading(725);
        assert_eq!(
            acts,
            vec![
                UiAction::Bought(
                    Selection::Sandwich,
                    FoodItem { amount: left, highlighted: true, purchased: true }
                ),
                UiAction::DrawInventory(p.inventory),
            ]
        );
    }
    assert_eq!(p.inventory.sandwich.amount, 0);
    let before = p.inventory;
    let acts = p.handle_reading(725);
    assert_eq!(acts, vec![UiAction::SoldOut(Selection::Sandwich), UiAction::DrawInventory(before)]);
    assert_eq!(p.inventory, before);
    assert_eq!(p.inventory.hotdog.amount, 10);
    assert_eq!(p.inventory.energy_drink.amount, 11);
}

#[test]
fn panel_stock_never_increases() {
    let mut p = Panel::new();
    let readings = [725u16, 2150, 725, 2700, 725, 0, 2150, 725, 725, 2150, 725, 3000];
    let total = |p: &Panel| {
        p.inventory.hotdog.amount + p.inventory.sandwich.amount + p.inventory.energy_drink.amount
    };
    for mv in readings {
        let before = total(&p);
        p.handle_reading(mv);
        let after = total(&p);
        assert!(after <= before && before - after <= 1);
        let highlighted = [
            p.inventory.hotdog.highlighted,
            p.inventory.sandwich.highlighted,
            p.inventory.energy_drink.highlighted,
        ];
        assert_eq!(highlighted.iter().filter(|h| **h).count(), 1);
        assert!(!p.inventory.hotdog.purchased && !p.inventory.sandwich.purchased);
        assert!(!p.inventory.energy_drink.purchased);
    }
}

#[test]
fn panel_starts_with_initial_inventory() {
    let p = Panel::new();
    assert!(!p.left_pressed);
    assert_eq!(p.inventory, Inventory::initial());
    assert_eq!(p.inventory.hotdog.amount, 10);
    assert_eq!(p.inventory.sandwich.amount, 9);
    assert_eq!(p.inventory.energy_drink.amount, 11);
}

#[test]
fn sensor_screen_shows_temperature_humidity_gas() {
    assert_eq!(
        sensor_screen_action(),
        UiAction::ShowSensors(Reading::Temperature, Reading::Humidity, Reading::GasResistance)
    );
}

#[test]
fn held_sensor_screen_redrawn_on_each_measurement() {
    let mut p = Panel::new();
    assert_eq!(p.on_measurement(), Vec::<UiAction>::new());
    p.handle_reading(2700);
    let before = p;
    for _ in 0..3 {
        assert_eq!(p.handle_reading(2700), Vec::<UiAction>::new());
        assert_eq!(p.on_measurement(), vec![sensor_screen_action()]);
        assert_eq!(p, before);
    }
    p.handle_reading(0);
    assert_eq!(p.on_measurement(), Vec::<UiAction>::new());
}

#[test]
fn three_middle_presses_restore_inventory() {
    let mut p = Panel::new();
    p.handle_reading(725);
    let before = p.inventory;
    for _ in 0..3 {
        p.handle_reading(2150);
    }
    assert_eq!(p.inventory, before);
}
