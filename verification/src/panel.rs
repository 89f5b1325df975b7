//! The button handler: each ADC reading of the button pin is turned into
//! changes of the inventory and a list of things to draw or announce.

use vstd::prelude::*;

use crate::buttons::{button_of, is_left, is_middle, is_right, lemma_windows_disjoint, Button};
use crate::inventory::{in_stock, initial_inventory, next_selection, FoodItem, Inventory, Selection};

verus! {

/// Milliseconds between two readings of the button pin.
pub const POLL_INTERVAL_MS: u64 = 100;

/// A measurement shown on the sensor screen.
#[derive(Clone, Copy, Debug, PartialEq, Eq, Structural)]
pub enum Reading {
    Temperature,
    Humidity,
    GasResistance,
}

/// Something the display or the console has to show.
#[derive(Clone, Copy, Debug, PartialEq, Eq, Structural)]
pub enum UiAction {
    /// Draw the sensor screen with the latest values of these three
    /// measurements, left to right.
    ShowSensors(Reading, Reading, Reading),
    /// Clear the screen and draw the inventory as given.
    ShowInventory(Inventory),
    /// Announce that the cursor moved to this item.
    Selected(Selection),
    /// Draw the inventory as given, over what is on screen.
    DrawInventory(Inventory),
    /// Announce a sale of this item and draw its "bought" button as given.
    Bought(Selection, FoodItem),
    /// Announce that this item is out of stock.
    SoldOut(Selection),
}

/// The state of the button handler.
#[derive(Clone, Copy, Debug, PartialEq, Eq, Structural)]
pub struct Panel {
    /// The left button was held at the previous reading (the sensor screen
    /// is up).
    pub left_pressed: bool,
    /// The stock and the cursor.
    pub inventory: Inventory,
}

/// The sensor screen: temperature, humidity and gas resistance.
pub open spec fn sensor_screen() -> UiAction {
    UiAction::ShowSensors(Reading::Temperature, Reading::Humidity, Reading::GasResistance)
}

/// The sensor screen: temperature, humidity and gas resistance.
pub fn sensor_screen_action() -> (r: UiAction)
    ensures
        r == sensor_screen(),
{
    UiAction::ShowSensors(Reading::Temperature, Reading::Humidity, Reading::GasResistance)
}

/// Leaving the sensor screen: when the left button was held, the inventory
/// screen comes back.
pub open spec fn release_left(p: Panel) -> (Panel, Seq<UiAction>) {
    if p.left_pressed {
        (Panel { left_pressed: false, ..p }, seq![UiAction::ShowInventory(p.inventory)])
    } else {
        (p, Seq::empty())
    }
}

/// What the handler does on the reading `mv`: the new state and the
/// actions, in order.
pub open spec fn panel_step(p: Panel, mv: u16) -> (Panel, Seq<UiAction>) {
    match button_of(mv) {
        Some(Button::Left) => if p.left_pressed {
            (p, Seq::empty())
        } else {
            (Panel { left_pressed: true, ..p }, seq![sensor_screen()])
        },
        Some(Button::Middle) => {
            let (q, acts) = release_left(p);
            let inv = q.inventory.after_select();
            (
                Panel { inventory: inv, ..q },
                acts + seq![UiAction::Selected(inv.selection), UiAction::DrawInventory(inv)],
            )
        },
        Some(Button::Right) => {
            let (q, acts) = release_left(p);
            let sel = q.inventory.selection;
            let item = q.inventory.item_of(sel);
            let inv = q.inventory.after_purchase();
            let sale = if in_stock(item) {
                UiAction::Bought(sel, FoodItem { amount: (item.amount - 1) as u32, purchased: true, ..item })
            } else {
                UiAction::SoldOut(sel)
            };
            (Panel { inventory: inv, ..q }, acts + seq![sale, UiAction::DrawInventory(inv)])
        },
        None => release_left(p),
    }
}

/// What a new measurement draws: the sensor screen when it is up, nothing
/// otherwise.
pub open spec fn measurement_actions(p: Panel) -> Seq<UiAction> {
    if p.left_pressed {
        seq![sensor_screen()]
    } else {
        Seq::empty()
    }
}

impl Panel {
    /// The handler at power-up: inventory screen, starting stock.
    pub fn new() -> (r: Panel)
        ensures
            r == (Panel { left_pressed: false, inventory: initial_inventory() }),
            r.inventory.wf(),
    {
        Panel { left_pressed: false, inventory: Inventory::initial() }
    }

    /// A new measurement is in: while the sensor screen is up (the left
    /// button held) it is drawn again with the new values; otherwise
    /// nothing is drawn. The state does not change.
    pub fn on_measurement(&self) -> (r: Vec<UiAction>)
        ensures
            r@ == measurement_actions(*self),
    {
        let mut actions: Vec<UiAction> = Vec::new();
        if self.left_pressed {
            actions.push(sensor_screen_action());
        }
        proof {
            if !self.left_pressed {
                assert(actions@ =~= Seq::<UiAction>::empty());
            }
        }
        actions
    }

    /// Handles one reading `mv` of the button pin, in millivolts. The left
    /// button shows the sensor screen while held; the middle one moves the
    /// cursor; the right one sells the selected item.
    pub fn handle_reading(&mut self, mv: u16) -> (r: Vec<UiAction>)
        ensures
            *final(self) == panel_step(*old(self), mv).0,
            r@ == panel_step(*old(self), mv).1,
    {
        let mut actions: Vec<UiAction> = Vec::new();
        proof {
            lemma_windows_disjoint(mv);
        }
        if is_left(mv) {
            if !self.left_pressed {
                self.left_pressed = true;
                actions.push(sensor_screen_action());
            }
        } else if self.left_pressed {
            self.left_pressed = false;
            actions.push(UiAction::ShowInventory(self.inventory));
        }
        let ghost released = actions@;
        if is_middle(mv) {
            let sel = self.inventory.select_next();
            actions.push(UiAction::Selected(sel));
            actions.push(UiAction::DrawInventory(self.inventory));
            assert(actions@ =~= released + seq![
                UiAction::Selected(self.inventory.selection),
                UiAction::DrawInventory(self.inventory),
            ]);
        }
        if is_right(mv) {
            let sel = self.inventory.selection;
            match self.inventory.purchase() {
                Some(shown) => actions.push(UiAction::Bought(sel, shown)),
                None => actions.push(UiAction::SoldOut(sel)),
            }
            actions.push(UiAction::DrawInventory(self.inventory));
            assert(actions@ =~= released + seq![actions@[released.len() as int], UiAction::DrawInventory(self.inventory)]);
        }
        proof {
            if button_of(mv) is None {
                assert(released =~= release_left(*old(self)).1);
            }
        }
        actions
    }
}

/// Every reading keeps the screen consistent (exactly the selected item
/// highlighted, no "bought" marker left on), never adds stock, and sells at
/// most one unit.
pub proof fn lemma_step_keeps_inventory_sound(p: Panel, mv: u16)
    requires
        p.inventory.wf(),
    ensures
        panel_step(p, mv).0.inventory.wf(),
        p.inventory.total_stock() - 1 <= panel_step(p, mv).0.inventory.total_stock() <= p.inventory.total_stock(),
{
    crate::inventory::lemma_purchase_effect(p.inventory);
    crate::inventory::lemma_select_keeps_wf(p.inventory);
    assert forall|s: Selection| !#[trigger] p.inventory.item_of(s).purchased by {}
}

/// Holding the left button brings the sensor screen up once: the first
/// reading in its window draws it (unless it is already up), and further
/// readings in the window change nothing and draw nothing; while it is up,
/// each new measurement draws it again (see
/// `lemma_held_sensor_screen_follows_measurements`).
pub proof fn lemma_left_hold_shows_sensors_once(p: Panel, mv1: u16, mv2: u16)
    requires
        button_of(mv1) == Some(Button::Left),
        button_of(mv2) == Some(Button::Left),
    ensures
        panel_step(p, mv1).0.left_pressed,
        panel_step(p, mv1).0.inventory == p.inventory,
        panel_step(p, mv1).1 == (if p.left_pressed { Seq::<UiAction>::empty() } else { seq![sensor_screen()] }),
        panel_step(panel_step(p, mv1).0, mv2) == (panel_step(p, mv1).0, Seq::<UiAction>::empty()),
{
}

/// While the left button is held, the sensor screen is redrawn with every
/// new measurement, showing temperature, humidity and gas resistance; a
/// measurement never changes the panel, and draws nothing on the inventory
/// screen.
pub proof fn lemma_held_sensor_screen_follows_measurements(p: Panel, mv: u16)
    requires
        button_of(mv) == Some(Button::Left),
    ensures
        measurement_actions(panel_step(p, mv).0) == seq![sensor_screen()],
        sensor_screen() == UiAction::ShowSensors(Reading::Temperature, Reading::Humidity, Reading::GasResistance),
        !p.left_pressed ==> measurement_actions(p) == Seq::<UiAction>::empty(),
{
}

/// Letting go of the left button brings the inventory screen back before
/// anything else is drawn, with the stock as it was.
pub proof fn lemma_release_shows_inventory_first(p: Panel, mv: u16)
    requires
        p.left_pressed,
        button_of(mv) != Some(Button::Left),
    ensures
        !panel_step(p, mv).0.left_pressed,
        panel_step(p, mv).1.len() >= 1,
        panel_step(p, mv).1[0] == UiAction::ShowInventory(p.inventory),
{
}

/// A reading in no button's window while the inventory screen is up
/// changes nothing and draws nothing.
pub proof fn lemma_idle_reading_is_quiet(p: Panel, mv: u16)
    requires
        button_of(mv) is None,
        !p.left_pressed,
    ensures
        panel_step(p, mv) == (p, Seq::<UiAction>::empty()),
{
}

/// The middle button (a reading of 2130..=2170 mV) moves the cursor to the
/// next item, announces it and draws the inventory with it; every item
/// keeps its stock and marker, and only the new item is highlighted. When
/// the sensor screen was up, the inventory screen comes back first.
pub proof fn lemma_middle_moves_cursor(p: Panel, mv: u16)
    requires
        2130 <= mv <= 2170,
    ensures
        panel_step(p, mv).0.inventory.selection == next_selection(p.inventory.selection),
        !panel_step(p, mv).0.left_pressed,
        forall|s: Selection| #[trigger] panel_step(p, mv).0.inventory.item_of(s).amount == p.inventory.item_of(s).amount,
        forall|s: Selection| #[trigger] panel_step(p, mv).0.inventory.item_of(s).purchased == p.inventory.item_of(s).purchased,
        forall|s: Selection| #[trigger] panel_step(p, mv).0.inventory.item_of(s).highlighted
            == (s == next_selection(p.inventory.selection)),
        panel_step(p, mv).0.inventory.total_stock() == p.inventory.total_stock(),
        panel_step(p, mv).1.len() == (if p.left_pressed { 3int } else { 2int }),
        p.left_pressed ==> panel_step(p, mv).1[0] == UiAction::ShowInventory(p.inventory),
        panel_step(p, mv).1[panel_step(p, mv).1.len() - 2] == UiAction::Selected(next_selection(p.inventory.selection)),
        panel_step(p, mv).1.last() == UiAction::DrawInventory(panel_step(p, mv).0.inventory),
{
    crate::inventory::lemma_select_keeps_stock(p.inventory);
}

/// The right button (a reading of 705..=745 mV) sells one unit of the
/// selected item whenever one is left, whether or not the sensor screen was
/// up: the stock of that item drops by one, the sale is announced with the
/// item drawn as bought, and the inventory is drawn again; no other item
/// changes and the cursor stays. With no unit left the sale is refused and
/// the stock is unchanged. When the sensor screen was up, the inventory
/// screen comes back first.
pub proof fn lemma_right_button_sells(p: Panel, mv: u16)
    requires
        705 <= mv <= 745,
    ensures
        !panel_step(p, mv).0.left_pressed,
        panel_step(p, mv).0.inventory.selection == p.inventory.selection,
        forall|s: Selection| s != p.inventory.selection ==> #[trigger] panel_step(p, mv).0.inventory.item_of(s)
            == p.inventory.item_of(s),
        p.inventory.item_of(p.inventory.selection).amount > 0 ==> panel_step(p, mv).0.inventory.item_of(
            p.inventory.selection,
        ).amount == p.inventory.item_of(p.inventory.selection).amount - 1,
        p.inventory.item_of(p.inventory.selection).amount > 0 ==> panel_step(p, mv).1[panel_step(p, mv).1.len() - 2]
            == UiAction::Bought(
            p.inventory.selection,
            FoodItem {
                amount: (p.inventory.item_of(p.inventory.selection).amount - 1) as u32,
                highlighted: p.inventory.item_of(p.inventory.selection).highlighted,
                purchased: true,
            },
        ),
        p.inventory.item_of(p.inventory.selection).amount == 0 ==> panel_step(p, mv).0.inventory == p.inventory,
        p.inventory.item_of(p.inventory.selection).amount == 0 ==> panel_step(p, mv).1[panel_step(p, mv).1.len() - 2]
            == UiAction::SoldOut(p.inventory.selection),
        panel_step(p, mv).1.len() == (if p.left_pressed { 3int } else { 2int }),
        p.left_pressed ==> panel_step(p, mv).1[0] == UiAction::ShowInventory(p.inventory),
        panel_step(p, mv).1.last() == UiAction::DrawInventory(panel_step(p, mv).0.inventory),
{
    crate::inventory::lemma_sale_needs_positive_stock(p.inventory);
}

} // verus!
