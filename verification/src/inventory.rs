//! The stock of the kiosk: three food items, one of which is selected.

use vstd::prelude::*;

use crate::payload::{decimal_digits, decimal_payload};

verus! {

/// Starting stock of hot dogs.
pub const HOTDOG_START: u32 = 10;
/// Starting stock of sandwiches.
pub const SANDWICH_START: u32 = 9;
/// Starting stock of energy drinks.
pub const ENERGY_DRINK_START: u32 = 11;

/// Which of the three items the cursor is on.
#[derive(Clone, Copy, Debug, PartialEq, Eq, Structural)]
pub enum Selection {
    Hotdog,
    Sandwich,
    EnergyDrink,
}

/// What the logic reads and writes of one food item on the screen.
#[derive(Clone, Copy, Debug, PartialEq, Eq, Structural)]
pub struct FoodItem {
    /// Units left in stock.
    pub amount: u32,
    /// Drawn with the selection frame.
    pub highlighted: bool,
    /// Drawn with the "bought" marker.
    pub purchased: bool,
}

/// The three items and the cursor.
#[derive(Clone, Copy, Debug, PartialEq, Eq, Structural)]
pub struct Inventory {
    pub hotdog: FoodItem,
    pub sandwich: FoodItem,
    pub energy_drink: FoodItem,
    pub selection: Selection,
}

/// The state the kiosk starts in: ten hot dogs (highlighted), nine
/// sandwiches and eleven energy drinks, the cursor on the hot dog, no
/// "bought" marker.
pub open spec fn initial_inventory() -> Inventory {
    Inventory {
        hotdog: FoodItem { amount: HOTDOG_START, highlighted: true, purchased: false },
        sandwich: FoodItem { amount: SANDWICH_START, highlighted: false, purchased: false },
        energy_drink: FoodItem { amount: ENERGY_DRINK_START, highlighted: false, purchased: false },
        selection: Selection::Hotdog,
    }
}

/// The item that follows `s` when the middle button moves the cursor.
pub open spec fn next_selection(s: Selection) -> Selection {
    match s {
        Selection::Hotdog => Selection::Sandwich,
        Selection::Sandwich => Selection::EnergyDrink,
        Selection::EnergyDrink => Selection::Hotdog,
    }
}

/// Whether a purchase can be made of `item`.
pub open spec fn in_stock(item: FoodItem) -> bool {
    item.amount > 0
}

impl Inventory {
    /// The record of item `s`.
    pub open spec fn item_of(self, s: Selection) -> FoodItem {
        match s {
            Selection::Hotdog => self.hotdog,
            Selection::Sandwich => self.sandwich,
            Selection::EnergyDrink => self.energy_drink,
        }
    }

    /// This inventory with item `s` replaced by `item`.
    pub open spec fn with_item(self, s: Selection, item: FoodItem) -> Inventory {
        match s {
            Selection::Hotdog => Inventory { hotdog: item, ..self },
            Selection::Sandwich => Inventory { sandwich: item, ..self },
            Selection::EnergyDrink => Inventory { energy_drink: item, ..self },
        }
    }

    /// Units left of all three items together.
    pub open spec fn total_stock(self) -> int {
        self.hotdog.amount + self.sandwich.amount + self.energy_drink.amount
    }

    /// The screen is consistent: exactly the selected item is highlighted,
    /// and no item shows the "bought" marker between two button readings.
    pub open spec fn wf(self) -> bool {
        &&& forall|s: Selection| #[trigger] self.item_of(s).highlighted == (s == self.selection)
        &&& forall|s: Selection| !#[trigger] self.item_of(s).purchased
    }

    /// The inventory after the middle button: the cursor moves to the next
    /// item, only that item is highlighted, stock and markers are kept.
    pub open spec fn after_select(self) -> Inventory {
        let n = next_selection(self.selection);
        Inventory {
            hotdog: FoodItem { highlighted: n == Selection::Hotdog, ..self.hotdog },
            sandwich: FoodItem { highlighted: n == Selection::Sandwich, ..self.sandwich },
            energy_drink: FoodItem { highlighted: n == Selection::EnergyDrink, ..self.energy_drink },
            selection: n,
        }
    }

    /// The inventory after the right button: one unit of the selected item
    /// is sold when there is one, and its "bought" marker is cleared again.
    pub open spec fn after_purchase(self) -> Inventory {
        let item = self.item_of(self.selection);
        if in_stock(item) {
            self.with_item(
                self.selection,
                FoodItem { amount: (item.amount - 1) as u32, purchased: false, ..item },
            )
        } else {
            self
        }
    }

    /// The state the kiosk starts in: ten hot dogs, nine sandwiches and
    /// eleven energy drinks, with the hot dog selected.
    pub fn initial() -> (r: Inventory)
        ensures
            r == initial_inventory(),
            r.hotdog == (FoodItem { amount: HOTDOG_START, highlighted: true, purchased: false }),
            r.sandwich == (FoodItem { amount: SANDWICH_START, highlighted: false, purchased: false }),
            r.energy_drink == (FoodItem { amount: ENERGY_DRINK_START, highlighted: false, purchased: false }),
            r.selection == Selection::Hotdog,
            r.wf(),
    {
        let r = Inventory {
            hotdog: FoodItem { amount: HOTDOG_START, highlighted: true, purchased: false },
            sandwich: FoodItem { amount: SANDWICH_START, highlighted: false, purchased: false },
            energy_drink: FoodItem { amount: ENERGY_DRINK_START, highlighted: false, purchased: false },
            selection: Selection::Hotdog,
        };
        assert forall|s: Selection| #[trigger] r.item_of(s).highlighted == (s == r.selection) by {
            match s {
                Selection::Hotdog => {},
                Selection::Sandwich => {},
                Selection::EnergyDrink => {},
            }
        }
        assert forall|s: Selection| !#[trigger] r.item_of(s).purchased by {
            match s {
                Selection::Hotdog => {},
                Selection::Sandwich => {},
                Selection::EnergyDrink => {},
            }
        }
        r
    }

    /// The record of item `s`.
    pub fn item(&self, s: Selection) -> (r: FoodItem)
        ensures
            r == self.item_of(s),
    {
        match s {
            Selection::Hotdog => self.hotdog,
            Selection::Sandwich => self.sandwich,
            Selection::EnergyDrink => self.energy_drink,
        }
    }

    /// Moves the cursor to the next item and highlights it alone; returns the
    /// newly selected item.
    pub fn select_next(&mut self) -> (r: Selection)
        ensures
            *final(self) == old(self).after_select(),
            r == next_selection(old(self).selection),
            final(self).selection == r,
            forall|s: Selection| #[trigger] final(self).item_of(s).amount == old(self).item_of(s).amount,
            forall|s: Selection| #[trigger] final(self).item_of(s).purchased == old(self).item_of(s).purchased,
            forall|s: Selection| #[trigger] final(self).item_of(s).highlighted == (s == r),
    {
        proof {
            lemma_select_keeps_stock(*old(self));
        }
        let n = match self.selection {
            Selection::Hotdog => Selection::Sandwich,
            Selection::Sandwich => Selection::EnergyDrink,
            Selection::EnergyDrink => Selection::Hotdog,
        };
        self.hotdog.highlighted = n == Selection::Hotdog;
        self.sandwich.highlighted = n == Selection::Sandwich;
        self.energy_drink.highlighted = n == Selection::EnergyDrink;
        self.selection = n;
        n
    }

    /// Sells one unit of the selected item. When it is in stock the stock
    /// drops by one and the item is returned as it is drawn during the sale,
    /// with its "bought" marker on; the marker is off again afterwards.
    /// When it is sold out nothing changes and `None` is returned.
    pub fn purchase(&mut self) -> (r: Option<FoodItem>)
        ensures
            *final(self) == old(self).after_purchase(),
            in_stock(old(self).item_of(old(self).selection)) <==> r is Some,
            r is Some <==> old(self).item_of(old(self).selection).amount > 0,
            final(self).selection == old(self).selection,
            old(self).item_of(old(self).selection).amount > 0 ==> final(self).item_of(old(self).selection).amount
                == old(self).item_of(old(self).selection).amount - 1,
            old(self).item_of(old(self).selection).amount == 0 ==> *final(self) == *old(self),
            forall|s: Selection| s != old(self).selection ==> #[trigger] final(self).item_of(s) == old(self).item_of(s),
            r matches Some(shown) ==> shown == (FoodItem {
                amount: (old(self).item_of(old(self).selection).amount - 1) as u32,
                purchased: true,
                ..old(self).item_of(old(self).selection)
            }),
    {
        proof {
            lemma_sale_needs_positive_stock(*old(self));
        }
        let sel = self.selection;
        let item = self.item(sel);
        if item.amount > 0 {
            let shown = FoodItem { amount: item.amount - 1, highlighted: item.highlighted, purchased: true };
            let settled = FoodItem { purchased: false, ..shown };
            match sel {
                Selection::Hotdog => self.hotdog = settled,
                Selection::Sandwich => self.sandwich = settled,
                Selection::EnergyDrink => self.energy_drink = settled,
            }
            Some(shown)
        } else {
            None
        }
    }

    /// The MQTT payload that reports the stock of item `s`: its amount in
    /// decimal.
    pub fn stock_payload(&self, s: Selection) -> (r: Vec<u8>)
        ensures
            r@ == decimal_digits(self.item_of(s).amount as nat),
    {
        decimal_payload(self.item(s).amount)
    }
}

/// Three presses of the middle button bring the cursor back where it was,
/// and every press moves it.
pub proof fn lemma_selection_cycles(s: Selection)
    ensures
        next_selection(next_selection(next_selection(s))) == s,
        next_selection(s) != s,
{
}

/// An item can be sold exactly when units of it are left, and a sale
/// takes exactly one unit of the selected item, keeps the cursor, and
/// touches no other item; with no unit left, nothing changes.
pub proof fn lemma_sale_needs_positive_stock(inv: Inventory)
    ensures
        forall|item: FoodItem| #[trigger] in_stock(item) <==> item.amount > 0,
        inv.after_purchase().selection == inv.selection,
        inv.item_of(inv.selection).amount > 0 ==> inv.after_purchase().item_of(inv.selection).amount
            == inv.item_of(inv.selection).amount - 1,
        inv.item_of(inv.selection).amount > 0 ==> inv.after_purchase().item_of(inv.selection).highlighted
            == inv.item_of(inv.selection).highlighted,
        inv.item_of(inv.selection).amount == 0 ==> inv.after_purchase() == inv,
        forall|s: Selection| s != inv.selection ==> #[trigger] inv.after_purchase().item_of(s) == inv.item_of(s),
{
    assert forall|s: Selection| s != inv.selection implies #[trigger] inv.after_purchase().item_of(s) == inv.item_of(s) by {
        match s {
            Selection::Hotdog => {},
            Selection::Sandwich => {},
            Selection::EnergyDrink => {},
        }
    }
}

/// Moving the cursor changes only the highlights: every item keeps its
/// stock and its "bought" marker, and only the newly selected item is
/// highlighted.
pub proof fn lemma_select_keeps_stock(inv: Inventory)
    ensures
        forall|s: Selection| #[trigger] inv.after_select().item_of(s).amount == inv.item_of(s).amount,
        forall|s: Selection| #[trigger] inv.after_select().item_of(s).purchased == inv.item_of(s).purchased,
        forall|s: Selection| #[trigger] inv.after_select().item_of(s).highlighted == (s == inv.after_select().selection),
        inv.after_select().total_stock() == inv.total_stock(),
{
    assert forall|s: Selection| #[trigger] inv.after_select().item_of(s).amount == inv.item_of(s).amount by {
        match s {
            Selection::Hotdog => {},
            Selection::Sandwich => {},
            Selection::EnergyDrink => {},
        }
    }
    assert forall|s: Selection| #[trigger] inv.after_select().item_of(s).purchased == inv.item_of(s).purchased by {
        match s {
            Selection::Hotdog => {},
            Selection::Sandwich => {},
            Selection::EnergyDrink => {},
        }
    }
    assert forall|s: Selection| #[trigger] inv.after_select().item_of(s).highlighted == (s == inv.after_select().selection) by {
        match s {
            Selection::Hotdog => {},
            Selection::Sandwich => {},
            Selection::EnergyDrink => {},
        }
    }
}

/// The cursor visits the three items in a fixed round: hot dog, sandwich,
/// energy drink, and back.
pub proof fn lemma_cursor_round(s: Selection)
    ensures
        s == Selection::Hotdog ==> next_selection(s) == Selection::Sandwich,
        s == Selection::Sandwich ==> next_selection(s) == Selection::EnergyDrink,
        s == Selection::EnergyDrink ==> next_selection(s) == Selection::Hotdog,
{
}

/// On a consistent screen, three presses of the middle button bring back
/// exactly the inventory that was there: cursor, highlights, stock and
/// markers.
pub proof fn lemma_three_selects_restore(inv: Inventory)
    requires
        inv.wf(),
    ensures
        inv.after_select().after_select().after_select() == inv,
{
    assert(inv.item_of(Selection::Hotdog).highlighted == (Selection::Hotdog == inv.selection));
    assert(inv.item_of(Selection::Sandwich).highlighted == (Selection::Sandwich == inv.selection));
    assert(inv.item_of(Selection::EnergyDrink).highlighted == (Selection::EnergyDrink == inv.selection));
}

/// Moving the cursor leaves the screen consistent, whatever it showed before
/// as highlights, as long as no "bought" marker was on.
pub proof fn lemma_select_keeps_wf(inv: Inventory)
    requires
        forall|s: Selection| !#[trigger] inv.item_of(s).purchased,
    ensures
        inv.after_select().wf(),
        inv.after_select().selection == next_selection(inv.selection),
{
    let r = inv.after_select();
    assert forall|s: Selection| #[trigger] r.item_of(s).highlighted == (s == r.selection) by {
        match s {
            Selection::Hotdog => {},
            Selection::Sandwich => {},
            Selection::EnergyDrink => {},
        }
    }
    assert forall|s: Selection| !#[trigger] r.item_of(s).purchased by {
        assert(!inv.item_of(s).purchased);
        match s {
            Selection::Hotdog => {},
            Selection::Sandwich => {},
            Selection::EnergyDrink => {},
        }
    }
}

/// A sale keeps the screen consistent and the cursor where it is; it sells
/// exactly one unit of the selected item when one is left, touches no other
/// item, and leaves everything as it was when the item is sold out.
pub proof fn lemma_purchase_effect(inv: Inventory)
    requires
        inv.wf(),
    ensures
        inv.after_purchase().wf(),
        inv.after_purchase().selection == inv.selection,
        in_stock(inv.item_of(inv.selection)) ==> inv.after_purchase().item_of(inv.selection).amount
            == inv.item_of(inv.selection).amount - 1,
        in_stock(inv.item_of(inv.selection)) ==> inv.after_purchase().total_stock() == inv.total_stock() - 1,
        !in_stock(inv.item_of(inv.selection)) ==> inv.after_purchase() == inv,
        forall|s: Selection| s != inv.selection ==> #[trigger] inv.after_purchase().item_of(s) == inv.item_of(s),
{
    let r = inv.after_purchase();
    assert forall|s: Selection| #[trigger] r.item_of(s).highlighted == (s == r.selection) by {
        assert(inv.item_of(s).highlighted == (s == inv.selection));
        match s {
            Selection::Hotdog => {},
            Selection::Sandwich => {},
            Selection::EnergyDrink => {},
        }
    }
    assert forall|s: Selection| !#[trigger] r.item_of(s).purchased by {
        assert(!inv.item_of(s).purchased);
        match s {
            Selection::Hotdog => {},
            Selection::Sandwich => {},
            Selection::EnergyDrink => {},
        }
    }
    assert forall|s: Selection| s != inv.selection implies #[trigger] r.item_of(s) == inv.item_of(s) by {
        match s {
            Selection::Hotdog => {},
            Selection::Sandwich => {},
            Selection::EnergyDrink => {},
        }
    }
}

} // verus!
