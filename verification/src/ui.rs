//! User-interface vocabulary: HUD elements, inventory and settings tabs.

use vstd::prelude::*;
use crate::item::ItemStack;
use crate::inventory::{Inventory, slot_empty, total, cnt, lemma_total_update};
use crate::item::ItemId;

verus! {

/// Heads-up display elements.
#[derive(Debug, Clone, Copy, PartialEq, Eq, Structural, Hash)]
pub enum HudElement {
    Health,
    Hunger,
    Armor,
    Experience,
    Hotbar,
    DebugInfo,
    Crosshair,
    BossBar,
    Scoreboard,
    Chat,
    PlayerList,
    Subtitle,
    Title,
    ActionBar,
}

impl HudElement {
    /// Every HUD element, in declaration order.
    pub fn all() -> (a: [HudElement; 14])
        ensures
            a@ == seq![
                HudElement::Health,
                HudElement::Hunger,
                HudElement::Armor,
                HudElement::Experience,
                HudElement::Hotbar,
                HudElement::DebugInfo,
                HudElement::Crosshair,
                HudElement::BossBar,
                HudElement::Scoreboard,
                HudElement::Chat,
                HudElement::PlayerList,
                HudElement::Subtitle,
                HudElement::Title,
                HudElement::ActionBar,
            ],
    {
        let a = [
            HudElement::Health,
            HudElement::Hunger,
            HudElement::Armor,
            HudElement::Experience,
            HudElement::Hotbar,
            HudElement::DebugInfo,
            HudElement::Crosshair,
            HudElement::BossBar,
            HudElement::Scoreboard,
            HudElement::Chat,
            HudElement::PlayerList,
            HudElement::Subtitle,
            HudElement::Title,
            HudElement::ActionBar,
        ];
        assert(a@ =~= seq![
                HudElement::Health,
                HudElement::Hunger,
                HudElement::Armor,
                HudElement::Experience,
                HudElement::Hotbar,
                HudElement::DebugInfo,
                HudElement::Crosshair,
                HudElement::BossBar,
                HudElement::Scoreboard,
                HudElement::Chat,
                HudElement::PlayerList,
                HudElement::Subtitle,
                HudElement::Title,
                HudElement::ActionBar,
            ]);
        a
    }
}

/// Tabs of the inventory window.
#[derive(Debug, Clone, Copy, PartialEq, Eq, Structural, Hash)]
pub enum InventoryTab {
    Inventory,
    Crafting,
    Armor,
    Enchants,
    Anvil,
    Beacon,
    Breeding,
}

impl InventoryTab {
    /// Every tab, in declaration order.
    pub fn all() -> (a: [InventoryTab; 7])
        ensures
            a@ == seq![
                InventoryTab::Inventory,
                InventoryTab::Crafting,
                InventoryTab::Armor,
                InventoryTab::Enchants,
                InventoryTab::Anvil,
                InventoryTab::Beacon,
                InventoryTab::Breeding,
            ],
    {
        let a = [
            InventoryTab::Inventory,
            InventoryTab::Crafting,
            InventoryTab::Armor,
            InventoryTab::Enchants,
            InventoryTab::Anvil,
            InventoryTab::Beacon,
            InventoryTab::Breeding,
        ];
        assert(a@ =~= seq![
                InventoryTab::Inventory,
                InventoryTab::Crafting,
                InventoryTab::Armor,
                InventoryTab::Enchants,
                InventoryTab::Anvil,
                InventoryTab::Beacon,
                InventoryTab::Breeding,
            ]);
        a
    }

    /// The label shown for the tab.
    pub fn name(&self) -> (s: &'static str)
        ensures
            s@ == (match *self {
                InventoryTab::Inventory => "Inventory"@,
                InventoryTab::Crafting => "Crafting"@,
                InventoryTab::Armor => "Armor"@,
                InventoryTab::Enchants => "Enchanting"@,
                InventoryTab::Anvil => "Anvil"@,
                InventoryTab::Beacon => "Beacon"@,
                InventoryTab::Breeding => "Breeding"@,
            }),
    {
        match self {
            InventoryTab::Inventory => "Inventory",
            InventoryTab::Crafting => "Crafting",
            InventoryTab::Armor => "Armor",
            InventoryTab::Enchants => "Enchanting",
            InventoryTab::Anvil => "Anvil",
            InventoryTab::Beacon => "Beacon",
            InventoryTab::Breeding => "Breeding",
        }
    }
}

/// An item being dragged between inventory slots.
#[derive(Debug, Clone)]
pub struct DragState {
    pub source_slot: usize,
    pub source_inventory: String,
    pub item: ItemStack,
}

/// Tabs of the settings window.
#[derive(Debug, Clone, Copy, PartialEq, Eq, Structural, Hash)]
pub enum SettingsTab {
    Graphics,
    Audio,
    Controls,
    Gameplay,
    RemotePlay,
}

impl SettingsTab {
    /// Every tab, in declaration order.
    pub fn all() -> (a: [SettingsTab; 5])
        ensures
            a@ == seq![
                SettingsTab::Graphics,
                SettingsTab::Audio,
                SettingsTab::Controls,
                SettingsTab::Gameplay,
                SettingsTab::RemotePlay,
            ],
    {
        let a = [
            SettingsTab::Graphics,
            SettingsTab::Audio,
            SettingsTab::Controls,
            SettingsTab::Gameplay,
            SettingsTab::RemotePlay,
        ];
        assert(a@ =~= seq![
                SettingsTab::Graphics,
                SettingsTab::Audio,
                SettingsTab::Controls,
                SettingsTab::Gameplay,
                SettingsTab::RemotePlay,
            ]);
        a
    }

    /// The label shown for the tab.
    pub fn name(&self) -> (s: &'static str)
        ensures
            s@ == (match *self {
                SettingsTab::Graphics => "Graphics"@,
                SettingsTab::Audio => "Audio"@,
                SettingsTab::Controls => "Controls"@,
                SettingsTab::Gameplay => "Gameplay"@,
                SettingsTab::RemotePlay => "Remote Play"@,
            }),
    {
        match self {
            SettingsTab::Graphics => "Graphics",
            SettingsTab::Audio => "Audio",
            SettingsTab::Controls => "Controls",
            SettingsTab::Gameplay => "Gameplay",
            SettingsTab::RemotePlay => "Remote Play",
        }
    }
}

/// Graphics quality presets.
#[derive(Debug, Clone, Copy, PartialEq, Eq, Structural, Hash)]
pub enum QualityPreset {
    Fast,
    Balanced,
    Fancy,
    Ultra,
}

impl Default for QualityPreset {
    fn default() -> (q: Self)
        ensures
            q == QualityPreset::Balanced,
    {
        QualityPreset::Balanced
    }
}

/// `s` with slot `i` holding `v`, where there is such a slot.
pub open spec fn put(s: Seq<Option<ItemStack>>, i: int, v: Option<ItemStack>) -> Seq<Option<ItemStack>> {
    if 0 <= i < s.len() { s.update(i, v) } else { s }
}

/// The slots `s` after a stack `item` dragged from slot `source` is dropped
/// on slot `slot`: onto a slot holding items it trades places with them,
/// otherwise it lands there and the source slot is emptied.
pub open spec fn dropped(s: Seq<Option<ItemStack>>, source: int, item: ItemStack, slot: int) -> Seq<Option<ItemStack>> {
    if 0 <= slot < s.len() && !slot_empty(s[slot]) {
        put(put(s, source, s[slot]), slot, Some(item))
    } else {
        put(put(s, slot, Some(item)), source, None)
    }
}

/// Dropping a dragged stack on another slot of the inventory it was taken
/// from, while the source slot still holds it, keeps how many of every item
/// the inventory holds.
pub proof fn law_drop_conserves(s: Seq<Option<ItemStack>>, source: int, item: ItemStack, slot: int, id: ItemId)
    requires
        0 <= source < s.len(),
        0 <= slot < s.len(),
        source != slot,
        s[source] == Some(item),
    ensures
        total(dropped(s, source, item, slot), id) == total(s, id),
{
    if !slot_empty(s[slot]) {
        lemma_total_update(s, source, s[slot], id);
        lemma_total_update(s.update(source, s[slot]), slot, Some(item), id);
    } else {
        lemma_total_update(s, slot, Some(item), id);
        lemma_total_update(s.update(slot, Some(item)), source, None, id);
    }
}

/// Puts `item` in slot `i` of `inventory`, if it has that slot.
fn put_slot(inventory: &mut Inventory, i: usize, item: Option<ItemStack>)
    ensures
        final(inventory)@ == put(old(inventory)@, i as int, item),
        final(inventory).hotbar_len() == old(inventory).hotbar_len(),
        final(inventory).selected() == old(inventory).selected(),
{
    match inventory.get_slot_mut(i) {
        Some(slot) => {
            slot.item = item;
        },
        None => {},
    }
}

/// The inventory window: whether it is open, its tab, the stack being
/// dragged and where from, and the slot under the pointer.
#[derive(Debug, Clone)]
pub struct InventoryUI {
    is_open: bool,
    current_tab: InventoryTab,
    drag_slot: Option<usize>,
    drag_state: Option<DragState>,
    hovered_slot: Option<usize>,
    hovered_inventory: String,
}

impl InventoryUI {
    pub closed spec fn opened(&self) -> bool {
        self.is_open
    }

    pub closed spec fn tab(&self) -> InventoryTab {
        self.current_tab
    }

    /// The slot a drag started from.
    pub closed spec fn drag_source(&self) -> Option<usize> {
        self.drag_slot
    }

    /// The drag in progress.
    pub closed spec fn drag(&self) -> Option<DragState> {
        self.drag_state
    }

    pub closed spec fn hovered(&self) -> Option<usize> {
        self.hovered_slot
    }

    /// The name of the inventory under the pointer.
    pub closed spec fn hovered_inventory_name(&self) -> Seq<char> {
        self.hovered_inventory@
    }

    /// A closed window on the inventory tab, with nothing dragged or hovered
    /// over the main inventory.
    pub fn new() -> (u: Self)
        ensures
            !u.opened(),
            u.tab() == InventoryTab::Inventory,
            u.drag_source() is None,
            u.drag() is None,
            u.hovered() is None,
            u.hovered_inventory_name() == "main"@,
    {
        InventoryUI {
            is_open: false,
            current_tab: InventoryTab::Inventory,
            drag_slot: None,
            drag_state: None,
            hovered_slot: None,
            hovered_inventory: "main".to_owned(),
        }
    }

    pub fn open(&mut self)
        ensures
            final(self).opened(),
            final(self).tab() == old(self).tab(),
            final(self).drag_source() == old(self).drag_source(),
            final(self).drag() == old(self).drag(),
            final(self).hovered() == old(self).hovered(),
            final(self).hovered_inventory_name() == old(self).hovered_inventory_name(),
    {
        self.is_open = true;
    }

    /// Closes the window and drops any drag and hover.
    pub fn close(&mut self)
        ensures
            !final(self).opened(),
            final(self).tab() == old(self).tab(),
            final(self).drag_source() is None,
            final(self).drag() is None,
            final(self).hovered() is None,
            final(self).hovered_inventory_name() == old(self).hovered_inventory_name(),
    {
        self.is_open = false;
        self.drag_slot = None;
        self.drag_state = None;
        self.hovered_slot = None;
    }

    /// Opens a closed window, closes an open one.
    pub fn toggle(&mut self)
        ensures
            final(self).opened() == !old(self).opened(),
            final(self).tab() == old(self).tab(),
            old(self).opened() ==> final(self).drag_source() is None && final(self).drag() is None
                && final(self).hovered() is None,
            !old(self).opened() ==> final(self).drag_source() == old(self).drag_source()
                && final(self).drag() == old(self).drag() && final(self).hovered() == old(self).hovered(),
            final(self).hovered_inventory_name() == old(self).hovered_inventory_name(),
    {
        if self.is_open {
            self.close();
        } else {
            self.open();
        }
    }

    pub fn is_open(&self) -> (b: bool)
        ensures
            b == self.opened(),
    {
        self.is_open
    }

    pub fn set_tab(&mut self, tab: InventoryTab)
        ensures
            final(self).tab() == tab,
            final(self).opened() == old(self).opened(),
            final(self).drag_source() == old(self).drag_source(),
            final(self).drag() == old(self).drag(),
            final(self).hovered() == old(self).hovered(),
            final(self).hovered_inventory_name() == old(self).hovered_inventory_name(),
    {
        self.current_tab = tab;
    }

    pub fn current_tab(&self) -> (t: InventoryTab)
        ensures
            t == self.tab(),
    {
        self.current_tab
    }

    /// Starts dragging `item` from slot `slot` of inventory `inventory`.
    pub fn start_drag(&mut self, slot: usize, item: ItemStack, inventory: &str)
        ensures
            final(self).drag_source() == Some(slot),
            final(self).drag() matches Some(d) && d.source_slot == slot && d.source_inventory@ == inventory@
                && d.item == item,
            final(self).hovered_inventory_name() == inventory@,
            final(self).opened() == old(self).opened(),
            final(self).tab() == old(self).tab(),
            final(self).hovered() == old(self).hovered(),
    {
        self.drag_slot = Some(slot);
        self.hovered_inventory = inventory.to_owned();
        self.drag_state = Some(DragState { source_slot: slot, source_inventory: inventory.to_owned(), item });
    }

    /// Ends the drag in progress and hands it back.
    pub fn end_drag(&mut self) -> (r: Option<DragState>)
        ensures
            r == old(self).drag(),
            final(self).drag_source() is None,
            final(self).drag() is None,
            final(self).opened() == old(self).opened(),
            final(self).tab() == old(self).tab(),
            final(self).hovered() == old(self).hovered(),
            final(self).hovered_inventory_name() == old(self).hovered_inventory_name(),
    {
        self.drag_slot = None;
        self.drag_state.take()
    }

    pub fn is_dragging(&self) -> (b: bool)
        ensures
            b == self.drag() is Some,
    {
        self.drag_state.is_some()
    }

    pub fn get_drag_state(&self) -> (r: Option<&DragState>)
        ensures
            match r {
                Some(d) => self.drag() == Some(*d),
                None => self.drag() is None,
            },
    {
        match &self.drag_state {
            Some(d) => Some(d),
            None => None,
        }
    }

    pub fn set_hovered(&mut self, slot: Option<usize>, inventory: &str)
        ensures
            final(self).hovered() == slot,
            final(self).hovered_inventory_name() == inventory@,
            final(self).opened() == old(self).opened(),
            final(self).tab() == old(self).tab(),
            final(self).drag_source() == old(self).drag_source(),
            final(self).drag() == old(self).drag(),
    {
        self.hovered_slot = slot;
        self.hovered_inventory = inventory.to_owned();
    }

    pub fn get_hovered(&self) -> (r: (Option<usize>, &str))
        ensures
            r.0 == self.hovered(),
            r.1@ == self.hovered_inventory_name(),
    {
        (self.hovered_slot, self.hovered_inventory.as_str())
    }

    /// A click on slot `slot`. While dragging, the dragged stack goes into the
    /// slot: a stack already there goes back to the drag's source slot,
    /// otherwise the source slot is emptied (also when the clicked slot does
    /// not exist), and the drag ends. Without a drag, clicking a slot that
    /// holds items starts dragging them.
    pub fn handle_slot_click(&mut self, slot: usize, inventory: &str, inventory_ref: &mut Inventory)
        ensures
            final(inventory_ref).hotbar_len() == old(inventory_ref).hotbar_len(),
            final(inventory_ref).selected() == old(inventory_ref).selected(),
            final(self).opened() == old(self).opened(),
            final(self).tab() == old(self).tab(),
            final(self).hovered() == old(self).hovered(),
            match old(self).drag() {
                Some(d) => {
                    &&& final(inventory_ref)@ == dropped(old(inventory_ref)@, d.source_slot as int, d.item, slot as int)
                    &&& final(self).drag() is None
                    &&& final(self).drag_source() is None
                    &&& final(self).hovered_inventory_name() == old(self).hovered_inventory_name()
                },
                None => {
                    &&& final(inventory_ref)@ == old(inventory_ref)@
                    &&& if slot < old(inventory_ref)@.len() && !slot_empty(old(inventory_ref)@[slot as int]) {
                        &&& final(self).drag_source() == Some(slot)
                        &&& final(self).drag() matches Some(nd) && nd.source_slot == slot
                            && nd.source_inventory@ == inventory@
                            && Some(nd.item) == old(inventory_ref)@[slot as int]
                        &&& final(self).hovered_inventory_name() == inventory@
                    } else {
                        &&& final(self).drag() is None
                        &&& final(self).drag_source() == old(self).drag_source()
                        &&& final(self).hovered_inventory_name() == old(self).hovered_inventory_name()
                    }
                },
            },
    {
        match &self.drag_state {
            Some(drag) => {
                let source = drag.source_slot;
                let item = drag.item;
                match inventory_ref.get_slot(slot) {
                    Some(target) => {
                        if !target.is_empty() {
                            let target_item = target.item;
                            put_slot(inventory_ref, source, target_item);
                            put_slot(inventory_ref, slot, Some(item));
                        } else {
                            put_slot(inventory_ref, slot, Some(item));
                            put_slot(inventory_ref, source, None);
                        }
                    },
                    None => {
                        put_slot(inventory_ref, slot, Some(item));
                        put_slot(inventory_ref, source, None);
                    },
                }
                self.end_drag();
            },
            None => {
                match inventory_ref.get_slot(slot) {
                    Some(target) => {
                        if !target.is_empty() {
                            match target.item {
                                Some(item) => self.start_drag(slot, item, inventory),
                                None => {},
                            }
                        }
                    },
                    None => {},
                }
            },
        }
    }
}

impl Default for InventoryUI {
    fn default() -> (u: Self)
        ensures
            !u.opened(),
            u.tab() == InventoryTab::Inventory,
            u.drag() is None,
            u.hovered() is None,
    {
        Self::new()
    }
}

/// The place of `e` among the HUD elements, in declaration order.
pub open spec fn hud_index(e: HudElement) -> int {
    match e {
        HudElement::Health => 0,
        HudElement::Hunger => 1,
        HudElement::Armor => 2,
        HudElement::Experience => 3,
        HudElement::Hotbar => 4,
        HudElement::DebugInfo => 5,
        HudElement::Crosshair => 6,
        HudElement::BossBar => 7,
        HudElement::Scoreboard => 8,
        HudElement::Chat => 9,
        HudElement::PlayerList => 10,
        HudElement::Subtitle => 11,
        HudElement::Title => 12,
        HudElement::ActionBar => 13,
    }
}

fn hud_slot(e: HudElement) -> (i: usize)
    ensures
        i == hud_index(e),
{
    match e {
        HudElement::Health => 0,
        HudElement::Hunger => 1,
        HudElement::Armor => 2,
        HudElement::Experience => 3,
        HudElement::Hotbar => 4,
        HudElement::DebugInfo => 5,
        HudElement::Crosshair => 6,
        HudElement::BossBar => 7,
        HudElement::Scoreboard => 8,
        HudElement::Chat => 9,
        HudElement::PlayerList => 10,
        HudElement::Subtitle => 11,
        HudElement::Title => 12,
        HudElement::ActionBar => 13,
    }
}

/// Which HUD elements show, and the HUD toggles. Where each element sits on
/// screen, its scale and colour, is floating point and kept by the game.
#[derive(Debug, Clone)]
pub struct HudManager {
    visible: Vec<bool>,
    show_debug: bool,
    show_hotbar: bool,
    show_crosshair: bool,
    show_fps: bool,
    show_coords: bool,
}

impl HudManager {
    /// Whether element `e` shows.
    pub closed spec fn shows(&self, e: HudElement) -> bool {
        self.visible@[hud_index(e)]
    }

    /// The debug, hotbar, crosshair, frame-rate and coordinates toggles.
    pub closed spec fn toggles(&self) -> (bool, bool, bool, bool, bool) {
        (self.show_debug, self.show_hotbar, self.show_crosshair, self.show_fps, self.show_coords)
    }

    pub closed spec fn wf(&self) -> bool {
        self.visible@.len() == 14
    }

    /// Every element shows but the debug panel; the debug panel is toggled
    /// off and every other toggle on.
    pub fn new() -> (h: Self)
        ensures
            h.wf(),
            forall|e: HudElement| #[trigger] h.shows(e) == (e != HudElement::DebugInfo),
            h.toggles() == (false, true, true, true, true),
    {
        let mut visible: Vec<bool> = Vec::new();
        let mut i: usize = 0;
        while i < 14
            invariant
                i <= 14,
                visible.len() == i,
                forall|j: int| 0 <= j < i ==> visible@[j] == (j != 5),
            decreases 14 - i,
        {
            visible.push(i != 5);
            i = i + 1;
        }
        HudManager { visible, show_debug: false, show_hotbar: true, show_crosshair: true, show_fps: true, show_coords: true }
    }

    /// Flips the debug toggle; the debug panel shows exactly when it is on.
    pub fn toggle_debug(&mut self)
        requires
            old(self).wf(),
        ensures
            final(self).wf(),
            final(self).toggles() == (!old(self).toggles().0, old(self).toggles().1, old(self).toggles().2, old(self).toggles().3, old(self).toggles().4),
            final(self).shows(HudElement::DebugInfo) == final(self).toggles().0,
            forall|e: HudElement| e != HudElement::DebugInfo ==> #[trigger] final(self).shows(e) == old(self).shows(e),
    {
        self.show_debug = !self.show_debug;
        let v = self.show_debug;
        self.visible.set(hud_slot(HudElement::DebugInfo), v);
    }

    /// Flips the hotbar toggle; the hotbar shows exactly when it is on.
    pub fn toggle_hotbar(&mut self)
        requires
            old(self).wf(),
        ensures
            final(self).wf(),
            final(self).toggles() == (old(self).toggles().0, !old(self).toggles().1, old(self).toggles().2, old(self).toggles().3, old(self).toggles().4),
            final(self).shows(HudElement::Hotbar) == final(self).toggles().1,
            forall|e: HudElement| e != HudElement::Hotbar ==> #[trigger] final(self).shows(e) == old(self).shows(e),
    {
        self.show_hotbar = !self.show_hotbar;
        let v = self.show_hotbar;
        self.visible.set(hud_slot(HudElement::Hotbar), v);
    }

    /// Flips the crosshair toggle; the crosshair shows exactly when it is on.
    pub fn toggle_crosshair(&mut self)
        requires
            old(self).wf(),
        ensures
            final(self).wf(),
            final(self).toggles() == (old(self).toggles().0, old(self).toggles().1, !old(self).toggles().2, old(self).toggles().3, old(self).toggles().4),
            final(self).shows(HudElement::Crosshair) == final(self).toggles().2,
            forall|e: HudElement| e != HudElement::Crosshair ==> #[trigger] final(self).shows(e) == old(self).shows(e),
    {
        self.show_crosshair = !self.show_crosshair;
        let v = self.show_crosshair;
        self.visible.set(hud_slot(HudElement::Crosshair), v);
    }

    /// Shows or hides element `element`; the toggles stay as they are.
    pub fn set_element_visible(&mut self, element: HudElement, visible: bool)
        requires
            old(self).wf(),
        ensures
            final(self).wf(),
            final(self).toggles() == old(self).toggles(),
            final(self).shows(element) == visible,
            forall|e: HudElement| e != element ==> #[trigger] final(self).shows(e) == old(self).shows(e),
    {
        self.visible.set(hud_slot(element), visible);
    }

    pub fn is_element_visible(&self, element: HudElement) -> (b: bool)
        requires
            self.wf(),
        ensures
            b == self.shows(element),
    {
        self.visible[hud_slot(element)]
    }

    pub fn is_debug_visible(&self) -> (b: bool)
        ensures
            b == self.toggles().0,
    {
        self.show_debug
    }

    pub fn is_hotbar_visible(&self) -> (b: bool)
        ensures
            b == self.toggles().1,
    {
        self.show_hotbar
    }

    pub fn is_crosshair_visible(&self) -> (b: bool)
        ensures
            b == self.toggles().2,
    {
        self.show_crosshair
    }

    pub fn is_fps_visible(&self) -> (b: bool)
        ensures
            b == self.toggles().3,
    {
        self.show_fps
    }

    pub fn is_coords_visible(&self) -> (b: bool)
        ensures
            b == self.toggles().4,
    {
        self.show_coords
    }
}

impl Default for HudManager {
    fn default() -> (h: Self)
        ensures
            h.wf(),
            forall|e: HudElement| #[trigger] h.shows(e) == (e != HudElement::DebugInfo),
            h.toggles() == (false, true, true, true, true),
    {
        Self::new()
    }
}

/// The settings window: its tab, whether the settings were changed since it
/// opened, and the settings (`S`) as they were when it opened.
#[derive(Debug, Clone)]
pub struct SettingsUI<S> {
    pub active_tab: SettingsTab,
    pub has_unsaved_changes: bool,
    pub settings_backup: Option<S>,
}

impl<S> SettingsUI<S> {
    /// On the graphics tab, unchanged, with nothing saved.
    pub fn new() -> (u: Self)
        ensures
            u.active_tab == SettingsTab::Graphics,
            !u.has_unsaved_changes,
            u.settings_backup is None,
    {
        SettingsUI { active_tab: SettingsTab::Graphics, has_unsaved_changes: false, settings_backup: None }
    }

    /// Opens the window on `settings`: keeps a copy of them and starts
    /// unchanged.
    pub fn open(&mut self, settings: &S)
        where S: Clone,
        ensures
            final(self).active_tab == old(self).active_tab,
            !final(self).has_unsaved_changes,
            final(self).settings_backup matches Some(b) && cloned(*settings, b),
    {
        self.settings_backup = Some(settings.clone());
        self.has_unsaved_changes = false;
    }

    /// Closes the window: after changes, hands back (and forgets) the copy
    /// kept when it opened; without changes, hands back nothing.
    pub fn close(&mut self) -> (r: Option<S>)
        ensures
            final(self).active_tab == old(self).active_tab,
            final(self).has_unsaved_changes == old(self).has_unsaved_changes,
            if old(self).has_unsaved_changes {
                r == old(self).settings_backup && final(self).settings_backup is None
            } else {
                r is None && final(self).settings_backup == old(self).settings_backup
            },
    {
        if self.has_unsaved_changes {
            self.settings_backup.take()
        } else {
            None
        }
    }

    pub fn mark_changed(&mut self)
        ensures
            final(self).active_tab == old(self).active_tab,
            final(self).has_unsaved_changes,
            final(self).settings_backup == old(self).settings_backup,
    {
        self.has_unsaved_changes = true;
    }

    /// The settings kept when the window opened, now forgotten; the default
    /// settings when none were kept.
    pub fn revert(&mut self) -> (r: S)
        where S: Default,
        ensures
            final(self).active_tab == old(self).active_tab,
            final(self).has_unsaved_changes == old(self).has_unsaved_changes,
            final(self).settings_backup is None,
            old(self).settings_backup matches Some(b) ==> r == b,
            old(self).settings_backup is None ==> call_ensures(S::default, (), r),
    {
        match self.settings_backup.take() {
            Some(b) => b,
            None => S::default(),
        }
    }

    pub fn is_modified(&self) -> (b: bool)
        ensures
            b == self.has_unsaved_changes,
    {
        self.has_unsaved_changes
    }
}

impl<S> Default for SettingsUI<S> {
    fn default() -> (u: Self)
        ensures
            u.active_tab == SettingsTab::Graphics,
            !u.has_unsaved_changes,
            u.settings_backup is None,
    {
        Self::new()
    }
}

} // verus!
