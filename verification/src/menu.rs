use vstd::prelude::*;
use std::collections::HashMap;
use crate::consts::{
    MF_BYPOSITION, MF_CHECKED, MF_DISABLED, MF_ENABLED, MF_GRAYED, MF_UNCHECKED, MFS_CHECKED,
    MFT_SEPARATOR, MFT_STRING, MIIM_CHECKMARKS, MIIM_FTYPE, MIIM_ID, MIIM_STATE, MIIM_STRING,
};
use crate::event::{SystrayAction, SystrayEvent};
use crate::wide::{to_wstring, wide_string};

verus! {

broadcast use vstd::std_specs::hash::group_hash_axioms;

/// How a menu item can be enabled.
pub enum MenuEnableFlag {
    Enabled,
    Disabled,
    Grayed,
}

/// The `EnableMenuItem` flags for `enable`: the item is addressed by position.
pub open spec fn enable_flags_spec(enable: MenuEnableFlag) -> u32 {
    match enable {
        MenuEnableFlag::Enabled => MF_BYPOSITION | MF_ENABLED,
        MenuEnableFlag::Disabled => MF_BYPOSITION | MF_DISABLED,
        MenuEnableFlag::Grayed => MF_BYPOSITION | MF_GRAYED,
    }
}

/// The flags that `enable_menu_item` passes to `EnableMenuItem`.
pub fn enable_flags(enable: MenuEnableFlag) -> (flags: u32)
    ensures
        flags == enable_flags_spec(enable),
{
    MF_BYPOSITION | match enable {
        MenuEnableFlag::Enabled => MF_ENABLED,
        MenuEnableFlag::Disabled => MF_DISABLED,
        MenuEnableFlag::Grayed => MF_GRAYED,
    }
}

/// The flags that `select_menu_item` (`checked`) and `unselect_menu_item`
/// (not `checked`) pass to `CheckMenuItem`: the item is addressed by position.
pub fn check_flags(checked: bool) -> (flags: u32)
    ensures
        flags == (if checked { MF_BYPOSITION | MF_CHECKED } else { MF_BYPOSITION | MF_UNCHECKED }),
{
    if checked {
        MF_BYPOSITION | MF_CHECKED
    } else {
        MF_BYPOSITION | MF_UNCHECKED
    }
}

/// The fields of a MENUITEMINFOW record that this library sets; all the
/// others are zero.
pub struct MenuItemInfo {
    /// `fMask`: which fields are valid.
    pub mask: u32,
    /// `fType`: a string or a separator.
    pub item_type: u32,
    /// `fState`: checked or not.
    pub state: u32,
    /// `wID`: the item's identifier, which is also its position.
    pub id: u32,
    /// `dwTypeData`: the item's NUL-terminated wide text, if it has one.
    pub text: Option<Vec<u16>>,
    /// `cch`: the length value passed with the text.
    pub text_len: u32,
}

/// The mask of the fields that a text item sets.
pub open spec fn entry_mask() -> u32 {
    MIIM_FTYPE | MIIM_STRING | MIIM_ID | MIIM_STATE | MIIM_CHECKMARKS
}

/// The length value that `add_menu_entry` passes with an item text of
/// `byte_len` UTF-8 bytes: twice the byte length, cut to 32 bits.
pub open spec fn entry_text_len(byte_len: nat) -> u32 {
    ((byte_len * 2) % 0x1_0000_0000) as u32
}

/// The abstract state of a tray menu: how many items it has (the position
/// the next one gets), the callbacks of its items by identifier, and
/// whether the popup menu is on screen.
pub struct MenuModel<C> {
    pub count: nat,
    pub callbacks: Map<u32, C>,
    pub displayed: bool,
}

/// The state of a new tray menu: empty, no callbacks, not displayed.
pub open spec fn model_new<C>() -> MenuModel<C> {
    MenuModel { count: 0, callbacks: Map::empty(), displayed: false }
}

/// Adding an item (text or separator) appends it at the end.
pub open spec fn model_add<C>(m: MenuModel<C>) -> MenuModel<C> {
    MenuModel { count: m.count + 1, ..m }
}

/// Clearing removes every item; the callbacks stay registered.
pub open spec fn model_clear<C>(m: MenuModel<C>) -> MenuModel<C> {
    MenuModel { count: 0, ..m }
}

/// Registering a callback for an identifier replaces any earlier one.
pub open spec fn model_register<C>(m: MenuModel<C>, id: u32, c: C) -> MenuModel<C> {
    MenuModel { callbacks: m.callbacks.insert(id, c), ..m }
}

/// Whether handling `ev` hands out a callback: a selection of an item that
/// has one.
pub open spec fn event_takes_callback<C>(m: MenuModel<C>, ev: SystrayEvent) -> bool {
    ev.action == SystrayAction::SelectItem && m.callbacks.contains_key(ev.menu_index)
}

/// The state after handling `ev`: the popup is shown or hidden, or the
/// selected item's callback is taken out of the table while it runs.
pub open spec fn model_event<C>(m: MenuModel<C>, ev: SystrayEvent) -> MenuModel<C> {
    match ev.action {
        SystrayAction::DisplayMenu => MenuModel { displayed: true, ..m },
        SystrayAction::HideMenu => MenuModel { displayed: false, ..m },
        SystrayAction::SelectItem => if m.callbacks.contains_key(ev.menu_index) {
            MenuModel { callbacks: m.callbacks.remove(ev.menu_index), ..m }
        } else {
            m
        },
    }
}

/// What `wait_for_message` does after asking the event channel for a message.
pub enum WaitAction<C> {
    /// No message came (the channel is closed, or empty when not blocking):
    /// stop waiting, and join the window thread if the wait was blocking.
    Stop { join_window_thread: bool },
    /// A message was handled: run `callback`, if any, with the window, put it
    /// back under `menu_index`, then wait for the next message if
    /// `keep_waiting`.
    Handled { callback: Option<C>, menu_index: u32, keep_waiting: bool },
}

/// The menu bookkeeping of a tray window: the number of items, the
/// callbacks of the items that have one, and whether the popup is shown.
pub struct TrayMenu<C> {
    menu_idx: u32,
    callbacks: HashMap<u32, C>,
    menu_displayed: bool,
}

impl<C> TrayMenu<C> {
    /// The abstract state of this menu.
    pub closed spec fn model(&self) -> MenuModel<C> {
        MenuModel {
            count: self.menu_idx as nat,
            callbacks: self.callbacks@,
            displayed: self.menu_displayed,
        }
    }

    /// A menu with no items, no callbacks, not displayed.
    pub fn new() -> (m: TrayMenu<C>)
        ensures
            m.model() == model_new::<C>(),
    {
        TrayMenu { menu_idx: 0, callbacks: HashMap::new(), menu_displayed: false }
    }

    /// Whether the popup menu is on screen.
    pub fn menu_displayed(&self) -> (b: bool)
        ensures
            b == self.model().displayed,
    {
        self.menu_displayed
    }

    /// The number of items in the menu.
    pub fn menu_len(&self) -> (n: u32)
        ensures
            n == self.model().count,
    {
        self.menu_idx
    }

    /// Whether the item with identifier `id` has a callback.
    pub fn has_callback(&self, id: u32) -> (b: bool)
        ensures
            b == self.model().callbacks.contains_key(id),
    {
        self.callbacks.contains_key(&id)
    }

    /// Takes the next position, which is also the identifier of the item
    /// that goes there.
    fn next_index(&mut self) -> (idx: u32)
        requires
            old(self).model().count < u32::MAX,
        ensures
            idx == old(self).model().count,
            final(self).model() == model_add(old(self).model()),
            final(self).model().count == old(self).model().count + 1,
            final(self).model().callbacks == old(self).model().callbacks,
            final(self).model().displayed == old(self).model().displayed,
    {
        let idx = self.menu_idx;
        self.menu_idx = idx + 1;
        idx
    }

    /// Appends a text item (checked or not) at the end of the menu and
    /// returns the record to insert at its position, which is also its
    /// identifier.
    pub fn add_menu_entry(&mut self, item_name: &str, checked: bool) -> (item: MenuItemInfo)
        requires
            old(self).model().count < u32::MAX,
        ensures
            final(self).model() == model_add(old(self).model()),
            final(self).model().count == old(self).model().count + 1,
            final(self).model().callbacks == old(self).model().callbacks,
            final(self).model().displayed == old(self).model().displayed,
            item.id == old(self).model().count,
            item.mask == entry_mask(),
            item.item_type == MFT_STRING,
            item.state == (if checked { MFS_CHECKED } else { 0 }),
            item.text matches Some(t) && t@ == wide_string(item_name@),
            item.text_len == entry_text_len(item_name.len() as nat),
    {
        let st = to_wstring(item_name);
        let idx = self.next_index();
        let len: usize = item_name.len();
        let low: u64 = len as u64 % 0x8000_0000;
        proof {
            assert(((len as int % 0x8000_0000) * 2) == (len as int * 2) % 0x1_0000_0000)
                by (nonlinear_arith);
        }
        MenuItemInfo {
            mask: MIIM_FTYPE | MIIM_STRING | MIIM_ID | MIIM_STATE | MIIM_CHECKMARKS,
            item_type: MFT_STRING,
            state: if checked { MFS_CHECKED } else { 0 },
            id: idx,
            text: Some(st),
            text_len: (low * 2) as u32,
        }
    }

    /// Appends a separator at the end of the menu and returns the record to
    /// insert at its position, which is also its identifier.
    pub fn add_menu_separator(&mut self) -> (item: MenuItemInfo)
        requires
            old(self).model().count < u32::MAX,
        ensures
            final(self).model() == model_add(old(self).model()),
            final(self).model().count == old(self).model().count + 1,
            final(self).model().callbacks == old(self).model().callbacks,
            final(self).model().displayed == old(self).model().displayed,
            item.id == old(self).model().count,
            item.mask == MIIM_FTYPE,
            item.item_type == MFT_SEPARATOR,
            item.state == 0,
            item.text is None,
            item.text_len == 0,
    {
        let idx = self.next_index();
        MenuItemInfo {
            mask: MIIM_FTYPE,
            item_type: MFT_SEPARATOR,
            state: 0,
            id: idx,
            text: None,
            text_len: 0,
        }
    }

    /// Registers `callback` for the item with identifier `id`, replacing
    /// any callback registered for it before.
    pub fn set_callback(&mut self, id: u32, callback: C)
        ensures
            final(self).model() == model_register(old(self).model(), id, callback),
            final(self).model().callbacks == old(self).model().callbacks.insert(id, callback),
            final(self).model().count == old(self).model().count,
            final(self).model().displayed == old(self).model().displayed,
    {
        self.callbacks.insert(id, callback);
    }

    /// The positions that `clear_menu` deletes, in the order it deletes
    /// them: from the last item to the first.
    pub fn positions_to_clear(&self) -> (positions: Vec<u32>)
        ensures
            positions@.len() == self.model().count,
            forall|k: int|
                0 <= k < positions@.len() ==> #[trigger] positions@[k] == self.model().count - 1 - k,
    {
        let mut positions: Vec<u32> = Vec::new();
        let mut idx = self.menu_idx;
        while idx > 0
            invariant
                idx <= self.menu_idx,
                positions@.len() == self.menu_idx - idx,
                forall|k: int|
                    0 <= k < positions@.len() ==> #[trigger] positions@[k] == self.menu_idx - 1 - k,
            decreases idx,
        {
            positions.push(idx - 1);
            idx = idx - 1;
        }
        positions
    }

    /// Records that every item has been deleted: the next item goes to
    /// position 0. The callbacks stay registered.
    pub fn menu_cleared(&mut self)
        ensures
            final(self).model() == model_clear(old(self).model()),
    {
        self.menu_idx = 0;
    }

    /// Handles an event from the window: shows or hides the popup, or, for
    /// a selection of an item with a callback, takes that callback out of
    /// the table and hands it to the caller to run.
    pub fn handle_event(&mut self, ev: SystrayEvent) -> (taken: Option<C>)
        ensures
            final(self).model() == model_event(old(self).model(), ev),
            taken is Some <==> event_takes_callback(old(self).model(), ev),
            taken matches Some(c) ==> c == old(self).model().callbacks[ev.menu_index],
            final(self).model().count == old(self).model().count,
            ev.action == SystrayAction::SelectItem && old(self).model().callbacks.contains_key(
                ev.menu_index,
            ) ==> {
                &&& taken == Some(old(self).model().callbacks[ev.menu_index])
                &&& final(self).model().callbacks == old(self).model().callbacks.remove(ev.menu_index)
                &&& final(self).model().displayed == old(self).model().displayed
            },
            ev.action == SystrayAction::SelectItem && !old(self).model().callbacks.contains_key(
                ev.menu_index,
            ) ==> taken is None && final(self).model() == old(self).model(),
            ev.action == SystrayAction::DisplayMenu ==> taken is None && final(self).model().displayed
                && final(self).model().callbacks == old(self).model().callbacks,
            ev.action == SystrayAction::HideMenu ==> taken is None && !final(self).model().displayed
                && final(self).model().callbacks == old(self).model().callbacks,
    {
        match ev.action {
            SystrayAction::DisplayMenu => {
                self.menu_displayed = true;
                None
            },
            SystrayAction::HideMenu => {
                self.menu_displayed = false;
                None
            },
            SystrayAction::SelectItem => {
                if self.callbacks.contains_key(&ev.menu_index) {
                    self.callbacks.remove(&ev.menu_index)
                } else {
                    None
                }
            },
        }
    }

    /// One turn of `wait_for_message`: given what the channel gave (nothing
    /// when it is closed, or empty in a non-blocking wait), updates the menu
    /// and says what to do next.
    pub fn wait_step(&mut self, blocking: bool, received: Option<SystrayEvent>) -> (action: WaitAction<C>)
        ensures
            received is None ==> final(self).model() == old(self).model() && action == (WaitAction::<C>::Stop { join_window_thread: blocking }),
            received matches Some(ev) ==> {
                &&& final(self).model() == model_event(old(self).model(), ev)
                &&& action matches WaitAction::Handled { callback, menu_index, keep_waiting }
                &&& menu_index == ev.menu_index
                &&& keep_waiting == blocking
                &&& (callback is Some <==> event_takes_callback(old(self).model(), ev))
                &&& (callback matches Some(c) ==> c == old(self).model().callbacks[ev.menu_index])
                &&& (ev.action == SystrayAction::SelectItem && old(self).model().callbacks.contains_key(
                    ev.menu_index,
                ) ==> callback == Some(old(self).model().callbacks[ev.menu_index]))
            },
    {
        match received {
            None => WaitAction::Stop { join_window_thread: blocking },
            Some(ev) => {
                let callback = self.handle_event(ev);
                WaitAction::Handled { callback, menu_index: ev.menu_index, keep_waiting: blocking }
            },
        }
    }

    /// Puts a callback that `handle_event` handed out back under `id`.
    pub fn restore_callback(&mut self, id: u32, callback: C)
        ensures
            final(self).model() == model_register(old(self).model(), id, callback),
            final(self).model().callbacks == old(self).model().callbacks.insert(id, callback),
            final(self).model().count == old(self).model().count,
            final(self).model().displayed == old(self).model().displayed,
    {
        self.callbacks.insert(id, callback);
    }
}


/// Handling an event never changes how many items the menu has.
pub proof fn events_keep_menu_len<C>(m: MenuModel<C>, ev: SystrayEvent)
    ensures
        model_event(m, ev).count == m.count,
{
}

/// After the popup is shown it counts as displayed, and after it is
/// hidden it does not; neither event touches the callbacks.
pub proof fn display_and_hide<C>(m: MenuModel<C>)
    ensures
        model_event(m, SystrayEvent::display_menu_spec()).displayed,
        !model_event(m, SystrayEvent::hide_menu_spec()).displayed,
        model_event(m, SystrayEvent::display_menu_spec()).callbacks == m.callbacks,
        model_event(m, SystrayEvent::hide_menu_spec()).callbacks == m.callbacks,
{
}

/// A callback taken out to run on a selection, once put back under the
/// same identifier, leaves the menu exactly as it was.
pub proof fn select_then_restore<C>(m: MenuModel<C>, ev: SystrayEvent)
    requires
        event_takes_callback(m, ev),
    ensures
        model_register(model_event(m, ev), ev.menu_index, m.callbacks[ev.menu_index]) == m,
{
    assert(m.callbacks.remove(ev.menu_index).insert(ev.menu_index, m.callbacks[ev.menu_index])
        =~= m.callbacks);
}

/// A selection of an identifier without a callback changes nothing.
pub proof fn select_without_callback<C>(m: MenuModel<C>, id: u32)
    requires
        !m.callbacks.contains_key(id),
    ensures
        model_event(m, SystrayEvent::select_item_spec(id)) == m,
{
}

/// After the menu is cleared, the next item goes to position 0 and gets
/// identifier 0; registering its callback replaces the one that identifier
/// had, and the callbacks of all other identifiers stay as they were.
pub proof fn clear_then_add_reuses_identifiers<C>(m: MenuModel<C>, c: C)
    ensures
        model_clear(m).count == 0,
        model_register(model_add(model_clear(m)), 0, c).count == 1,
        model_register(model_add(model_clear(m)), 0, c).callbacks[0] == c,
        forall|k: u32|
            k != 0 ==> (#[trigger] model_register(model_add(model_clear(m)), 0, c).callbacks.contains_key(k)
                == m.callbacks.contains_key(k)),
{
}


/// Adding an item, text or separator, grows the menu by exactly one and
/// touches nothing else; so `n` additions to an empty menu hand out the
/// positions `0..n`, each once.
pub proof fn add_grows_by_one<C>(m: MenuModel<C>)
    ensures
        model_add(m).count == m.count + 1,
        model_add(m).callbacks == m.callbacks,
        model_add(m).displayed == m.displayed,
{
}

/// Registering a callback for an identifier always replaces what that
/// identifier had, whether it had a callback or not, and touches no other
/// identifier.
pub proof fn register_replaces<C>(m: MenuModel<C>, id: u32, c: C)
    ensures
        model_register(m, id, c).callbacks.contains_key(id),
        model_register(m, id, c).callbacks[id] == c,
        forall|k: u32|
            k != id ==> (#[trigger] model_register(m, id, c).callbacks.contains_key(k)
                == m.callbacks.contains_key(k)) && (m.callbacks.contains_key(k) ==> model_register(
                m,
                id,
                c,
            ).callbacks[k] == m.callbacks[k]),
        model_register(m, id, c).count == m.count,
        model_register(m, id, c).displayed == m.displayed,
{
}

/// Selecting any item that has a callback hands that callback out, whatever
/// its identifier, and takes it (and only it) out of the table.
pub proof fn selection_takes_its_callback<C>(m: MenuModel<C>, id: u32)
    requires
        m.callbacks.contains_key(id),
    ensures
        event_takes_callback(m, SystrayEvent::select_item_spec(id)),
        !model_event(m, SystrayEvent::select_item_spec(id)).callbacks.contains_key(id),
        forall|k: u32|
            k != id ==> (#[trigger] model_event(m, SystrayEvent::select_item_spec(id)).callbacks.contains_key(k)
                == m.callbacks.contains_key(k)),
        model_event(m, SystrayEvent::select_item_spec(id)).count == m.count,
        model_event(m, SystrayEvent::select_item_spec(id)).displayed == m.displayed,
{
}

} // verus!
