//! The gesture-to-command tables, one per run mode, and the mapper that reads them.
use vstd::prelude::*;

use crate::command::{command_for_wire_text, command_wire_text, OsCommand};
use crate::gesture::AppRunMode;
use crate::gesture_id::{bindable_seq, gesture_for_wire_text, gesture_wire_text, is_bindable, GestureId};
use crate::text::trimmed;

verus! {

/// Position of a gesture's slot in a binding table.
pub open spec fn slot_of(g: GestureId) -> int {
    match g {
        GestureId::NoGesture => 0,
        GestureId::SwipeLeft => 1,
        GestureId::SwipeRight => 2,
        GestureId::OpenPalm => 3,
        GestureId::ClosedFist => 4,
        GestureId::ThumbUp => 5,
        GestureId::ThumbDown => 6,
        GestureId::Pointing => 7,
        GestureId::Victory => 8,
    }
}

/// The gesture whose slot is `i`.
pub open spec fn gesture_at_slot(i: int) -> GestureId {
    if i == 1 {
        GestureId::SwipeLeft
    } else if i == 2 {
        GestureId::SwipeRight
    } else if i == 3 {
        GestureId::OpenPalm
    } else if i == 4 {
        GestureId::ClosedFist
    } else if i == 5 {
        GestureId::ThumbUp
    } else if i == 6 {
        GestureId::ThumbDown
    } else if i == 7 {
        GestureId::Pointing
    } else if i == 8 {
        GestureId::Victory
    } else {
        GestureId::NoGesture
    }
}

fn slot_index(g: GestureId) -> (r: usize)
    ensures
        r == slot_of(g),
        r < 9,
        gesture_at_slot(r as int) == g,
{
    match g {
        GestureId::NoGesture => 0,
        GestureId::SwipeLeft => 1,
        GestureId::SwipeRight => 2,
        GestureId::OpenPalm => 3,
        GestureId::ClosedFist => 4,
        GestureId::ThumbUp => 5,
        GestureId::ThumbDown => 6,
        GestureId::Pointing => 7,
        GestureId::Victory => 8,
    }
}

/// A map from gestures to commands (one slot per gesture).
#[derive(Debug)]
pub struct BindingTable {
    slots: Vec<Option<OsCommand>>,
}

impl View for BindingTable {
    type V = Map<GestureId, OsCommand>;

    /// The gestures that are bound, and their commands.
    closed spec fn view(&self) -> Map<GestureId, OsCommand> {
        Map::new(
            |g: GestureId| self.slots@[slot_of(g)] is Some,
            |g: GestureId| self.slots@[slot_of(g)].unwrap(),
        )
    }
}

impl Clone for BindingTable {
    fn clone(&self) -> (r: Self)
        ensures
            r@ == self@,
    {
        proof {
            use_type_invariant(self);
        }
        let mut slots: Vec<Option<OsCommand>> = Vec::new();
        let mut k: usize = 0;
        while k < 9
            invariant
                k <= 9,
                self.slots@.len() == 9,
                slots@.len() == k,
                forall|j: int| 0 <= j < k ==> #[trigger] slots@[j] == self.slots@[j],
            decreases 9 - k,
        {
            slots.push(self.slots[k]);
            k += 1;
        }
        let r = BindingTable { slots };
        assert(r@ =~= self@);
        r
    }
}

impl BindingTable {
    #[verifier::type_invariant]
    spec fn well_formed(self) -> bool {
        self.slots@.len() == 9
    }

    /// A table without bindings.
    pub fn new() -> (r: BindingTable)
        ensures
            r@ == Map::<GestureId, OsCommand>::empty(),
    {
        let mut slots: Vec<Option<OsCommand>> = Vec::new();
        let mut i: usize = 0;
        while i < 9
            invariant
                i <= 9,
                slots@.len() == i,
                forall|k: int| 0 <= k < i ==> slots@[k] is None,
            decreases 9 - i,
        {
            slots.push(None);
            i += 1;
        }
        let r = BindingTable { slots };
        assert(r@ =~= Map::<GestureId, OsCommand>::empty());
        r
    }

    /// The command bound to `g`, if any (`HashMap::get`).
    pub fn get(&self, g: GestureId) -> (r: Option<OsCommand>)
        ensures
            r == (if self@.contains_key(g) {
                Some(self@[g])
            } else {
                None
            }),
    {
        proof {
            use_type_invariant(self);
        }
        self.slots[slot_index(g)]
    }

    /// Binds `g` to `c`, replacing an earlier binding of `g` (`HashMap::insert`).
    pub fn insert(&mut self, g: GestureId, c: OsCommand)
        ensures
            final(self)@ == old(self)@.insert(g, c),
    {
        proof {
            use_type_invariant(&*self);
        }
        let i = slot_index(g);
        let mut slots: Vec<Option<OsCommand>> = Vec::new();
        let mut k: usize = 0;
        while k < 9
            invariant
                k <= 9,
                i < 9,
                old(self).slots@.len() == 9,
                self.slots@ == old(self).slots@,
                slots@.len() == k,
                forall|j: int| 0 <= j < k ==> #[trigger] slots@[j] == (if j == i {
                    Some(c)
                } else {
                    old(self).slots@[j]
                }),
            decreases 9 - k,
        {
            if k == i {
                slots.push(Some(c));
            } else {
                slots.push(self.slots[k]);
            }
            k += 1;
        }
        *self = BindingTable { slots };
        assert forall|h: GestureId| slot_of(h) == slot_of(g) implies h == g by {
            assert(gesture_at_slot(slot_of(h)) == h);
        }
        assert(self@ =~= old(self)@.insert(g, c));
    }
}


/// The default desktop table.
pub open spec fn default_desktop_table() -> Map<GestureId, OsCommand> {
    map![
        GestureId::SwipeRight => OsCommand::SwitchNextWindow,
        GestureId::SwipeLeft => OsCommand::MinimizeAllWindows,
        GestureId::OpenPalm => OsCommand::LockWorkstation,
        GestureId::ClosedFist => OsCommand::Mute,
        GestureId::ThumbUp => OsCommand::VolumeUp,
        GestureId::ThumbDown => OsCommand::VolumeDown,
        GestureId::Pointing => OsCommand::OpenMenu,
        GestureId::Victory => OsCommand::OpenExplorer,
    ]
}

/// The default media table: the desktop table with media controls.
pub open spec fn default_media_table() -> Map<GestureId, OsCommand> {
    default_desktop_table().insert(GestureId::ClosedFist, OsCommand::PlayPause).insert(
        GestureId::SwipeRight,
        OsCommand::NextDesktop,
    ).insert(GestureId::SwipeLeft, OsCommand::PreviousDesktop).insert(
        GestureId::Pointing,
        OsCommand::VolumeDown,
    ).insert(GestureId::OpenPalm, OsCommand::SwitchAudioOutput).insert(
        GestureId::ThumbDown,
        OsCommand::Mute,
    ).insert(GestureId::Victory, OsCommand::OpenNotepad)
}

/// The default browser table: the desktop table with tab and scroll controls.
pub open spec fn default_browser_table() -> Map<GestureId, OsCommand> {
    default_desktop_table().insert(GestureId::SwipeRight, OsCommand::BrowserNextTab).insert(
        GestureId::SwipeLeft,
        OsCommand::BrowserPreviousTab,
    ).insert(GestureId::Pointing, OsCommand::ScrollDown).insert(
        GestureId::ThumbUp,
        OsCommand::ScrollUp,
    ).insert(GestureId::ThumbDown, OsCommand::BrowserPreviousTab).insert(
        GestureId::Victory,
        OsCommand::BrowserNextTab,
    )
}

/// A table binds exactly the bindable gestures.
pub open spec fn is_complete_table(m: Map<GestureId, OsCommand>) -> bool {
    forall|g: GestureId| #[trigger] m.contains_key(g) <==> is_bindable(g)
}

/// Gesture-to-command tables for the three run modes.
#[derive(Debug)]
pub struct GestureCommandMap {
    pub desktop: BindingTable,
    pub media: BindingTable,
    pub browser: BindingTable,
}

/// The table of `m` for `mode`.
pub open spec fn table_for(m: GestureCommandMap, mode: AppRunMode) -> Map<GestureId, OsCommand> {
    match mode {
        AppRunMode::Desktop => m.desktop@,
        AppRunMode::Media => m.media@,
        AppRunMode::Browser => m.browser@,
    }
}

/// The command bound to `g` in `mode`, or `NoAction` when there is none.
pub open spec fn lookup_spec(m: GestureCommandMap, mode: AppRunMode, g: GestureId) -> OsCommand {
    if table_for(m, mode).contains_key(g) {
        table_for(m, mode)[g]
    } else {
        OsCommand::NoAction
    }
}

impl Clone for GestureCommandMap {
    fn clone(&self) -> (r: Self)
        ensures
            r.desktop@ == self.desktop@,
            r.media@ == self.media@,
            r.browser@ == self.browser@,
    {
        GestureCommandMap {
            desktop: self.desktop.clone(),
            media: self.media.clone(),
            browser: self.browser.clone(),
        }
    }
}

impl Default for GestureCommandMap {
    fn default() -> (r: Self)
        ensures
            r.desktop@ == default_desktop_table(),
            r.media@ == default_media_table(),
            r.browser@ == default_browser_table(),
    {
        Self::app_defaults()
    }
}

impl GestureCommandMap {
    /// The bindings the application ships with.
    pub fn app_defaults() -> (r: GestureCommandMap)
        ensures
            r.desktop@ == default_desktop_table(),
            r.media@ == default_media_table(),
            r.browser@ == default_browser_table(),
    {
        let mut desktop = BindingTable::new();
        desktop.insert(GestureId::SwipeRight, OsCommand::SwitchNextWindow);
        desktop.insert(GestureId::SwipeLeft, OsCommand::MinimizeAllWindows);
        desktop.insert(GestureId::OpenPalm, OsCommand::LockWorkstation);
        desktop.insert(GestureId::ClosedFist, OsCommand::Mute);
        desktop.insert(GestureId::ThumbUp, OsCommand::VolumeUp);
        desktop.insert(GestureId::ThumbDown, OsCommand::VolumeDown);
        desktop.insert(GestureId::Pointing, OsCommand::OpenMenu);
        desktop.insert(GestureId::Victory, OsCommand::OpenExplorer);
        assert(desktop@ =~= default_desktop_table());

        let mut media = desktop.clone();
        media.insert(GestureId::ClosedFist, OsCommand::PlayPause);
        media.insert(GestureId::SwipeRight, OsCommand::NextDesktop);
        media.insert(GestureId::SwipeLeft, OsCommand::PreviousDesktop);
        media.insert(GestureId::Pointing, OsCommand::VolumeDown);
        media.insert(GestureId::OpenPalm, OsCommand::SwitchAudioOutput);
        media.insert(GestureId::ThumbDown, OsCommand::Mute);
        media.insert(GestureId::Victory, OsCommand::OpenNotepad);

        let mut browser = desktop.clone();
        browser.insert(GestureId::SwipeRight, OsCommand::BrowserNextTab);
        browser.insert(GestureId::SwipeLeft, OsCommand::BrowserPreviousTab);
        browser.insert(GestureId::Pointing, OsCommand::ScrollDown);
        browser.insert(GestureId::ThumbUp, OsCommand::ScrollUp);
        browser.insert(GestureId::ThumbDown, OsCommand::BrowserPreviousTab);
        browser.insert(GestureId::Victory, OsCommand::BrowserNextTab);

        GestureCommandMap { desktop, media, browser }
    }

    /// The command bound to `gesture` in `mode`; `NoAction` when there is none.
    pub fn lookup(&self, mode: AppRunMode, gesture: GestureId) -> (r: OsCommand)
        ensures
            r == lookup_spec(*self, mode, gesture),
    {
        let table = self.table(mode);
        match table.get(gesture) {
            Some(c) => c,
            None => OsCommand::NoAction,
        }
    }

    /// The table for `mode`, to be edited in place.
    pub fn table_mut(&mut self, mode: AppRunMode) -> (r: &mut BindingTable)
        ensures
            mode == AppRunMode::Desktop ==> *r == old(self).desktop && final(self).desktop == *final(r)
                && final(self).media == old(self).media && final(self).browser == old(self).browser,
            mode == AppRunMode::Media ==> *r == old(self).media && final(self).media == *final(r)
                && final(self).desktop == old(self).desktop && final(self).browser == old(self).browser,
            mode == AppRunMode::Browser ==> *r == old(self).browser && final(self).browser == *final(r)
                && final(self).desktop == old(self).desktop && final(self).media == old(self).media,
    {
        match mode {
            AppRunMode::Desktop => &mut self.desktop,
            AppRunMode::Media => &mut self.media,
            AppRunMode::Browser => &mut self.browser,
        }
    }

    /// The table for `mode`.
    pub fn table(&self, mode: AppRunMode) -> (r: &BindingTable)
        ensures
            r@ == table_for(*self, mode),
    {
        match mode {
            AppRunMode::Desktop => &self.desktop,
            AppRunMode::Media => &self.media,
            AppRunMode::Browser => &self.browser,
        }
    }

    /// Binds `gesture` to `command` in `mode`; `NoGesture` cannot be bound and leaves
    /// the map unchanged.
    pub fn set_binding(&mut self, mode: AppRunMode, gesture: GestureId, command: OsCommand)
        ensures
            gesture == GestureId::NoGesture ==> table_for(*final(self), AppRunMode::Desktop)
                == table_for(*old(self), AppRunMode::Desktop) && table_for(
                *final(self),
                AppRunMode::Media,
            ) == table_for(*old(self), AppRunMode::Media) && table_for(
                *final(self),
                AppRunMode::Browser,
            ) == table_for(*old(self), AppRunMode::Browser),
            gesture != GestureId::NoGesture ==> forall|m: AppRunMode| #[trigger]
                table_for(*final(self), m) == if m == mode {
                    table_for(*old(self), m).insert(gesture, command)
                } else {
                    table_for(*old(self), m)
                },
    {
        if gesture == GestureId::NoGesture {
            return;
        }
        match mode {
            AppRunMode::Desktop => {
                let mut t = self.desktop.clone();
                t.insert(gesture, command);
                self.desktop = t;
            },
            AppRunMode::Media => {
                let mut t = self.media.clone();
                t.insert(gesture, command);
                self.media = t;
            },
            AppRunMode::Browser => {
                let mut t = self.browser.clone();
                t.insert(gesture, command);
                self.browser = t;
            },
        }
    }
}

/// Maps gestures to commands for the current run mode.
pub struct CommandMapper {
    map: GestureCommandMap,
}

impl CommandMapper {
    /// The bindings the mapper reads.
    pub closed spec fn bindings(&self) -> GestureCommandMap {
        self.map
    }

    /// A mapper over the given bindings.
    pub fn new(map: GestureCommandMap) -> (r: CommandMapper)
        ensures
            r.bindings() == map,
    {
        CommandMapper { map }
    }

    /// A mapper over the default bindings.
    pub fn with_defaults() -> (r: CommandMapper)
        ensures
            r.bindings().desktop@ == default_desktop_table(),
            r.bindings().media@ == default_media_table(),
            r.bindings().browser@ == default_browser_table(),
    {
        Self::new(GestureCommandMap::default())
    }

    /// The command for `gesture` in `mode`; `NoGesture` always maps to `NoAction`.
    pub fn resolve(&self, mode: AppRunMode, gesture: GestureId) -> (r: OsCommand)
        ensures
            r == if gesture == GestureId::NoGesture {
                OsCommand::NoAction
            } else {
                lookup_spec(self.bindings(), mode, gesture)
            },
    {
        if gesture == GestureId::NoGesture {
            return OsCommand::NoAction;
        }
        self.map.lookup(mode, gesture)
    }
}

/// The default tables bind exactly the bindable gestures.
pub proof fn lemma_default_tables_complete()
    ensures
        is_complete_table(default_desktop_table()),
        is_complete_table(default_media_table()),
        is_complete_table(default_browser_table()),
{
    assert forall|g: GestureId| #[trigger] default_desktop_table().contains_key(g) <==> is_bindable(g) by {
        match g {
            GestureId::NoGesture => {},
            _ => {},
        }
    }
    assert forall|g: GestureId| #[trigger] default_media_table().contains_key(g) <==> is_bindable(g) by {
        assert(default_desktop_table().contains_key(g) <==> is_bindable(g));
    }
    assert forall|g: GestureId| #[trigger] default_browser_table().contains_key(g) <==> is_bindable(g) by {
        assert(default_desktop_table().contains_key(g) <==> is_bindable(g));
    }
}

/// After `set_binding` a lookup of that gesture in that mode gives the new command,
/// and every other lookup is unchanged.
pub proof fn lemma_lookup_after_set_binding(
    before: GestureCommandMap,
    after: GestureCommandMap,
    mode: AppRunMode,
    gesture: GestureId,
    command: OsCommand,
    m: AppRunMode,
    g: GestureId,
)
    requires
        gesture != GestureId::NoGesture,
        forall|k: AppRunMode| #[trigger]
            table_for(after, k) == if k == mode {
                table_for(before, k).insert(gesture, command)
            } else {
                table_for(before, k)
            },
    ensures
        lookup_spec(after, m, g) == if m == mode && g == gesture {
            command
        } else {
            lookup_spec(before, m, g)
        },
{
    assert(table_for(after, m) == if m == mode {
        table_for(before, m).insert(gesture, command)
    } else {
        table_for(before, m)
    });
}

/// The bindings the application ships with, gesture by gesture in each mode. On the
/// desktop: swipes switch to the next window or minimise all, open palm locks, fist
/// mutes, thumbs change the volume, pointing opens the Win+X menu, victory opens the
/// explorer. In media mode: swipes change the virtual desktop, open palm switches the
/// audio output, fist plays or pauses, thumb up raises the volume, thumb down mutes,
/// pointing lowers the volume, victory opens the notepad. In the browser: swipes and
/// victory change tabs, thumb down goes to the previous tab, thumb up scrolls up and
/// pointing scrolls down; open palm and fist keep their desktop commands. Nothing is
/// bound to `NoGesture`.
pub proof fn lemma_shipped_bindings(m: GestureCommandMap)
    requires
        m.desktop@ == default_desktop_table(),
        m.media@ == default_media_table(),
        m.browser@ == default_browser_table(),
    ensures
        lookup_spec(m, AppRunMode::Desktop, GestureId::SwipeRight) == OsCommand::SwitchNextWindow,
        lookup_spec(m, AppRunMode::Desktop, GestureId::SwipeLeft) == OsCommand::MinimizeAllWindows,
        lookup_spec(m, AppRunMode::Desktop, GestureId::OpenPalm) == OsCommand::LockWorkstation,
        lookup_spec(m, AppRunMode::Desktop, GestureId::ClosedFist) == OsCommand::Mute,
        lookup_spec(m, AppRunMode::Desktop, GestureId::ThumbUp) == OsCommand::VolumeUp,
        lookup_spec(m, AppRunMode::Desktop, GestureId::ThumbDown) == OsCommand::VolumeDown,
        lookup_spec(m, AppRunMode::Desktop, GestureId::Pointing) == OsCommand::OpenMenu,
        lookup_spec(m, AppRunMode::Desktop, GestureId::Victory) == OsCommand::OpenExplorer,
        lookup_spec(m, AppRunMode::Media, GestureId::SwipeRight) == OsCommand::NextDesktop,
        lookup_spec(m, AppRunMode::Media, GestureId::SwipeLeft) == OsCommand::PreviousDesktop,
        lookup_spec(m, AppRunMode::Media, GestureId::OpenPalm) == OsCommand::SwitchAudioOutput,
        lookup_spec(m, AppRunMode::Media, GestureId::ClosedFist) == OsCommand::PlayPause,
        lookup_spec(m, AppRunMode::Media, GestureId::ThumbUp) == OsCommand::VolumeUp,
        lookup_spec(m, AppRunMode::Media, GestureId::ThumbDown) == OsCommand::Mute,
        lookup_spec(m, AppRunMode::Media, GestureId::Pointing) == OsCommand::VolumeDown,
        lookup_spec(m, AppRunMode::Media, GestureId::Victory) == OsCommand::OpenNotepad,
        lookup_spec(m, AppRunMode::Browser, GestureId::SwipeRight) == OsCommand::BrowserNextTab,
        lookup_spec(m, AppRunMode::Browser, GestureId::SwipeLeft) == OsCommand::BrowserPreviousTab,
        lookup_spec(m, AppRunMode::Browser, GestureId::OpenPalm) == OsCommand::LockWorkstation,
        lookup_spec(m, AppRunMode::Browser, GestureId::ClosedFist) == OsCommand::Mute,
        lookup_spec(m, AppRunMode::Browser, GestureId::ThumbUp) == OsCommand::ScrollUp,
        lookup_spec(m, AppRunMode::Browser, GestureId::ThumbDown) == OsCommand::BrowserPreviousTab,
        lookup_spec(m, AppRunMode::Browser, GestureId::Pointing) == OsCommand::ScrollDown,
        lookup_spec(m, AppRunMode::Browser, GestureId::Victory) == OsCommand::BrowserNextTab,
        forall|mode: AppRunMode| lookup_spec(m, mode, GestureId::NoGesture) == OsCommand::NoAction,
{
    assert forall|mode: AppRunMode| lookup_spec(m, mode, GestureId::NoGesture) == OsCommand::NoAction by {
        lemma_default_tables_complete();
        assert(!is_bindable(GestureId::NoGesture));
    }
}

} // verus!
