//! The input router: the top-level state machine owning the active tab,
//! the modal stack and the command-line buffer.
//!
//! Every key event is consumed by exactly one layer, in strict precedence:
//! the command line while it is open, then the topmost modal while any is
//! open, then the active pane, then the global bindings; what none of them
//! takes is silently dropped. Mouse events go to the topmost modal when
//! one is open, else to the screen region they hit.

use vstd::prelude::*;

use crate::browser::{duplicate_song, song_eq, DirOrSongInfo, Song};
use crate::directories::{directories_reset, DirectoriesScreen};
use crate::dirstack::ScrollingState;
use crate::queue_pane::{queue_refreshed, QueuePane};
use crate::search::{pop_char, push_char};
use crate::shared::{
    current_song_index, cycled, next_screen_name, prev_screen_name, rect_contains, tab_index_of,
    volume_dec_by, volume_inc_by, AppContext, CommonAction, Config, Effect, GlobalAction,
    IdleEvent, KeyCode, KeyInput, Level, ModalWrapper, MouseEvent, MouseEventKind, MpdError,
    PaneId, PlayState, Rect, StatusMessage, UiError, UiEvent,
};

verus! {

/// How long a status message stays on screen, in milliseconds.
pub const STATUS_MESSAGE_DURATION_MS: u64 = 5000;

/// The built-in screens a tab can cycle through.
#[derive(Clone, Copy, Debug, PartialEq, Eq, Structural)]
pub enum Screens {
    Queue,
    Logs,
    Directories,
    Artists,
    Albums,
    Playlists,
}

impl Screens {
    /// The screen after this one in the fixed rotation.
    pub fn next(self) -> (r: Self)
        ensures
            self is Queue ==> r is Logs,
            self is Logs ==> r is Directories,
            self is Directories ==> r is Artists,
            self is Artists ==> r is Albums,
            self is Albums ==> r is Playlists,
            self is Playlists ==> r is Queue,
    {
        match self {
            Screens::Queue => Screens::Logs,
            Screens::Logs => Screens::Directories,
            Screens::Directories => Screens::Artists,
            Screens::Artists => Screens::Albums,
            Screens::Albums => Screens::Playlists,
            Screens::Playlists => Screens::Queue,
        }
    }

    /// The screen before this one in the fixed rotation.
    pub fn prev(self) -> (r: Self)
        ensures
            self is Queue ==> r is Playlists,
            self is Playlists ==> r is Albums,
            self is Albums ==> r is Artists,
            self is Artists ==> r is Directories,
            self is Directories ==> r is Logs,
            self is Logs ==> r is Queue,
    {
        match self {
            Screens::Queue => Screens::Playlists,
            Screens::Playlists => Screens::Albums,
            Screens::Albums => Screens::Artists,
            Screens::Artists => Screens::Directories,
            Screens::Directories => Screens::Logs,
            Screens::Logs => Screens::Queue,
        }
    }
}

/// How a search filter is interpreted by the player's own find commands.
#[derive(Clone, Copy, Debug, PartialEq, Eq, Structural)]
pub enum FilterKind {
    Exact,
    Contains,
    StartsWith,
    Regex,
}

impl FilterKind {
    /// Switch to the next interpretation in the fixed rotation.
    pub fn cycle(&mut self)
        ensures
            *old(self) is Exact ==> *final(self) is Contains,
            *old(self) is Contains ==> *final(self) is StartsWith,
            *old(self) is StartsWith ==> *final(self) is Regex,
            *old(self) is Regex ==> *final(self) is Exact,
    {
        *self = match self {
            FilterKind::Exact => FilterKind::Contains,
            FilterKind::Contains => FilterKind::StartsWith,
            FilterKind::StartsWith => FilterKind::Regex,
            FilterKind::Regex => FilterKind::Exact,
        };
    }

    /// The label shown for this interpretation.
    pub fn label(&self) -> (r: &'static str)
        ensures
            *self is Exact ==> r@ == "Exact match"@,
            *self is Contains ==> r@ == "Contains value"@,
            *self is StartsWith ==> r@ == "Starts with value"@,
            *self is Regex ==> r@ == "Regex"@,
    {
        match self {
            FilterKind::Exact => "Exact match",
            FilterKind::Contains => "Contains value",
            FilterKind::StartsWith => "Starts with value",
            FilterKind::Regex => "Regex",
        }
    }
}

/// An event on the interface's own channel: open or close a modal.
#[derive(Debug)]
pub enum UiAppEvent {
    Modal(ModalWrapper),
    PopModal,
}

/// What the caller should do after a key was handled.
#[derive(Clone, Copy, Debug, PartialEq, Eq, Structural)]
pub enum KeyHandleResult {
    /// Action does not ask the application to stop.
    Continue,
    /// Exit the application.
    Quit,
}

/// The layer that consumed an input event.
#[derive(Clone, Copy, Debug, PartialEq, Eq, Structural)]
pub enum ConsumedBy {
    CommandLine,
    Modal,
    Pane,
    Global,
    Dropped,
}

/// The outcome of routing one key event.
#[derive(Debug)]
pub struct KeyResponse {
    pub consumed_by: ConsumedBy,
    pub result: KeyHandleResult,
    pub render: bool,
    pub effects: Vec<Effect>,
}

/// The screen region a mouse event was routed to.
#[derive(Clone, Copy, Debug, PartialEq, Eq, Structural)]
pub enum MouseTarget {
    Modal,
    Header,
    Tabs,
    Content,
    Bar,
    Outside,
}

/// The outcome of routing one mouse event.
#[derive(Debug)]
pub struct MouseResponse {
    pub target: MouseTarget,
    pub render: bool,
    pub effects: Vec<Effect>,
}

/// The fixed screen regions of one frame.
#[derive(Clone, Copy, Debug, PartialEq, Eq, Structural)]
pub struct Areas {
    pub header: Rect,
    pub tabs: Rect,
    pub content: Rect,
    pub bar: Rect,
}

/// What the bottom bar shows this frame.
#[derive(Debug)]
pub enum BarContent {
    CommandLine(String),
    Status(StatusMessage),
    Progress { elapsed_ms: u64, duration_ms: u64 },
    Empty,
}

/// What one frame needs from the router: the regions, the bar content and
/// the frame ordinal.
#[derive(Debug)]
pub struct RenderPlan {
    pub areas: Areas,
    pub bar: BarContent,
    pub frames: u32,
}

/// The panes, one instance each, shared by the tabs that show them.
#[derive(Debug)]
pub struct PaneContainer {
    pub queue: QueuePane,
    pub directories: DirectoriesScreen,
}

/// The tab lists agree name for name and pane for pane.
pub open spec fn tabs_equiv(a: Seq<crate::shared::TabEntry>, b: Seq<crate::shared::TabEntry>) -> bool {
    &&& a.len() == b.len()
    &&& forall|k: int|
        0 <= k < a.len() ==> (#[trigger] a[k]).name@ == b[k].name@ && a[k].pane == b[k].pane
}

impl UiEvent {
    /// The interface event a player notification maps to, if any.
    pub fn try_from(event: IdleEvent) -> (r: Result<UiEvent, ()>)
        ensures
            event is Player ==> (r matches Ok(e) && e is Player),
            event is Database ==> (r matches Ok(e) && e is Database),
            event is StoredPlaylist ==> (r matches Ok(e) && e is StoredPlaylist),
            !(event is Player) && !(event is Database) && !(event is StoredPlaylist) ==> r is Err,
    {
        match event {
            IdleEvent::Player => Ok(UiEvent::Player),
            IdleEvent::Database => Ok(UiEvent::Database),
            IdleEvent::StoredPlaylist => Ok(UiEvent::StoredPlaylist),
            _ => Err(()),
        }
    }
}

/// The top-level router.
#[derive(Debug)]
pub struct Ui {
    pub panes: PaneContainer,
    pub modals: Vec<ModalWrapper>,
    pub status_message: Option<StatusMessage>,
    pub rendered_frames_count: u32,
    pub current_song: Option<Song>,
    pub command: Option<String>,
    pub active_tab: String,
    pub tabs: Vec<crate::shared::TabEntry>,
    pub areas: Areas,
}

impl Ui {
    /// The active tab names one of the tabs and the panes are consistent.
    pub open spec fn wf(&self) -> bool {
        &&& tab_index_of(self.tabs@, self.active_tab@) is Some
        &&& self.panes.queue.scrolling_state.well_formed()
        &&& self.panes.directories.stack.wf()
    }

    /// The pane the active tab shows.
    pub open spec fn spec_active_pane(&self) -> Option<PaneId> {
        match tab_index_of(self.tabs@, self.active_tab@) {
            Some(i) => Some(self.tabs@[i].pane),
            None => None,
        }
    }

    /// A fresh router over the configured tabs; the first tab is active.
    /// A configuration without tabs is rejected.
    pub fn new(ctx: &AppContext) -> (r: Result<Ui, UiError>)
        ensures
            ctx.config.tabs@.len() == 0 <==> (r matches Err(e) && e is NoTabs),
            r matches Ok(ui) ==> {
                &&& ui.active_tab@ == ctx.config.tabs@[0].name@
                &&& tabs_equiv(ui.tabs@, ctx.config.tabs@)
                &&& ui.modals@.len() == 0
                &&& ui.command is None
                &&& ui.status_message is None
                &&& ui.rendered_frames_count == 0
                &&& ui.current_song is None
                &&& ui.wf()
            },
    {
        if ctx.config.tabs.len() == 0 {
            return Err(UiError::NoTabs);
        }
        let active_tab = ctx.config.tabs[0].name.clone();
        let mut tabs: Vec<crate::shared::TabEntry> = Vec::new();
        let mut k: usize = 0;
        while k < ctx.config.tabs.len()
            invariant
                k <= ctx.config.tabs@.len(),
                tabs@.len() == k,
                forall|u: int|
                    0 <= u < k ==> (#[trigger] tabs@[u]).name@ == ctx.config.tabs@[u].name@
                        && tabs@[u].pane == ctx.config.tabs@[u].pane,
            decreases ctx.config.tabs@.len() - k,
        {
            let entry = &ctx.config.tabs[k];
            tabs.push(crate::shared::TabEntry { name: entry.name.clone(), pane: entry.pane });
            k += 1;
        }
        let ui = Ui {
            panes: PaneContainer {
                queue: QueuePane::new(),
                directories: DirectoriesScreen::default(),
            },
            modals: Vec::new(),
            status_message: None,
            rendered_frames_count: 0,
            current_song: None,
            command: None,
            active_tab,
            tabs,
        areas: Areas {
                header: Rect::zero(),
                tabs: Rect::zero(),
                content: Rect::zero(),
                bar: Rect::zero(),
            },
        };
        proof {
            assert(tab_index_of(ui.tabs@, ui.active_tab@) == Some(0int));
        }
        Ok(ui)
    }

    /// Show a transient status message; `now_ms` is the host's clock.
    pub fn display_message(&mut self, message: String, level: Level, now_ms: u64)
        ensures
            *final(self) == (Ui {
                status_message: Some(StatusMessage { message, level, created: now_ms }),
                ..*old(self)
            }),
    {
        self.status_message = Some(StatusMessage { message, level, created: now_ms });
    }

    /// Whether the active pane would consume this key, by the panes' own
    /// contracts.
    pub open spec fn spec_pane_consumes(&self, key: KeyInput) -> bool {
        match self.spec_active_pane() {
            Some(PaneId::Queue) => self.panes.queue.filter_input_mode || key.queue is Some
                || key.common is Some || (key.global matches Some(
                GlobalAction::ExternalCommand(_),
            )),
            Some(PaneId::Directories) => self.panes.directories.filter_input_mode
                || key.directories is Some || key.common is Some,
            None => false,
        }
    }

    /// The key fell through to the global bindings: no command line, no
    /// modal, the active pane declined it, and the active tab exists.
    pub open spec fn reaches_global(&self, key: KeyInput) -> bool {
        &&& self.command is None
        &&& self.modals@.len() == 0
        &&& !self.spec_pane_consumes(key)
        &&& tab_index_of(self.tabs@, self.active_tab@) is Some
    }

    /// The pane shown by the active tab; an unknown active tab is the
    /// fatal inconsistency the configuration must never produce.
    fn active_pane_id(&self) -> (r: Result<PaneId, UiError>)
        ensures
            match tab_index_of(self.tabs@, self.active_tab@) {
                Some(i) => r == Ok::<PaneId, UiError>(self.tabs@[i].pane),
                None => r matches Err(e) && e is MissingTab,
            },
    {
        let mut k: usize = 0;
        while k < self.tabs.len()
            invariant
                k <= self.tabs@.len(),
                tab_index_of(self.tabs@, self.active_tab@) == crate::shared::tab_index_from(
                    self.tabs@,
                    self.active_tab@,
                    k as int,
                ),
            decreases self.tabs@.len() - k,
        {
            if self.tabs[k].name == self.active_tab {
                return Ok(self.tabs[k].pane);
            }
            k += 1;
        }
        Err(UiError::MissingTab)
    }

    /// Route one key event through the layer chain: command line, topmost
    /// modal, active pane, global bindings. Exactly one layer consumes it.
    pub fn handle_key(&mut self, key: &KeyInput, ctx: &AppContext) -> (r: Result<
        KeyResponse,
        UiError,
    >)
        requires
            old(self).panes.queue.scrolling_state.well_formed(),
            old(self).panes.directories.stack.wf(),
        ensures
            final(self).panes.queue.scrolling_state.well_formed(),
            final(self).panes.directories.stack.wf(),
            final(self).tabs == old(self).tabs,
            final(self).active_tab == old(self).active_tab,
            final(self).modals == old(self).modals,
            // layer 1: an open command line consumes every key
            old(self).command is Some ==> (r matches Ok(kr) && kr.consumed_by is CommandLine),
            old(self).command is Some && key.common == Some(CommonAction::Close) ==> final(self).command is None && (r matches Ok(kr) && kr.effects@.len() == 0 && kr.render),
            old(self).command is Some && key.common == Some(CommonAction::Confirm) ==> final(self).command is None && (r matches Ok(kr) && kr.effects@.len() == 1 && (kr.effects@[0]
                matches Effect::ExecuteCommand(c) && c@ == old(self).command->0@)),
            old(self).command is Some && key.common != Some(CommonAction::Close) && key.common
                != Some(CommonAction::Confirm) && key.code is Char ==> final(self).command is Some
                && final(self).command->0@ == old(self).command->0@.push(key.code->Char_0),
            old(self).command is Some && key.common != Some(CommonAction::Close) && key.common
                != Some(CommonAction::Confirm) && key.code is Backspace && old(self).command->0@.len() > 0 ==> final(self).command is Some && final(self).command->0@
                == old(self).command->0@.drop_last(),
            // layer 2: with no command line open, the topmost modal owns
            // the event exclusively: nothing else changes
            old(self).command is None && old(self).modals@.len() > 0 ==> (r matches Ok(kr)
                && kr.consumed_by is Modal && kr.effects@.len() == 0) && *final(self) == *old(self),
            // layer 3: the active pane
            old(self).command is None && old(self).modals@.len() == 0 && old(self).spec_pane_consumes(*key) ==> (r matches Ok(kr) && kr.consumed_by is Pane),
            // layer 4: global bindings; quit comes from here alone
            (r matches Ok(kr) && kr.result is Quit) <==> (old(self).command is None && old(self).modals@.len() == 0 && !old(self).spec_pane_consumes(*key) && (key.global matches Some(
                GlobalAction::Quit,
            )) && tab_index_of(old(self).tabs@, old(self).active_tab@) is Some),
            old(self).command is None && old(self).modals@.len() == 0 && !old(self).spec_pane_consumes(*key) && (key.global matches Some(GlobalAction::CommandMode))
                && tab_index_of(old(self).tabs@, old(self).active_tab@) is Some ==> final(self).command is Some && final(self).command->0@.len() == 0,
            // what no layer takes is dropped without any change
            old(self).command is None && old(self).modals@.len() == 0 && !old(self).spec_pane_consumes(*key) && key.global is None && tab_index_of(
                old(self).tabs@,
                old(self).active_tab@,
            ) is Some ==> (r matches Ok(kr) && kr.consumed_by is Dropped && kr.effects@.len() == 0)
                && *final(self) == *old(self),
            // the global bindings' effects, arm by arm
            old(self).reaches_global(*key) && key.global is Some && key.global->0 is Command ==> (
            r matches Ok(kr) && kr.effects@.len() == 1 && (kr.effects@[0]
                matches Effect::ExecuteCommand(e) && e@ == key.global->0->Command_0@)),
            old(self).reaches_global(*key) && key.global is Some && key.global->0
                is ExternalCommand ==> (r matches Ok(kr) && kr.effects@.len() == 1 && (
            kr.effects@[0] matches Effect::RunExternal(e) && e@
                == key.global->0->ExternalCommand_0@)),
            old(self).reaches_global(*key) && (key.global matches Some(GlobalAction::NextTrack))
                ==> (r matches Ok(kr) && kr.effects@ == (if ctx.status.state is Play {
                seq![Effect::NextTrack]
            } else {
                Seq::<Effect>::empty()
            })),
            old(self).reaches_global(*key) && (key.global matches Some(
                GlobalAction::PreviousTrack,
            )) ==> (r matches Ok(kr) && kr.effects@ == (if ctx.status.state is Play {
                seq![Effect::PreviousTrack]
            } else {
                Seq::<Effect>::empty()
            })),
            old(self).reaches_global(*key) && (key.global matches Some(GlobalAction::Stop)) ==> (
            r matches Ok(kr) && kr.effects@ == (if ctx.status.state is Play {
                seq![Effect::Stop]
            } else {
                Seq::<Effect>::empty()
            })),
            old(self).reaches_global(*key) && (key.global matches Some(GlobalAction::ToggleRepeat))
                ==> (r matches Ok(kr) && kr.effects@ == seq![Effect::Repeat(!ctx.status.repeat)]),
            old(self).reaches_global(*key) && (key.global matches Some(GlobalAction::ToggleRandom))
                ==> (r matches Ok(kr) && kr.effects@ == seq![Effect::Random(!ctx.status.random)]),
            old(self).reaches_global(*key) && (key.global matches Some(GlobalAction::ToggleSingle))
                ==> (r matches Ok(kr) && kr.effects@ == seq![
                Effect::Single(cycled(ctx.status.single, ctx.status.single_oneshot_supported)),
            ]),
            old(self).reaches_global(*key) && (key.global matches Some(
                GlobalAction::ToggleConsume,
            )) ==> (r matches Ok(kr) && kr.effects@ == seq![
                Effect::Consume(cycled(ctx.status.consume, ctx.status.consume_oneshot_supported)),
            ]),
            old(self).reaches_global(*key) && (key.global matches Some(GlobalAction::TogglePause))
                ==> (r matches Ok(kr) && kr.effects@ == (if ctx.status.state is Play
                || ctx.status.state is Pause {
                seq![Effect::PauseToggle]
            } else {
                Seq::<Effect>::empty()
            })),
            old(self).reaches_global(*key) && (key.global matches Some(GlobalAction::VolumeUp))
                ==> (r matches Ok(kr) && kr.effects@.len() == 1 && (kr.effects@[0]
                matches Effect::SetVolume(v) && v == ({
                let clamped = if ctx.status.volume > 100 {
                    100int
                } else {
                    ctx.status.volume as int
                };
                if clamped + ctx.config.volume_step <= 100 {
                    clamped + ctx.config.volume_step
                } else {
                    100int
                }
            }))),
            old(self).reaches_global(*key) && (key.global matches Some(GlobalAction::VolumeDown))
                ==> (r matches Ok(kr) && kr.effects@.len() == 1 && (kr.effects@[0]
                matches Effect::SetVolume(v) && v == (if ctx.status.volume
                >= ctx.config.volume_step {
                ctx.status.volume - ctx.config.volume_step
            } else {
                0int
            }))),
            old(self).reaches_global(*key) && (key.global matches Some(GlobalAction::SeekForward))
                ==> (r matches Ok(kr) && kr.effects@ == (if ctx.status.state is Play
                || ctx.status.state is Pause {
                seq![Effect::SeekForwardSecs(5)]
            } else {
                Seq::<Effect>::empty()
            })),
            old(self).reaches_global(*key) && (key.global matches Some(GlobalAction::SeekBack))
                ==> (r matches Ok(kr) && kr.effects@ == (if ctx.status.state is Play
                || ctx.status.state is Pause {
                seq![Effect::SeekBackSecs(5)]
            } else {
                Seq::<Effect>::empty()
            })),
            old(self).reaches_global(*key) && (key.global matches Some(GlobalAction::NextTab))
                ==> (r matches Ok(kr) && kr.render && kr.effects@.len() == 1 && (kr.effects@[0]
                matches Effect::SwitchTab(n) && n@ == next_screen_name(
                ctx.config.tabs@,
                old(self).active_tab@,
            ))),
            old(self).reaches_global(*key) && (key.global matches Some(GlobalAction::PreviousTab))
                ==> (r matches Ok(kr) && kr.render && kr.effects@.len() == 1 && (kr.effects@[0]
                matches Effect::SwitchTab(n) && n@ == prev_screen_name(
                ctx.config.tabs@,
                old(self).active_tab@,
            ))),
            old(self).reaches_global(*key) && key.global is Some && key.global->0 is SwitchToTab
                && tab_index_of(ctx.config.tabs@, key.global->0->SwitchToTab_0@) is Some ==> (r
                matches Ok(kr) && kr.render && kr.effects@.len() == 1 && (kr.effects@[0]
                matches Effect::SwitchTab(n) && n@ == key.global->0->SwitchToTab_0@)),
            old(self).reaches_global(*key) && key.global is Some && key.global->0 is SwitchToTab
                && tab_index_of(ctx.config.tabs@, key.global->0->SwitchToTab_0@) is None ==> (r
                matches Ok(kr) && kr.effects@.len() == 1 && (kr.effects@[0]
                matches Effect::Status { level, .. } && level is Error)),
            old(self).reaches_global(*key) && (key.global matches Some(GlobalAction::ShowHelp))
                ==> (r matches Ok(kr) && kr.effects@ == seq![
                Effect::OpenModal(crate::shared::ModalKind::Keybinds),
            ]),
            old(self).reaches_global(*key) && (key.global matches Some(GlobalAction::ShowOutputs))
                ==> (r matches Ok(kr) && kr.effects@ == seq![Effect::FetchOutputs]),
            old(self).reaches_global(*key) && (key.global matches Some(GlobalAction::ShowDecoders))
                ==> (r matches Ok(kr) && kr.effects@ == seq![Effect::FetchDecoders]),
            old(self).reaches_global(*key) && (key.global matches Some(
                GlobalAction::ShowCurrentSongInfo,
            )) ==> (r matches Ok(kr) && (match current_song_index(ctx.queue@, ctx.status.songid) {
                Some(i) => kr.effects@.len() == 1 && (kr.effects@[0] matches Effect::OpenModal(
                    crate::shared::ModalKind::SongInfo(shown),
                ) && song_eq(shown, ctx.queue@[i])),
                None => kr.effects@.len() == 1 && (kr.effects@[0] matches Effect::Status {
                    level,
                    ..
                } && level is Info),
            })),
            // a missing active tab is fatal
            old(self).command is None && old(self).modals@.len() == 0 ==> ((r is Err)
                <==> tab_index_of(old(self).tabs@, old(self).active_tab@) is None),
    {
        let mut effects: Vec<Effect> = Vec::new();
        // layer 1: command line
        if self.command.is_some() {
            if key.common == Some(CommonAction::Close) {
                self.command = None;
                return Ok(
                    KeyResponse {
                        consumed_by: ConsumedBy::CommandLine,
                        result: KeyHandleResult::Continue,
                        render: true,
                        effects,
                    },
                );
            }
            if key.common == Some(CommonAction::Confirm) {
                let buffer = match &self.command {
                    Some(c) => c.clone(),
                    None => String::new(),
                };
                self.command = None;
                effects.push(Effect::ExecuteCommand(buffer));
                return Ok(
                    KeyResponse {
                        consumed_by: ConsumedBy::CommandLine,
                        result: KeyHandleResult::Continue,
                        render: true,
                        effects,
                    },
                );
            }
            match key.code {
                KeyCode::Char(c) => {
                    match &mut self.command {
                        Some(buffer) => {
                            push_char(buffer, c);
                        },
                        None => {},
                    }
                },
                KeyCode::Backspace => {
                    match &mut self.command {
                        Some(buffer) => {
                            pop_char(buffer);
                        },
                        None => {},
                    }
                },
                _ => {},
            }
            return Ok(
                KeyResponse {
                    consumed_by: ConsumedBy::CommandLine,
                    result: KeyHandleResult::Continue,
                    render: true,
                    effects,
                },
            );
        }
        // layer 2: the topmost modal owns the event exclusively; what a
        // modal does with its keys is its host's concern
        if self.modals.len() > 0 {
            return Ok(
                KeyResponse {
                    consumed_by: ConsumedBy::Modal,
                    result: KeyHandleResult::Continue,
                    render: false,
                    effects,
                },
            );
        }
        // layer 3: the active pane
        let pane = match self.active_pane_id() {
            Ok(p) => p,
            Err(e) => { return Err(e); },
        };
        let pane_response = match pane {
            PaneId::Queue => self.panes.queue.handle_action(key, ctx),
            PaneId::Directories => self.panes.directories.handle_action(key, ctx),
        };
        if pane_response.consumed {
            return Ok(
                KeyResponse {
                    consumed_by: ConsumedBy::Pane,
                    result: KeyHandleResult::Continue,
                    render: pane_response.render,
                    effects: pane_response.effects,
                },
            );
        }
        // layer 4: global bindings
        match &key.global {
            Some(action) => {
                let mut render = false;
                match action {
                    GlobalAction::Command(cmd) => {
                        effects.push(Effect::ExecuteCommand(cmd.clone()));
                    },
                    GlobalAction::CommandMode => {
                        self.command = Some(String::new());
                        render = true;
                    },
                    GlobalAction::NextTrack => {
                        if ctx.status.state == PlayState::Play {
                            effects.push(Effect::NextTrack);
                        }
                    },
                    GlobalAction::PreviousTrack => {
                        if ctx.status.state == PlayState::Play {
                            effects.push(Effect::PreviousTrack);
                        }
                    },
                    GlobalAction::Stop => {
                        if ctx.status.state == PlayState::Play {
                            effects.push(Effect::Stop);
                        }
                    },
                    GlobalAction::ToggleRepeat => {
                        effects.push(Effect::Repeat(!ctx.status.repeat));
                    },
                    GlobalAction::ToggleRandom => {
                        effects.push(Effect::Random(!ctx.status.random));
                    },
                    GlobalAction::ToggleSingle => {
                        let next = if ctx.status.single_oneshot_supported {
                            ctx.status.single.cycle()
                        } else {
                            ctx.status.single.cycle_pre_mpd_24()
                        };
                        effects.push(Effect::Single(next));
                    },
                    GlobalAction::ToggleConsume => {
                        let next = if ctx.status.consume_oneshot_supported {
                            ctx.status.consume.cycle()
                        } else {
                            ctx.status.consume.cycle_pre_mpd_24()
                        };
                        effects.push(Effect::Consume(next));
                    },
                    GlobalAction::TogglePause => {
                        if ctx.status.state == PlayState::Play || ctx.status.state
                            == PlayState::Pause {
                            effects.push(Effect::PauseToggle);
                        }
                    },
                    GlobalAction::VolumeUp => {
                        let volume = if ctx.status.volume > 100 {
                            100
                        } else {
                            ctx.status.volume
                        };
                        effects.push(
                            Effect::SetVolume(volume_inc_by(volume, ctx.config.volume_step)),
                        );
                    },
                    GlobalAction::VolumeDown => {
                        effects.push(
                            Effect::SetVolume(
                                volume_dec_by(ctx.status.volume, ctx.config.volume_step),
                            ),
                        );
                    },
                    GlobalAction::SeekForward => {
                        if ctx.status.state == PlayState::Play || ctx.status.state
                            == PlayState::Pause {
                            effects.push(Effect::SeekForwardSecs(5));
                        }
                    },
                    GlobalAction::SeekBack => {
                        if ctx.status.state == PlayState::Play || ctx.status.state
                            == PlayState::Pause {
                            effects.push(Effect::SeekBackSecs(5));
                        }
                    },
                    GlobalAction::NextTab => {
                        effects.push(Effect::SwitchTab(ctx.config.next_screen(&self.active_tab)));
                        render = true;
                    },
                    GlobalAction::PreviousTab => {
                        effects.push(Effect::SwitchTab(ctx.config.prev_screen(&self.active_tab)));
                        render = true;
                    },
                    GlobalAction::SwitchToTab(name) => {
                        if ctx.config.find_tab(name).is_some() {
                            effects.push(Effect::SwitchTab(name.clone()));
                            render = true;
                        } else {
                            let mut message = String::from_str("Tab with name '");
                            message.append(name.as_str());
                            message.append("' does not exist. Check your configuration.");
                            effects.push(Effect::Status { level: Level::Error, message });
                        }
                    },
                    GlobalAction::Quit => {
                        return Ok(
                            KeyResponse {
                                consumed_by: ConsumedBy::Global,
                                result: KeyHandleResult::Quit,
                                render: false,
                                effects,
                            },
                        );
                    },
                    GlobalAction::ShowHelp => {
                        effects.push(Effect::OpenModal(crate::shared::ModalKind::Keybinds));
                    },
                    GlobalAction::ShowOutputs => {
                        effects.push(Effect::FetchOutputs);
                    },
                    GlobalAction::ShowDecoders => {
                        effects.push(Effect::FetchDecoders);
                    },
                    GlobalAction::ShowCurrentSongInfo => {
                        match ctx.find_current_song_in_queue() {
                            Some(idx) => {
                                let song = duplicate_song(&ctx.queue[idx]);
                                effects.push(
                                    Effect::OpenModal(crate::shared::ModalKind::SongInfo(song)),
                                );
                            },
                            None => {
                                effects.push(
                                    Effect::Status {
                                        level: Level::Info,
                                        message: String::from_str("No song is currently playing"),
                                    },
                                );
                            },
                        }
                    },
                    GlobalAction::ExternalCommand(cmd) => {
                        effects.push(Effect::RunExternal(cmd.clone()));
                    },
                }
                Ok(
                    KeyResponse {
                        consumed_by: ConsumedBy::Global,
                        result: KeyHandleResult::Continue,
                        render,
                        effects,
                    },
                )
            },
            None => {
                Ok(
                    KeyResponse {
                        consumed_by: ConsumedBy::Dropped,
                        result: KeyHandleResult::Continue,
                        render: false,
                        effects,
                    },
                )
            },
        }
    }

    /// Open or close a modal. Opening pushes onto the overlay stack and
    /// the topmost modal alone will receive input; closing reveals the one
    /// below. Both notify the panes and ask for a render.
    pub fn on_ui_app_event(&mut self, event: UiAppEvent, ctx: &AppContext) -> (render: bool)
        requires
            old(self).panes.queue.scrolling_state.well_formed(),
        ensures
            final(self).panes.queue.scrolling_state.well_formed(),
            final(self).panes.directories.stack.wf() == old(self).panes.directories.stack.wf(),
            render,
            final(self).command == old(self).command,
            final(self).active_tab == old(self).active_tab,
            final(self).tabs == old(self).tabs,
            event matches UiAppEvent::Modal(m) ==> final(self).modals@ == old(self).modals@.push(m),
            event is PopModal ==> final(self).modals@ == (if old(self).modals@.len() > 0 {
                old(self).modals@.drop_last()
            } else {
                old(self).modals@
            }),
    {
        match event {
            UiAppEvent::Modal(modal) => {
                self.modals.push(modal);
                self.panes.queue.on_event(&UiEvent::ModalOpened, ctx);
                self.panes.directories.on_event(&UiEvent::ModalOpened, ctx);
                true
            },
            UiAppEvent::PopModal => {
                if self.modals.len() > 0 {
                    self.modals.pop();
                }
                self.panes.queue.on_event(&UiEvent::ModalClosed, ctx);
                self.panes.directories.on_event(&UiEvent::ModalClosed, ctx);
                true
            },
        }
    }

    /// Deliver a player notification: the router refreshes its own view of
    /// the current song, then every pane sees the event.
    pub fn on_event(&mut self, event: &UiEvent, ctx: &AppContext) -> (r: (bool, Vec<Effect>))
        requires
            old(self).panes.queue.scrolling_state.well_formed(),
        ensures
            final(self).modals == old(self).modals,
            final(self).command == old(self).command,
            final(self).active_tab == old(self).active_tab,
            final(self).tabs == old(self).tabs,
            final(self).panes.queue.scrolling_state.well_formed(),
            final(self).panes.directories.stack.wf() == old(self).panes.directories.stack.wf(),
            event is Player ==> (match current_song_index(ctx.queue@, ctx.status.songid) {
                Some(i) => final(self).current_song is Some && song_eq(
                    final(self).current_song->0,
                    ctx.queue@[i],
                ),
                None => final(self).current_song is None,
            }),
            event is Database ==> r.1@.len() == 1 && (r.1@[0] matches Effect::Status { level, .. }
                && level is Warn),
            !(event is Player) && !(event is Database) ==> r.1@.len() == 0,
            // a render is asked for exactly when the queue pane re-found
            // the playing song
            r.0 == (event is Player && current_song_index(ctx.queue@, ctx.status.songid) is Some),
            // the queue pane's own reaction is carried through unchanged
            event is Player && ctx.config.select_current_song_on_change && current_song_index(
                ctx.queue@,
                ctx.status.songid,
            ) is Some ==> final(self).panes.queue.scrolling_state.inner.spec_selected()
                == crate::dirstack::clamp_selection(
                old(self).panes.queue.scrolling_state.content_len,
                Some(current_song_index(ctx.queue@, ctx.status.songid)->0 as usize),
            ),
            !ctx.config.select_current_song_on_change ==> final(self).panes == old(self).panes,
            !(event is Player) ==> final(self).panes == old(self).panes && final(self).current_song
                == old(self).current_song,
    {
        let mut effects: Vec<Effect> = Vec::new();
        let mut render = false;
        match event {
            UiEvent::Player => {
                match ctx.find_current_song_in_queue() {
                    Some(idx) => {
                        self.current_song = Some(duplicate_song(&ctx.queue[idx]));
                    },
                    None => {
                        self.current_song = None;
                    },
                }
            },
            UiEvent::Database => {
                effects.push(
                    Effect::Status {
                        level: Level::Warn,
                        message: String::from_str(
                            "The music database has been updated. Some parts of the UI may have been reinitialized to prevent inconsistent behaviours.",
                        ),
                    },
                );
            },
            _ => {},
        }
        let queue_render = self.panes.queue.on_event(event, ctx);
        let directories_render = self.panes.directories.on_event(event, ctx);
        if queue_render || directories_render {
            render = true;
        }
        (render, effects)
    }

    /// Switch to another tab, in two phases: the outgoing tab is hidden,
    /// the active-tab pointer moves, then the incoming tab refreshes
    /// itself. A failing refresh leaves the pointer already switched and
    /// surfaces the failure.
    ///
    /// `listing` is the root directory listing the incoming directories
    /// pane refreshes from; the queue pane refreshes from the context
    /// alone and never fails.
    pub fn change_tab(
        &mut self,
        new_tab: &String,
        ctx: &AppContext,
        listing: Result<Vec<DirOrSongInfo>, MpdError>,
    ) -> (r: Result<Option<Effect>, UiError>)
        requires
            old(self).panes.directories.stack.wf(),
        ensures
            final(self).panes.queue.scrolling_state.well_formed() || final(self).panes.queue.scrolling_state == old(self).panes.queue.scrolling_state,
            final(self).panes.directories.stack.wf(),
            final(self).tabs == old(self).tabs,
            final(self).modals == old(self).modals,
            final(self).command == old(self).command,
            // the pointer is switched before the incoming tab's refresh
            // runs, so it stays switched even when the refresh fails
            final(self).active_tab@ == new_tab@,
            ({
                let target = tab_index_of(old(self).tabs@, new_tab@);
                match target {
                    None => (r matches Err(e) && e is MissingTab),
                    Some(i) => {
                        if old(self).tabs@[i].pane is Directories && listing is Err {
                            r matches Err(e) && e is Mpd
                        } else {
                            r is Ok
                        }
                    },
                }
            }),
            // the incoming tab's pane is refreshed: the queue pane from
            // the context, the directories pane from the fetched listing
            ({
                let target = tab_index_of(old(self).tabs@, new_tab@);
                &&& (target is Some && old(self).tabs@[target->0].pane is Queue ==> queue_refreshed(
                    old(self).panes.queue,
                    final(self).panes.queue,
                    *ctx,
                ) && final(self).panes.directories == old(self).panes.directories && r == Ok::<
                    Option<Effect>,
                    UiError,
                >(None))
                &&& (target is Some && old(self).tabs@[target->0].pane is Directories && listing
                    is Ok ==> final(self).panes.queue == old(self).panes.queue && (r matches Ok(
                    opt,
                ) && directories_reset(final(self).panes.directories, listing->Ok_0, opt)))
            }),
    {
        // both panes hide without work of their own
        self.active_tab = new_tab.clone();
        let pane = match self.active_pane_id() {
            Ok(p) => p,
            Err(e) => { return Err(e); },
        };
        match pane {
            PaneId::Queue => {
                self.panes.queue.before_show(ctx);
                Ok(None)
            },
            PaneId::Directories => {
                match listing {
                    Ok(entries) => Ok(
                        self.panes.directories.before_show(entries, &ctx.config.symbols),
                    ),
                    Err(e) => Err(UiError::Mpd(e)),
                }
            },
        }
    }

    /// Refresh the router before it is first shown: adopt the current
    /// song and refresh the active tab's pane.
    pub fn before_show(
        &mut self,
        ctx: &AppContext,
        listing: Result<Vec<DirOrSongInfo>, MpdError>,
    ) -> (r: Result<Option<Effect>, UiError>)
        requires
            old(self).panes.directories.stack.wf(),
        ensures
            final(self).panes.directories.stack.wf(),
            match current_song_index(ctx.queue@, ctx.status.songid) {
                Some(i) => final(self).current_song is Some && song_eq(
                    final(self).current_song->0,
                    ctx.queue@[i],
                ),
                None => final(self).current_song is None,
            },
            // the active tab's pane is refreshed before the first frame
            ({
                let target = tab_index_of(old(self).tabs@, old(self).active_tab@);
                &&& (target is None ==> (r matches Err(e) && e is MissingTab))
                &&& (target is Some && old(self).tabs@[target->0].pane is Queue ==> queue_refreshed(
                    old(self).panes.queue,
                    final(self).panes.queue,
                    *ctx,
                ) && final(self).panes.directories == old(self).panes.directories && r == Ok::<
                    Option<Effect>,
                    UiError,
                >(None))
                &&& (target is Some && old(self).tabs@[target->0].pane is Directories && listing
                    is Ok ==> final(self).panes.queue == old(self).panes.queue && (r matches Ok(
                    opt,
                ) && directories_reset(final(self).panes.directories, listing->Ok_0, opt)))
                &&& (target is Some && old(self).tabs@[target->0].pane is Directories && listing
                    is Err ==> (r matches Err(e) && e is Mpd))
            }),
    {
        match ctx.find_current_song_in_queue() {
            Some(idx) => {
                self.current_song = Some(duplicate_song(&ctx.queue[idx]));
            },
            None => {
                self.current_song = None;
            },
        }
        let pane = match self.active_pane_id() {
            Ok(p) => p,
            Err(e) => { return Err(e); },
        };
        match pane {
            PaneId::Queue => {
                self.panes.queue.before_show(ctx);
                Ok(None)
            },
            PaneId::Directories => {
                match listing {
                    Ok(entries) => Ok(
                        self.panes.directories.before_show(entries, &ctx.config.symbols),
                    ),
                    Err(e) => Err(UiError::Mpd(e)),
                }
            },
        }
    }
}

/// The second a click on the bottom bar seeks to: the click's fraction
/// of the bar applied to the song's duration, in whole seconds, with
/// durations past the u32 range clamped first.
pub open spec fn seek_target_secs(duration_ms: u64, x_rel: int, width: int) -> int
    recommends
        width > 0,
{
    let ds = if duration_ms / 1000 > 0xFFFF_FFFF {
        0xFFFF_FFFFint
    } else {
        (duration_ms / 1000) as int
    };
    ds * x_rel / width
}

/// A status message is past its display duration at `now_ms`.
pub open spec fn message_expired(created: u64, now_ms: u64) -> bool {
    now_ms >= created && now_ms - created > STATUS_MESSAGE_DURATION_MS
}

impl Ui {
    /// Bookkeeping for one frame: count it, expire a stale status
    /// message, adopt the frame's regions, and decide what the bottom bar
    /// shows — the open command line first, else the status message, else
    /// the progress bar when periodic status updates are configured.
    pub fn render(&mut self, now_ms: u64, area: Rect, ctx: &AppContext) -> (r: RenderPlan)
        ensures
            final(self).rendered_frames_count == (if old(self).rendered_frames_count == u32::MAX {
                0u32
            } else {
                (old(self).rendered_frames_count + 1) as u32
            }),
            final(self).panes == old(self).panes,
            final(self).modals == old(self).modals,
            final(self).command == old(self).command,
            final(self).active_tab == old(self).active_tab,
            final(self).tabs == old(self).tabs,
            final(self).current_song == old(self).current_song,
            // a stale message is cleared, a fresh one kept
            final(self).status_message == (match old(self).status_message {
                Some(m) => if message_expired(m.created, now_ms) {
                    None
                } else {
                    old(self).status_message
                },
                None => None::<StatusMessage>,
            }),
            r.frames == final(self).rendered_frames_count,
            r.areas == spec_areas(area, ctx.config),
            final(self).areas == r.areas,
            // bar precedence: command line, then status, then progress
            old(self).command is Some ==> (r.bar matches BarContent::CommandLine(text) && text@
                == old(self).command->0@),
            old(self).command is None && final(self).status_message is Some ==> (r.bar
                matches BarContent::Status(shown) && shown.message@ == final(self).status_message->0.message@ && shown.level == final(self).status_message->0.level
                && shown.created == final(self).status_message->0.created),
            old(self).command is None && final(self).status_message is None
                && ctx.config.status_update_interval_ms is Some ==> (r.bar
                matches BarContent::Progress { elapsed_ms, duration_ms } && elapsed_ms
                == ctx.status.elapsed_ms && duration_ms == ctx.status.duration_ms),
            old(self).command is None && final(self).status_message is None
                && ctx.config.status_update_interval_ms is None ==> r.bar is Empty,
    {
        if self.rendered_frames_count == u32::MAX {
            self.rendered_frames_count = 0;
        } else {
            self.rendered_frames_count = self.rendered_frames_count + 1;
        }
        let expired = match &self.status_message {
            Some(m) => now_ms >= m.created && now_ms - m.created > STATUS_MESSAGE_DURATION_MS,
            None => false,
        };
        if expired {
            self.status_message = None;
        }
        let areas = calc_areas(area, &ctx.config);
        self.areas = areas;
        let bar = match &self.command {
            Some(c) => BarContent::CommandLine(c.clone()),
            None => {
                match &self.status_message {
                    Some(m) => BarContent::Status(
                        StatusMessage {
                            message: m.message.clone(),
                            level: m.level,
                            created: m.created,
                        },
                    ),
                    None => {
                        if ctx.config.status_update_interval_ms.is_some() {
                            BarContent::Progress {
                                elapsed_ms: ctx.status.elapsed_ms,
                                duration_ms: ctx.status.duration_ms,
                            }
                        } else {
                            BarContent::Empty
                        }
                    },
                }
            },
        };
        RenderPlan { areas, bar, frames: self.rendered_frames_count }
    }

    /// Route one mouse event. The topmost modal, when one is open, owns
    /// it exclusively; otherwise the region it hits decides: clicks on
    /// the header toggle pause and scrolling there changes the volume,
    /// clicks on the bottom bar seek, scrolling on the tab bar cycles
    /// tabs and clicks there switch to the tab under the cursor, and
    /// events on the content go to the active pane.
    pub fn handle_mouse_event(&mut self, event: MouseEvent, ctx: &AppContext) -> (r: Result<
        MouseResponse,
        UiError,
    >)
        requires
            old(self).panes.queue.scrolling_state.well_formed(),
            old(self).panes.directories.stack.wf(),
        ensures
            final(self).panes.queue.scrolling_state.well_formed(),
            final(self).panes.directories.stack.wf(),
            final(self).modals == old(self).modals,
            final(self).command == old(self).command,
            final(self).active_tab == old(self).active_tab,
            final(self).tabs == old(self).tabs,
            // a modal owns every mouse event exclusively
            old(self).modals@.len() > 0 ==> (r matches Ok(mr) && mr.target is Modal
                && mr.effects@.len() == 0) && *final(self) == *old(self),
            // header clicks toggle pause
            old(self).modals@.len() == 0 && event.kind is LeftClick && rect_contains(
                old(self).areas.header,
                event.x,
                event.y,
            ) ==> (r matches Ok(mr) && mr.target is Header && mr.effects@
                == seq![Effect::PauseToggle]),
            // header scrolling changes the volume
            old(self).modals@.len() == 0 && event.kind is ScrollUp && rect_contains(
                old(self).areas.header,
                event.x,
                event.y,
            ) ==> (r matches Ok(mr) && mr.target is Header && mr.effects@.len() == 1 && (
            mr.effects@[0] matches Effect::SetVolume(_))),
            // header scrolling down also changes the volume, by the step
            old(self).modals@.len() == 0 && event.kind is ScrollDown && rect_contains(
                old(self).areas.header,
                event.x,
                event.y,
            ) ==> (r matches Ok(mr) && mr.target is Header && mr.effects@.len() == 1 && (
            mr.effects@[0] matches Effect::SetVolume(v) && v == (if ctx.status.volume
                >= ctx.config.volume_step {
                ctx.status.volume - ctx.config.volume_step
            } else {
                0int
            }))),
            // events on the header, bar or tab bar never touch the state
            old(self).modals@.len() == 0 && (rect_contains(old(self).areas.header, event.x, event.y)
                || rect_contains(old(self).areas.bar, event.x, event.y) || rect_contains(
                old(self).areas.tabs,
                event.x,
                event.y,
            )) ==> *final(self) == *old(self) && r is Ok,
            // a click on the bottom bar seeks proportionally while the
            // player plays or pauses, and does nothing otherwise
            old(self).modals@.len() == 0 && !rect_contains(old(self).areas.header, event.x, event.y)
                && rect_contains(old(self).areas.bar, event.x, event.y) && event.kind is LeftClick
                && (ctx.status.state is Play || ctx.status.state is Pause) && old(self).areas.bar.width > 0 ==> (r matches Ok(mr) && mr.target is Bar && mr.render
                && mr.effects@.len() == 1 && (mr.effects@[0] matches Effect::SeekCurrentSecs(t)
                && t == seek_target_secs(
                ctx.status.duration_ms,
                event.x - old(self).areas.bar.x,
                old(self).areas.bar.width as int,
            ))),
            old(self).modals@.len() == 0 && !rect_contains(old(self).areas.header, event.x, event.y)
                && rect_contains(old(self).areas.bar, event.x, event.y) && !(event.kind
                is LeftClick && (ctx.status.state is Play || ctx.status.state is Pause) && old(self).areas.bar.width > 0) ==> (r matches Ok(mr) && mr.target is Bar && mr.effects@.len()
                == 0 && !mr.render),
            // scrolling the tab bar cycles the tabs
            old(self).modals@.len() == 0 && !rect_contains(old(self).areas.header, event.x, event.y)
                && !rect_contains(old(self).areas.bar, event.x, event.y) && rect_contains(
                old(self).areas.tabs,
                event.x,
                event.y,
            ) && event.kind is ScrollDown ==> (r matches Ok(mr) && mr.target is Tabs && mr.render
                && mr.effects@.len() == 1 && (mr.effects@[0] matches Effect::SwitchTab(n) && n@
                == next_screen_name(ctx.config.tabs@, old(self).active_tab@))),
            old(self).modals@.len() == 0 && !rect_contains(old(self).areas.header, event.x, event.y)
                && !rect_contains(old(self).areas.bar, event.x, event.y) && rect_contains(
                old(self).areas.tabs,
                event.x,
                event.y,
            ) && event.kind is ScrollUp ==> (r matches Ok(mr) && mr.target is Tabs && mr.render
                && mr.effects@.len() == 1 && (mr.effects@[0] matches Effect::SwitchTab(n) && n@
                == prev_screen_name(ctx.config.tabs@, old(self).active_tab@))),
            // a click on the tab bar switches to the tab drawn under the
            // cursor, every tab given the same width; clicking the active
            // tab, or past the drawn tabs, does nothing
            old(self).modals@.len() == 0 && !rect_contains(old(self).areas.header, event.x, event.y)
                && !rect_contains(old(self).areas.bar, event.x, event.y) && rect_contains(
                old(self).areas.tabs,
                event.x,
                event.y,
            ) && event.kind is LeftClick ==> (r matches Ok(mr) && mr.target is Tabs && ({
                let count = ctx.config.tabs@.len() as int;
                let width = old(self).areas.tabs.width as int;
                if count > 0 && width > 0 {
                    let capped = if count > 0xFFFF_FFFF {
                        0xFFFF_FFFFint
                    } else {
                        count
                    };
                    let idx = (event.x - old(self).areas.tabs.x) * capped / width;
                    if idx < count && ctx.config.tabs@[idx].name@ != old(self).active_tab@ {
                        mr.render && mr.effects@.len() == 1 && (mr.effects@[0]
                            matches Effect::SwitchTab(n) && n@ == ctx.config.tabs@[idx].name@)
                    } else {
                        !mr.render && mr.effects@.len() == 0
                    }
                } else {
                    !mr.render && mr.effects@.len() == 0
                }
            })),
            // events on the content go to the active pane
            old(self).modals@.len() == 0 && !rect_contains(old(self).areas.header, event.x, event.y)
                && !rect_contains(old(self).areas.bar, event.x, event.y) && !rect_contains(
                old(self).areas.tabs,
                event.x,
                event.y,
            ) && rect_contains(old(self).areas.content, event.x, event.y) ==> ((r is Err)
                <==> tab_index_of(old(self).tabs@, old(self).active_tab@) is None) && (r matches Ok(
                mr,
            ) ==> mr.target is Content) && (old(self).spec_active_pane() == Some(
                PaneId::Directories,
            ) ==> *final(self) == *old(self) && (r matches Ok(mr) && mr.effects@.len() == 0
                && !mr.render)) && (old(self).spec_active_pane() == Some(PaneId::Queue) ==> final(self).panes.directories == old(self).panes.directories),
            // outside every region nothing happens
            old(self).modals@.len() == 0 && !rect_contains(old(self).areas.header, event.x, event.y)
                && !rect_contains(old(self).areas.bar, event.x, event.y) && !rect_contains(
                old(self).areas.tabs,
                event.x,
                event.y,
            ) && !rect_contains(old(self).areas.content, event.x, event.y) ==> (r matches Ok(mr)
                && mr.target is Outside && mr.effects@.len() == 0) && *final(self) == *old(self),
    {
        if self.modals.len() > 0 {
            return Ok(
                MouseResponse { target: MouseTarget::Modal, render: false, effects: Vec::new() },
            );
        }
        let mut effects: Vec<Effect> = Vec::new();
        if self.areas.header.contains(event.x, event.y) {
            match event.kind {
                MouseEventKind::LeftClick => {
                    effects.push(Effect::PauseToggle);
                    proof {
                        assert(effects@ =~= seq![Effect::PauseToggle]);
                    }
                    return Ok(
                        MouseResponse { target: MouseTarget::Header, render: true, effects },
                    );
                },
                MouseEventKind::ScrollUp => {
                    let volume = if ctx.status.volume > 100 {
                        100
                    } else {
                        ctx.status.volume
                    };
                    effects.push(Effect::SetVolume(volume_inc_by(volume, ctx.config.volume_step)));
                    return Ok(
                        MouseResponse { target: MouseTarget::Header, render: true, effects },
                    );
                },
                MouseEventKind::ScrollDown => {
                    effects.push(
                        Effect::SetVolume(
                            volume_dec_by(ctx.status.volume, ctx.config.volume_step),
                        ),
                    );
                    return Ok(
                        MouseResponse { target: MouseTarget::Header, render: true, effects },
                    );
                },
                _ => {
                    return Ok(
                        MouseResponse { target: MouseTarget::Header, render: false, effects },
                    );
                },
            }
        }
        if self.areas.bar.contains(event.x, event.y) {
            if event.kind == MouseEventKind::LeftClick && (ctx.status.state == PlayState::Play
                || ctx.status.state == PlayState::Pause) && self.areas.bar.width > 0 {
                // seek to the fraction of the song the click divides the
                // bar into, in whole seconds; durations past the u32
                // range are clamped first
                let duration_secs_raw = ctx.status.duration_ms / 1000;
                let duration_secs: u64 = if duration_secs_raw > 0xFFFF_FFFF {
                    0xFFFF_FFFF
                } else {
                    duration_secs_raw
                };
                let x_rel = (event.x - self.areas.bar.x) as u64;
                assert(duration_secs * x_rel <= 0xFFFF_FFFF * 0xFFFFu64) by (nonlinear_arith)
                    requires
                        duration_secs <= 0xFFFF_FFFF,
                        x_rel <= 0xFFFF,
                ;
                let target_secs = duration_secs * x_rel / (self.areas.bar.width as u64);
                effects.push(Effect::SeekCurrentSecs(target_secs));
                return Ok(MouseResponse { target: MouseTarget::Bar, render: true, effects });
            }
            return Ok(MouseResponse { target: MouseTarget::Bar, render: false, effects });
        }
        if self.areas.tabs.contains(event.x, event.y) {
            match event.kind {
                MouseEventKind::ScrollDown => {
                    effects.push(Effect::SwitchTab(ctx.config.next_screen(&self.active_tab)));
                    return Ok(MouseResponse { target: MouseTarget::Tabs, render: true, effects });
                },
                MouseEventKind::ScrollUp => {
                    effects.push(Effect::SwitchTab(ctx.config.prev_screen(&self.active_tab)));
                    return Ok(MouseResponse { target: MouseTarget::Tabs, render: true, effects });
                },
                MouseEventKind::LeftClick => {
                    let count = ctx.config.tabs.len();
                    let width = self.areas.tabs.width as u64;
                    if count > 0 && width > 0 {
                        let x_rel = (event.x - self.areas.tabs.x) as u64;
                        let count_capped: u64 = if count > 0xFFFF_FFFFusize {
                            0xFFFF_FFFFu64
                        } else {
                            count as u64
                        };
                        assert(x_rel * count_capped <= 0xFFFFu64 * 0xFFFF_FFFFu64)
                            by (nonlinear_arith)
                            requires
                                x_rel <= 0xFFFF,
                                count_capped <= 0xFFFF_FFFF,
                        ;
                        let idx64 = x_rel * count_capped / width;
                        if idx64 < count as u64 {
                            let idx = idx64 as usize;
                            let name = &ctx.config.tabs[idx].name;
                            if !(*name == self.active_tab) {
                                effects.push(Effect::SwitchTab(name.clone()));
                                return Ok(
                                    MouseResponse {
                                        target: MouseTarget::Tabs,
                                        render: true,
                                        effects,
                                    },
                                );
                            }
                        }
                    }
                    return Ok(MouseResponse { target: MouseTarget::Tabs, render: false, effects });
                },
                _ => {
                    return Ok(MouseResponse { target: MouseTarget::Tabs, render: false, effects });
                },
            }
        }
        if self.areas.content.contains(event.x, event.y) {
            let pane = match self.active_pane_id() {
                Ok(p) => p,
                Err(e) => { return Err(e); },
            };
            match pane {
                PaneId::Queue => {
                    let pane_response = self.panes.queue.handle_mouse_event(event, ctx);
                    return Ok(
                        MouseResponse {
                            target: MouseTarget::Content,
                            render: pane_response.render,
                            effects: pane_response.effects,
                        },
                    );
                },
                PaneId::Directories => {
                    // the directories pane has no mouse handling of its own
                    return Ok(
                        MouseResponse { target: MouseTarget::Content, render: false, effects },
                    );
                },
            }
        }
        Ok(MouseResponse { target: MouseTarget::Outside, render: false, effects })
    }
}

/// The height of the tab bar: bordered bars take three rows, bare ones
/// one, disabled ones none.
pub open spec fn spec_tab_bar_height(enabled: bool, borders: bool) -> u16 {
    if enabled && borders {
        3u16
    } else if enabled {
        1u16
    } else {
        0u16
    }
}

/// The frame split into header, tab bar, content and bottom bar: the
/// header gets its configured rows, the tab bar its height, the bottom
/// bar one row, and the content the rest; a frame too short for that, or
/// one whose rows run past the terminal's coordinate range, collapses to
/// empty regions.
pub open spec fn spec_areas(area: Rect, config: Config) -> Areas {
    let hr = config.header_rows;
    let th = spec_tab_bar_height(config.tab_bar_enabled, config.draw_borders);
    if hr + th + 1 <= area.height && area.y + area.height <= u16::MAX {
        Areas {
            header: Rect { x: area.x, y: area.y, width: area.width, height: hr },
            tabs: Rect { x: area.x, y: (area.y + hr) as u16, width: area.width, height: th },
            content: Rect {
                x: area.x,
                y: (area.y + hr + th) as u16,
                width: area.width,
                height: (area.height - hr - th - 1) as u16,
            },
            bar: Rect {
                x: area.x,
                y: (area.y + area.height - 1) as u16,
                width: area.width,
                height: 1,
            },
        }
    } else {
        Areas {
            header: Rect { x: 0, y: 0, width: 0, height: 0 },
            tabs: Rect { x: 0, y: 0, width: 0, height: 0 },
            content: Rect { x: 0, y: 0, width: 0, height: 0 },
            bar: Rect { x: 0, y: 0, width: 0, height: 0 },
        }
    }
}

/// Split the frame into the header, tab bar, content and bottom bar.
pub fn calc_areas(area: Rect, config: &Config) -> (r: Areas)
    ensures
        r == spec_areas(area, *config),
        ({
            let hr = config.header_rows;
            let th = spec_tab_bar_height(config.tab_bar_enabled, config.draw_borders);
            hr + th + 1 <= area.height && area.y + area.height <= u16::MAX ==> {
                &&& r.header == (Rect { x: area.x, y: area.y, width: area.width, height: hr })
                &&& r.tabs == (Rect { x: area.x, y: (area.y + hr) as u16, width: area.width, height: th })
                &&& r.content == (Rect {
                    x: area.x,
                    y: (area.y + hr + th) as u16,
                    width: area.width,
                    height: (area.height - hr - th - 1) as u16,
                })
                &&& r.bar == (Rect {
                    x: area.x,
                    y: (area.y + area.height - 1) as u16,
                    width: area.width,
                    height: 1,
                })
            }
        }),
{
    let hr = config.header_rows;
    let th = if config.tab_bar_enabled && config.draw_borders {
        3
    } else if config.tab_bar_enabled {
        1
    } else {
        0
    };
    if area.height as u32 >= hr as u32 + th as u32 + 1 && area.y as u32 + area.height as u32
        <= u16::MAX as u32 {
        Areas {
            header: Rect { x: area.x, y: area.y, width: area.width, height: hr },
            tabs: Rect { x: area.x, y: area.y + hr, width: area.width, height: th },
            content: Rect {
                x: area.x,
                y: area.y + hr + th,
                width: area.width,
                height: area.height - hr - th - 1,
            },
            bar: Rect { x: area.x, y: area.y + area.height - 1, width: area.width, height: 1 },
        }
    } else {
        Areas {
            header: Rect::zero(),
            tabs: Rect::zero(),
            content: Rect::zero(),
            bar: Rect::zero(),
        }
    }
}

} // verus!
