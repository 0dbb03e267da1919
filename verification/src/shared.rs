//! Plain data shared by the router and the panes: input events, resolved
//! actions, the configuration and player-state snapshots the host hands
//! in, and the effects the library hands back for the host to perform.

use vstd::prelude::*;

use crate::browser::Song;

verus! {

/// A rectangle of the terminal, in cells.
#[derive(Clone, Copy, Debug, PartialEq, Eq, Structural)]
pub struct Rect {
    pub x: u16,
    pub y: u16,
    pub width: u16,
    pub height: u16,
}

/// Whether the cell `(x, y)` lies inside `r`.
pub open spec fn rect_contains(r: Rect, x: u16, y: u16) -> bool {
    &&& r.x <= x < r.x + r.width
    &&& r.y <= y < r.y + r.height
}

impl Rect {
    /// The empty rectangle at the origin.
    pub fn zero() -> (r: Self)
        ensures
            r == (Rect { x: 0, y: 0, width: 0, height: 0 }),
    {
        Rect { x: 0, y: 0, width: 0, height: 0 }
    }

    /// Hit test.
    pub fn contains(&self, x: u16, y: u16) -> (r: bool)
        ensures
            r == rect_contains(*self, x, y),
    {
        let x32 = x as u32;
        let y32 = y as u32;
        (self.x as u32) <= x32 && x32 < (self.x as u32 + self.width as u32) && (self.y as u32)
            <= y32 && y32 < (self.y as u32 + self.height as u32)
    }
}

/// The key itself, for text entry in the command line and filters.
#[derive(Clone, Copy, Debug, PartialEq, Eq, Structural)]
pub enum KeyCode {
    Char(char),
    Backspace,
    Enter,
    Esc,
    Other,
}

/// An action available in every pane.
#[derive(Clone, Copy, Debug, PartialEq, Eq, Structural)]
pub enum CommonAction {
    Down,
    Up,
    MoveDown,
    MoveUp,
    DownHalf,
    UpHalf,
    Right,
    Left,
    Top,
    Bottom,
    EnterSearch,
    NextResult,
    PreviousResult,
    Select,
    Add,
    AddAll,
    Delete,
    Rename,
    Close,
    FocusInput,
    Confirm,
    PaneDown,
    PaneUp,
    PaneRight,
    PaneLeft,
}

/// An application-wide action.
#[derive(Clone, Debug)]
pub enum GlobalAction {
    Command(String),
    CommandMode,
    NextTrack,
    PreviousTrack,
    Stop,
    ToggleRepeat,
    ToggleRandom,
    ToggleSingle,
    ToggleConsume,
    TogglePause,
    VolumeUp,
    VolumeDown,
    SeekForward,
    SeekBack,
    NextTab,
    PreviousTab,
    SwitchToTab(String),
    Quit,
    ShowHelp,
    ShowOutputs,
    ShowDecoders,
    ShowCurrentSongInfo,
    ExternalCommand(String),
}

/// An action specific to the queue pane.
#[derive(Clone, Copy, Debug, PartialEq, Eq, Structural)]
pub enum QueueActions {
    Delete,
    DeleteAll,
    Play,
    JumpToCurrent,
    Save,
    AddToPlaylist,
    ShowInfo,
}

/// An action specific to the directories pane.
#[derive(Clone, Copy, Debug, PartialEq, Eq, Structural)]
pub enum DirectoriesActions {
    AddAll,
}

/// One key press, together with the actions the host's keybinding tables
/// resolved it to. Keybinding resolution is a configuration concern and
/// stays outside this library.
#[derive(Clone, Debug)]
pub struct KeyInput {
    pub code: KeyCode,
    pub common: Option<CommonAction>,
    pub global: Option<GlobalAction>,
    pub queue: Option<QueueActions>,
    pub directories: Option<DirectoriesActions>,
}

/// What kind of mouse event arrived.
#[derive(Clone, Copy, Debug, PartialEq, Eq, Structural)]
pub enum MouseEventKind {
    LeftClick,
    DoubleClick,
    MiddleClick,
    RightClick,
    ScrollUp,
    ScrollDown,
}

/// One mouse event at a terminal cell.
#[derive(Clone, Copy, Debug, PartialEq, Eq, Structural)]
pub struct MouseEvent {
    pub kind: MouseEventKind,
    pub x: u16,
    pub y: u16,
}

/// Playback state of the player.
#[derive(Clone, Copy, Debug, PartialEq, Eq, Structural)]
pub enum PlayState {
    Play,
    Pause,
    Stop,
}

/// A three-valued playback flag: off, on, or on for one song only.
#[derive(Clone, Copy, Debug, PartialEq, Eq, Structural)]
pub enum OnOffOneshot {
    On,
    Off,
    Oneshot,
}

/// The value an on/off/oneshot flag toggles to: the full rotation when
/// the player supports oneshot, plain on/off otherwise.
pub open spec fn cycled(v: OnOffOneshot, oneshot_supported: bool) -> OnOffOneshot {
    if oneshot_supported {
        match v {
            OnOffOneshot::Off => OnOffOneshot::On,
            OnOffOneshot::On => OnOffOneshot::Oneshot,
            OnOffOneshot::Oneshot => OnOffOneshot::Off,
        }
    } else {
        match v {
            OnOffOneshot::Off => OnOffOneshot::On,
            OnOffOneshot::On => OnOffOneshot::Off,
            OnOffOneshot::Oneshot => OnOffOneshot::Off,
        }
    }
}

impl OnOffOneshot {
    /// The next value in the off / on / oneshot rotation.
    pub fn cycle(&self) -> (r: Self)
        ensures
            r == cycled(*self, true),
    {
        match self {
            OnOffOneshot::Off => OnOffOneshot::On,
            OnOffOneshot::On => OnOffOneshot::Oneshot,
            OnOffOneshot::Oneshot => OnOffOneshot::Off,
        }
    }

    /// The next value for players without oneshot support: plain on/off.
    pub fn cycle_pre_mpd_24(&self) -> (r: Self)
        ensures
            r == cycled(*self, false),
    {
        match self {
            OnOffOneshot::Off => OnOffOneshot::On,
            OnOffOneshot::On => OnOffOneshot::Off,
            OnOffOneshot::Oneshot => OnOffOneshot::Off,
        }
    }
}

/// Volume in percent, clamped to `0..=100`.
pub fn volume_inc_by(volume: u8, step: u8) -> (r: u8)
    requires
        volume <= 100,
    ensures
        r == (if volume + step <= 100 {
            volume + step
        } else {
            100int
        }),
{
    if step <= 100 - volume {
        volume + step
    } else {
        100
    }
}

/// Volume in percent, clamped to `0..=100`.
pub fn volume_dec_by(volume: u8, step: u8) -> (r: u8)
    ensures
        r == (if volume >= step {
            volume - step
        } else {
            0int
        }),
{
    if volume >= step {
        volume - step
    } else {
        0
    }
}

/// A snapshot of the player's status.
#[derive(Clone, Debug)]
pub struct Status {
    pub state: PlayState,
    pub volume: u8,
    pub repeat: bool,
    pub random: bool,
    pub single: OnOffOneshot,
    pub consume: OnOffOneshot,
    pub single_oneshot_supported: bool,
    pub consume_oneshot_supported: bool,
    pub elapsed_ms: u64,
    pub duration_ms: u64,
    pub songid: Option<u32>,
}

/// Which pane a tab shows.
#[derive(Clone, Copy, Debug, PartialEq, Eq, Structural)]
pub enum PaneId {
    Queue,
    Directories,
}

/// One tab of the interface: its name and the pane it shows.
#[derive(Clone, Debug)]
pub struct TabEntry {
    pub name: String,
    pub pane: PaneId,
}

/// The configuration values this library's decisions depend on. Loading
/// and keybinding tables stay with the host.
#[derive(Clone, Debug)]
pub struct Config {
    pub tabs: Vec<TabEntry>,
    pub symbols: crate::browser::SymbolsConfig,
    pub scrolloff: usize,
    pub wrap_navigation: bool,
    pub select_current_song_on_change: bool,
    pub volume_step: u8,
    pub status_update_interval_ms: Option<u64>,
    pub header_rows: u16,
    pub tab_bar_enabled: bool,
    pub draw_borders: bool,
}

/// The index of the first tab named `name`.
pub open spec fn tab_index_from(tabs: Seq<TabEntry>, name: Seq<char>, k: int) -> Option<int>
    decreases tabs.len() - k,
    when 0 <= k <= tabs.len()
{
    if k >= tabs.len() {
        None
    } else if tabs[k].name@ == name {
        Some(k)
    } else {
        tab_index_from(tabs, name, k + 1)
    }
}

/// The index of the tab named `name`, if any.
pub open spec fn tab_index_of(tabs: Seq<TabEntry>, name: Seq<char>) -> Option<int> {
    tab_index_from(tabs, name, 0)
}

/// The name of the tab after `current`, wrapping at the end of the tab
/// list; an unknown name maps to itself.
pub open spec fn next_screen_name(tabs: Seq<TabEntry>, current: Seq<char>) -> Seq<char> {
    match tab_index_of(tabs, current) {
        Some(i) => tabs[if i + 1 < tabs.len() {
            i + 1
        } else {
            0
        }].name@,
        None => current,
    }
}

/// The name of the tab before `current`, wrapping at the start of the
/// tab list; an unknown name maps to itself.
pub open spec fn prev_screen_name(tabs: Seq<TabEntry>, current: Seq<char>) -> Seq<char> {
    match tab_index_of(tabs, current) {
        Some(i) => tabs[if i == 0 {
            tabs.len() - 1
        } else {
            i - 1
        }].name@,
        None => current,
    }
}

impl Config {
    /// Find the tab named `name`.
    pub fn find_tab(&self, name: &String) -> (r: Option<usize>)
        ensures
            match tab_index_of(self.tabs@, name@) {
                Some(i) => 0 <= i < self.tabs@.len() && r == Some(i as usize),
                None => r is None,
            },
    {
        let mut k: usize = 0;
        while k < self.tabs.len()
            invariant
                k <= self.tabs@.len(),
                tab_index_of(self.tabs@, name@) == tab_index_from(self.tabs@, name@, k as int),
            decreases self.tabs@.len() - k,
        {
            if self.tabs[k].name == *name {
                return Some(k);
            }
            k += 1;
        }
        None
    }

    /// The name of the tab after `current_screen`, wrapping at the end of
    /// the tab list; an unknown name is handed back unchanged.
    pub fn next_screen(&self, current_screen: &String) -> (r: String)
        ensures
            r@ == next_screen_name(self.tabs@, current_screen@),
    {
        match self.find_tab(current_screen) {
            Some(i) => {
                let n = self.tabs.len();
                let j = if i + 1 < n {
                    i + 1
                } else {
                    0
                };
                self.tabs[j].name.clone()
            },
            None => current_screen.clone(),
        }
    }

    /// The name of the tab before `current_screen`, wrapping at the start
    /// of the tab list; an unknown name is handed back unchanged.
    pub fn prev_screen(&self, current_screen: &String) -> (r: String)
        ensures
            r@ == prev_screen_name(self.tabs@, current_screen@),
    {
        match self.find_tab(current_screen) {
            Some(i) => {
                let n = self.tabs.len();
                let j = if i == 0 {
                    n - 1
                } else {
                    i - 1
                };
                self.tabs[j].name.clone()
            },
            None => current_screen.clone(),
        }
    }
}

/// An error from the player connection, surfaced but never retried here.
#[derive(Clone, Debug)]
pub struct MpdError {
    pub message: String,
}

/// A fatal internal inconsistency: the configuration references state
/// that does not exist.
#[derive(Clone, Debug)]
pub enum UiError {
    NoTabs,
    MissingTab,
    Mpd(MpdError),
}

/// The snapshot of host-owned state a call works on: configuration,
/// player status and the current queue.
#[derive(Clone, Debug)]
pub struct AppContext {
    pub config: Config,
    pub status: Status,
    pub queue: Vec<Song>,
}

/// The queue position of the song the player reports as current.
pub open spec fn current_song_index_from(queue: Seq<Song>, songid: u32, k: int) -> Option<int>
    decreases queue.len() - k,
    when 0 <= k <= queue.len()
{
    if k >= queue.len() {
        None
    } else if queue[k].id == songid {
        Some(k)
    } else {
        current_song_index_from(queue, songid, k + 1)
    }
}

/// The queue position of the current song, if the player reports one and
/// it is in the queue.
pub open spec fn current_song_index(queue: Seq<Song>, songid: Option<u32>) -> Option<int> {
    match songid {
        Some(id) => current_song_index_from(queue, id, 0),
        None => None,
    }
}

impl AppContext {
    /// Find the currently playing song in the queue.
    pub fn find_current_song_in_queue(&self) -> (r: Option<usize>)
        ensures
            match current_song_index(self.queue@, self.status.songid) {
                Some(i) => 0 <= i < self.queue@.len() && i <= usize::MAX && r == Some(i as usize),
                None => r is None,
            },
    {
        let id = match self.status.songid {
            Some(id) => id,
            None => { return None; },
        };
        let mut k: usize = 0;
        while k < self.queue.len()
            invariant
                k <= self.queue@.len(),
                self.status.songid == Some(id),
                current_song_index(self.queue@, self.status.songid) == current_song_index_from(
                    self.queue@,
                    id,
                    k as int,
                ),
            decreases self.queue@.len() - k,
        {
            if self.queue[k].id == id {
                return Some(k);
            }
            k += 1;
        }
        None
    }
}

/// Severity of a transient status message.
#[derive(Clone, Copy, Debug, PartialEq, Eq, Structural)]
pub enum Level {
    Trace,
    Debug,
    Warn,
    Error,
    Info,
}

/// A transient message shown in the status bar; `created` is the host's
/// clock in milliseconds.
#[derive(Clone, Debug)]
pub struct StatusMessage {
    pub message: String,
    pub level: Level,
    pub created: u64,
}

/// The contents a modal is opened with. What a modal does with its input
/// is the host's concern; the router only guarantees it exclusive input.
#[derive(Clone, Debug)]
pub enum ModalKind {
    Keybinds,
    Outputs,
    Decoders,
    SongInfo(Song),
    ConfirmQueueClear,
    SaveQueue,
    AddToPlaylist(String),
}

/// A modal instance on the overlay stack.
#[derive(Clone, Debug)]
pub struct ModalWrapper(pub ModalKind);

/// An action the host must perform on the library's behalf: a player
/// command, host-side work, or a status-line message.
#[derive(Clone, Debug)]
pub enum Effect {
    PauseToggle,
    NextTrack,
    PreviousTrack,
    Stop,
    SetVolume(u8),
    SeekCurrentSecs(u64),
    SeekForwardSecs(u64),
    SeekBackSecs(u64),
    Repeat(bool),
    Random(bool),
    Single(OnOffOneshot),
    Consume(OnOffOneshot),
    PlayId(u32),
    DeleteId(u32),
    MoveId { id: u32, to: usize },
    AddToQueue(String),
    RunExternal(String),
    ExecuteCommand(String),
    SwitchTab(String),
    FetchOutputs,
    FetchDecoders,
    EnterDirectory(Vec<String>),
    FetchPreview(Vec<String>),
    OpenModal(ModalKind),
    Status { level: Level, message: String },
}

/// What a pane did with a key it was offered.
#[derive(Debug)]
pub struct PaneKeyResponse {
    pub consumed: bool,
    pub render: bool,
    pub effects: Vec<Effect>,
}

/// What a pane did with a mouse event.
#[derive(Debug)]
pub struct PaneMouseResponse {
    pub render: bool,
    pub effects: Vec<Effect>,
}

/// A notification from the player connection, as its idle protocol
/// reports it.
#[derive(Clone, Copy, Debug, PartialEq, Eq, Structural)]
pub enum IdleEvent {
    Player,
    Database,
    StoredPlaylist,
    Mixer,
    Options,
    Update,
}

/// An event delivered to the interface: player notifications, terminal
/// changes and modal lifecycle notices.
#[derive(Clone, Debug)]
pub enum UiEvent {
    Player,
    Database,
    StoredPlaylist,
    LogAdded(Vec<u8>),
    Resized { columns: u16, rows: u16 },
    ModalOpened,
    ModalClosed,
    Exit,
}

} // verus!
