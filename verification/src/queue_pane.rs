//! The queue pane: the play queue as a scrollable table with a text
//! filter.

use vstd::prelude::*;

use crate::browser::{duplicate_song, song_eq, Song};
use crate::dirstack::{
    at_rendered_row, clamp_selection, find_first_match, find_next_match, find_prev_match,
    first_match, half_down_selection, half_up_selection, jump_target_bwd, jump_target_fwd,
    last_selection, lemma_jump_forward_finds_match, lemma_jump_round_trip, next_selection,
    prev_selection, MyState, ScrollingState, TableState,
};
use crate::search::{push_char, pop_char, MatchesSearch};
use crate::shared::{
    current_song_index, rect_contains, AppContext, CommonAction, Effect, KeyCode, KeyInput, Level,
    ModalKind, MouseEvent, MouseEventKind, PaneKeyResponse, PaneMouseResponse, QueueActions, Rect,
    UiEvent,
};

verus! {

/// What each visible queue row needs beyond the song itself: whether it
/// is highlighted (the playing song, or a filter match).
pub struct QueueRenderPlan {
    pub highlighted: Vec<bool>,
    pub filter: Option<String>,
    pub filter_input_mode: bool,
}

/// The play queue pane.
#[derive(Debug)]
pub struct QueuePane {
    pub scrolling_state: MyState<TableState>,
    pub filter: Option<String>,
    pub filter_input_mode: bool,
    pub table_area: Rect,
}

/// Whether a queue row is drawn highlighted: it is the playing song or it
/// matches the active filter.
pub open spec fn row_highlighted(
    song: Song,
    songid: Option<u32>,
    filter: Option<String>,
) -> bool {
    ||| songid == Some(song.id)
    ||| match filter {
        Some(f) => song.spec_matches(f@, true),
        None => false,
    }
}

/// The queue pane after a pre-show refresh: the queue length is adopted,
/// a still-valid selection is kept, and an absent or stale one moves to
/// the playing song, or the first row; nothing else changes.
pub open spec fn queue_refreshed(pre: QueuePane, post: QueuePane, ctx: AppContext) -> bool {
    &&& post.scrolling_state.content_len == Some(ctx.queue@.len() as usize)
    &&& post.scrolling_state.well_formed()
    &&& post.filter == pre.filter
    &&& post.filter_input_mode == pre.filter_input_mode
    &&& post.table_area == pre.table_area
    &&& {
        let n = Some(ctx.queue@.len() as usize);
        match clamp_selection(n, pre.scrolling_state.inner.spec_selected()) {
            Some(i) => post.scrolling_state.inner.spec_selected() == Some(i),
            None => post.scrolling_state.inner.spec_selected() == clamp_selection(
                n,
                Some(
                    match current_song_index(ctx.queue@, ctx.status.songid) {
                        Some(i) => i as usize,
                        None => 0usize,
                    },
                ),
            ),
        }
    }
}

impl QueuePane {
    /// A fresh pane with nothing selected and no filter.
    pub fn new() -> (r: Self)
        ensures
            r.scrolling_state.inner.spec_selected() is None,
            r.scrolling_state.content_len is None,
            r.scrolling_state.viewport_len is None,
            r.scrolling_state.offset == 0,
            r.filter is None,
            !r.filter_input_mode,
            r.scrolling_state.well_formed(),
    {
        QueuePane {
            scrolling_state: MyState::new(TableState::default()),
            filter: None,
            filter_input_mode: false,
            table_area: Rect::zero(),
        }
    }

    /// Refresh the pane before it is shown: adopt the queue length and,
    /// when nothing is selected, select the playing song, or the first
    /// row.
    pub fn before_show(&mut self, ctx: &AppContext)
        ensures
            queue_refreshed(*old(self), *final(self), *ctx),
    {
        self.scrolling_state.content_len(Some(ctx.queue.len()));
        let scrolloff = if self.table_area.width == 0 && self.table_area.height == 0 {
            0
        } else {
            ctx.config.scrolloff
        };
        if self.scrolling_state.get_selected().is_none() {
            let target = match ctx.find_current_song_in_queue() {
                Some(i) => i,
                None => 0,
            };
            self.scrolling_state.select(Some(target), scrolloff);
        }
    }

    /// React to a player notification: when the playing song changed and
    /// is in the queue, optionally re-select it, and ask for a render.
    pub fn on_event(&mut self, event: &UiEvent, ctx: &AppContext) -> (render: bool)
        requires
            old(self).scrolling_state.well_formed(),
        ensures
            final(self).scrolling_state.well_formed(),
            render == (event is Player && current_song_index(ctx.queue@, ctx.status.songid)
                is Some),
            final(self).filter == old(self).filter,
            final(self).filter_input_mode == old(self).filter_input_mode,
            !(event is Player) ==> *final(self) == *old(self),
            current_song_index(ctx.queue@, ctx.status.songid) is None ==> *final(self) == *old(self),
            !ctx.config.select_current_song_on_change ==> *final(self) == *old(self),
            event is Player && ctx.config.select_current_song_on_change && current_song_index(
                ctx.queue@,
                ctx.status.songid,
            ) is Some ==> final(self).scrolling_state.inner.spec_selected() == clamp_selection(
                old(self).scrolling_state.content_len,
                Some(current_song_index(ctx.queue@, ctx.status.songid)->0 as usize),
            ),
    {
        match event {
            UiEvent::Player => {
                match ctx.find_current_song_in_queue() {
                    Some(idx) => {
                        if ctx.config.select_current_song_on_change {
                            self.scrolling_state.select(Some(idx), ctx.config.scrolloff);
                        }
                        true
                    },
                    None => false,
                }
            },
            _ => false,
        }
    }

    /// Decide what each row of the rendered queue table needs: the
    /// highlight flags, and the filter line. Adopts the drawing area and
    /// the queue length.
    pub fn render(&mut self, area: Rect, ctx: &AppContext) -> (r: QueueRenderPlan)
        ensures
            final(self).table_area == area,
            final(self).scrolling_state.content_len == Some(ctx.queue@.len() as usize),
            final(self).scrolling_state.viewport_len == Some(area.height as usize),
            final(self).scrolling_state.well_formed(),
            final(self).filter == old(self).filter,
            final(self).filter_input_mode == old(self).filter_input_mode,
            r.highlighted@.len() == ctx.queue@.len(),
            forall|k: int|
                0 <= k < ctx.queue@.len() ==> #[trigger] r.highlighted@[k] == row_highlighted(
                    ctx.queue@[k],
                    ctx.status.songid,
                    old(self).filter,
                ),
            r.filter == old(self).filter,
            r.filter_input_mode == old(self).filter_input_mode,
    {
        self.table_area = area;
        self.scrolling_state.content_len(Some(ctx.queue.len()));
        self.scrolling_state.viewport_len(Some(area.height as usize));
        let mut highlighted: Vec<bool> = Vec::new();
        let mut k: usize = 0;
        while k < ctx.queue.len()
            invariant
                k <= ctx.queue@.len(),
                highlighted@.len() == k,
                self.filter == old(self).filter,
                ctx.status.songid == ctx.status.songid,
                forall|u: int|
                    0 <= u < k ==> #[trigger] highlighted@[u] == row_highlighted(
                        ctx.queue@[u],
                        ctx.status.songid,
                        old(self).filter,
                    ),
            decreases ctx.queue@.len() - k,
        {
            let song = &ctx.queue[k];
            let is_current = match ctx.status.songid {
                Some(id) => id == song.id,
                None => false,
            };
            let matches_filter = match &self.filter {
                Some(f) => song.matches(f.as_str(), true),
                None => false,
            };
            highlighted.push(is_current || matches_filter);
            k += 1;
        }
        QueueRenderPlan {
            highlighted,
            filter: match &self.filter {
                Some(f) => Some(f.clone()),
                None => None,
            },
            filter_input_mode: self.filter_input_mode,
        }
    }

    /// Move the selection to the next queue row matching the filter,
    /// wrapping at the end. Without a filter a warning is produced;
    /// without a selection, or without a match, nothing changes.
    pub fn jump_forward(&mut self, queue: &Vec<Song>, scrolloff: usize) -> (warn: Option<Effect>)
        requires
            old(self).scrolling_state.well_formed(),
        ensures
            final(self).scrolling_state.well_formed(),
            final(self).scrolling_state.content_len == old(self).scrolling_state.content_len,
            final(self).scrolling_state.viewport_len == old(self).scrolling_state.viewport_len,
            final(self).filter == old(self).filter,
            final(self).filter_input_mode == old(self).filter_input_mode,
            final(self).table_area == old(self).table_area,
            old(self).filter is None ==> *final(self) == *old(self) && (warn matches Some(
                Effect::Status { level, .. },
            ) && level is Warn),
            old(self).filter is None == (warn is Some),
            match (old(self).filter, old(self).scrolling_state.inner.spec_selected()) {
                (Some(f), Some(sel)) => {
                    if sel < queue@.len() {
                        match jump_target_fwd(queue@, f@, true, sel as int) {
                            Some(j) => final(self).scrolling_state.inner.spec_selected()
                                == clamp_selection(
                                old(self).scrolling_state.content_len,
                                Some(j as usize),
                            ),
                            None => *final(self) == *old(self),
                        }
                    } else {
                        *final(self) == *old(self)
                    }
                },
                (Some(f), None) => *final(self) == *old(self),
                _ => true,
            },
    {
        let filter = match &self.filter {
            Some(f) => f.clone(),
            None => {
                return Some(
                    Effect::Status {
                        level: Level::Warn,
                        message: String::from_str("No filter set"),
                    },
                );
            },
        };
        let sel = match self.scrolling_state.get_selected() {
            Some(s) => s,
            None => { return None; },
        };
        if sel >= queue.len() {
            return None;
        }
        match find_next_match(queue, filter.as_str(), true, sel) {
            Some(j) => {
                self.scrolling_state.select(Some(j), scrolloff);
            },
            None => {},
        }
        None
    }

    /// Move the selection to the previous queue row matching the filter,
    /// wrapping at the start. Without a filter a warning is produced;
    /// without a selection, or without a match, nothing changes.
    pub fn jump_back(&mut self, queue: &Vec<Song>, scrolloff: usize) -> (warn: Option<Effect>)
        requires
            old(self).scrolling_state.well_formed(),
        ensures
            final(self).scrolling_state.well_formed(),
            final(self).scrolling_state.content_len == old(self).scrolling_state.content_len,
            final(self).scrolling_state.viewport_len == old(self).scrolling_state.viewport_len,
            final(self).filter == old(self).filter,
            final(self).filter_input_mode == old(self).filter_input_mode,
            final(self).table_area == old(self).table_area,
            old(self).filter is None ==> *final(self) == *old(self) && (warn matches Some(
                Effect::Status { level, .. },
            ) && level is Warn),
            old(self).filter is None == (warn is Some),
            match (old(self).filter, old(self).scrolling_state.inner.spec_selected()) {
                (Some(f), Some(sel)) => {
                    if sel < queue@.len() {
                        match jump_target_bwd(queue@, f@, true, sel as int) {
                            Some(j) => final(self).scrolling_state.inner.spec_selected()
                                == clamp_selection(
                                old(self).scrolling_state.content_len,
                                Some(j as usize),
                            ),
                            None => *final(self) == *old(self),
                        }
                    } else {
                        *final(self) == *old(self)
                    }
                },
                (Some(f), None) => *final(self) == *old(self),
                _ => true,
            },
    {
        let filter = match &self.filter {
            Some(f) => f.clone(),
            None => {
                return Some(
                    Effect::Status {
                        level: Level::Warn,
                        message: String::from_str("No filter set"),
                    },
                );
            },
        };
        let sel = match self.scrolling_state.get_selected() {
            Some(s) => s,
            None => { return None; },
        };
        if sel >= queue.len() {
            return None;
        }
        match find_prev_match(queue, filter.as_str(), true, sel) {
            Some(j) => {
                self.scrolling_state.select(Some(j), scrolloff);
            },
            None => {},
        }
        None
    }

    /// Move the selection to the first queue row matching the filter.
    /// Without a filter a warning is produced; without a match nothing
    /// changes.
    pub fn jump_first(&mut self, queue: &Vec<Song>, scrolloff: usize) -> (warn: Option<Effect>)
        requires
            old(self).scrolling_state.well_formed(),
        ensures
            final(self).scrolling_state.well_formed(),
            final(self).scrolling_state.content_len == old(self).scrolling_state.content_len,
            final(self).scrolling_state.viewport_len == old(self).scrolling_state.viewport_len,
            final(self).filter == old(self).filter,
            final(self).filter_input_mode == old(self).filter_input_mode,
            final(self).table_area == old(self).table_area,
            old(self).filter is None ==> *final(self) == *old(self),
            old(self).filter is None == (warn is Some),
            match old(self).filter {
                Some(f) => match first_match(queue@, f@, true) {
                    Some(j) => final(self).scrolling_state.inner.spec_selected()
                        == clamp_selection(
                        old(self).scrolling_state.content_len,
                        Some(j as usize),
                    ),
                    None => *final(self) == *old(self),
                },
                None => true,
            },
    {
        let filter = match &self.filter {
            Some(f) => f.clone(),
            None => {
                return Some(
                    Effect::Status {
                        level: Level::Warn,
                        message: String::from_str("No filter set"),
                    },
                );
            },
        };
        match find_first_match(queue, filter.as_str(), true) {
            Some(j) => {
                self.scrolling_state.select(Some(j), scrolloff);
            },
            None => {},
        }
        None
    }

    /// The queue row the selection rests on, if it is in range.
    pub open spec fn spec_selected_song(&self, queue: Seq<Song>) -> Option<Song> {
        match self.scrolling_state.inner.spec_selected() {
            Some(i) => if i < queue.len() {
                Some(queue[i as int])
            } else {
                None
            },
            None => None,
        }
    }

    /// Handle a key offered to the pane.
    ///
    /// In filter-entry mode the key edits the filter and never falls
    /// through. Otherwise queue actions act on the selected song, common
    /// actions move the selection, and anything else falls through to the
    /// global bindings.
    pub fn handle_action(&mut self, key: &KeyInput, ctx: &AppContext) -> (r: PaneKeyResponse)
        requires
            old(self).scrolling_state.well_formed(),
        ensures
            final(self).scrolling_state.well_formed(),
            final(self).table_area == old(self).table_area,
            r.consumed == (old(self).filter_input_mode || key.queue is Some || key.common is Some
                || (key.global matches Some(crate::shared::GlobalAction::ExternalCommand(_)))),
            old(self).filter_input_mode && key.common == Some(CommonAction::Confirm) ==> *final(self) == (QueuePane { filter_input_mode: false, ..*old(self) }),
            old(self).filter_input_mode && key.common == Some(CommonAction::Close) ==> *final(self)
                == (QueuePane { filter_input_mode: false, filter: None, ..*old(self) }),
            old(self).filter_input_mode && key.common != Some(CommonAction::Confirm) && key.common
                != Some(CommonAction::Close) && key.code is Char && old(self).filter is Some
                ==> final(self).filter is Some && final(self).filter->0@ == old(self).filter->0@.push(key.code->Char_0),
            old(self).filter_input_mode && key.common != Some(CommonAction::Confirm) && key.common
                != Some(CommonAction::Close) && key.code is Char && old(self).filter is Some ==> (
            match first_match(ctx.queue@, old(self).filter->0@.push(key.code->Char_0), true) {
                Some(j) => final(self).scrolling_state.inner.spec_selected() == clamp_selection(
                    old(self).scrolling_state.content_len,
                    Some(j as usize),
                ),
                None => final(self).scrolling_state == old(self).scrolling_state,
            }),
            old(self).filter_input_mode && key.common != Some(CommonAction::Confirm) && key.common
                != Some(CommonAction::Close) && key.code is Backspace && old(self).filter is Some
                && old(self).filter->0@.len() > 0 ==> final(self).filter is Some && final(self).filter->0@ == old(self).filter->0@.drop_last(),
            !old(self).filter_input_mode && key.queue == Some(QueueActions::Delete) ==> (match old(self).spec_selected_song(ctx.queue@) {
                Some(song) => r.effects@ == seq![Effect::DeleteId(song.id)],
                None => r.effects@.len() == 1 && (r.effects@[0] matches Effect::Status {
                    level,
                    ..
                } && level is Error),
            }),
            !old(self).filter_input_mode && key.queue == Some(QueueActions::Play) ==> (match old(self).spec_selected_song(ctx.queue@) {
                Some(song) => r.effects@ == seq![Effect::PlayId(song.id)],
                None => r.effects@.len() == 0,
            }),
            !old(self).filter_input_mode && key.queue == Some(QueueActions::DeleteAll)
                ==> r.effects@ == seq![Effect::OpenModal(ModalKind::ConfirmQueueClear)],
            !old(self).filter_input_mode && key.queue == Some(QueueActions::Save) ==> r.effects@
                == seq![Effect::OpenModal(ModalKind::SaveQueue)],
            !old(self).filter_input_mode && key.queue == Some(QueueActions::AddToPlaylist) ==> (
            match old(self).spec_selected_song(ctx.queue@) {
                Some(song) => r.effects@.len() == 1 && (r.effects@[0] matches Effect::OpenModal(
                    ModalKind::AddToPlaylist(f),
                ) && f@ == song.file@),
                None => r.effects@.len() == 0,
            }),
            !old(self).filter_input_mode && key.queue == Some(QueueActions::ShowInfo) ==> (match
            old(self).spec_selected_song(ctx.queue@) {
                Some(song) => r.effects@.len() == 1 && (r.effects@[0] matches Effect::OpenModal(
                    ModalKind::SongInfo(shown),
                ) && song_eq(shown, song)),
                None => r.effects@.len() == 1 && (r.effects@[0] matches Effect::Status {
                    level,
                    ..
                } && level is Error),
            }),
            !old(self).filter_input_mode && key.queue == Some(QueueActions::JumpToCurrent) ==> (
            match current_song_index(ctx.queue@, ctx.status.songid) {
                Some(i) => final(self).scrolling_state.inner.spec_selected() == clamp_selection(
                    old(self).scrolling_state.content_len,
                    Some(i as usize),
                ),
                None => r.effects@.len() == 1 && (r.effects@[0] matches Effect::Status {
                    level,
                    ..
                } && level is Info),
            }),
            !old(self).filter_input_mode && key.queue is None && key.common == Some(
                CommonAction::Down,
            ) && ctx.queue@.len() > 0 ==> final(self).scrolling_state.inner.spec_selected()
                == next_selection(
                old(self).scrolling_state.inner.spec_selected(),
                old(self).scrolling_state.content_len,
                ctx.config.wrap_navigation,
            ),
            !old(self).filter_input_mode && key.queue is None && key.common == Some(
                CommonAction::Up,
            ) && ctx.queue@.len() > 0 ==> final(self).scrolling_state.inner.spec_selected()
                == prev_selection(
                old(self).scrolling_state.inner.spec_selected(),
                old(self).scrolling_state.content_len,
                ctx.config.wrap_navigation,
            ),
            !old(self).filter_input_mode && key.queue is None && key.common == Some(
                CommonAction::DownHalf,
            ) && ctx.queue@.len() > 0 ==> final(self).scrolling_state.inner.spec_selected()
                == half_down_selection(
                old(self).scrolling_state.inner.spec_selected(),
                old(self).scrolling_state.content_len,
                old(self).scrolling_state.viewport_len,
            ),
            !old(self).filter_input_mode && key.queue is None && key.common == Some(
                CommonAction::UpHalf,
            ) && ctx.queue@.len() > 0 ==> final(self).scrolling_state.inner.spec_selected()
                == half_up_selection(
                old(self).scrolling_state.inner.spec_selected(),
                old(self).scrolling_state.content_len,
                old(self).scrolling_state.viewport_len,
            ),
            !old(self).filter_input_mode && key.queue is None && key.common == Some(
                CommonAction::Bottom,
            ) && ctx.queue@.len() > 0 ==> final(self).scrolling_state.inner.spec_selected()
                == last_selection(old(self).scrolling_state.content_len),
            !old(self).filter_input_mode && key.queue is None && key.common == Some(
                CommonAction::Top,
            ) && ctx.queue@.len() > 0 ==> final(self).scrolling_state.inner.spec_selected()
                == clamp_selection(old(self).scrolling_state.content_len, Some(0usize)),
            !old(self).filter_input_mode && key.queue is None && key.common == Some(
                CommonAction::EnterSearch,
            ) ==> final(self).filter_input_mode && final(self).filter is Some && final(self).filter->0@.len() == 0,
            !old(self).filter_input_mode && key.queue is None && key.common == Some(
                CommonAction::MoveUp,
            ) && ctx.queue@.len() > 0 ==> (match old(self).spec_selected_song(ctx.queue@) {
                Some(song) => {
                    let i = old(self).scrolling_state.inner.spec_selected()->0;
                    let target = if i > 0 {
                        (i - 1) as usize
                    } else {
                        0usize
                    };
                    r.effects@ == seq![Effect::MoveId { id: song.id, to: target }] && final(self).scrolling_state.inner.spec_selected() == clamp_selection(
                        old(self).scrolling_state.content_len,
                        Some(target),
                    )
                },
                None => r.effects@.len() == 0,
            }),
            !old(self).filter_input_mode && key.queue is None && key.common == Some(
                CommonAction::MoveDown,
            ) && ctx.queue@.len() > 0 ==> (match old(self).spec_selected_song(ctx.queue@) {
                Some(song) => {
                    let i = old(self).scrolling_state.inner.spec_selected()->0;
                    let target = if i + 1 < ctx.queue@.len() {
                        (i + 1) as usize
                    } else {
                        (ctx.queue@.len() - 1) as usize
                    };
                    r.effects@ == seq![Effect::MoveId { id: song.id, to: target }] && final(self).scrolling_state.inner.spec_selected() == clamp_selection(
                        old(self).scrolling_state.content_len,
                        Some(target),
                    )
                },
                None => r.effects@.len() == 0,
            }),
            !old(self).filter_input_mode && key.queue is None && key.common == Some(
                CommonAction::NextResult,
            ) && old(self).filter is None ==> final(self).scrolling_state == old(
                self,
            ).scrolling_state && r.effects@.len() == 1 && (r.effects@[0] matches Effect::Status {
                level,
                ..
            } && level is Warn),
            !old(self).filter_input_mode && key.queue is None && key.common == Some(
                CommonAction::NextResult,
            ) && old(self).filter is Some && old(self).scrolling_state.inner.spec_selected()
                is Some && old(self).scrolling_state.inner.spec_selected()->0 < ctx.queue@.len()
                ==> r.effects@.len() == 0 && (match jump_target_fwd(
                ctx.queue@,
                old(self).filter->0@,
                true,
                old(self).scrolling_state.inner.spec_selected()->0 as int,
            ) {
                Some(j) => final(self).scrolling_state.inner.spec_selected() == clamp_selection(
                    old(self).scrolling_state.content_len,
                    Some(j as usize),
                ),
                None => final(self).scrolling_state == old(self).scrolling_state,
            }),
            !old(self).filter_input_mode && key.queue is None && key.common == Some(
                CommonAction::PreviousResult,
            ) && old(self).filter is None ==> final(self).scrolling_state == old(
                self,
            ).scrolling_state && r.effects@.len() == 1 && (r.effects@[0] matches Effect::Status {
                level,
                ..
            } && level is Warn),
            !old(self).filter_input_mode && key.queue is None && key.common == Some(
                CommonAction::PreviousResult,
            ) && old(self).filter is Some && old(self).scrolling_state.inner.spec_selected()
                is Some && old(self).scrolling_state.inner.spec_selected()->0 < ctx.queue@.len()
                ==> r.effects@.len() == 0 && (match jump_target_bwd(
                ctx.queue@,
                old(self).filter->0@,
                true,
                old(self).scrolling_state.inner.spec_selected()->0 as int,
            ) {
                Some(j) => final(self).scrolling_state.inner.spec_selected() == clamp_selection(
                    old(self).scrolling_state.content_len,
                    Some(j as usize),
                ),
                None => final(self).scrolling_state == old(self).scrolling_state,
            }),
            !old(self).filter_input_mode && key.queue is None && key.common is None && key.global
                is None ==> !r.consumed && *final(self) == *old(self) && r.effects@.len() == 0,
            // the arms that change what is shown ask for a render
            old(self).filter_input_mode && (key.common == Some(CommonAction::Confirm) || key.common
                == Some(CommonAction::Close) || key.code is Char || key.code is Backspace)
                ==> r.render,
            !old(self).filter_input_mode && key.queue is None && (key.common == Some(
                CommonAction::Up,
            ) || key.common == Some(CommonAction::Down) || key.common == Some(
                CommonAction::DownHalf,
            ) || key.common == Some(CommonAction::UpHalf) || key.common == Some(
                CommonAction::Top,
            ) || key.common == Some(CommonAction::Bottom) || key.common == Some(
                CommonAction::EnterSearch,
            ) || key.common == Some(CommonAction::NextResult) || key.common == Some(
                CommonAction::PreviousResult,
            )) ==> r.render,
    {
        let scrolloff = ctx.config.scrolloff;
        let mut effects: Vec<Effect> = Vec::new();
        if self.filter_input_mode {
            if key.common == Some(CommonAction::Confirm) {
                self.filter_input_mode = false;
                return PaneKeyResponse { consumed: true, render: true, effects };
            }
            if key.common == Some(CommonAction::Close) {
                self.filter_input_mode = false;
                self.filter = None;
                return PaneKeyResponse { consumed: true, render: true, effects };
            }
            match key.code {
                KeyCode::Char(c) => {
                    match &mut self.filter {
                        Some(f) => {
                            push_char(f, c);
                        },
                        None => {},
                    }
                    self.jump_first(&ctx.queue, scrolloff);
                    return PaneKeyResponse { consumed: true, render: true, effects };
                },
                KeyCode::Backspace => {
                    match &mut self.filter {
                        Some(f) => {
                            pop_char(f);
                        },
                        None => {},
                    }
                    return PaneKeyResponse { consumed: true, render: true, effects };
                },
                _ => {
                    return PaneKeyResponse { consumed: true, render: false, effects };
                },
            }
        }
        match key.queue {
            Some(QueueActions::Delete) => {
                match self.selected_song_id(&ctx.queue) {
                    Some(id) => {
                        effects.push(Effect::DeleteId(id));
                    },
                    None => {
                        effects.push(
                            Effect::Status {
                                level: Level::Error,
                                message: String::from_str("No song selected"),
                            },
                        );
                    },
                }
                return PaneKeyResponse { consumed: true, render: false, effects };
            },
            Some(QueueActions::DeleteAll) => {
                effects.push(Effect::OpenModal(ModalKind::ConfirmQueueClear));
                return PaneKeyResponse { consumed: true, render: false, effects };
            },
            Some(QueueActions::Play) => {
                match self.selected_song_id(&ctx.queue) {
                    Some(id) => {
                        effects.push(Effect::PlayId(id));
                    },
                    None => {},
                }
                return PaneKeyResponse { consumed: true, render: false, effects };
            },
            Some(QueueActions::JumpToCurrent) => {
                match ctx.find_current_song_in_queue() {
                    Some(idx) => {
                        self.scrolling_state.select(Some(idx), scrolloff);
                        return PaneKeyResponse { consumed: true, render: true, effects };
                    },
                    None => {
                        effects.push(
                            Effect::Status {
                                level: Level::Info,
                                message: String::from_str("No song is currently playing"),
                            },
                        );
                        return PaneKeyResponse { consumed: true, render: false, effects };
                    },
                }
            },
            Some(QueueActions::Save) => {
                effects.push(Effect::OpenModal(ModalKind::SaveQueue));
                return PaneKeyResponse { consumed: true, render: false, effects };
            },
            Some(QueueActions::AddToPlaylist) => {
                match self.selected_song_file(&ctx.queue) {
                    Some(file) => {
                        effects.push(Effect::OpenModal(ModalKind::AddToPlaylist(file)));
                    },
                    None => {},
                }
                return PaneKeyResponse { consumed: true, render: false, effects };
            },
            Some(QueueActions::ShowInfo) => {
                match self.selected_song(&ctx.queue) {
                    Some(song) => {
                        effects.push(Effect::OpenModal(ModalKind::SongInfo(song)));
                    },
                    None => {
                        effects.push(
                            Effect::Status {
                                level: Level::Error,
                                message: String::from_str("No song selected"),
                            },
                        );
                    },
                }
                return PaneKeyResponse { consumed: true, render: false, effects };
            },
            None => {},
        }
        match key.common {
            Some(CommonAction::Up) => {
                if ctx.queue.len() > 0 {
                    self.scrolling_state.prev(scrolloff, ctx.config.wrap_navigation);
                }
                PaneKeyResponse { consumed: true, render: true, effects }
            },
            Some(CommonAction::Down) => {
                if ctx.queue.len() > 0 {
                    self.scrolling_state.next(scrolloff, ctx.config.wrap_navigation);
                }
                PaneKeyResponse { consumed: true, render: true, effects }
            },
            Some(CommonAction::MoveUp) => {
                if ctx.queue.len() == 0 {
                    return PaneKeyResponse { consumed: true, render: false, effects };
                }
                let idx = match self.scrolling_state.get_selected() {
                    Some(i) => i,
                    None => {
                        return PaneKeyResponse { consumed: true, render: false, effects };
                    },
                };
                let id = match self.selected_song_id(&ctx.queue) {
                    Some(id) => id,
                    None => {
                        return PaneKeyResponse { consumed: true, render: false, effects };
                    },
                };
                let new_idx = if idx > 0 {
                    idx - 1
                } else {
                    0
                };
                effects.push(Effect::MoveId { id, to: new_idx });
                self.scrolling_state.select(Some(new_idx), scrolloff);
                PaneKeyResponse { consumed: true, render: false, effects }
            },
            Some(CommonAction::MoveDown) => {
                if ctx.queue.len() == 0 {
                    return PaneKeyResponse { consumed: true, render: false, effects };
                }
                let idx = match self.scrolling_state.get_selected() {
                    Some(i) => i,
                    None => {
                        return PaneKeyResponse { consumed: true, render: false, effects };
                    },
                };
                let id = match self.selected_song_id(&ctx.queue) {
                    Some(id) => id,
                    None => {
                        return PaneKeyResponse { consumed: true, render: false, effects };
                    },
                };
                let new_idx = if idx + 1 < ctx.queue.len() {
                    idx + 1
                } else {
                    ctx.queue.len() - 1
                };
                effects.push(Effect::MoveId { id, to: new_idx });
                self.scrolling_state.select(Some(new_idx), scrolloff);
                PaneKeyResponse { consumed: true, render: false, effects }
            },
            Some(CommonAction::DownHalf) => {
                if ctx.queue.len() > 0 {
                    self.scrolling_state.next_half_viewport(scrolloff);
                }
                PaneKeyResponse { consumed: true, render: true, effects }
            },
            Some(CommonAction::UpHalf) => {
                if ctx.queue.len() > 0 {
                    self.scrolling_state.prev_half_viewport(scrolloff);
                }
                PaneKeyResponse { consumed: true, render: true, effects }
            },
            Some(CommonAction::Bottom) => {
                if ctx.queue.len() > 0 {
                    self.scrolling_state.last(scrolloff);
                }
                PaneKeyResponse { consumed: true, render: true, effects }
            },
            Some(CommonAction::Top) => {
                if ctx.queue.len() > 0 {
                    self.scrolling_state.first(scrolloff);
                }
                PaneKeyResponse { consumed: true, render: true, effects }
            },
            Some(CommonAction::EnterSearch) => {
                self.filter_input_mode = true;
                self.filter = Some(String::new());
                PaneKeyResponse { consumed: true, render: true, effects }
            },
            Some(CommonAction::NextResult) => {
                match self.jump_forward(&ctx.queue, scrolloff) {
                    Some(e) => {
                        effects.push(e);
                    },
                    None => {},
                }
                PaneKeyResponse { consumed: true, render: true, effects }
            },
            Some(CommonAction::PreviousResult) => {
                match self.jump_back(&ctx.queue, scrolloff) {
                    Some(e) => {
                        effects.push(e);
                    },
                    None => {},
                }
                PaneKeyResponse { consumed: true, render: true, effects }
            },
            Some(_) => {
                // the remaining common actions mean nothing to the queue
                PaneKeyResponse { consumed: true, render: false, effects }
            },
            None => {
                match &key.global {
                    Some(crate::shared::GlobalAction::ExternalCommand(cmd)) => {
                        effects.push(Effect::RunExternal(cmd.clone()));
                        PaneKeyResponse { consumed: true, render: false, effects }
                    },
                    _ => {
                        PaneKeyResponse { consumed: false, render: false, effects }
                    },
                }
            },
        }
    }

    /// The id of the selected song, if the selection is on a queue row.
    pub fn selected_song_id(&self, queue: &Vec<Song>) -> (r: Option<u32>)
        ensures
            match self.spec_selected_song(queue@) {
                Some(song) => r == Some(song.id),
                None => r is None,
            },
    {
        match self.scrolling_state.get_selected() {
            Some(i) => if i < queue.len() {
                Some(queue[i].id)
            } else {
                None
            },
            None => None,
        }
    }

    /// The file of the selected song, if the selection is on a queue row.
    pub fn selected_song_file(&self, queue: &Vec<Song>) -> (r: Option<String>)
        ensures
            match self.spec_selected_song(queue@) {
                Some(song) => r is Some && r->0@ == song.file@,
                None => r is None,
            },
    {
        match self.scrolling_state.get_selected() {
            Some(i) => if i < queue.len() {
                Some(queue[i].file.clone())
            } else {
                None
            },
            None => None,
        }
    }

    /// A copy of the selected song, if the selection is on a queue row.
    pub fn selected_song(&self, queue: &Vec<Song>) -> (r: Option<Song>)
        ensures
            match self.spec_selected_song(queue@) {
                Some(song) => r is Some && song_eq(r->0, song),
                None => r is None,
            },
    {
        match self.scrolling_state.get_selected() {
            Some(i) => if i < queue.len() {
                Some(duplicate_song(&queue[i]))
            } else {
                None
            },
            None => None,
        }
    }

    /// Handle a mouse event inside the pane: clicks select or act on the
    /// row under the cursor, scrolling moves the selection.
    pub fn handle_mouse_event(&mut self, event: MouseEvent, ctx: &AppContext) -> (r:
        PaneMouseResponse)
        requires
            old(self).scrolling_state.well_formed(),
        ensures
            final(self).scrolling_state.well_formed(),
            final(self).filter == old(self).filter,
            final(self).filter_input_mode == old(self).filter_input_mode,
            final(self).table_area == old(self).table_area,
            !rect_contains(old(self).table_area, event.x, event.y) ==> *final(self) == *old(self) && r.effects@.len() == 0 && !r.render,
            rect_contains(old(self).table_area, event.x, event.y) && event.kind is ScrollDown
                ==> final(self).scrolling_state.inner.spec_selected() == next_selection(
                old(self).scrolling_state.inner.spec_selected(),
                old(self).scrolling_state.content_len,
                false,
            ) && r.render && r.effects@.len() == 0,
            rect_contains(old(self).table_area, event.x, event.y) && event.kind is ScrollUp
                ==> final(self).scrolling_state.inner.spec_selected() == prev_selection(
                old(self).scrolling_state.inner.spec_selected(),
                old(self).scrolling_state.content_len,
                false,
            ) && r.render && r.effects@.len() == 0,
            rect_contains(old(self).table_area, event.x, event.y) && event.kind is LeftClick
                ==> (match at_rendered_row(
                old(self).scrolling_state,
                (event.y - old(self).table_area.y) as usize,
            ) {
                Some(idx) => final(self).scrolling_state.inner.spec_selected() == clamp_selection(
                    old(self).scrolling_state.content_len,
                    Some(idx),
                ) && r.render && r.effects@.len() == 0,
                None => *final(self) == *old(self) && !r.render && r.effects@.len() == 0,
            }),
            rect_contains(old(self).table_area, event.x, event.y) && event.kind is DoubleClick
                ==> *final(self) == *old(self) && (match at_rendered_row(
                old(self).scrolling_state,
                (event.y - old(self).table_area.y) as usize,
            ) {
                Some(idx) => if idx < ctx.queue@.len() {
                    r.effects@ == seq![Effect::PlayId(ctx.queue@[idx as int].id)] && r.render
                } else {
                    r.effects@.len() == 0 && !r.render
                },
                None => r.effects@.len() == 0 && !r.render,
            }),
            rect_contains(old(self).table_area, event.x, event.y) && event.kind is MiddleClick
                ==> *final(self) == *old(self) && (match at_rendered_row(
                old(self).scrolling_state,
                (event.y - old(self).table_area.y) as usize,
            ) {
                Some(idx) => if idx < ctx.queue@.len() {
                    r.effects@ == seq![Effect::DeleteId(ctx.queue@[idx as int].id)] && r.render
                } else {
                    r.effects@.len() == 0 && !r.render
                },
                None => r.effects@.len() == 0 && !r.render,
            }),
            rect_contains(old(self).table_area, event.x, event.y) && event.kind is RightClick
                ==> *final(self) == *old(self) && r.effects@.len() == 0 && !r.render,
    {
        if !self.table_area.contains(event.x, event.y) {
            return PaneMouseResponse { render: false, effects: Vec::new() };
        }
        let mut effects: Vec<Effect> = Vec::new();
        let mut render = false;
        match event.kind {
            MouseEventKind::LeftClick => {
                let clicked_row = (event.y - self.table_area.y) as usize;
                match self.scrolling_state.get_at_rendered_row(clicked_row) {
                    Some(idx) => {
                        self.scrolling_state.select(Some(idx), ctx.config.scrolloff);
                        render = true;
                    },
                    None => {},
                }
            },
            MouseEventKind::DoubleClick => {
                let clicked_row = (event.y - self.table_area.y) as usize;
                match self.scrolling_state.get_at_rendered_row(clicked_row) {
                    Some(idx) => {
                        if idx < ctx.queue.len() {
                            effects.push(Effect::PlayId(ctx.queue[idx].id));
                            render = true;
                        }
                    },
                    None => {},
                }
            },
            MouseEventKind::MiddleClick => {
                let clicked_row = (event.y - self.table_area.y) as usize;
                match self.scrolling_state.get_at_rendered_row(clicked_row) {
                    Some(idx) => {
                        if idx < ctx.queue.len() {
                            effects.push(Effect::DeleteId(ctx.queue[idx].id));
                            render = true;
                        }
                    },
                    None => {},
                }
            },
            MouseEventKind::ScrollDown => {
                self.scrolling_state.next(ctx.config.scrolloff, false);
                render = true;
            },
            MouseEventKind::ScrollUp => {
                self.scrolling_state.prev(ctx.config.scrolloff, false);
                render = true;
            },
            MouseEventKind::RightClick => {},
        }
        PaneMouseResponse { render, effects }
    }
}

/// Jumping forward to the next queue match and then jumping back returns
/// the pane's selection exactly to where it started, provided the pane's
/// cursor tracks the queue (its content length equals the queue length,
/// as `before_show` and `render` establish it) and the starting song
/// itself matches the filter.
///
/// `mid` is the pane `jump_forward` leaves behind and `post` the pane
/// `jump_back` then leaves behind, each as its contract describes it.
pub proof fn lemma_queue_jump_round_trip(
    pre: QueuePane,
    mid: QueuePane,
    post: QueuePane,
    queue: Seq<Song>,
    filter: Seq<char>,
    s: usize,
)
    requires
        1 <= queue.len() <= usize::MAX,
        pre.scrolling_state.content_len == Some(queue.len() as usize),
        pre.filter is Some,
        pre.filter->0@ == filter,
        pre.scrolling_state.inner.spec_selected() == Some(s),
        (s as int) < queue.len(),
        queue[s as int].spec_matches(filter, true),
        jump_target_fwd(queue, filter, true, s as int) is Some,
        mid.filter == pre.filter,
        mid.scrolling_state.content_len == pre.scrolling_state.content_len,
        mid.scrolling_state.inner.spec_selected() == clamp_selection(
            pre.scrolling_state.content_len,
            Some(jump_target_fwd(queue, filter, true, s as int)->0 as usize),
        ),
        (match jump_target_bwd(
            queue,
            filter,
            true,
            mid.scrolling_state.inner.spec_selected()->0 as int,
        ) {
            Some(j) => post.scrolling_state.inner.spec_selected() == clamp_selection(
                mid.scrolling_state.content_len,
                Some(j as usize),
            ),
            None => post.scrolling_state == mid.scrolling_state,
        }),
    ensures
        post.scrolling_state.inner.spec_selected() == Some(s),
{
    let j = jump_target_fwd(queue, filter, true, s as int)->0;
    lemma_jump_forward_finds_match(queue, filter, true, s as int, j);
    assert(mid.scrolling_state.inner.spec_selected() == Some(j as usize));
    lemma_jump_round_trip(queue, filter, true, s as int);
    assert(jump_target_bwd(queue, filter, true, j) == Some(s as int));
}

} // verus!
