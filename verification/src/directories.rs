//! The directories pane: drill-down browsing of the music directory tree.

use vstd::prelude::*;

use crate::browser::{song_tag_lines, DirOrSongInfo, DisplayLine, SymbolsConfig, ToListItems};
use crate::dirstack::{
    jump_bwd_transition, jump_fwd_transition, next_selection, prev_selection, DirStack,
    ScrollingState,
};
use crate::search::{pop_char, push_char};
use crate::shared::{
    AppContext, CommonAction, Effect, KeyCode, KeyInput, Level, PaneKeyResponse, UiEvent,
};

verus! {

/// The text of a path: its segments joined by slashes.
pub open spec fn path_text(segments: Seq<String>) -> Seq<char>
    decreases segments.len(),
{
    if segments.len() == 0 {
        Seq::empty()
    } else if segments.len() == 1 {
        segments[0]@
    } else {
        path_text(segments.drop_last()) + "/"@ + segments.last()@
    }
}

/// Join path segments with slashes.
pub fn path_join(segments: &Vec<String>) -> (r: String)
    ensures
        r@ == path_text(segments@),
{
    let mut s = String::new();
    let mut k: usize = 0;
    while k < segments.len()
        invariant
            k <= segments@.len(),
            s@ == path_text(segments@.take(k as int)),
        decreases segments@.len() - k,
    {
        if k > 0 {
            s.append("/");
        }
        s.append(segments[k].as_str());
        proof {
            let taken = segments@.take((k + 1) as int);
            assert(taken.drop_last() =~= segments@.take(k as int));
            assert(taken.last() == segments@[k as int]);
            if k == 0 {
                assert(s@ =~= path_text(taken));
            } else {
                assert(s@ =~= path_text(taken));
            }
        }
        k += 1;
    }
    proof {
        assert(segments@.take(segments@.len() as int) =~= segments@);
    }
    s
}

/// What recomputing the preview leaves behind, given the level's `path`
/// and the preview lines that were in place: no selection empties the
/// preview; a selected directory keeps it and asks for that directory's
/// listing; a selected song's tag lines are set directly.
pub open spec fn preview_effects(
    path: Seq<String>,
    prior: Seq<DisplayLine>,
    post: DirectoriesScreen,
    effects: Seq<Effect>,
) -> bool {
    match post.stack.current.1.inner.spec_selected() {
        None => effects.len() == 0 && post.stack.preview@.len() == 0,
        Some(i) => match post.stack.current.0@[i as int] {
            DirOrSongInfo::Dir(d) => effects.len() == 1 && (effects[0]
                matches Effect::FetchPreview(p) && p@ == path.push(d)) && post.stack.preview@
                == prior,
            DirOrSongInfo::Song(s) => effects.len() == 0 && song_tag_lines(
                post.stack.preview@,
                s,
            ),
        },
    }
}

/// `preview_effects` for an optional single effect.
pub open spec fn preview_decision(
    path: Seq<String>,
    prior: Seq<DisplayLine>,
    post: DirectoriesScreen,
    r: Option<Effect>,
) -> bool {
    preview_effects(
        path,
        prior,
        post,
        match r {
            Some(e) => seq![e],
            None => Seq::empty(),
        },
    )
}

/// The warning a jump leaves on the status line: one warning when no
/// filter is set, or when a filter and selection are in place but the
/// selection did not move (nothing else matched); none when the jump
/// moved the selection or there was no selection to move from.
pub open spec fn jump_warning(
    pre: DirStack<DirOrSongInfo>,
    post: DirStack<DirOrSongInfo>,
    effects: Seq<Effect>,
) -> bool {
    if pre.filter is None {
        effects.len() == 1 && (effects[0] matches Effect::Status { level, .. } && level is Warn)
    } else if pre.current.1.inner.spec_selected() is Some && post.current.1.inner.spec_selected()
        == pre.current.1.inner.spec_selected() {
        effects.len() == 1 && (effects[0] matches Effect::Status { level, .. } && level is Warn)
    } else {
        effects.len() == 0
    }
}

/// The directories pane: a navigation stack over directory listings, a
/// filter-entry flag, and the path of the current level.
#[derive(Debug)]
pub struct DirectoriesScreen {
    pub stack: DirStack<DirOrSongInfo>,
    pub filter_input_mode: bool,
    pub path: Vec<String>,
}

impl Default for DirectoriesScreen {
    /// An empty pane at the root of the tree.
    fn default() -> (r: Self)
        ensures
            r.stack.wf(),
            r.stack.current.0@.len() == 0,
            !r.filter_input_mode,
            r.path@.len() == 0,
    {
        DirectoriesScreen {
            stack: DirStack::new(Vec::new()),
            filter_input_mode: false,
            path: Vec::new(),
        }
    }
}

/// The directories pane after a pre-show reset: back at the root of the
/// tree, the listing current with its first entry selected, no filter,
/// and the preview decided for the new selection.
pub open spec fn directories_reset(
    post: DirectoriesScreen,
    listing: Vec<DirOrSongInfo>,
    r: Option<Effect>,
) -> bool {
    &&& post.stack.wf()
    &&& post.path@.len() == 0
    &&& post.stack.current.0 == listing
    &&& post.stack.filter is None
    &&& post.stack.current.1.inner.spec_selected() == (if listing@.len() > 0 {
        Some(0usize)
    } else {
        None::<usize>
    })
    &&& preview_decision(Seq::empty(), Seq::empty(), post, r)
}

impl DirectoriesScreen {
    /// Recompute the preview of the selected entry: a selected song's tag
    /// lines are set directly; a selected directory needs its listing
    /// fetched, which the returned effect asks for. With no selection the
    /// preview empties.
    pub fn refresh_preview(&mut self, symbols: &SymbolsConfig) -> (r: Option<Effect>)
        requires
            old(self).stack.wf(),
        ensures
            final(self).stack.wf(),
            final(self).stack.current.0 == old(self).stack.current.0,
            final(self).stack.current.1 == old(self).stack.current.1,
            final(self).stack.others == old(self).stack.others,
            final(self).stack.filter == old(self).stack.filter,
            final(self).filter_input_mode == old(self).filter_input_mode,
            final(self).path == old(self).path,
            preview_decision(old(self).path@, old(self).stack.preview@, *final(self), r),
    {
        let sel = self.stack.current().1.get_selected();
        match sel {
            None => {
                self.stack.preview = Vec::new();
                None
            },
            Some(i) => {
                let entry = &self.stack.current().0[i];
                match entry {
                    DirOrSongInfo::Dir(d) => {
                        let mut preview_path = self.path.clone();
                        preview_path.push(d.clone());
                        proof {
                            assert(preview_path@ =~= old(self).path@.push(
                                old(self).stack.current.0@[i as int]->Dir_0,
                            ));
                        }
                        Some(Effect::FetchPreview(preview_path))
                    },
                    DirOrSongInfo::Song(song) => {
                        let lines = song.to_listitems(symbols);
                        self.stack.preview = lines;
                        None
                    },
                }
            },
        }
    }

    /// Re-enter the pane at the root of the tree with a fresh listing.
    pub fn before_show(&mut self, listing: Vec<DirOrSongInfo>, symbols: &SymbolsConfig) -> (r:
        Option<Effect>)
        ensures
            directories_reset(*final(self), listing, r),
    {
        self.path = Vec::new();
        self.stack = DirStack::new(listing);
        proof {
            assert(self.stack.preview@ =~= Seq::<DisplayLine>::empty());
        }
        self.refresh_preview(symbols)
    }

    /// Descend into the directory whose listing just arrived.
    pub fn enter_directory(&mut self, listing: Vec<DirOrSongInfo>, symbols: &SymbolsConfig) -> (r:
        Option<Effect>)
        requires
            old(self).stack.wf(),
        ensures
            final(self).stack.wf(),
            final(self).stack.others@.len() == old(self).stack.others@.len() + 1,
            final(self).stack.current.0 == listing,
            final(self).stack.filter is None,
            final(self).stack.current.1.inner.spec_selected() == (if listing@.len() > 0 {
                Some(0usize)
            } else {
                None::<usize>
            }),
            final(self).path == old(self).path,
            preview_decision(
                old(self).path@,
                old(self).stack.preview@,
                *final(self),
                r,
            ),
    {
        self.stack.push(listing);
        self.refresh_preview(symbols)
    }

    /// Replace the preview lines, as fetched for the selected directory.
    pub fn set_preview(&mut self, lines: Vec<DisplayLine>)
        ensures
            *final(self) == (DirectoriesScreen {
                stack: crate::dirstack::DirStack { preview: lines, ..old(self).stack },
                ..*old(self)
            }),
    {
        self.stack.preview = lines;
    }

    /// Player notifications mean nothing to this pane.
    pub fn on_event(&mut self, event: &UiEvent, ctx: &AppContext) -> (render: bool)
        ensures
            *final(self) == *old(self),
            !render,
    {
        false
    }

    /// Handle a key offered to the pane.
    ///
    /// In filter-entry mode the key edits the stack's filter. Otherwise
    /// the pane's own action adds the selection to the queue, and common
    /// actions navigate the stack, descending on `Right` and going back on
    /// `Left`.
    pub fn handle_action(&mut self, key: &KeyInput, ctx: &AppContext) -> (r: PaneKeyResponse)
        requires
            old(self).stack.wf(),
        ensures
            final(self).stack.wf(),
            r.consumed == (old(self).filter_input_mode || key.directories is Some
                || key.common is Some),
            old(self).filter_input_mode && key.code is Char && old(self).stack.filter is Some
                ==> final(self).stack.filter is Some && final(self).stack.filter->0@ == old(self).stack.filter->0@.push(key.code->Char_0),
            old(self).filter_input_mode && key.code is Backspace && old(self).stack.filter
                is Some && old(self).stack.filter->0@.len() > 0 ==> final(self).stack.filter
                is Some && final(self).stack.filter->0@ == old(self).stack.filter->0@.drop_last(),
            old(self).filter_input_mode && key.code is Esc ==> !final(self).filter_input_mode
                && final(self).stack.filter is None,
            old(self).filter_input_mode && key.code is Enter ==> !final(self).filter_input_mode
                && jump_fwd_transition(old(self).stack, final(self).stack),
            !old(self).filter_input_mode && key.directories is Some && old(self).stack.current.1.inner.spec_selected() is None ==> r.effects@.len() == 0 && *final(self) == *old(self),
            !old(self).filter_input_mode && key.directories is Some && old(self).stack.current.1.inner.spec_selected() is Some ==> *final(self) == *old(self) && (
            match old(self).stack.current.0@[old(self).stack.current.1.inner.spec_selected()->0 as int] {
                DirOrSongInfo::Dir(d) => r.effects@.len() == 2 && (r.effects@[0]
                    matches Effect::AddToQueue(q) && q@ == path_text(old(self).path@.push(d))) && (
                r.effects@[1] matches Effect::Status { level, .. } && level is Info),
                DirOrSongInfo::Song(song) => r.effects@.len() == 2 && (r.effects@[0]
                    matches Effect::AddToQueue(f) && f@ == song.file@) && (r.effects@[1]
                    matches Effect::Status { level, .. } && level is Info),
            }),
            !old(self).filter_input_mode && key.directories is None && key.common == Some(
                CommonAction::EnterSearch,
            ) ==> final(self).filter_input_mode && final(self).stack.filter is Some && final(self).stack.filter->0@.len() == 0,
            !old(self).filter_input_mode && key.directories is None && key.common == Some(
                CommonAction::NextResult,
            ) ==> jump_fwd_transition(old(self).stack, final(self).stack) && jump_warning(
                old(self).stack,
                final(self).stack,
                r.effects@,
            ),
            !old(self).filter_input_mode && key.directories is None && key.common == Some(
                CommonAction::PreviousResult,
            ) ==> jump_bwd_transition(old(self).stack, final(self).stack) && jump_warning(
                old(self).stack,
                final(self).stack,
                r.effects@,
            ),
            !old(self).filter_input_mode && key.directories is None && key.common == Some(
                CommonAction::Down,
            ) ==> final(self).stack.current.1.inner.spec_selected() == next_selection(
                old(self).stack.current.1.inner.spec_selected(),
                old(self).stack.current.1.content_len,
                true,
            ) && preview_effects(
                old(self).path@,
                old(self).stack.preview@,
                *final(self),
                r.effects@,
            ),
            !old(self).filter_input_mode && key.directories is None && key.common == Some(
                CommonAction::Up,
            ) ==> final(self).stack.current.1.inner.spec_selected() == prev_selection(
                old(self).stack.current.1.inner.spec_selected(),
                old(self).stack.current.1.content_len,
                true,
            ) && preview_effects(
                old(self).path@,
                old(self).stack.preview@,
                *final(self),
                r.effects@,
            ),
            !old(self).filter_input_mode && key.directories is None && key.common == Some(
                CommonAction::Top,
            ) ==> final(self).stack.current.1.inner.spec_selected()
                == crate::dirstack::first_selection(old(self).stack.current.1.content_len)
                && preview_effects(
                old(self).path@,
                old(self).stack.preview@,
                *final(self),
                r.effects@,
            ),
            !old(self).filter_input_mode && key.directories is None && key.common == Some(
                CommonAction::Bottom,
            ) ==> final(self).stack.current.1.inner.spec_selected()
                == crate::dirstack::last_selection(old(self).stack.current.1.content_len)
                && preview_effects(
                old(self).path@,
                old(self).stack.preview@,
                *final(self),
                r.effects@,
            ),
            !old(self).filter_input_mode && key.directories is None && key.common == Some(
                CommonAction::DownHalf,
            ) ==> final(self).stack.current.1.inner.spec_selected()
                == crate::dirstack::half_down_selection(
                old(self).stack.current.1.inner.spec_selected(),
                old(self).stack.current.1.content_len,
                old(self).stack.current.1.viewport_len,
            ) && preview_effects(
                old(self).path@,
                old(self).stack.preview@,
                *final(self),
                r.effects@,
            ),
            !old(self).filter_input_mode && key.directories is None && key.common == Some(
                CommonAction::UpHalf,
            ) ==> final(self).stack.current.1.inner.spec_selected()
                == crate::dirstack::half_up_selection(
                old(self).stack.current.1.inner.spec_selected(),
                old(self).stack.current.1.content_len,
                old(self).stack.current.1.viewport_len,
            ) && preview_effects(
                old(self).path@,
                old(self).stack.preview@,
                *final(self),
                r.effects@,
            ),
            !old(self).filter_input_mode && key.directories is None && key.common == Some(
                CommonAction::Right,
            ) ==> (match old(self).stack.current.1.inner.spec_selected() {
                Some(i) => (match old(self).stack.current.0@[i as int] {
                    DirOrSongInfo::Dir(d) => final(self).path@ == old(self).path@.push(d) && (
                    r.effects@.len() == 1 && (r.effects@[0] matches Effect::EnterDirectory(p) && p@
                        == old(self).path@.push(d))),
                    DirOrSongInfo::Song(song) => final(self).path == old(self).path
                        && r.effects@.len() == 2 && (r.effects@[0] matches Effect::AddToQueue(f)
                        && f@ == song.file@) && (r.effects@[1] matches Effect::Status {
                        level,
                        ..
                    } && level is Info),
                }),
                None => final(self).path == old(self).path && r.effects@.len() == 1 && (
                r.effects@[0] matches Effect::Status { level, .. } && level is Warn),
            }),
            !old(self).filter_input_mode && key.directories is None && key.common == Some(
                CommonAction::Left,
            ) ==> (old(self).stack.others@.len() > 1 ==> final(self).stack.current == old(self).stack.others@.last() && final(self).stack.others@ == old(self).stack.others@.drop_last()) && (old(self).stack.others@.len() <= 1 ==> final(self).stack.current == old(self).stack.current) && final(self).path@ == (if old(self).path@.len() > 0 {
                old(self).path@.drop_last()
            } else {
                old(self).path@
            }),
            !old(self).filter_input_mode && key.directories is None && key.common is None
                ==> !r.consumed && *final(self) == *old(self) && r.effects@.len() == 0,
            // the arms that change what is shown ask for a render
            old(self).filter_input_mode ==> r.render == !(key.code is Other),
            !old(self).filter_input_mode && key.directories is Some ==> r.render,
            !old(self).filter_input_mode && key.directories is None && (key.common == Some(
                CommonAction::Up,
            ) || key.common == Some(CommonAction::Down) || key.common == Some(
                CommonAction::DownHalf,
            ) || key.common == Some(CommonAction::UpHalf) || key.common == Some(
                CommonAction::Top,
            ) || key.common == Some(CommonAction::Bottom) || key.common == Some(
                CommonAction::Right,
            ) || key.common == Some(CommonAction::Left) || key.common == Some(
                CommonAction::EnterSearch,
            ) || key.common == Some(CommonAction::NextResult) || key.common == Some(
                CommonAction::PreviousResult,
            )) ==> r.render,
    {
        let mut effects: Vec<Effect> = Vec::new();
        if self.filter_input_mode {
            match key.code {
                KeyCode::Char(c) => {
                    match &mut self.stack.filter {
                        Some(f) => {
                            push_char(f, c);
                        },
                        None => {},
                    }
                    return PaneKeyResponse { consumed: true, render: true, effects };
                },
                KeyCode::Backspace => {
                    match &mut self.stack.filter {
                        Some(f) => {
                            pop_char(f);
                        },
                        None => {},
                    }
                    return PaneKeyResponse { consumed: true, render: true, effects };
                },
                KeyCode::Enter => {
                    self.filter_input_mode = false;
                    self.stack.jump_forward();
                    return PaneKeyResponse { consumed: true, render: true, effects };
                },
                KeyCode::Esc => {
                    self.filter_input_mode = false;
                    self.stack.filter = None;
                    return PaneKeyResponse { consumed: true, render: true, effects };
                },
                KeyCode::Other => {
                    return PaneKeyResponse { consumed: true, render: false, effects };
                },
            }
        }
        if key.directories.is_some() {
            match self.stack.get_selected() {
                Some(entry) => {
                    match entry {
                        DirOrSongInfo::Dir(dir) => {
                            let mut path_to_add = self.path.clone();
                            path_to_add.push(dir.clone());
                            proof {
                                assert(path_to_add@ =~= old(self).path@.push(
                                    old(self).stack.current.0@[old(self).stack.current.1.inner.spec_selected()->0 as int]->Dir_0,
                                ));
                            }
                            let path = path_join(&path_to_add);
                            let mut message = String::from_str("Directory '");
                            message.append(path.as_str());
                            message.append("' added to queue");
                            effects.push(Effect::AddToQueue(path));
                            effects.push(Effect::Status { level: Level::Info, message });
                        },
                        DirOrSongInfo::Song(song) => {
                            let mut message = String::from_str("'");
                            message.append(crate::browser::SongExt::title_str(song));
                            message.append("' by '");
                            message.append(crate::browser::SongExt::artist_str(song));
                            message.append("' added to queue");
                            effects.push(Effect::AddToQueue(song.file.clone()));
                            effects.push(Effect::Status { level: Level::Info, message });
                        },
                    }
                },
                None => {},
            }
            return PaneKeyResponse { consumed: true, render: true, effects };
        }
        match key.common {
            Some(CommonAction::DownHalf) => {
                self.stack.next_half_viewport();
                let preview = self.refresh_preview(&ctx.config.symbols);
                match preview {
                    Some(e) => {
                        effects.push(e);
                    },
                    None => {},
                }
                PaneKeyResponse { consumed: true, render: true, effects }
            },
            Some(CommonAction::UpHalf) => {
                self.stack.prev_half_viewport();
                let preview = self.refresh_preview(&ctx.config.symbols);
                match preview {
                    Some(e) => {
                        effects.push(e);
                    },
                    None => {},
                }
                PaneKeyResponse { consumed: true, render: true, effects }
            },
            Some(CommonAction::Up) => {
                self.stack.prev();
                let preview = self.refresh_preview(&ctx.config.symbols);
                match preview {
                    Some(e) => {
                        effects.push(e);
                    },
                    None => {},
                }
                PaneKeyResponse { consumed: true, render: true, effects }
            },
            Some(CommonAction::Down) => {
                self.stack.next();
                let preview = self.refresh_preview(&ctx.config.symbols);
                match preview {
                    Some(e) => {
                        effects.push(e);
                    },
                    None => {},
                }
                PaneKeyResponse { consumed: true, render: true, effects }
            },
            Some(CommonAction::Bottom) => {
                self.stack.last();
                let preview = self.refresh_preview(&ctx.config.symbols);
                match preview {
                    Some(e) => {
                        effects.push(e);
                    },
                    None => {},
                }
                PaneKeyResponse { consumed: true, render: true, effects }
            },
            Some(CommonAction::Top) => {
                self.stack.first();
                let preview = self.refresh_preview(&ctx.config.symbols);
                match preview {
                    Some(e) => {
                        effects.push(e);
                    },
                    None => {},
                }
                PaneKeyResponse { consumed: true, render: true, effects }
            },
            Some(CommonAction::Right) => {
                match self.stack.get_selected() {
                    Some(entry) => {
                        match entry {
                            DirOrSongInfo::Dir(dir) => {
                                let dir = dir.clone();
                                self.path.push(dir);
                                effects.push(Effect::EnterDirectory(self.path.clone()));
                            },
                            DirOrSongInfo::Song(song) => {
                                let mut message = String::from_str("'");
                                message.append(crate::browser::SongExt::title_str(song));
                                message.append("' by '");
                                message.append(crate::browser::SongExt::artist_str(song));
                                message.append("' added to queue");
                                effects.push(Effect::AddToQueue(song.file.clone()));
                                effects.push(Effect::Status { level: Level::Info, message });
                            },
                        }
                    },
                    None => {
                        effects.push(
                            Effect::Status {
                                level: Level::Warn,
                                message: String::from_str("No entry is selected"),
                            },
                        );
                    },
                }
                PaneKeyResponse { consumed: true, render: true, effects }
            },
            Some(CommonAction::Left) => {
                self.stack.pop();
                if self.path.len() > 0 {
                    self.path.pop();
                }
                let preview = self.refresh_preview(&ctx.config.symbols);
                match preview {
                    Some(e) => {
                        effects.push(e);
                    },
                    None => {},
                }
                PaneKeyResponse { consumed: true, render: true, effects }
            },
            Some(CommonAction::EnterSearch) => {
                self.filter_input_mode = true;
                self.stack.filter = Some(String::new());
                PaneKeyResponse { consumed: true, render: true, effects }
            },
            Some(CommonAction::NextResult) => {
                if self.stack.filter.is_none() {
                    effects.push(
                        Effect::Status {
                            level: Level::Warn,
                            message: String::from_str("No filter set"),
                        },
                    );
                    return PaneKeyResponse { consumed: true, render: true, effects };
                }
                let before = self.stack.current().1.get_selected();
                self.stack.jump_forward();
                let after = self.stack.current().1.get_selected();
                let unmoved = match (before, after) {
                    (Some(b), Some(a)) => a == b,
                    (None, None) => true,
                    _ => false,
                };
                if before.is_some() && unmoved {
                    effects.push(
                        Effect::Status {
                            level: Level::Warn,
                            message: String::from_str("No items match the filter"),
                        },
                    );
                }
                PaneKeyResponse { consumed: true, render: true, effects }
            },
            Some(CommonAction::PreviousResult) => {
                if self.stack.filter.is_none() {
                    effects.push(
                        Effect::Status {
                            level: Level::Warn,
                            message: String::from_str("No filter set"),
                        },
                    );
                    return PaneKeyResponse { consumed: true, render: true, effects };
                }
                let before = self.stack.current().1.get_selected();
                self.stack.jump_back();
                let after = self.stack.current().1.get_selected();
                let unmoved = match (before, after) {
                    (Some(b), Some(a)) => a == b,
                    (None, None) => true,
                    _ => false,
                };
                if before.is_some() && unmoved {
                    effects.push(
                        Effect::Status {
                            level: Level::Warn,
                            message: String::from_str("No items match the filter"),
                        },
                    );
                }
                PaneKeyResponse { consumed: true, render: true, effects }
            },
            Some(_) => {
                PaneKeyResponse { consumed: true, render: false, effects }
            },
            None => {
                PaneKeyResponse { consumed: false, render: false, effects }
            },
        }
    }
}

} // verus!
