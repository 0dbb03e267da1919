use rmpc_ui::browser::{DirOrSongInfo, Song, SymbolsConfig};
use rmpc_ui::directories::{path_join, DirectoriesScreen};
use rmpc_ui::queue_pane::QueuePane;
use rmpc_ui::shared::{
    volume_dec_by, volume_inc_by, AppContext, CommonAction, Config, DirectoriesActions, Effect,
    GlobalAction, IdleEvent, KeyCode, KeyInput, Level, ModalKind, ModalWrapper, MouseEvent,
    MouseEventKind, MpdError, OnOffOneshot, PaneId, PlayState, QueueActions, Rect, Status,
    TabEntry, UiError, UiEvent,
};
use rmpc_ui::ui::{
    calc_areas, BarContent, ConsumedBy, FilterKind, KeyHandleResult, MouseTarget, Screens, Ui,
    UiAppEvent,
};

fn song(id: u32, title: &str) -> Song {
    Song {
        id,
        file: format!("music/{title}.flac"),
        title: Some(title.to_string()),
        artist: Some("Artist".to_string()),
        album: Some("Album".to_string()),
        duration_secs: Some(180),
        others: Vec::new(),
    }
}

fn config() -> Config {
    Config {
        tabs: vec![
            TabEntry { name: "Queue".to_string(), pane: PaneId::Queue },
            TabEntry { name: "Directories".to_string(), pane: PaneId::Directories },
        ],
        symbols: SymbolsConfig { dir: "d".to_string(), song: "s".to_string() },
        scrolloff: 0,
        wrap_navigation: false,
        select_current_song_on_change: true,
        volume_step: 5,
        status_update_interval_ms: Some(1000),
        header_rows: 2,
        tab_bar_enabled: true,
        draw_borders: false,
    }
}

fn context() -> AppContext {
    AppContext {
        config: config(),
        status: Status {
            state: PlayState::Play,
            volume: 50,
            repeat: false,
            random: false,
            single: OnOffOneshot::Off,
            consume: OnOffOneshot::Off,
            single_oneshot_supported: true,
            consume_oneshot_supported: true,
            elapsed_ms: 10_000,
            duration_ms: 180_000,
            songid: Some(2),
        },
        queue: vec![song(1, "First"), song(2, "Second"), song(3, "Third")],
    }
}

fn plain_key() -> KeyInput {
    KeyInput { code: KeyCode::Other, common: None, global: None, queue: None, directories: None }
}

fn common(action: CommonAction) -> KeyInput {
    KeyInput { common: Some(action), ..plain_key() }
}

fn global(action: GlobalAction) -> KeyInput {
    KeyInput { global: Some(action), ..plain_key() }
}

#[test]
fn modal_owns_keys_until_it_is_closed() {
    let ctx = context();
    let mut ui = Ui::new(&ctx).unwrap();
    ui.before_show(&ctx, Ok(Vec::new())).unwrap();

    // open a modal while command-line mode is inactive
    assert!(ui.command.is_none());
    ui.on_ui_app_event(UiAppEvent::Modal(ModalWrapper(ModalKind::Keybinds)), &ctx);
    assert_eq!(ui.modals.len(), 1);

    // keys now go to the modal only, whatever actions they resolve to
    let r = ui.handle_key(&common(CommonAction::Down), &ctx).unwrap();
    assert_eq!(r.consumed_by, ConsumedBy::Modal);
    let r = ui.handle_key(&global(GlobalAction::Quit), &ctx).unwrap();
    assert_eq!(r.consumed_by, ConsumedBy::Modal);
    assert_eq!(r.result, KeyHandleResult::Continue);

    // closing the modal restores pane-level handling
    ui.on_ui_app_event(UiAppEvent::PopModal, &ctx);
    assert_eq!(ui.modals.len(), 0);
    let r = ui.handle_key(&common(CommonAction::Down), &ctx).unwrap();
    assert_eq!(r.consumed_by, ConsumedBy::Pane);
}

#[test]
fn failed_refresh_leaves_the_tab_pointer_switched() {
    let ctx = context();
    let mut ui = Ui::new(&ctx).unwrap();
    ui.before_show(&ctx, Ok(Vec::new())).unwrap();
    assert_eq!(ui.active_tab, "Queue");

    let failure = MpdError { message: "connection reset".to_string() };
    let r = ui.change_tab(&"Directories".to_string(), &ctx, Err(failure));
    // the pointer is already switched when the refresh fails
    assert_eq!(ui.active_tab, "Directories");
    assert!(matches!(r, Err(UiError::Mpd(_))));
}

#[test]
fn successful_tab_switch_refreshes_the_incoming_pane() {
    let ctx = context();
    let mut ui = Ui::new(&ctx).unwrap();
    ui.before_show(&ctx, Ok(Vec::new())).unwrap();

    let listing = vec![DirOrSongInfo::Dir("music".to_string())];
    let r = ui.change_tab(&"Directories".to_string(), &ctx, Ok(listing));
    assert!(r.is_ok());
    assert_eq!(ui.active_tab, "Directories");
    assert_eq!(ui.panes.directories.stack.current().0.len(), 1);
}

#[test]
fn switching_to_an_unknown_tab_is_fatal() {
    let ctx = context();
    let mut ui = Ui::new(&ctx).unwrap();
    let r = ui.change_tab(&"Nowhere".to_string(), &ctx, Ok(Vec::new()));
    assert!(matches!(r, Err(UiError::MissingTab)));
}

#[test]
fn a_configuration_without_tabs_is_rejected() {
    let mut ctx = context();
    ctx.config.tabs = Vec::new();
    assert!(matches!(Ui::new(&ctx), Err(UiError::NoTabs)));
}

#[test]
fn command_line_consumes_and_edits() {
    let ctx = context();
    let mut ui = Ui::new(&ctx).unwrap();
    ui.before_show(&ctx, Ok(Vec::new())).unwrap();

    let r = ui.handle_key(&global(GlobalAction::CommandMode), &ctx).unwrap();
    assert_eq!(r.consumed_by, ConsumedBy::Global);
    assert_eq!(ui.command.as_deref(), Some(""));

    let key = KeyInput { code: KeyCode::Char('q'), ..plain_key() };
    let r = ui.handle_key(&key, &ctx).unwrap();
    assert_eq!(r.consumed_by, ConsumedBy::CommandLine);
    assert_eq!(ui.command.as_deref(), Some("q"));

    let key = KeyInput { code: KeyCode::Backspace, ..plain_key() };
    ui.handle_key(&key, &ctx).unwrap();
    assert_eq!(ui.command.as_deref(), Some(""));

    let key = KeyInput { code: KeyCode::Char('x'), ..plain_key() };
    ui.handle_key(&key, &ctx).unwrap();
    let r = ui.handle_key(&common(CommonAction::Confirm), &ctx).unwrap();
    assert_eq!(r.consumed_by, ConsumedBy::CommandLine);
    assert!(ui.command.is_none());
    assert!(matches!(&r.effects[0], Effect::ExecuteCommand(c) if c == "x"));

    ui.handle_key(&global(GlobalAction::CommandMode), &ctx).unwrap();
    let r = ui.handle_key(&common(CommonAction::Close), &ctx).unwrap();
    assert_eq!(r.consumed_by, ConsumedBy::CommandLine);
    assert!(ui.command.is_none());
}

#[test]
fn quit_comes_from_the_global_layer_alone() {
    let ctx = context();
    let mut ui = Ui::new(&ctx).unwrap();
    ui.before_show(&ctx, Ok(Vec::new())).unwrap();
    let r = ui.handle_key(&global(GlobalAction::Quit), &ctx).unwrap();
    assert_eq!(r.consumed_by, ConsumedBy::Global);
    assert_eq!(r.result, KeyHandleResult::Quit);

    let r = ui.handle_key(&plain_key(), &ctx).unwrap();
    assert_eq!(r.consumed_by, ConsumedBy::Dropped);
    assert_eq!(r.result, KeyHandleResult::Continue);
}

#[test]
fn unknown_tab_name_gives_an_error_status() {
    let ctx = context();
    let mut ui = Ui::new(&ctx).unwrap();
    ui.before_show(&ctx, Ok(Vec::new())).unwrap();
    let r = ui
        .handle_key(&global(GlobalAction::SwitchToTab("Nope".to_string())), &ctx)
        .unwrap();
    assert_eq!(r.consumed_by, ConsumedBy::Global);
    assert!(matches!(&r.effects[0], Effect::Status { level: Level::Error, .. }));

    let r = ui
        .handle_key(&global(GlobalAction::SwitchToTab("Directories".to_string())), &ctx)
        .unwrap();
    assert!(matches!(&r.effects[0], Effect::SwitchTab(name) if name == "Directories"));
}

#[test]
fn volume_keys_clamp_at_the_ends() {
    assert_eq!(volume_inc_by(98, 5), 100);
    assert_eq!(volume_inc_by(40, 5), 45);
    assert_eq!(volume_dec_by(3, 5), 0);
    assert_eq!(volume_dec_by(40, 5), 35);
}

#[test]
fn queue_pane_selects_the_playing_song_before_show() {
    let ctx = context();
    let mut pane = QueuePane::new();
    pane.before_show(&ctx);
    // songid 2 is the second song
    assert_eq!(pane.scrolling_state.get_selected(), Some(1));
}

#[test]
fn queue_pane_delete_without_selection_reports_an_error() {
    let ctx = context();
    let mut pane = QueuePane::new();
    let key = KeyInput { queue: Some(QueueActions::Delete), ..plain_key() };
    let r = pane.handle_action(&key, &ctx);
    assert!(r.consumed);
    assert!(matches!(&r.effects[0], Effect::Status { level: Level::Error, .. }));
}

#[test]
fn queue_pane_delete_emits_the_selected_id() {
    let ctx = context();
    let mut pane = QueuePane::new();
    pane.before_show(&ctx);
    let key = KeyInput { queue: Some(QueueActions::Delete), ..plain_key() };
    let r = pane.handle_action(&key, &ctx);
    assert!(matches!(r.effects[0], Effect::DeleteId(2)));
}

#[test]
fn queue_pane_down_at_the_end_without_wrap_stays() {
    let mut ctx = context();
    ctx.config.wrap_navigation = false;
    ctx.queue = (0..5).map(|i| song(i + 10, &format!("s{i}"))).collect();
    ctx.status.songid = None;
    let mut pane = QueuePane::new();
    pane.before_show(&ctx);
    pane.scrolling_state.select(Some(4), 0);
    let r = pane.handle_action(&common(CommonAction::Down), &ctx);
    assert!(r.consumed);
    assert_eq!(pane.scrolling_state.get_selected(), Some(4));
}

#[test]
fn queue_pane_filter_typing_jumps_to_the_first_match() {
    let mut ctx = context();
    ctx.queue = vec![song(1, "Alpha"), song(2, "Beta"), song(3, "Gamma")];
    ctx.status.songid = None;
    let mut pane = QueuePane::new();
    pane.before_show(&ctx);
    pane.handle_action(&common(CommonAction::EnterSearch), &ctx);
    assert!(pane.filter_input_mode);
    let key = KeyInput { code: KeyCode::Char('b'), ..plain_key() };
    let r = pane.handle_action(&key, &ctx);
    assert!(r.consumed);
    assert_eq!(pane.filter.as_deref(), Some("b"));
    assert_eq!(pane.scrolling_state.get_selected(), Some(1));
    let r = pane.handle_action(&common(CommonAction::Confirm), &ctx);
    assert!(r.consumed);
    assert!(!pane.filter_input_mode);
    assert_eq!(pane.filter.as_deref(), Some("b"));
}

#[test]
fn queue_pane_move_down_moves_the_selected_song() {
    let mut ctx = context();
    ctx.status.songid = Some(1);
    let mut pane = QueuePane::new();
    pane.before_show(&ctx);
    assert_eq!(pane.scrolling_state.get_selected(), Some(0));
    let key = KeyInput { common: Some(CommonAction::MoveDown), ..plain_key() };
    let r = pane.handle_action(&key, &ctx);
    assert!(matches!(r.effects[0], Effect::MoveId { id: 1, to: 1 }));
    assert_eq!(pane.scrolling_state.get_selected(), Some(1));
}

#[test]
fn queue_pane_move_up_saturates_at_the_top() {
    let mut ctx = context();
    ctx.status.songid = Some(1);
    let mut pane = QueuePane::new();
    pane.before_show(&ctx);
    let key = KeyInput { common: Some(CommonAction::MoveUp), ..plain_key() };
    let r = pane.handle_action(&key, &ctx);
    assert!(matches!(r.effects[0], Effect::MoveId { id: 1, to: 0 }));
    assert_eq!(pane.scrolling_state.get_selected(), Some(0));
}

#[test]
fn directories_right_without_selection_warns() {
    let ctx = context();
    let mut pane = DirectoriesScreen::default();
    pane.before_show(Vec::new(), &ctx.config.symbols);
    let r = pane.handle_action(&common(CommonAction::Right), &ctx);
    assert!(matches!(&r.effects[0], Effect::Status { level: Level::Warn, .. }));
}

#[test]
fn queue_pane_jump_without_filter_warns() {
    let ctx = context();
    let mut pane = QueuePane::new();
    pane.before_show(&ctx);
    let warn = pane.jump_forward(&ctx.queue, 0);
    assert!(matches!(warn, Some(Effect::Status { level: Level::Warn, .. })));
}

#[test]
fn queue_pane_mouse_scroll_moves_the_selection() {
    let ctx = context();
    let mut pane = QueuePane::new();
    pane.before_show(&ctx);
    pane.render(Rect { x: 0, y: 0, width: 40, height: 10 }, &ctx);
    pane.scrolling_state.select(Some(0), 0);
    let r = pane.handle_mouse_event(
        MouseEvent { kind: MouseEventKind::ScrollDown, x: 1, y: 1 },
        &ctx,
    );
    assert!(r.render);
    assert_eq!(pane.scrolling_state.get_selected(), Some(1));
}

#[test]
fn queue_pane_click_selects_the_row_under_the_cursor() {
    let ctx = context();
    let mut pane = QueuePane::new();
    pane.before_show(&ctx);
    pane.render(Rect { x: 0, y: 0, width: 40, height: 10 }, &ctx);
    let r = pane.handle_mouse_event(
        MouseEvent { kind: MouseEventKind::LeftClick, x: 3, y: 2 },
        &ctx,
    );
    assert!(r.render);
    assert_eq!(pane.scrolling_state.get_selected(), Some(2));
}

#[test]
fn queue_pane_double_click_plays_the_row_under_the_cursor() {
    let ctx = context();
    let mut pane = QueuePane::new();
    pane.before_show(&ctx);
    pane.render(Rect { x: 0, y: 0, width: 40, height: 10 }, &ctx);
    let r = pane.handle_mouse_event(
        MouseEvent { kind: MouseEventKind::DoubleClick, x: 3, y: 1 },
        &ctx,
    );
    assert!(matches!(r.effects[0], Effect::PlayId(2)));
}

#[test]
fn queue_render_highlights_current_and_matches() {
    let mut ctx = context();
    ctx.status.songid = Some(1);
    let mut pane = QueuePane::new();
    pane.filter = Some("third".to_string());
    let plan = pane.render(Rect { x: 0, y: 0, width: 40, height: 10 }, &ctx);
    assert_eq!(plan.highlighted, vec![true, false, true]);
}

#[test]
fn directories_pane_descends_and_goes_back() {
    let ctx = context();
    let mut pane = DirectoriesScreen::default();
    pane.before_show(
        vec![
            DirOrSongInfo::Dir("rock".to_string()),
            DirOrSongInfo::Song(song(7, "Loose")),
        ],
        &ctx.config.symbols,
    );
    assert_eq!(pane.stack.current().1.get_selected(), Some(0));

    // descending asks the host for the listing of the selected directory
    let r = pane.handle_action(&common(CommonAction::Right), &ctx);
    assert!(r.consumed);
    assert!(matches!(&r.effects[0], Effect::EnterDirectory(p) if p == &vec!["rock".to_string()]));

    pane.enter_directory(vec![DirOrSongInfo::Song(song(8, "Anthem"))], &ctx.config.symbols);
    assert_eq!(pane.stack.others.len(), 2);

    let r = pane.handle_action(&common(CommonAction::Left), &ctx);
    assert!(r.consumed);
    assert_eq!(pane.stack.others.len(), 1);
    assert_eq!(pane.path.len(), 0);
}

#[test]
fn directories_pane_add_all_adds_the_selected_song() {
    let ctx = context();
    let mut pane = DirectoriesScreen::default();
    pane.before_show(
        vec![DirOrSongInfo::Song(song(7, "Loose"))],
        &ctx.config.symbols,
    );
    let key = KeyInput {
        directories: Some(DirectoriesActions::AddAll),
        ..plain_key()
    };
    let r = pane.handle_action(&key, &ctx);
    assert!(matches!(&r.effects[0], Effect::AddToQueue(f) if f == "music/Loose.flac"));
    assert!(matches!(&r.effects[1], Effect::Status { level: Level::Info, .. }));
}

#[test]
fn directories_jump_without_filter_warns() {
    let ctx = context();
    let mut pane = DirectoriesScreen::default();
    pane.before_show(
        vec![
            DirOrSongInfo::Dir("ambient".to_string()),
            DirOrSongInfo::Dir("bebop".to_string()),
        ],
        &ctx.config.symbols,
    );
    let r = pane.handle_action(&common(CommonAction::NextResult), &ctx);
    assert!(matches!(&r.effects[0], Effect::Status { level: Level::Warn, .. }));
}

#[test]
fn directories_jump_without_match_warns_and_stays() {
    let ctx = context();
    let mut pane = DirectoriesScreen::default();
    pane.before_show(
        vec![
            DirOrSongInfo::Dir("ambient".to_string()),
            DirOrSongInfo::Dir("bebop".to_string()),
        ],
        &ctx.config.symbols,
    );
    pane.stack.filter = Some("zzz".to_string());
    let r = pane.handle_action(&common(CommonAction::NextResult), &ctx);
    assert!(matches!(&r.effects[0], Effect::Status { level: Level::Warn, .. }));
    assert_eq!(pane.stack.current().1.get_selected(), Some(0));

    // with a match the jump moves silently
    pane.stack.filter = Some("beb".to_string());
    let r = pane.handle_action(&common(CommonAction::NextResult), &ctx);
    assert!(r.effects.is_empty());
    assert_eq!(pane.stack.current().1.get_selected(), Some(1));
    let r = pane.handle_action(&common(CommonAction::PreviousResult), &ctx);
    assert!(matches!(&r.effects[0], Effect::Status { level: Level::Warn, .. }));
}

#[test]
fn queue_pane_show_info_opens_the_selected_song() {
    let ctx = context();
    let mut pane = QueuePane::new();
    pane.before_show(&ctx);
    let key = KeyInput { queue: Some(QueueActions::ShowInfo), ..plain_key() };
    let r = pane.handle_action(&key, &ctx);
    assert!(
        matches!(&r.effects[0], Effect::OpenModal(ModalKind::SongInfo(s)) if s.id == 2)
    );
}

#[test]
fn command_line_close_discards_without_effects() {
    let ctx = context();
    let mut ui = Ui::new(&ctx).unwrap();
    ui.before_show(&ctx, Ok(Vec::new())).unwrap();
    ui.handle_key(&global(GlobalAction::CommandMode), &ctx).unwrap();
    let key = KeyInput { code: KeyCode::Char('x'), ..plain_key() };
    ui.handle_key(&key, &ctx).unwrap();
    let r = ui.handle_key(&common(CommonAction::Close), &ctx).unwrap();
    assert!(r.effects.is_empty());
    assert!(r.render);
    assert!(ui.command.is_none());
}

#[test]
fn global_bindings_emit_their_player_commands() {
    let ctx = context();
    let mut ui = Ui::new(&ctx).unwrap();
    ui.before_show(&ctx, Ok(Vec::new())).unwrap();
    let r = ui.handle_key(&global(GlobalAction::ToggleRepeat), &ctx).unwrap();
    assert!(matches!(r.effects[0], Effect::Repeat(true)));
    let r = ui.handle_key(&global(GlobalAction::VolumeUp), &ctx).unwrap();
    assert!(matches!(r.effects[0], Effect::SetVolume(55)));
    let r = ui.handle_key(&global(GlobalAction::ToggleSingle), &ctx).unwrap();
    assert!(matches!(r.effects[0], Effect::Single(OnOffOneshot::On)));
    let r = ui.handle_key(&global(GlobalAction::NextTab), &ctx).unwrap();
    assert!(matches!(&r.effects[0], Effect::SwitchTab(n) if n == "Directories"));
    let r = ui.handle_key(&global(GlobalAction::ShowHelp), &ctx).unwrap();
    assert!(matches!(r.effects[0], Effect::OpenModal(ModalKind::Keybinds)));
}

#[test]
fn player_event_with_reselection_off_leaves_the_pane_alone() {
    let mut ctx = context();
    ctx.config.select_current_song_on_change = false;
    ctx.status.songid = Some(3);
    let mut ui = Ui::new(&ctx).unwrap();
    ui.before_show(&ctx, Ok(Vec::new())).unwrap();
    let before = ui.panes.queue.scrolling_state.get_selected();
    let (render, _) = ui.on_event(&UiEvent::Player, &ctx);
    assert!(render);
    assert_eq!(ui.panes.queue.scrolling_state.get_selected(), before);
}

#[test]
fn song_preview_is_set_for_a_selected_song() {
    let ctx = context();
    let mut pane = DirectoriesScreen::default();
    let r = pane.before_show(
        vec![DirOrSongInfo::Song(song(4, "Solaris"))],
        &ctx.config.symbols,
    );
    assert!(r.is_none());
    assert_eq!(pane.stack.preview.len(), 4);
    assert_eq!(pane.stack.preview[0].key, "Title");
    assert_eq!(pane.stack.preview[0].value, "Solaris");
}

#[test]
fn path_join_uses_slashes() {
    assert_eq!(path_join(&vec![]), "");
    assert_eq!(path_join(&vec!["a".to_string()]), "a");
    assert_eq!(
        path_join(&vec!["a".to_string(), "b".to_string(), "c".to_string()]),
        "a/b/c"
    );
}

#[test]
fn render_counts_frames_and_expires_messages() {
    let ctx = context();
    let mut ui = Ui::new(&ctx).unwrap();
    ui.display_message("saved".to_string(), Level::Info, 1_000);
    let area = Rect { x: 0, y: 0, width: 80, height: 24 };

    let plan = ui.render(2_000, area, &ctx);
    assert_eq!(plan.frames, 1);
    assert!(matches!(&plan.bar, BarContent::Status(m) if m.message == "saved"));

    // five seconds later the message is gone and the progress bar shows
    let plan = ui.render(7_000, area, &ctx);
    assert_eq!(plan.frames, 2);
    assert!(ui.status_message.is_none());
    assert!(
        matches!(plan.bar, BarContent::Progress { elapsed_ms: 10_000, duration_ms: 180_000 })
    );
}

#[test]
fn render_prefers_the_open_command_line() {
    let ctx = context();
    let mut ui = Ui::new(&ctx).unwrap();
    ui.handle_key(&global(GlobalAction::CommandMode), &ctx).unwrap();
    let plan = ui.render(0, Rect { x: 0, y: 0, width: 80, height: 24 }, &ctx);
    assert!(matches!(&plan.bar, BarContent::CommandLine(c) if c.is_empty()));
}

#[test]
fn areas_split_the_frame_top_to_bottom() {
    let cfg = config();
    let areas = calc_areas(Rect { x: 0, y: 0, width: 80, height: 24 }, &cfg);
    assert_eq!(areas.header, Rect { x: 0, y: 0, width: 80, height: 2 });
    assert_eq!(areas.tabs, Rect { x: 0, y: 2, width: 80, height: 1 });
    assert_eq!(areas.content, Rect { x: 0, y: 3, width: 80, height: 20 });
    assert_eq!(areas.bar, Rect { x: 0, y: 23, width: 80, height: 1 });
}

#[test]
fn mouse_routing_honours_regions_and_modals() {
    let ctx = context();
    let mut ui = Ui::new(&ctx).unwrap();
    ui.before_show(&ctx, Ok(Vec::new())).unwrap();
    ui.render(0, Rect { x: 0, y: 0, width: 80, height: 24 }, &ctx);

    // click on the header toggles pause
    let r = ui
        .handle_mouse_event(MouseEvent { kind: MouseEventKind::LeftClick, x: 5, y: 0 }, &ctx)
        .unwrap();
    assert_eq!(r.target, MouseTarget::Header);
    assert!(matches!(r.effects[0], Effect::PauseToggle));

    // scroll on the header changes the volume
    let r = ui
        .handle_mouse_event(MouseEvent { kind: MouseEventKind::ScrollUp, x: 5, y: 1 }, &ctx)
        .unwrap();
    assert!(matches!(r.effects[0], Effect::SetVolume(55)));

    // scroll on the tab bar switches tabs
    let r = ui
        .handle_mouse_event(MouseEvent { kind: MouseEventKind::ScrollDown, x: 5, y: 2 }, &ctx)
        .unwrap();
    assert_eq!(r.target, MouseTarget::Tabs);
    assert!(matches!(&r.effects[0], Effect::SwitchTab(name) if name == "Directories"));

    // with a modal open, the modal owns every mouse event
    ui.on_ui_app_event(UiAppEvent::Modal(ModalWrapper(ModalKind::Keybinds)), &ctx);
    let r = ui
        .handle_mouse_event(MouseEvent { kind: MouseEventKind::LeftClick, x: 5, y: 0 }, &ctx)
        .unwrap();
    assert_eq!(r.target, MouseTarget::Modal);
    assert!(r.effects.is_empty());
}

#[test]
fn tab_bar_click_switches_to_the_tab_under_the_cursor() {
    let ctx = context();
    let mut ui = Ui::new(&ctx).unwrap();
    ui.before_show(&ctx, Ok(Vec::new())).unwrap();
    ui.render(0, Rect { x: 0, y: 0, width: 80, height: 24 }, &ctx);
    // two tabs over 80 columns: the right half is the second tab
    let r = ui
        .handle_mouse_event(MouseEvent { kind: MouseEventKind::LeftClick, x: 50, y: 2 }, &ctx)
        .unwrap();
    assert_eq!(r.target, MouseTarget::Tabs);
    assert!(matches!(&r.effects[0], Effect::SwitchTab(n) if n == "Directories"));
    // clicking the active tab does nothing
    let r = ui
        .handle_mouse_event(MouseEvent { kind: MouseEventKind::LeftClick, x: 10, y: 2 }, &ctx)
        .unwrap();
    assert!(r.effects.is_empty());
}

#[test]
fn bar_click_seeks_proportionally() {
    let ctx = context();
    let mut ui = Ui::new(&ctx).unwrap();
    ui.before_show(&ctx, Ok(Vec::new())).unwrap();
    ui.render(0, Rect { x: 0, y: 0, width: 80, height: 24 }, &ctx);
    // duration 180 s, click at column 40 of 80: half way
    let r = ui
        .handle_mouse_event(MouseEvent { kind: MouseEventKind::LeftClick, x: 40, y: 23 }, &ctx)
        .unwrap();
    assert_eq!(r.target, MouseTarget::Bar);
    assert!(matches!(r.effects[0], Effect::SeekCurrentSecs(90)));
}

#[test]
fn player_event_reselects_the_current_song() {
    let mut ctx = context();
    ctx.status.songid = Some(3);
    let mut ui = Ui::new(&ctx).unwrap();
    ui.before_show(&ctx, Ok(Vec::new())).unwrap();
    let (render, effects) = ui.on_event(&UiEvent::Player, &ctx);
    assert!(render);
    assert!(effects.is_empty());
    assert_eq!(ui.panes.queue.scrolling_state.get_selected(), Some(2));
    assert_eq!(ui.current_song.as_ref().map(|s| s.id), Some(3));
}

#[test]
fn database_event_warns() {
    let ctx = context();
    let mut ui = Ui::new(&ctx).unwrap();
    ui.before_show(&ctx, Ok(Vec::new())).unwrap();
    let (_, effects) = ui.on_event(&UiEvent::Database, &ctx);
    assert!(matches!(&effects[0], Effect::Status { level: Level::Warn, .. }));
}

#[test]
fn idle_events_map_to_interface_events() {
    assert!(matches!(UiEvent::try_from(IdleEvent::Player), Ok(UiEvent::Player)));
    assert!(matches!(UiEvent::try_from(IdleEvent::Database), Ok(UiEvent::Database)));
    assert!(matches!(
        UiEvent::try_from(IdleEvent::StoredPlaylist),
        Ok(UiEvent::StoredPlaylist)
    ));
    assert!(UiEvent::try_from(IdleEvent::Mixer).is_err());
}

#[test]
fn screens_rotate_both_ways() {
    assert_eq!(Screens::Queue.next(), Screens::Logs);
    assert_eq!(Screens::Playlists.next(), Screens::Queue);
    assert_eq!(Screens::Queue.prev(), Screens::Playlists);
    let mut s = Screens::Queue;
    for _ in 0..6 {
        s = s.next();
    }
    assert_eq!(s, Screens::Queue);
}

#[test]
fn filter_kind_cycles_and_labels() {
    let mut k = FilterKind::Exact;
    k.cycle();
    assert_eq!(k, FilterKind::Contains);
    assert_eq!(k.label(), "Contains value");
    k.cycle();
    k.cycle();
    k.cycle();
    assert_eq!(k, FilterKind::Exact);
    assert_eq!(k.label(), "Exact match");
}

#[test]
fn next_and_prev_screen_wrap_over_the_tab_list() {
    let cfg = config();
    assert_eq!(cfg.next_screen(&"Queue".to_string()), "Directories");
    assert_eq!(cfg.next_screen(&"Directories".to_string()), "Queue");
    assert_eq!(cfg.prev_screen(&"Queue".to_string()), "Directories");
    assert_eq!(cfg.prev_screen(&"Unknown".to_string()), "Unknown");
}

#[test]
fn oneshot_flags_cycle() {
    assert_eq!(OnOffOneshot::Off.cycle(), OnOffOneshot::On);
    assert_eq!(OnOffOneshot::On.cycle(), OnOffOneshot::Oneshot);
    assert_eq!(OnOffOneshot::Oneshot.cycle(), OnOffOneshot::Off);
    assert_eq!(OnOffOneshot::On.cycle_pre_mpd_24(), OnOffOneshot::Off);
    assert_eq!(OnOffOneshot::Oneshot.cycle_pre_mpd_24(), OnOffOneshot::Off);
}
