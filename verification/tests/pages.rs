use music_player::app::{App as CoreApp, AppState as CoreAppState};
use music_player::config::{AppConfig, AppConfigDir, AppConfigHandler};
use music_player::event::AppEvent;
use music_player::events::{EventEnum, KeyInput};
use music_player::page::{App, AppMsg, AppState, FileList};
use music_player::ui::{BaseUi, Ui, UiState};

fn names(list: &[&str]) -> Vec<String> {
    list.iter().map(|s| s.to_string()).collect()
}

#[test]
fn file_list_selection_wraps_both_ways() {
    let mut l = FileList::new();
    assert_eq!(l.selected(), Some(0));
    // Empty list: movement is a no-op.
    l.next();
    assert_eq!(l.selected(), Some(0));
    l.prev();
    assert_eq!(l.selected(), Some(0));
    l._set_file_list(names(&["a", "b", "c"]));
    assert_eq!(l.items().len(), 3);
    l.next();
    assert_eq!(l.selected(), Some(1));
    l.next();
    assert_eq!(l.selected(), Some(2));
    l.next();
    assert_eq!(l.selected(), Some(0));
    l.prev();
    assert_eq!(l.selected(), Some(2));
    l.prev();
    assert_eq!(l.selected(), Some(1));
    // The same moves, driven through the page by messages.
    let mut page = App::new();
    page.apply_scan_results(names(&["a", "b"]));
    assert_eq!(page.update(AppMsg::ListIncrement), None);
    assert_eq!(page.list_selected(), Some(1));
    assert_eq!(page.update(AppMsg::ListIncrement), None);
    assert_eq!(page.list_selected(), Some(0));
    assert_eq!(page.update(AppMsg::ListDecrement), None);
    assert_eq!(page.list_selected(), Some(1));
}

#[test]
fn page_routes_keys_to_messages() {
    let mut page = App::new();
    assert_eq!(page.handle_events(AppEvent::Key('q')), Some(AppMsg::Quit));
    assert_eq!(page.handle_events(AppEvent::Key('j')), Some(AppMsg::ListIncrement));
    assert_eq!(page.handle_events(AppEvent::Key('k')), Some(AppMsg::ListDecrement));
    assert_eq!(page.handle_events(AppEvent::Key('R')), Some(AppMsg::RefreshDb));
    assert_eq!(page.handle_events(AppEvent::Key('x')), None);
    assert_eq!(page.handle_events(AppEvent::Tick), None);
    assert_eq!(page.handle_events(AppEvent::Render), None);
    assert_eq!(page.handle_events(AppEvent::Mouse), None);
    assert_eq!(page.handle_events(AppEvent::Error), Some(AppMsg::Quit));
}

#[test]
fn help_toggles_and_quit_sticks() {
    let mut page = App::new();
    assert_eq!(page.get_state(), AppState::Normal);
    assert_eq!(page.handle_events(AppEvent::Key('?')), Some(AppMsg::State(AppState::DisplayHelp)));
    page.update(AppMsg::State(AppState::DisplayHelp));
    assert_eq!(page.get_state(), AppState::DisplayHelp);
    assert_eq!(page.handle_events(AppEvent::Key('?')), Some(AppMsg::State(AppState::Normal)));
    page.update(AppMsg::State(AppState::Normal));
    assert_eq!(page.get_state(), AppState::Normal);
    page.update(AppMsg::Quit);
    assert_eq!(page.get_state(), AppState::Quit);
}

#[test]
fn page_init_adopts_loaded_configuration() {
    let mut page = App::new();
    let handler = AppConfigHandler::new(
        AppConfig { dir: AppConfigDir { music_dir: "/music".to_string() } },
        "/home/someone/.config/player/config.toml".to_string(),
    );
    assert_eq!(handler.get_config().dir.music_dir, "/music");
    page.init(Some(handler));
    // A refresh request changes no page state by itself: the scan runs
    // outside and its results arrive separately.
    assert_eq!(page.update(AppMsg::RefreshDb), None);
    page.apply_scan_results(names(&["one.opus"]));
}

#[test]
fn core_app_state_updates() {
    let mut app = CoreApp::default();
    assert_eq!(app.state, CoreAppState::Normal);
    app.update(CoreAppState::Quit);
    assert_eq!(app.state, CoreAppState::Quit);
    assert_eq!(CoreAppState::default(), CoreAppState::Normal);
}

#[test]
fn base_ui_moves_on_key_input() {
    let mut ui = Ui::new(names(&["x.opus", "y.opus"]));
    assert_eq!(UiState::default(), UiState::BaseUi);
    assert_eq!(ui.ui_state(), UiState::BaseUi);
    assert_eq!(ui.base_selected(), Some(0));
    ui.update(Some(EventEnum::Input(KeyInput { code: 'j', pressed: true })));
    assert_eq!(ui.base_selected(), Some(1));
    ui.update(Some(EventEnum::Input(KeyInput { code: 'j', pressed: true })));
    assert_eq!(ui.base_selected(), Some(0));
    ui.update(Some(EventEnum::Input(KeyInput { code: 'k', pressed: true })));
    assert_eq!(ui.base_selected(), Some(1));
    // A key release moves nothing, and so does no event at all.
    ui.update(Some(EventEnum::Input(KeyInput { code: 'j', pressed: false })));
    ui.update(None);
    assert_eq!(ui.base_selected(), Some(1));
    // 'u' clears the selection.
    ui.update(Some(EventEnum::Input(KeyInput { code: 'u', pressed: true })));
    assert_eq!(ui.base_selected(), None);

    let mut base = BaseUi::new(names(&["only.opus"]));
    assert_eq!(base.items().len(), 1);
    base.next();
    assert_eq!(base.selected(), Some(0));
    base.prev();
    assert_eq!(base.selected(), Some(0));
    base.unselect();
    assert_eq!(base.selected(), None);
}
