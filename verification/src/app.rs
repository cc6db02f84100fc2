//! Top-level application state: whether the player keeps running.

use vstd::prelude::*;

use crate::config::AppConfig;

verus! {

/// Whether the application keeps running.
#[derive(Clone, Copy, Debug, PartialEq, Eq, PartialOrd, Ord, Structural)]
pub enum AppState {
    Normal,
    Quit,
}

impl Default for AppState {
    fn default() -> (s: Self)
        ensures
            s is Normal,
    {
        AppState::Normal
    }
}

/// The application's top-level state and configuration.
#[derive(Clone, Debug)]
pub struct App {
    pub state: AppState,
    pub config: AppConfig,
}

impl App {
    /// Moves the application to a new top-level state.
    pub fn update(&mut self, new_state: AppState)
        ensures
            final(self).state == new_state,
            final(self).config == old(self).config,
    {
        self.state = new_state;
    }
}

impl Default for App {
    fn default() -> (a: Self)
        ensures
            a.state is Normal,
            a.config.spec_music_dir() == Seq::<char>::empty(),
    {
        App { state: AppState::Normal, config: AppConfig::default() }
    }
}

} // verus!
