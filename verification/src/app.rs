//! The application loop as a state machine: one bus event in, the new state
//! and what to do next out.

use vstd::prelude::*;
use ratatui::text::Text;
use crate::cell::RenderedCell;
use crate::channel::AppEvent;
use crate::config::{ConfigView, FrameHandlerConfig};
use crate::event_handler::{Key, KeyPress};
use crate::mode::CamWindowScale;
use crate::text::{empty_text, text_rows};

verus! {

/// Whether the application is still running.
#[derive(Clone, Copy, Debug, PartialEq, Eq, Structural)]
pub enum AppState {
    Running,
    Terminated,
}

/// What a redraw shows besides the frame: how large the camera window is,
/// and whether the line of key hints is there.
#[derive(Clone, Copy, Debug, PartialEq, Eq, Structural)]
pub struct Screen {
    /// The scale of the camera window.
    pub cam_window_scale: CamWindowScale,
    /// Whether the key hints are shown: they are hidden while locked.
    pub tools_visible: bool,
}

/// What the loop does after an event.
#[derive(Clone, Copy, Debug, PartialEq, Eq, Structural)]
pub enum AppAction {
    /// Draw the latest frame and go on.
    Redraw(Screen),
    /// Leave the loop.
    Exit,
}

/// The state of the application loop.
pub struct App {
    // Frame buffer (the latest frame)
    frame_buffer: Text<'static>,
    // Whether the loop goes on
    state: AppState,
}

/// What the application holds, as mathematical values.
pub struct AppView {
    pub frame_buffer: Text<'static>,
    pub state: AppState,
}

impl View for App {
    type V = AppView;

    closed spec fn view(&self) -> AppView {
        AppView { frame_buffer: self.frame_buffer, state: self.state }
    }
}

/// Whether a key press is the chord that toggles the lock: control and space.
pub open spec fn is_lock_chord(key: KeyPress) -> bool {
    key.control && key.code == Key::Char(' ')
}

/// The configuration after a key press. The lock chord flips the lock,
/// locked or not. Then, unless the configuration is locked, `m` switches the
/// mode, `f` the window scale and `c` the camera. Every other key changes
/// nothing.
pub open spec fn config_after_key(config: ConfigView, key: KeyPress) -> ConfigView {
    let is_locked = if is_lock_chord(key) {
        !config.is_locked
    } else {
        config.is_locked
    };
    let unlocked = ConfigView { is_locked, ..config };
    if is_locked {
        unlocked
    } else if key.code == Key::Char('m') {
        ConfigView { image_convert_type: config.image_convert_type.next(), ..unlocked }
    } else if key.code == Key::Char('f') {
        ConfigView { cam_window_scale: config.cam_window_scale.toggled(), ..unlocked }
    } else if key.code == Key::Char('c') {
        ConfigView { camera: config.camera.switched(), ..unlocked }
    } else {
        unlocked
    }
}

/// Whether a key press ends the application: the escape key, unless the
/// configuration is locked.
pub open spec fn key_exits(config: ConfigView, key: KeyPress) -> bool {
    key.code == Key::Esc && !config_after_key(config, key).is_locked
}

/// The configuration after a bus event.
pub open spec fn config_after_event(config: ConfigView, event: Option<AppEvent>) -> ConfigView {
    match event {
        Some(AppEvent::Event(key)) => config_after_key(config, key),
        Some(AppEvent::TerminalResize(size)) => ConfigView { terminal_size: size, ..config },
        _ => config,
    }
}

/// The application after a bus event, while it runs: a frame replaces the
/// frame buffer, and a key that exits ends it.
pub open spec fn app_after_event(app: AppView, config: ConfigView, event: Option<AppEvent>) -> AppView {
    match event {
        Some(AppEvent::AsciiFrame(frame)) => AppView { frame_buffer: frame, ..app },
        Some(AppEvent::Event(key)) => if key_exits(config, key) {
            AppView { state: AppState::Terminated, ..app }
        } else {
            app
        },
        _ => app,
    }
}

/// The lock chord flips the lock whether or not the configuration is locked,
/// and while it is locked no other key changes anything or ends the
/// application.
pub proof fn lemma_lock(config: ConfigView, key: KeyPress)
    ensures
        is_lock_chord(key) ==> config_after_key(config, key).is_locked == !config.is_locked,
        !is_lock_chord(key) && config.is_locked ==> config_after_key(config, key) == config
            && !key_exits(config, key),
{
}

/// A key that is none of the lock chord, `m`, `f`, `c` and escape does
/// nothing.
pub proof fn lemma_other_keys_do_nothing(config: ConfigView, key: KeyPress)
    requires
        !is_lock_chord(key),
        key.code != Key::Char('m'),
        key.code != Key::Char('f'),
        key.code != Key::Char('c'),
        key.code != Key::Esc,
    ensures
        config_after_key(config, key) == config,
        !key_exits(config, key),
{
}

/// What is drawn under a configuration.
pub open spec fn screen_of(config: ConfigView) -> Screen {
    Screen { cam_window_scale: config.cam_window_scale, tools_visible: !config.is_locked }
}

impl App {
    /// Makes the application in its first state: running, with an empty
    /// frame buffer.
    pub fn new() -> (app: App)
        ensures
            app@.state == AppState::Running,
            text_rows(app@.frame_buffer) == Seq::<Seq<RenderedCell>>::empty(),
    {
        App { frame_buffer: empty_text(), state: AppState::Running }
    }

    /// The latest frame.
    pub fn frame_buffer(&self) -> (frame: &Text<'static>)
        ensures
            *frame == self@.frame_buffer,
    {
        &self.frame_buffer
    }

    /// Whether the application is still running.
    pub fn state(&self) -> (state: AppState)
        ensures
            state == self@.state,
    {
        self.state
    }

    /// Switches the camera mode to the next one of the cycle.
    pub fn switch_mode(config: &mut FrameHandlerConfig)
        ensures
            final(config)@ == (ConfigView {
                image_convert_type: old(config)@.image_convert_type.next(),
                ..old(config)@
            }),
    {
        let new_image_convert_type = config.image_convert_type.next();
        config.image_convert_type = new_image_convert_type;
    }

    /// Toggles the lock, which hides the key hints and disables the keys.
    pub fn toggle_lock(config: &mut FrameHandlerConfig)
        ensures
            final(config)@ == (ConfigView { is_locked: !old(config)@.is_locked, ..old(config)@ }),
    {
        config.is_locked = !config.is_locked;
    }

    /// Switches the scale of the camera window.
    pub fn switch_cam_window_scale(config: &mut FrameHandlerConfig)
        ensures
            final(config)@ == (ConfigView {
                cam_window_scale: old(config)@.cam_window_scale.toggled(),
                ..old(config)@
            }),
    {
        let cam_window_scale = config.cam_window_scale.toggled();
        config.cam_window_scale = cam_window_scale;
    }

    /// Switches to the next camera.
    pub fn switch_cam(config: &mut FrameHandlerConfig)
        ensures
            final(config)@ == (ConfigView { camera: old(config)@.camera.switched(), ..old(config)@ }),
    {
        config.camera.switch();
    }

    /// Applies a key press to the configuration, and tells whether the key
    /// ends the application.
    pub fn press(config: &mut FrameHandlerConfig, key: KeyPress) -> (exit: bool)
        ensures
            final(config)@ == config_after_key(old(config)@, key),
            exit == key_exits(old(config)@, key),
    {
        if key.control && key.code == Key::Char(' ') {
            App::toggle_lock(config);
        }
        if !config.is_locked {
            match key.code {
                Key::Char('m') => App::switch_mode(config),
                Key::Char('f') => App::switch_cam_window_scale(config),
                Key::Char('c') => App::switch_cam(config),
                Key::Esc => {
                    return true;
                },
                _ => {},
            }
        }
        false
    }

    /// Runs the loop for one bus event: applies the event, if there is one,
    /// and says what to do next. While the application runs that is a redraw
    /// under the new configuration, unless the event was a key that exits.
    /// Once it is terminated nothing changes any more.
    pub fn run(&mut self, config: &mut FrameHandlerConfig, event: Option<AppEvent>) -> (action:
        AppAction)
        ensures
            old(self)@.state == AppState::Terminated ==> {
                &&& final(self)@ == old(self)@
                &&& final(config)@ == old(config)@
                &&& action == AppAction::Exit
            },
            old(self)@.state == AppState::Running ==> {
                &&& final(self)@ == app_after_event(old(self)@, old(config)@, event)
                &&& final(config)@ == config_after_event(old(config)@, event)
                &&& action == if final(self)@.state == AppState::Terminated {
                    AppAction::Exit
                } else {
                    AppAction::Redraw(screen_of(final(config)@))
                }
            },
    {
        match self.state {
            AppState::Terminated => {
                return AppAction::Exit;
            },
            AppState::Running => {},
        }
        match event {
            Some(AppEvent::AsciiFrame(ascii_frame)) => {
                self.frame_buffer = ascii_frame;
            },
            Some(AppEvent::Event(key_event)) => {
                if App::press(config, key_event) {
                    self.state = AppState::Terminated;
                    return AppAction::Exit;
                }
            },
            Some(AppEvent::TerminalResize(size)) => {
                config.terminal_size = size;
            },
            None => {},
        }
        AppAction::Redraw(
            Screen { cam_window_scale: config.cam_window_scale, tools_visible: !config.is_locked },
        )
    }
}

} // verus!
