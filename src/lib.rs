//! Decision logic of a scene editor's File menu and of a small gameplay
//! scripting plugin, kept apart from the engine that renders widgets and
//! integrates physics. Every function here works on plain values: widget
//! handles as index and generation, events as tags, and the actions that the
//! engine side is to carry out as enums.

mod file_menu;
mod player;
mod sound_context;
mod widget;

pub use file_menu::{
    ConfirmationAction, EditorMessage, FileMenu, FileMenuAction, ScenePath, SceneStatus,
    SelectorStart, UiEvent, WidgetEnabled,
};
pub use player::{find_camera, InputController, Key, Movement};
pub use sound_context::{SoundContextCommand, SoundContextProperty};
pub use widget::WidgetHandle;
