use vstd::prelude::*;

use crate::widget::WidgetHandle;

verus! {

/// Where the path of a scene that a command names is to be taken from.
#[derive(Clone, Copy, Debug, PartialEq, Eq, Structural)]
pub enum ScenePath {
    /// The path that the file selector's commit message carries.
    Committed,
    /// The path under which the open scene was last saved.
    CurrentScene,
    /// The entry of the recent-files list at this position.
    Recent(usize),
}

/// What the editor does once the user has answered the dialog that offers to
/// save the open scene first.
#[derive(Clone, Copy, Debug, PartialEq, Eq, Structural)]
pub enum ConfirmationAction {
    OpenLoadSceneDialog,
    CloseScene,
    MakeNewScene,
    LoadScene(ScenePath),
}

/// A command for the editor's message queue.
#[derive(Clone, Copy, Debug, PartialEq, Eq, Structural)]
pub enum EditorMessage {
    SaveScene(ScenePath),
    LoadScene(ScenePath),
    OpenSaveSceneConfirmationDialog(ConfirmationAction),
    CloseScene,
    NewScene,
    Exit { force: bool },
}

/// Where a file selector starts browsing once opened: both place it at the
/// working directory, one as the root of the tree it shows, one as its
/// selected path.
#[derive(Clone, Copy, Debug, PartialEq, Eq, Structural)]
pub enum SelectorStart {
    Root,
    Path,
}

/// What the File menu asks for in answer to a message of the user interface.
#[derive(Clone, Copy, Debug, PartialEq, Eq, Structural)]
pub enum FileMenuAction {
    /// The message is not for this menu.
    Nothing,
    /// Queue a command for the editor.
    Send(EditorMessage),
    /// Open a file selector as a modal window.
    OpenFileSelector { selector: WidgetHandle, start: SelectorStart },
    /// Open a window as a modal window.
    OpenWindow { window: WidgetHandle },
    /// Open a message box.
    OpenMessageBox { message_box: WidgetHandle },
    /// Open the editor's settings window.
    OpenSettings,
    /// Open the settings of the open scene.
    OpenSceneSettings,
}

/// The kind of a message of the user interface, as far as the File menu
/// tells kinds apart.
#[derive(Clone, Copy, Debug, PartialEq, Eq, Structural)]
pub enum UiEvent {
    /// A file selector committed a path.
    FileSelectorCommit,
    /// A menu item was clicked.
    MenuItemClick,
    /// Any other message.
    Other,
}

/// What the File menu reads of the scene that is open in the editor.
#[derive(Clone, Copy, Debug, PartialEq, Eq, Structural)]
pub struct SceneStatus {
    /// The scene was saved to, or loaded from, a file.
    pub has_path: bool,
    /// Closing the scene now would lose work.
    pub needs_save: bool,
}

/// A request to enable or disable a widget.
#[derive(Clone, Copy, Debug, PartialEq, Eq, Structural)]
pub struct WidgetEnabled {
    pub widget: WidgetHandle,
    pub enabled: bool,
}

/// The File menu: the handles of its items, of the windows it opens, and of
/// the items of its recent-files submenu, one per entry of the recent-files
/// list and in the same order.
pub struct FileMenu {
    pub menu: WidgetHandle,
    pub new_scene: WidgetHandle,
    pub save: WidgetHandle,
    pub save_as: WidgetHandle,
    pub load: WidgetHandle,
    pub close_scene: WidgetHandle,
    pub exit: WidgetHandle,
    pub open_settings: WidgetHandle,
    pub configure: WidgetHandle,
    pub save_file_selector: WidgetHandle,
    pub load_file_selector: WidgetHandle,
    pub configure_message: WidgetHandle,
    pub recent_files_container: WidgetHandle,
    pub recent_files: Vec<WidgetHandle>,
    pub open_scene_settings: WidgetHandle,
}

/// Whether the open scene, if any, has work that closing it would lose.
pub open spec fn scene_needs_save(scene: Option<SceneStatus>) -> bool {
    scene matches Some(s) && s.needs_save
}

/// Asks first whether to save the open scene where it needs saving, else
/// sends the command at once.
pub open spec fn confirm_or_send(
    scene: Option<SceneStatus>,
    confirm: ConfirmationAction,
    send: EditorMessage,
) -> FileMenuAction {
    if scene_needs_save(scene) {
        FileMenuAction::Send(EditorMessage::OpenSaveSceneConfirmationDialog(confirm))
    } else {
        FileMenuAction::Send(send)
    }
}

impl FileMenu {
    /// The action for a click on the menu item `destination`, tested against
    /// the menu's items in a fixed order, the first that matches deciding.
    pub open spec fn click_action(
        self,
        destination: WidgetHandle,
        scene: Option<SceneStatus>,
        configurator_window: WidgetHandle,
        recent_scene_count: nat,
    ) -> FileMenuAction {
        let save_selector = FileMenuAction::OpenFileSelector {
            selector: self.save_file_selector,
            start: SelectorStart::Path,
        };
        if destination == self.save {
            if scene matches Some(s) && s.has_path {
                FileMenuAction::Send(EditorMessage::SaveScene(ScenePath::CurrentScene))
            } else {
                save_selector
            }
        } else if destination == self.save_as {
            save_selector
        } else if destination == self.load {
            if scene_needs_save(scene) {
                FileMenuAction::Send(
                    EditorMessage::OpenSaveSceneConfirmationDialog(
                        ConfirmationAction::OpenLoadSceneDialog,
                    ),
                )
            } else {
                FileMenuAction::OpenFileSelector {
                    selector: self.load_file_selector,
                    start: SelectorStart::Root,
                }
            }
        } else if destination == self.close_scene {
            confirm_or_send(scene, ConfirmationAction::CloseScene, EditorMessage::CloseScene)
        } else if destination == self.exit {
            FileMenuAction::Send(EditorMessage::Exit { force: false })
        } else if destination == self.new_scene {
            confirm_or_send(scene, ConfirmationAction::MakeNewScene, EditorMessage::NewScene)
        } else if destination == self.configure {
            if scene is None {
                FileMenuAction::OpenWindow { window: configurator_window }
            } else {
                FileMenuAction::OpenMessageBox { message_box: self.configure_message }
            }
        } else if destination == self.open_settings {
            FileMenuAction::OpenSettings
        } else if destination == self.open_scene_settings {
            FileMenuAction::OpenSceneSettings
        } else {
            match self.recent_files@.index_of_first(destination) {
                Some(i) => if i < recent_scene_count {
                    let path = ScenePath::Recent(i as usize);
                    confirm_or_send(
                        scene,
                        ConfirmationAction::LoadScene(path),
                        EditorMessage::LoadScene(path),
                    )
                } else {
                    FileMenuAction::Nothing
                },
                None => FileMenuAction::Nothing,
            }
        }
    }

    /// The action for a message of kind `event` sent to `destination`.
    pub open spec fn ui_message_action(
        self,
        event: UiEvent,
        destination: WidgetHandle,
        scene: Option<SceneStatus>,
        configurator_window: WidgetHandle,
        recent_scene_count: nat,
    ) -> FileMenuAction {
        match event {
            UiEvent::FileSelectorCommit => if destination == self.save_file_selector {
                FileMenuAction::Send(EditorMessage::SaveScene(ScenePath::Committed))
            } else if destination == self.load_file_selector {
                FileMenuAction::Send(EditorMessage::LoadScene(ScenePath::Committed))
            } else {
                FileMenuAction::Nothing
            },
            UiEvent::MenuItemClick => self.click_action(
                destination,
                scene,
                configurator_window,
                recent_scene_count,
            ),
            UiEvent::Other => FileMenuAction::Nothing,
        }
    }
}

impl FileMenu {
    pub fn new(
        menu: WidgetHandle,
        new_scene: WidgetHandle,
        save: WidgetHandle,
        save_as: WidgetHandle,
        load: WidgetHandle,
        close_scene: WidgetHandle,
        exit: WidgetHandle,
        open_settings: WidgetHandle,
        configure: WidgetHandle,
        save_file_selector: WidgetHandle,
        load_file_selector: WidgetHandle,
        configure_message: WidgetHandle,
        recent_files_container: WidgetHandle,
        recent_files: Vec<WidgetHandle>,
        open_scene_settings: WidgetHandle,
    ) -> (r: FileMenu)
        ensures
            r == (FileMenu {
                menu,
                new_scene,
                save,
                save_as,
                load,
                close_scene,
                exit,
                open_settings,
                configure,
                save_file_selector,
                load_file_selector,
                configure_message,
                recent_files_container,
                recent_files,
                open_scene_settings,
            }),
    {
        FileMenu {
            menu,
            new_scene,
            save,
            save_as,
            load,
            close_scene,
            exit,
            open_settings,
            configure,
            save_file_selector,
            load_file_selector,
            configure_message,
            recent_files_container,
            recent_files,
            open_scene_settings,
        }
    }

    /// Replaces the items of the recent-files submenu; the caller then hands
    /// them to `recent_files_container`.
    pub fn update_recent_files_list(&mut self, items: Vec<WidgetHandle>)
        ensures
            *final(self) == (FileMenu { recent_files: items, ..*old(self) }),
    {
        self.recent_files = items;
    }

    /// Opens the scene loader, browsing from the working directory.
    pub fn open_load_file_selector(&self) -> (r: FileMenuAction)
        ensures
            r == (FileMenuAction::OpenFileSelector {
                selector: self.load_file_selector,
                start: SelectorStart::Root,
            }),
    {
        FileMenuAction::OpenFileSelector {
            selector: self.load_file_selector,
            start: SelectorStart::Root,
        }
    }

    /// Opens the scene saver, browsing from the working directory.
    pub fn open_save_file_selector(&self) -> (r: FileMenuAction)
        ensures
            r == (FileMenuAction::OpenFileSelector {
                selector: self.save_file_selector,
                start: SelectorStart::Root,
            }),
    {
        FileMenuAction::OpenFileSelector {
            selector: self.save_file_selector,
            start: SelectorStart::Root,
        }
    }

    /// The whole menu is usable in edit mode only.
    pub fn on_mode_changed(&self, is_edit: bool) -> (r: WidgetEnabled)
        ensures
            r == (WidgetEnabled { widget: self.menu, enabled: is_edit }),
    {
        WidgetEnabled { widget: self.menu, enabled: is_edit }
    }

    /// The position of the first recent-files item that `destination` names.
    pub fn recent_file_position(&self, destination: WidgetHandle) -> (r: Option<usize>)
        ensures
            match self.recent_files@.index_of_first(destination) {
                Some(i) => r is Some && r->0 == i,
                None => r is None,
            },
    {
        let mut i: usize = 0;
        while i < self.recent_files.len()
            invariant
                i <= self.recent_files@.len(),
                forall|j: int| 0 <= j < i ==> self.recent_files@[j] != destination,
            decreases self.recent_files@.len() - i,
        {
            if self.recent_files[i] == destination {
                proof {
                    self.recent_files@.index_of_first_ensures(destination);
                }
                return Some(i);
            }
            i = i + 1;
        }
        proof {
            self.recent_files@.index_of_first_ensures(destination);
        }
        None
    }

    /// Decides what a message of kind `event` sent to `destination` asks of
    /// the File menu. `scene` describes the open scene, if there is one,
    /// `configurator_window` is the editor's configuration window, and
    /// `recent_scene_count` the length of the recent-files list.
    pub fn handle_ui_message(
        &self,
        event: UiEvent,
        destination: WidgetHandle,
        scene: Option<SceneStatus>,
        configurator_window: WidgetHandle,
        recent_scene_count: usize,
    ) -> (r: FileMenuAction)
        ensures
            r == self.ui_message_action(
                event,
                destination,
                scene,
                configurator_window,
                recent_scene_count as nat,
            ),
    {
        let needs_save = match scene {
            Some(s) => s.needs_save,
            None => false,
        };
        match event {
            UiEvent::FileSelectorCommit => {
                if destination == self.save_file_selector {
                    FileMenuAction::Send(EditorMessage::SaveScene(ScenePath::Committed))
                } else if destination == self.load_file_selector {
                    FileMenuAction::Send(EditorMessage::LoadScene(ScenePath::Committed))
                } else {
                    FileMenuAction::Nothing
                }
            },
            UiEvent::Other => FileMenuAction::Nothing,
            UiEvent::MenuItemClick => {
                if destination == self.save {
                    let has_path = match scene {
                        Some(s) => s.has_path,
                        None => false,
                    };
                    if has_path {
                        FileMenuAction::Send(EditorMessage::SaveScene(ScenePath::CurrentScene))
                    } else {
                        FileMenuAction::OpenFileSelector {
                            selector: self.save_file_selector,
                            start: SelectorStart::Path,
                        }
                    }
                } else if destination == self.save_as {
                    FileMenuAction::OpenFileSelector {
                        selector: self.save_file_selector,
                        start: SelectorStart::Path,
                    }
                } else if destination == self.load {
                    if needs_save {
                        FileMenuAction::Send(
                            EditorMessage::OpenSaveSceneConfirmationDialog(
                                ConfirmationAction::OpenLoadSceneDialog,
                            ),
                        )
                    } else {
                        self.open_load_file_selector()
                    }
                } else if destination == self.close_scene {
                    if needs_save {
                        FileMenuAction::Send(
                            EditorMessage::OpenSaveSceneConfirmationDialog(
                                ConfirmationAction::CloseScene,
                            ),
                        )
                    } else {
                        FileMenuAction::Send(EditorMessage::CloseScene)
                    }
                } else if destination == self.exit {
                    FileMenuAction::Send(EditorMessage::Exit { force: false })
                } else if destination == self.new_scene {
                    if needs_save {
                        FileMenuAction::Send(
                            EditorMessage::OpenSaveSceneConfirmationDialog(
                                ConfirmationAction::MakeNewScene,
                            ),
                        )
                    } else {
                        FileMenuAction::Send(EditorMessage::NewScene)
                    }
                } else if destination == self.configure {
                    if scene.is_none() {
                        FileMenuAction::OpenWindow { window: configurator_window }
                    } else {
                        FileMenuAction::OpenMessageBox { message_box: self.configure_message }
                    }
                } else if destination == self.open_settings {
                    FileMenuAction::OpenSettings
                } else if destination == self.open_scene_settings {
                    FileMenuAction::OpenSceneSettings
                } else {
                    match self.recent_file_position(destination) {
                        Some(i) => {
                            if i < recent_scene_count {
                                let path = ScenePath::Recent(i);
                                if needs_save {
                                    FileMenuAction::Send(
                                        EditorMessage::OpenSaveSceneConfirmationDialog(
                                            ConfirmationAction::LoadScene(path),
                                        ),
                                    )
                                } else {
                                    FileMenuAction::Send(EditorMessage::LoadScene(path))
                                }
                            } else {
                                FileMenuAction::Nothing
                            }
                        },
                        None => FileMenuAction::Nothing,
                    }
                }
            },
        }
    }
}

} // verus!
