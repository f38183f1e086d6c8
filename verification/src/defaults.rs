//! The default texts: the English text of each translation key that the
//! application itself uses. They are what the base language resolves to.

use crate::table::{assoc, keys_of, lookup_pair, opt_text, pairs_view, texts_view};
use vstd::prelude::*;

verus! {

/// The default texts of the application menu.
pub open spec fn default_texts_zed() -> Seq<(Seq<char>, Seq<char>)> {
    seq![
        ("i18n.menu.zed"@, "Zed"@),
        ("i18n.menu.zed.about_zed"@, "About Zed…"@),
        ("i18n.menu.zed.check_for_updates"@, "Check for Updates"@),
        ("i18n.menu.zed.settings.open_settings"@, "Open Settings"@),
        ("i18n.menu.zed.settings.open_key_bindings"@, "Open Key Bindings"@),
        ("i18n.menu.zed.settings.open_default_settings"@, "Open Default Settings"@),
        ("i18n.menu.zed.settings.open_default_key_bindings"@, "Open Default Key Bindings"@),
        ("i18n.menu.zed.settings.open_project_settings"@, "Open Project Settings"@),
        ("i18n.menu.zed.settings.select_theme"@, "Select Theme..."@),
        ("i18n.menu.zed.extensions"@, "Extensions"@),
        ("i18n.menu.zed.install_cli"@, "Install CLI"@),
        ("i18n.menu.zed.hide_zed"@, "Hide Zed"@),
        ("i18n.menu.zed.hide_others"@, "Hide Others"@),
        ("i18n.menu.zed.show_all"@, "Show All"@),
        ("i18n.menu.zed.quit"@, "Quit"@),
    ]
}

/// The default texts of the File menu.
pub open spec fn default_texts_file() -> Seq<(Seq<char>, Seq<char>)> {
    seq![
        ("i18n.menu.file"@, "File"@),
        ("i18n.menu.file.new"@, "New"@),
        ("i18n.menu.file.new_window"@, "New Window"@),
        ("i18n.menu.file.open_file"@, "Open File..."@),
        ("i18n.menu.file.macos"@, "macos"@),
        ("i18n.menu.file.open_recent"@, "Open Recent..."@),
        ("i18n.menu.file.open_remote"@, "Open Remote..."@),
        ("i18n.menu.file.add_folder_to_project"@, "Add Folder to Project…"@),
        ("i18n.menu.file.save"@, "Save"@),
        ("i18n.menu.file.save_as"@, "Save As…"@),
        ("i18n.menu.file.save_all"@, "Save All"@),
        ("i18n.menu.file.close_editor"@, "Close Editor"@),
        ("i18n.menu.file.close_window"@, "Close Window"@),
    ]
}

/// The default texts of the Edit menu.
pub open spec fn default_texts_edit() -> Seq<(Seq<char>, Seq<char>)> {
    seq![
        ("i18n.menu.edit"@, "Edit"@),
        ("i18n.menu.edit.undo"@, "Undo"@),
        ("i18n.menu.edit.redo"@, "Redo"@),
        ("i18n.menu.edit.cut"@, "Cut"@),
        ("i18n.menu.edit.copy"@, "Copy"@),
        ("i18n.menu.edit.copy_and_trim"@, "Copy and Trim"@),
        ("i18n.menu.edit.paste"@, "Paste"@),
        ("i18n.menu.edit.find"@, "Find"@),
        ("i18n.menu.edit.find_in_project"@, "Find In Project"@),
        ("i18n.menu.edit.toggle_line_comment"@, "Toggle Line Comment"@),
    ]
}

/// The default texts of the Selection menu.
pub open spec fn default_texts_selection() -> Seq<(Seq<char>, Seq<char>)> {
    seq![
        ("i18n.menu.selection"@, "Selection"@),
        ("i18n.menu.selection.select_all"@, "Select All"@),
        ("i18n.menu.selection.expand_selection"@, "Expand Selection"@),
        ("i18n.menu.selection.shrink_selection"@, "Shrink Selection"@),
        ("i18n.menu.selection.add_cursor_above"@, "Add Cursor Above"@),
        ("i18n.menu.selection.add_cursor_below"@, "Add Cursor Below"@),
        ("i18n.menu.selection.select_next_occurrence"@, "Select Next Occurrence"@),
        ("i18n.menu.selection.move_line_up"@, "Move Line Up"@),
        ("i18n.menu.selection.move_line_down"@, "Move Line Down"@),
        ("i18n.menu.selection.duplicate_selection"@, "Duplicate Selection"@),
    ]
}

/// The default texts of the View menu.
pub open spec fn default_texts_view() -> Seq<(Seq<char>, Seq<char>)> {
    seq![
        ("i18n.menu.view"@, "View"@),
        ("i18n.menu.view.zoom_in"@, "Zoom In"@),
        ("i18n.menu.view.zoom_out"@, "Zoom Out"@),
        ("i18n.menu.view.reset_zoom"@, "Reset Zoom"@),
        ("i18n.menu.view.toggle_left_dock"@, "Toggle Left Dock"@),
        ("i18n.menu.view.toggle_right_dock"@, "Toggle Right Dock"@),
        ("i18n.menu.view.toggle_bottom_dock"@, "Toggle Bottom Dock"@),
        ("i18n.menu.view.close_all_docks"@, "Close All Docks"@),
        ("i18n.menu.view.editor_layout.split_up"@, "Split Up"@),
        ("i18n.menu.view.editor_layout.split_down"@, "Split Down"@),
        ("i18n.menu.view.editor_layout.split_left"@, "Split Left"@),
        ("i18n.menu.view.editor_layout.split_right"@, "Split Right"@),
        ("i18n.menu.view.project_panel"@, "Project Panel"@),
        ("i18n.menu.view.outline_panel"@, "Outline Panel"@),
        ("i18n.menu.view.collab_panel"@, "Collab Panel"@),
        ("i18n.menu.view.terminal_panel"@, "Terminal Panel"@),
        ("i18n.menu.view.diagnostics"@, "Diagnostics"@),
    ]
}

/// The default texts of the Go menu.
pub open spec fn default_texts_go() -> Seq<(Seq<char>, Seq<char>)> {
    seq![
        ("i18n.menu.go"@, "Go"@),
        ("i18n.menu.go.back"@, "Back"@),
        ("i18n.menu.go.forward"@, "Forward"@),
        ("i18n.menu.go.command_palette"@, "Command Palette..."@),
        ("i18n.menu.go.go_to_file"@, "Go to File..."@),
        ("i18n.menu.go.go_to_symbol_in_project"@, "Go to Symbol in Project"@),
        ("i18n.menu.go.go_to_symbol_in_editor"@, "Go to Symbol in Editor..."@),
        ("i18n.menu.go.go_to_line/column"@, "Go to Line/Column..."@),
        ("i18n.menu.go.go_to_definition"@, "Go to Definition"@),
        ("i18n.menu.go.go_to_declaration"@, "Go to Declaration"@),
        ("i18n.menu.go.go_to_type_definition"@, "Go to Type Definition"@),
        ("i18n.menu.go.find_all_references"@, "Find All References"@),
        ("i18n.menu.go.next_problem"@, "Next Problem"@),
        ("i18n.menu.go.previous_problem"@, "Previous Problem"@),
    ]
}

/// The default texts of the Window menu.
pub open spec fn default_texts_window() -> Seq<(Seq<char>, Seq<char>)> {
    seq![
        ("i18n.menu.window"@, "Window"@),
        ("i18n.menu.window.minimize"@, "Minimize"@),
        ("i18n.menu.window.zoom"@, "Zoom"@),
    ]
}

/// The default texts of the Help menu.
pub open spec fn default_texts_help() -> Seq<(Seq<char>, Seq<char>)> {
    seq![
        ("i18n.menu.help"@, "Help"@),
        ("i18n.menu.help.view_telemetry"@, "View Telemetry"@),
        ("i18n.menu.help.view_dependency_licenses"@, "View Dependency Licenses"@),
        ("i18n.menu.help.show_welcome"@, "Show Welcome"@),
        ("i18n.menu.help.give_feedback"@, "Give Feedback..."@),
        ("i18n.menu.help.documentation"@, "Documentation"@),
        ("i18n.menu.help.zed_twitter"@, "Zed Twitter"@),
        ("i18n.menu.help.join_the_team"@, "Join the Team"@),
    ]
}

/// The default texts of submenus and entries that belong to no single menu.
pub open spec fn default_texts_other() -> Seq<(Seq<char>, Seq<char>)> {
    seq![
        ("i18n.menu.other.settings"@, "Settings"@),
        ("i18n.menu.other.services"@, "Services"@),
        ("i18n.menu.other.open_folder"@, "Open Folder..."@),
        ("i18n.menu.other.open"@, "Open…"@),
        ("i18n.menu.other.editor_layout"@, "Editor Layout"@),
    ]
}

/// All default texts, menu by menu.
pub open spec fn default_texts() -> Seq<(Seq<char>, Seq<char>)> {
    default_texts_zed() + default_texts_file() + default_texts_edit() + default_texts_selection() + default_texts_view() + default_texts_go() + default_texts_window() + default_texts_help() + default_texts_other()
}

/// Appends the entry `(key, text)` to `table`.
fn put_text(table: &mut Vec<(String, String)>, key: &str, text: &str)
    ensures
        pairs_view(final(table)@) == pairs_view(old(table)@).push((key@, text@)),
{
    table.push((key.to_owned(), text.to_owned()));
}

/// Appends the default texts of the application menu.
fn put_texts_zed(table: &mut Vec<(String, String)>)
    ensures
        pairs_view(final(table)@) == pairs_view(old(table)@) + default_texts_zed(),
{
    put_text(table, "i18n.menu.zed", "Zed");
    put_text(table, "i18n.menu.zed.about_zed", "About Zed…");
    put_text(table, "i18n.menu.zed.check_for_updates", "Check for Updates");
    put_text(table, "i18n.menu.zed.settings.open_settings", "Open Settings");
    put_text(table, "i18n.menu.zed.settings.open_key_bindings", "Open Key Bindings");
    put_text(table, "i18n.menu.zed.settings.open_default_settings", "Open Default Settings");
    put_text(table, "i18n.menu.zed.settings.open_default_key_bindings", "Open Default Key Bindings");
    put_text(table, "i18n.menu.zed.settings.open_project_settings", "Open Project Settings");
    put_text(table, "i18n.menu.zed.settings.select_theme", "Select Theme...");
    put_text(table, "i18n.menu.zed.extensions", "Extensions");
    put_text(table, "i18n.menu.zed.install_cli", "Install CLI");
    put_text(table, "i18n.menu.zed.hide_zed", "Hide Zed");
    put_text(table, "i18n.menu.zed.hide_others", "Hide Others");
    put_text(table, "i18n.menu.zed.show_all", "Show All");
    put_text(table, "i18n.menu.zed.quit", "Quit");
}

/// Appends the default texts of the File menu.
fn put_texts_file(table: &mut Vec<(String, String)>)
    ensures
        pairs_view(final(table)@) == pairs_view(old(table)@) + default_texts_file(),
{
    put_text(table, "i18n.menu.file", "File");
    put_text(table, "i18n.menu.file.new", "New");
    put_text(table, "i18n.menu.file.new_window", "New Window");
    put_text(table, "i18n.menu.file.open_file", "Open File...");
    put_text(table, "i18n.menu.file.macos", "macos");
    put_text(table, "i18n.menu.file.open_recent", "Open Recent...");
    put_text(table, "i18n.menu.file.open_remote", "Open Remote...");
    put_text(table, "i18n.menu.file.add_folder_to_project", "Add Folder to Project…");
    put_text(table, "i18n.menu.file.save", "Save");
    put_text(table, "i18n.menu.file.save_as", "Save As…");
    put_text(table, "i18n.menu.file.save_all", "Save All");
    put_text(table, "i18n.menu.file.close_editor", "Close Editor");
    put_text(table, "i18n.menu.file.close_window", "Close Window");
}

/// Appends the default texts of the Edit menu.
fn put_texts_edit(table: &mut Vec<(String, String)>)
    ensures
        pairs_view(final(table)@) == pairs_view(old(table)@) + default_texts_edit(),
{
    put_text(table, "i18n.menu.edit", "Edit");
    put_text(table, "i18n.menu.edit.undo", "Undo");
    put_text(table, "i18n.menu.edit.redo", "Redo");
    put_text(table, "i18n.menu.edit.cut", "Cut");
    put_text(table, "i18n.menu.edit.copy", "Copy");
    put_text(table, "i18n.menu.edit.copy_and_trim", "Copy and Trim");
    put_text(table, "i18n.menu.edit.paste", "Paste");
    put_text(table, "i18n.menu.edit.find", "Find");
    put_text(table, "i18n.menu.edit.find_in_project", "Find In Project");
    put_text(table, "i18n.menu.edit.toggle_line_comment", "Toggle Line Comment");
}

/// Appends the default texts of the Selection menu.
fn put_texts_selection(table: &mut Vec<(String, String)>)
    ensures
        pairs_view(final(table)@) == pairs_view(old(table)@) + default_texts_selection(),
{
    put_text(table, "i18n.menu.selection", "Selection");
    put_text(table, "i18n.menu.selection.select_all", "Select All");
    put_text(table, "i18n.menu.selection.expand_selection", "Expand Selection");
    put_text(table, "i18n.menu.selection.shrink_selection", "Shrink Selection");
    put_text(table, "i18n.menu.selection.add_cursor_above", "Add Cursor Above");
    put_text(table, "i18n.menu.selection.add_cursor_below", "Add Cursor Below");
    put_text(table, "i18n.menu.selection.select_next_occurrence", "Select Next Occurrence");
    put_text(table, "i18n.menu.selection.move_line_up", "Move Line Up");
    put_text(table, "i18n.menu.selection.move_line_down", "Move Line Down");
    put_text(table, "i18n.menu.selection.duplicate_selection", "Duplicate Selection");
}

/// Appends the default texts of the View menu.
fn put_texts_view(table: &mut Vec<(String, String)>)
    ensures
        pairs_view(final(table)@) == pairs_view(old(table)@) + default_texts_view(),
{
    put_text(table, "i18n.menu.view", "View");
    put_text(table, "i18n.menu.view.zoom_in", "Zoom In");
    put_text(table, "i18n.menu.view.zoom_out", "Zoom Out");
    put_text(table, "i18n.menu.view.reset_zoom", "Reset Zoom");
    put_text(table, "i18n.menu.view.toggle_left_dock", "Toggle Left Dock");
    put_text(table, "i18n.menu.view.toggle_right_dock", "Toggle Right Dock");
    put_text(table, "i18n.menu.view.toggle_bottom_dock", "Toggle Bottom Dock");
    put_text(table, "i18n.menu.view.close_all_docks", "Close All Docks");
    put_text(table, "i18n.menu.view.editor_layout.split_up", "Split Up");
    put_text(table, "i18n.menu.view.editor_layout.split_down", "Split Down");
    put_text(table, "i18n.menu.view.editor_layout.split_left", "Split Left");
    put_text(table, "i18n.menu.view.editor_layout.split_right", "Split Right");
    put_text(table, "i18n.menu.view.project_panel", "Project Panel");
    put_text(table, "i18n.menu.view.outline_panel", "Outline Panel");
    put_text(table, "i18n.menu.view.collab_panel", "Collab Panel");
    put_text(table, "i18n.menu.view.terminal_panel", "Terminal Panel");
    put_text(table, "i18n.menu.view.diagnostics", "Diagnostics");
}

/// Appends the default texts of the Go menu.
fn put_texts_go(table: &mut Vec<(String, String)>)
    ensures
        pairs_view(final(table)@) == pairs_view(old(table)@) + default_texts_go(),
{
    put_text(table, "i18n.menu.go", "Go");
    put_text(table, "i18n.menu.go.back", "Back");
    put_text(table, "i18n.menu.go.forward", "Forward");
    put_text(table, "i18n.menu.go.command_palette", "Command Palette...");
    put_text(table, "i18n.menu.go.go_to_file", "Go to File...");
    put_text(table, "i18n.menu.go.go_to_symbol_in_project", "Go to Symbol in Project");
    put_text(table, "i18n.menu.go.go_to_symbol_in_editor", "Go to Symbol in Editor...");
    put_text(table, "i18n.menu.go.go_to_line/column", "Go to Line/Column...");
    put_text(table, "i18n.menu.go.go_to_definition", "Go to Definition");
    put_text(table, "i18n.menu.go.go_to_declaration", "Go to Declaration");
    put_text(table, "i18n.menu.go.go_to_type_definition", "Go to Type Definition");
    put_text(table, "i18n.menu.go.find_all_references", "Find All References");
    put_text(table, "i18n.menu.go.next_problem", "Next Problem");
    put_text(table, "i18n.menu.go.previous_problem", "Previous Problem");
}

/// Appends the default texts of the Window menu.
fn put_texts_window(table: &mut Vec<(String, String)>)
    ensures
        pairs_view(final(table)@) == pairs_view(old(table)@) + default_texts_window(),
{
    put_text(table, "i18n.menu.window", "Window");
    put_text(table, "i18n.menu.window.minimize", "Minimize");
    put_text(table, "i18n.menu.window.zoom", "Zoom");
}

/// Appends the default texts of the Help menu.
fn put_texts_help(table: &mut Vec<(String, String)>)
    ensures
        pairs_view(final(table)@) == pairs_view(old(table)@) + default_texts_help(),
{
    put_text(table, "i18n.menu.help", "Help");
    put_text(table, "i18n.menu.help.view_telemetry", "View Telemetry");
    put_text(table, "i18n.menu.help.view_dependency_licenses", "View Dependency Licenses");
    put_text(table, "i18n.menu.help.show_welcome", "Show Welcome");
    put_text(table, "i18n.menu.help.give_feedback", "Give Feedback...");
    put_text(table, "i18n.menu.help.documentation", "Documentation");
    put_text(table, "i18n.menu.help.zed_twitter", "Zed Twitter");
    put_text(table, "i18n.menu.help.join_the_team", "Join the Team");
}

/// Appends the default texts of submenus and entries that belong to no single menu.
fn put_texts_other(table: &mut Vec<(String, String)>)
    ensures
        pairs_view(final(table)@) == pairs_view(old(table)@) + default_texts_other(),
{
    put_text(table, "i18n.menu.other.settings", "Settings");
    put_text(table, "i18n.menu.other.services", "Services");
    put_text(table, "i18n.menu.other.open_folder", "Open Folder...");
    put_text(table, "i18n.menu.other.open", "Open…");
    put_text(table, "i18n.menu.other.editor_layout", "Editor Layout");
}

/// The table of all default texts.
pub fn default_text_table() -> (table: Vec<(String, String)>)
    ensures
        pairs_view(table@) == default_texts(),
{
    let mut table: Vec<(String, String)> = Vec::new();
    put_texts_zed(&mut table);
    put_texts_file(&mut table);
    put_texts_edit(&mut table);
    put_texts_selection(&mut table);
    put_texts_view(&mut table);
    put_texts_go(&mut table);
    put_texts_window(&mut table);
    put_texts_help(&mut table);
    put_texts_other(&mut table);
    table
}

/// The default text of `key`.
pub fn get_default_text(key: &str) -> (text: Option<String>)
    ensures
        opt_text(text) == assoc(default_texts(), key@),
{
    let table = default_text_table();
    match lookup_pair(&table, key) {
        Some(found) => Some(found.clone()),
        None => None,
    }
}

/// The keys of all default texts, in the order of the table.
pub fn get_all_default_text_keys() -> (keys: Vec<String>)
    ensures
        texts_view(keys@) == keys_of(default_texts()),
{
    let table = default_text_table();
    let mut keys: Vec<String> = Vec::new();
    let mut i: usize = 0;
    while i < table.len()
        invariant
            i <= table.len(),
            keys.len() == i,
            forall|j: int| 0 <= j < i ==> keys@[j]@ == table@[j].0@,
        decreases table.len() - i,
    {
        keys.push(table[i].0.clone());
        i = i + 1;
    }
    keys
}

} // verus!
