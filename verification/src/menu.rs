//! The application menu as plain data: four groups in a fixed order, made of
//! separators, items whose behaviour the platform supplies, and the
//! application's own commands.

use crate::command::{command_of, from_id, lemma_ids_round_trip, MenuCommand};
use vstd::prelude::*;

verus! {

/// The titled parts of the menu.
#[derive(Clone, Copy, Debug, PartialEq, Eq, Structural)]
pub enum MenuTitle {
    AppMenu,
    FileMenu,
    EditMenu,
    ViewMenu,
    ExportMenu,
}

impl MenuTitle {
    /// The title as it is shown.
    pub open spec fn text_model(self) -> Seq<char> {
        match self {
            MenuTitle::AppMenu => "Mendel"@,
            MenuTitle::FileMenu => "File"@,
            MenuTitle::EditMenu => "Edit"@,
            MenuTitle::ViewMenu => "View"@,
            MenuTitle::ExportMenu => "Export"@,
        }
    }

    /// The title as it is shown.
    pub fn text(self) -> (text: &'static str)
        ensures
            text@ == self.text_model(),
    {
        match self {
            MenuTitle::AppMenu => "Mendel",
            MenuTitle::FileMenu => "File",
            MenuTitle::EditMenu => "Edit",
            MenuTitle::ViewMenu => "View",
            MenuTitle::ExportMenu => "Export",
        }
    }
}

/// An item that behaves as the platform defines. It carries no identifier of
/// the application's and its activation is never dispatched as an event.
#[derive(Clone, Copy, Debug, PartialEq, Eq, Structural)]
pub enum StandardItem {
    About,
    Services,
    Hide,
    HideOthers,
    ShowAll,
    Quit,
    CloseWindow,
    Undo,
    Redo,
    Cut,
    Copy,
    Paste,
    SelectAll,
    Fullscreen,
}

/// One line of a menu group.
#[derive(Clone, Debug, PartialEq, Eq)]
pub enum MenuEntry {
    Separator,
    Standard(StandardItem),
    Command(MenuCommand),
    /// A nested menu whose lines are all commands.
    Submenu { title: MenuTitle, commands: Vec<MenuCommand> },
}

/// What a `MenuEntry` stands for.
pub enum EntryModel {
    Separator,
    Standard(StandardItem),
    Command(MenuCommand),
    Submenu { title: MenuTitle, commands: Seq<MenuCommand> },
}

impl View for MenuEntry {
    type V = EntryModel;

    open spec fn view(&self) -> EntryModel {
        match self {
            MenuEntry::Separator => EntryModel::Separator,
            MenuEntry::Standard(item) => EntryModel::Standard(*item),
            MenuEntry::Command(command) => EntryModel::Command(*command),
            MenuEntry::Submenu { title, commands } => EntryModel::Submenu {
                title: *title,
                commands: commands@,
            },
        }
    }
}

/// A top-level group of the menu.
#[derive(Clone, Debug, PartialEq, Eq)]
pub struct MenuGroup {
    pub title: MenuTitle,
    pub entries: Vec<MenuEntry>,
}

/// What a `MenuGroup` stands for.
pub struct GroupModel {
    pub title: MenuTitle,
    pub entries: Seq<EntryModel>,
}

impl View for MenuGroup {
    type V = GroupModel;

    open spec fn view(&self) -> GroupModel {
        GroupModel { title: self.title, entries: self.entries@.map_values(|e: MenuEntry| e@) }
    }
}

/// The whole menu, group by group.
#[derive(Clone, Debug, PartialEq, Eq)]
pub struct MenuTree {
    pub groups: Vec<MenuGroup>,
}

impl View for MenuTree {
    type V = Seq<GroupModel>;

    open spec fn view(&self) -> Seq<GroupModel> {
        self.groups@.map_values(|g: MenuGroup| g@)
    }
}

/// The application group: items of the platform only.
pub open spec fn app_entries() -> Seq<EntryModel> {
    seq![
        EntryModel::Standard(StandardItem::About),
        EntryModel::Separator,
        EntryModel::Standard(StandardItem::Services),
        EntryModel::Separator,
        EntryModel::Standard(StandardItem::Hide),
        EntryModel::Standard(StandardItem::HideOthers),
        EntryModel::Standard(StandardItem::ShowAll),
        EntryModel::Separator,
        EntryModel::Standard(StandardItem::Quit),
    ]
}

/// The formats that a document can be exported to, in menu order.
pub open spec fn export_commands() -> Seq<MenuCommand> {
    seq![
        MenuCommand::ExportPdf,
        MenuCommand::ExportHtml,
        MenuCommand::ExportDocx,
        MenuCommand::ExportRtf,
        MenuCommand::ExportPng,
        MenuCommand::ExportJpg,
        MenuCommand::ExportTxt,
    ]
}

/// The file group: open and save, the export submenu, closing the window.
pub open spec fn file_entries() -> Seq<EntryModel> {
    seq![
        EntryModel::Command(MenuCommand::Open),
        EntryModel::Command(MenuCommand::Save),
        EntryModel::Command(MenuCommand::SaveAs),
        EntryModel::Separator,
        EntryModel::Submenu { title: MenuTitle::ExportMenu, commands: export_commands() },
        EntryModel::Separator,
        EntryModel::Standard(StandardItem::CloseWindow),
    ]
}

/// The edit group: the platform's editing items and the image command.
pub open spec fn edit_entries() -> Seq<EntryModel> {
    seq![
        EntryModel::Standard(StandardItem::Undo),
        EntryModel::Standard(StandardItem::Redo),
        EntryModel::Separator,
        EntryModel::Standard(StandardItem::Cut),
        EntryModel::Standard(StandardItem::Copy),
        EntryModel::Standard(StandardItem::Paste),
        EntryModel::Standard(StandardItem::SelectAll),
        EntryModel::Separator,
        EntryModel::Command(MenuCommand::InsertImage),
    ]
}

/// The view group.
pub open spec fn view_entries() -> Seq<EntryModel> {
    seq![EntryModel::Standard(StandardItem::Fullscreen)]
}

/// The menu of the application.
pub open spec fn menu_model() -> Seq<GroupModel> {
    seq![
        GroupModel { title: MenuTitle::AppMenu, entries: app_entries() },
        GroupModel { title: MenuTitle::FileMenu, entries: file_entries() },
        GroupModel { title: MenuTitle::EditMenu, entries: edit_entries() },
        GroupModel { title: MenuTitle::ViewMenu, entries: view_entries() },
    ]
}

fn app_group() -> (group: MenuGroup)
    ensures
        group@ == (GroupModel { title: MenuTitle::AppMenu, entries: app_entries() }),
{
    let entries = vec![
        MenuEntry::Standard(StandardItem::About),
        MenuEntry::Separator,
        MenuEntry::Standard(StandardItem::Services),
        MenuEntry::Separator,
        MenuEntry::Standard(StandardItem::Hide),
        MenuEntry::Standard(StandardItem::HideOthers),
        MenuEntry::Standard(StandardItem::ShowAll),
        MenuEntry::Separator,
        MenuEntry::Standard(StandardItem::Quit),
    ];
    assert(entries@.map_values(|e: MenuEntry| e@) =~= app_entries());
    MenuGroup { title: MenuTitle::AppMenu, entries }
}

fn file_group() -> (group: MenuGroup)
    ensures
        group@ == (GroupModel { title: MenuTitle::FileMenu, entries: file_entries() }),
{
    let commands = vec![
        MenuCommand::ExportPdf,
        MenuCommand::ExportHtml,
        MenuCommand::ExportDocx,
        MenuCommand::ExportRtf,
        MenuCommand::ExportPng,
        MenuCommand::ExportJpg,
        MenuCommand::ExportTxt,
    ];
    assert(commands@ =~= export_commands());
    let entries = vec![
        MenuEntry::Command(MenuCommand::Open),
        MenuEntry::Command(MenuCommand::Save),
        MenuEntry::Command(MenuCommand::SaveAs),
        MenuEntry::Separator,
        MenuEntry::Submenu { title: MenuTitle::ExportMenu, commands },
        MenuEntry::Separator,
        MenuEntry::Standard(StandardItem::CloseWindow),
    ];
    assert(entries@.map_values(|e: MenuEntry| e@) =~= file_entries());
    MenuGroup { title: MenuTitle::FileMenu, entries }
}

fn edit_group() -> (group: MenuGroup)
    ensures
        group@ == (GroupModel { title: MenuTitle::EditMenu, entries: edit_entries() }),
{
    let entries = vec![
        MenuEntry::Standard(StandardItem::Undo),
        MenuEntry::Standard(StandardItem::Redo),
        MenuEntry::Separator,
        MenuEntry::Standard(StandardItem::Cut),
        MenuEntry::Standard(StandardItem::Copy),
        MenuEntry::Standard(StandardItem::Paste),
        MenuEntry::Standard(StandardItem::SelectAll),
        MenuEntry::Separator,
        MenuEntry::Command(MenuCommand::InsertImage),
    ];
    assert(entries@.map_values(|e: MenuEntry| e@) =~= edit_entries());
    MenuGroup { title: MenuTitle::EditMenu, entries }
}

fn view_group() -> (group: MenuGroup)
    ensures
        group@ == (GroupModel { title: MenuTitle::ViewMenu, entries: view_entries() }),
{
    let entries = vec![MenuEntry::Standard(StandardItem::Fullscreen)];
    assert(entries@.map_values(|e: MenuEntry| e@) =~= view_entries());
    MenuGroup { title: MenuTitle::ViewMenu, entries }
}

/// Builds the menu: the application, file, edit and view groups, in that
/// order, each with its entries in theirs.
pub fn build_menu() -> (tree: MenuTree)
    ensures
        tree@ == menu_model(),
{
    let groups = vec![app_group(), file_group(), edit_group(), view_group()];
    assert(groups@.map_values(|g: MenuGroup| g@) =~= menu_model());
    MenuTree { groups }
}

/// The event that activating the menu item `id` broadcasts: that of the
/// command registered under `id`, and none for any other identifier.
pub open spec fn event_of(id: Seq<char>) -> Option<Seq<char>> {
    match command_of(id) {
        Some(command) => Some(command.event_model()),
        None => None,
    }
}

/// Turns the activation of the menu item `id` into the name of the event to
/// broadcast. An identifier that no command is registered under yields
/// nothing: such an activation is ignored, and is no failure.
pub fn handle_menu_event(id: &str) -> (event: Option<&'static str>)
    ensures
        match event_of(id@) {
            Some(name) => event matches Some(e) && e@ == name,
            None => event is None,
        },
{
    match from_id(id) {
        Some(command) => Some(command.event()),
        None => None,
    }
}

/// Whether `entry` registers `command`, by itself or in its submenu.
pub open spec fn entry_registers(entry: EntryModel, command: MenuCommand) -> bool {
    match entry {
        EntryModel::Command(c) => c == command,
        EntryModel::Submenu { title, commands } => commands.contains(command),
        _ => false,
    }
}

/// Whether the entry at `line` of the group at `group` registers `command`.
pub open spec fn registers_at(
    menu: Seq<GroupModel>,
    group: int,
    line: int,
    command: MenuCommand,
) -> bool {
    &&& 0 <= group < menu.len()
    &&& 0 <= line < menu[group].entries.len()
    &&& entry_registers(menu[group].entries[line], command)
}

/// Whether `menu` registers `command` somewhere.
pub open spec fn registers(menu: Seq<GroupModel>, command: MenuCommand) -> bool {
    exists|group: int, line: int| registers_at(menu, group, line, command)
}

/// The menu registers every command, each in one place only.
pub proof fn lemma_menu_registers_each_command_once(command: MenuCommand)
    ensures
        registers(menu_model(), command),
        forall|g1: int, l1: int, g2: int, l2: int|
            registers_at(menu_model(), g1, l1, command) && registers_at(
                menu_model(),
                g2,
                l2,
                command,
            ) ==> g1 == g2 && l1 == l2,
        export_commands().no_duplicates(),
{
    let menu = menu_model();
    let exports = export_commands();
    match command {
        MenuCommand::Open => {
            assert(registers_at(menu, 1, 0, command));
        },
        MenuCommand::Save => {
            assert(registers_at(menu, 1, 1, command));
        },
        MenuCommand::SaveAs => {
            assert(registers_at(menu, 1, 2, command));
        },
        MenuCommand::InsertImage => {
            assert(registers_at(menu, 2, 8, command));
        },
        MenuCommand::ExportPdf => {
            assert(exports[0] == command);
            assert(registers_at(menu, 1, 4, command));
        },
        MenuCommand::ExportHtml => {
            assert(exports[1] == command);
            assert(registers_at(menu, 1, 4, command));
        },
        MenuCommand::ExportDocx => {
            assert(exports[2] == command);
            assert(registers_at(menu, 1, 4, command));
        },
        MenuCommand::ExportRtf => {
            assert(exports[3] == command);
            assert(registers_at(menu, 1, 4, command));
        },
        MenuCommand::ExportPng => {
            assert(exports[4] == command);
            assert(registers_at(menu, 1, 4, command));
        },
        MenuCommand::ExportJpg => {
            assert(exports[5] == command);
            assert(registers_at(menu, 1, 4, command));
        },
        MenuCommand::ExportTxt => {
            assert(exports[6] == command);
            assert(registers_at(menu, 1, 4, command));
        },
    }
}

/// Activating a registered item broadcasts that command's event and no
/// other, and an identifier broadcasts an event only if the menu registers
/// a command under it.
pub proof fn lemma_registered_ids_dispatch(command: MenuCommand, id: Seq<char>)
    ensures
        registers(menu_model(), command) ==> event_of(command.id_model()) == Some(
            command.event_model(),
        ),
        event_of(id) is Some <==> exists|c: MenuCommand|
            registers(menu_model(), c) && #[trigger] c.id_model() == id,
{
    lemma_ids_round_trip(command, id);
    if event_of(id) is Some {
        let c = command_of(id)->0;
        lemma_menu_registers_each_command_once(c);
        assert(c.id_model() == id);
    }
    if exists|c: MenuCommand| registers(menu_model(), c) && #[trigger] c.id_model() == id {
        let c = choose|c: MenuCommand| registers(menu_model(), c) && #[trigger] c.id_model() == id;
        lemma_ids_round_trip(c, id);
    }
}

} // verus!
