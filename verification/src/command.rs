//! The custom menu commands: what each is called, how it is shown, and the
//! event that its activation broadcasts.

use crate::text::str_eq;
use vstd::prelude::*;

verus! {

/// An entry of the menu that the application handles itself.
#[derive(Clone, Copy, Debug, PartialEq, Eq, Structural)]
pub enum MenuCommand {
    Open,
    Save,
    SaveAs,
    ExportPdf,
    ExportHtml,
    ExportDocx,
    ExportRtf,
    ExportPng,
    ExportJpg,
    ExportTxt,
    InsertImage,
}

impl MenuCommand {
    /// The identifier under which the command is registered with the menu.
    pub open spec fn id_model(self) -> Seq<char> {
        match self {
            MenuCommand::Open => "open"@,
            MenuCommand::Save => "save"@,
            MenuCommand::SaveAs => "save_as"@,
            MenuCommand::ExportPdf => "export_pdf"@,
            MenuCommand::ExportHtml => "export_html"@,
            MenuCommand::ExportDocx => "export_docx"@,
            MenuCommand::ExportRtf => "export_rtf"@,
            MenuCommand::ExportPng => "export_png"@,
            MenuCommand::ExportJpg => "export_jpg"@,
            MenuCommand::ExportTxt => "export_txt"@,
            MenuCommand::InsertImage => "insert_image"@,
        }
    }

    /// The text of the menu entry.
    pub open spec fn label_model(self) -> Seq<char> {
        match self {
            MenuCommand::Open => "Open..."@,
            MenuCommand::Save => "Save"@,
            MenuCommand::SaveAs => "Save As..."@,
            MenuCommand::ExportPdf => "Export as PDF"@,
            MenuCommand::ExportHtml => "Export as HTML"@,
            MenuCommand::ExportDocx => "Export as DOCX"@,
            MenuCommand::ExportRtf => "Export as RTF"@,
            MenuCommand::ExportPng => "Export as PNG"@,
            MenuCommand::ExportJpg => "Export as JPG"@,
            MenuCommand::ExportTxt => "Export as TXT"@,
            MenuCommand::InsertImage => "Insert Image..."@,
        }
    }

    /// The keyboard shortcut, for the commands that have one.
    pub open spec fn accelerator_model(self) -> Option<Seq<char>> {
        match self {
            MenuCommand::Open => Some("CmdOrCtrl+O"@),
            MenuCommand::Save => Some("CmdOrCtrl+S"@),
            MenuCommand::SaveAs => Some("CmdOrCtrl+Shift+S"@),
            MenuCommand::ExportPdf => Some("CmdOrCtrl+Shift+E"@),
            MenuCommand::InsertImage => Some("CmdOrCtrl+Shift+I"@),
            _ => None,
        }
    }

    /// The event that is broadcast when the command is activated.
    pub open spec fn event_model(self) -> Seq<char> {
        match self {
            MenuCommand::Open => "menu-open"@,
            MenuCommand::Save => "menu-save"@,
            MenuCommand::SaveAs => "menu-save-as"@,
            MenuCommand::ExportPdf => "menu-export-pdf"@,
            MenuCommand::ExportHtml => "menu-export-html"@,
            MenuCommand::ExportDocx => "menu-export-docx"@,
            MenuCommand::ExportRtf => "menu-export-rtf"@,
            MenuCommand::ExportPng => "menu-export-png"@,
            MenuCommand::ExportJpg => "menu-export-jpg"@,
            MenuCommand::ExportTxt => "menu-export-txt"@,
            MenuCommand::InsertImage => "menu-insert-image"@,
        }
    }

    /// The identifier under which the command is registered with the menu.
    pub fn id(self) -> (id: &'static str)
        ensures
            id@ == self.id_model(),
    {
        match self {
            MenuCommand::Open => "open",
            MenuCommand::Save => "save",
            MenuCommand::SaveAs => "save_as",
            MenuCommand::ExportPdf => "export_pdf",
            MenuCommand::ExportHtml => "export_html",
            MenuCommand::ExportDocx => "export_docx",
            MenuCommand::ExportRtf => "export_rtf",
            MenuCommand::ExportPng => "export_png",
            MenuCommand::ExportJpg => "export_jpg",
            MenuCommand::ExportTxt => "export_txt",
            MenuCommand::InsertImage => "insert_image",
        }
    }

    /// The text of the menu entry.
    pub fn label(self) -> (label: &'static str)
        ensures
            label@ == self.label_model(),
    {
        match self {
            MenuCommand::Open => "Open...",
            MenuCommand::Save => "Save",
            MenuCommand::SaveAs => "Save As...",
            MenuCommand::ExportPdf => "Export as PDF",
            MenuCommand::ExportHtml => "Export as HTML",
            MenuCommand::ExportDocx => "Export as DOCX",
            MenuCommand::ExportRtf => "Export as RTF",
            MenuCommand::ExportPng => "Export as PNG",
            MenuCommand::ExportJpg => "Export as JPG",
            MenuCommand::ExportTxt => "Export as TXT",
            MenuCommand::InsertImage => "Insert Image...",
        }
    }

    /// The keyboard shortcut, if the command has one.
    pub fn accelerator(self) -> (keys: Option<&'static str>)
        ensures
            match self.accelerator_model() {
                Some(model) => keys matches Some(k) && k@ == model,
                None => keys is None,
            },
    {
        match self {
            MenuCommand::Open => Some("CmdOrCtrl+O"),
            MenuCommand::Save => Some("CmdOrCtrl+S"),
            MenuCommand::SaveAs => Some("CmdOrCtrl+Shift+S"),
            MenuCommand::ExportPdf => Some("CmdOrCtrl+Shift+E"),
            MenuCommand::InsertImage => Some("CmdOrCtrl+Shift+I"),
            _ => None,
        }
    }

    /// The event that is broadcast when the command is activated.
    pub fn event(self) -> (event: &'static str)
        ensures
            event@ == self.event_model(),
    {
        match self {
            MenuCommand::Open => "menu-open",
            MenuCommand::Save => "menu-save",
            MenuCommand::SaveAs => "menu-save-as",
            MenuCommand::ExportPdf => "menu-export-pdf",
            MenuCommand::ExportHtml => "menu-export-html",
            MenuCommand::ExportDocx => "menu-export-docx",
            MenuCommand::ExportRtf => "menu-export-rtf",
            MenuCommand::ExportPng => "menu-export-png",
            MenuCommand::ExportJpg => "menu-export-jpg",
            MenuCommand::ExportTxt => "menu-export-txt",
            MenuCommand::InsertImage => "menu-insert-image",
        }
    }
}

/// The command registered under `id`, if there is one.
pub open spec fn command_of(id: Seq<char>) -> Option<MenuCommand> {
    if id == MenuCommand::Open.id_model() {
        Some(MenuCommand::Open)
    } else if id == MenuCommand::Save.id_model() {
        Some(MenuCommand::Save)
    } else if id == MenuCommand::SaveAs.id_model() {
        Some(MenuCommand::SaveAs)
    } else if id == MenuCommand::ExportPdf.id_model() {
        Some(MenuCommand::ExportPdf)
    } else if id == MenuCommand::ExportHtml.id_model() {
        Some(MenuCommand::ExportHtml)
    } else if id == MenuCommand::ExportDocx.id_model() {
        Some(MenuCommand::ExportDocx)
    } else if id == MenuCommand::ExportRtf.id_model() {
        Some(MenuCommand::ExportRtf)
    } else if id == MenuCommand::ExportPng.id_model() {
        Some(MenuCommand::ExportPng)
    } else if id == MenuCommand::ExportJpg.id_model() {
        Some(MenuCommand::ExportJpg)
    } else if id == MenuCommand::ExportTxt.id_model() {
        Some(MenuCommand::ExportTxt)
    } else if id == MenuCommand::InsertImage.id_model() {
        Some(MenuCommand::InsertImage)
    } else {
        None
    }
}

/// Finds the command registered under `id`.
pub fn from_id(id: &str) -> (found: Option<MenuCommand>)
    ensures
        found == command_of(id@),
{
    if str_eq(id, "open") {
        Some(MenuCommand::Open)
    } else if str_eq(id, "save") {
        Some(MenuCommand::Save)
    } else if str_eq(id, "save_as") {
        Some(MenuCommand::SaveAs)
    } else if str_eq(id, "export_pdf") {
        Some(MenuCommand::ExportPdf)
    } else if str_eq(id, "export_html") {
        Some(MenuCommand::ExportHtml)
    } else if str_eq(id, "export_docx") {
        Some(MenuCommand::ExportDocx)
    } else if str_eq(id, "export_rtf") {
        Some(MenuCommand::ExportRtf)
    } else if str_eq(id, "export_png") {
        Some(MenuCommand::ExportPng)
    } else if str_eq(id, "export_jpg") {
        Some(MenuCommand::ExportJpg)
    } else if str_eq(id, "export_txt") {
        Some(MenuCommand::ExportTxt)
    } else if str_eq(id, "insert_image") {
        Some(MenuCommand::InsertImage)
    } else {
        None
    }
}

/// No two commands share an identifier.
pub proof fn lemma_ids_distinct(a: MenuCommand, b: MenuCommand)
    requires
        a != b,
    ensures
        a.id_model() != b.id_model(),
{
    reveal_strlit("open");
    reveal_strlit("save");
    reveal_strlit("save_as");
    reveal_strlit("export_pdf");
    reveal_strlit("export_html");
    reveal_strlit("export_docx");
    reveal_strlit("export_rtf");
    reveal_strlit("export_png");
    reveal_strlit("export_jpg");
    reveal_strlit("export_txt");
    reveal_strlit("insert_image");
    let x = a.id_model();
    let y = b.id_model();
    if x.len() == y.len() {
        assert(x[0] != y[0] || x[7] != y[7] || x[8] != y[8]);
    }
}

/// Each command is the one found under its own identifier, and an identifier
/// under which a command is found is that command's own.
pub proof fn lemma_ids_round_trip(command: MenuCommand, id: Seq<char>)
    ensures
        command_of(command.id_model()) == Some(command),
        command_of(id) == Some(command) ==> id == command.id_model(),
        command_of(id) is None <==> forall|c: MenuCommand| c.id_model() != id,
{
    assert(command_of(command.id_model()) == Some(command)) by {
        if command_of(command.id_model()) != Some(command) {
            let other = command_of(command.id_model())->0;
            lemma_ids_distinct(other, command);
        }
    }
    if command_of(id) is Some {
        assert(command_of(id)->0.id_model() == id);
    }
}

/// No two commands broadcast the same event.
pub proof fn lemma_events_distinct(a: MenuCommand, b: MenuCommand)
    requires
        a != b,
    ensures
        a.event_model() != b.event_model(),
{
    reveal_strlit("menu-open");
    reveal_strlit("menu-save");
    reveal_strlit("menu-save-as");
    reveal_strlit("menu-export-pdf");
    reveal_strlit("menu-export-html");
    reveal_strlit("menu-export-docx");
    reveal_strlit("menu-export-rtf");
    reveal_strlit("menu-export-png");
    reveal_strlit("menu-export-jpg");
    reveal_strlit("menu-export-txt");
    reveal_strlit("menu-insert-image");
    let x = a.event_model();
    let y = b.event_model();
    if x.len() == y.len() {
        assert(x[5] != y[5] || x[12] != y[12] || x[13] != y[13]);
    }
}

} // verus!
