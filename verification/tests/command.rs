use mendel_shell::command::{from_id, MenuCommand};
use mendel_shell::menu::handle_menu_event;

const ALL: [MenuCommand; 11] = [
    MenuCommand::Open,
    MenuCommand::Save,
    MenuCommand::SaveAs,
    MenuCommand::ExportPdf,
    MenuCommand::ExportHtml,
    MenuCommand::ExportDocx,
    MenuCommand::ExportRtf,
    MenuCommand::ExportPng,
    MenuCommand::ExportJpg,
    MenuCommand::ExportTxt,
    MenuCommand::InsertImage,
];

#[test]
fn each_id_dispatches_to_its_event() {
    assert_eq!(handle_menu_event("open"), Some("menu-open"));
    assert_eq!(handle_menu_event("save"), Some("menu-save"));
    assert_eq!(handle_menu_event("save_as"), Some("menu-save-as"));
    assert_eq!(handle_menu_event("export_pdf"), Some("menu-export-pdf"));
    assert_eq!(handle_menu_event("export_html"), Some("menu-export-html"));
    assert_eq!(handle_menu_event("export_docx"), Some("menu-export-docx"));
    assert_eq!(handle_menu_event("export_rtf"), Some("menu-export-rtf"));
    assert_eq!(handle_menu_event("export_png"), Some("menu-export-png"));
    assert_eq!(handle_menu_event("export_jpg"), Some("menu-export-jpg"));
    assert_eq!(handle_menu_event("export_txt"), Some("menu-export-txt"));
    assert_eq!(handle_menu_event("insert_image"), Some("menu-insert-image"));
}

#[test]
fn unknown_ids_are_ignored() {
    assert_eq!(handle_menu_event(""), None);
    assert_eq!(handle_menu_event("quit"), None);
    assert_eq!(handle_menu_event("Open"), None);
    assert_eq!(handle_menu_event("open "), None);
    assert_eq!(handle_menu_event("export"), None);
    assert_eq!(handle_menu_event("export_pdf2"), None);
    assert_eq!(handle_menu_event("menu-open"), None);
}

#[test]
fn ids_round_trip_through_lookup() {
    for command in ALL {
        assert_eq!(from_id(command.id()), Some(command));
        assert_eq!(handle_menu_event(command.id()), Some(command.event()));
    }
    assert_eq!(from_id("undo"), None);
}

#[test]
fn ids_and_events_are_pairwise_distinct() {
    for (i, a) in ALL.iter().enumerate() {
        for b in ALL.iter().skip(i + 1) {
            assert_ne!(a.id(), b.id());
            assert_ne!(a.event(), b.event());
        }
    }
}

#[test]
fn labels_and_accelerators_are_as_shown_in_the_menu() {
    assert_eq!(MenuCommand::Open.label(), "Open...");
    assert_eq!(MenuCommand::Save.label(), "Save");
    assert_eq!(MenuCommand::SaveAs.label(), "Save As...");
    assert_eq!(MenuCommand::ExportPdf.label(), "Export as PDF");
    assert_eq!(MenuCommand::ExportHtml.label(), "Export as HTML");
    assert_eq!(MenuCommand::ExportDocx.label(), "Export as DOCX");
    assert_eq!(MenuCommand::ExportRtf.label(), "Export as RTF");
    assert_eq!(MenuCommand::ExportPng.label(), "Export as PNG");
    assert_eq!(MenuCommand::ExportJpg.label(), "Export as JPG");
    assert_eq!(MenuCommand::ExportTxt.label(), "Export as TXT");
    assert_eq!(MenuCommand::InsertImage.label(), "Insert Image...");

    assert_eq!(MenuCommand::Open.accelerator(), Some("CmdOrCtrl+O"));
    assert_eq!(MenuCommand::Save.accelerator(), Some("CmdOrCtrl+S"));
    assert_eq!(MenuCommand::SaveAs.accelerator(), Some("CmdOrCtrl+Shift+S"));
    assert_eq!(MenuCommand::ExportPdf.accelerator(), Some("CmdOrCtrl+Shift+E"));
    assert_eq!(MenuCommand::InsertImage.accelerator(), Some("CmdOrCtrl+Shift+I"));
    for command in [
        MenuCommand::ExportHtml,
        MenuCommand::ExportDocx,
        MenuCommand::ExportRtf,
        MenuCommand::ExportPng,
        MenuCommand::ExportJpg,
        MenuCommand::ExportTxt,
    ] {
        assert_eq!(command.accelerator(), None);
    }
}
