use mme::implementors::html::{find_command, HtmlPresenter, HtmlSlot};
use mme::mme::qstring_to_rust;
use mme::presenter::Presenter;
use mme::slot::{Position, SlotTrait};
use std::path::PathBuf;

#[test]
fn utf16_units_become_characters() {
    let units: Vec<u16> = "héllo €".encode_utf16().collect();
    assert_eq!(qstring_to_rust(&units), "héllo €");
    assert_eq!(qstring_to_rust(&[]), "");
}

#[test]
fn first_command_with_the_name() {
    let names = vec!["reload".to_string(), "test".to_string(), "test".to_string()];
    assert_eq!(find_command(&names, &"reload".to_string()), Some(0));
    assert_eq!(find_command(&names, &"test".to_string()), Some(1));
    assert_eq!(find_command(&names, &"other".to_string()), None);
    assert_eq!(find_command(&vec![], &"x".to_string()), None);
}

#[test]
fn presenter_from_folder_keeps_the_path() {
    let p = HtmlPresenter::from_folder(PathBuf::from("/srv/presenters/hello")).unwrap();
    assert_eq!(p.path, PathBuf::from("/srv/presenters/hello"));
}

#[test]
fn html_slot_loads_any_presenter() {
    let mut slot = HtmlSlot {};
    let p = HtmlPresenter::from_folder(PathBuf::from("x")).unwrap();
    assert!(slot.load(Presenter::HtmlPresenter(p)).is_ok());
}

#[test]
fn positions_compare_by_coordinates() {
    let a = Position { x: 1, y: 2, z: 3 };
    assert_eq!(a, Position { x: 1, y: 2, z: 3 });
    assert_ne!(a, Position { x: 1, y: 2, z: 4 });
    let b = mme::space::Position { x: 0, y: 0, z: 0 };
    let c = mme::widget::Position { x: 5, y: 6, z: 7 };
    assert_eq!(b.x + c.z, 7);
}

#[test]
fn unknown_subcommand_names_the_command() {
    let loc = mme::error::MmeCodeLocation::new("main.rs".to_string(), 40, 9);
    let e = mme::cli::unknown_subcommand("frobnicate", loc);
    assert_eq!(e.code, 0);
    assert!(e.category.is_empty());
    assert_eq!(
        e.messages,
        vec!["The subcommand: frobnicate is not known. use --help to list availavle commands".to_string()]
    );
    assert_eq!(e.code_location.unwrap().line, 40);
}
