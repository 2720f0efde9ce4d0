use native_windows_gui::controls::{AnyHandle, ControlType, HandleSpec, Kind};
use native_windows_gui::error::Error;
use native_windows_gui::ui::{Entry, Identifier, Ui};

fn window(n: usize) -> (AnyHandle, Kind) {
    (AnyHandle::HWND(n), Kind::Control(ControlType::Window))
}

fn bitmap(n: usize) -> (AnyHandle, Kind) {
    (AnyHandle::HANDLE(n, HandleSpec::Bitmap), Kind::Resource(HandleSpec::Bitmap))
}

#[test]
fn new_registry_is_empty() {
    let ui = Ui::<u64>::new();
    assert_eq!(ui.len(), 0);
    assert_eq!(ui.handle_of(&1), Err(Error::KeyNotFound));
    assert!(!ui.has_handle(&AnyHandle::HWND(1)));
}

#[test]
fn inserted_identifier_keeps_its_handle() {
    let mut ui = Ui::<u64>::new();
    let (h, k) = window(0x1000);
    assert_eq!(ui.insert(1, h, k), Ok(()));
    assert_eq!(ui.handle_of(&1), Ok(AnyHandle::HWND(0x1000)));
    let (h2, k2) = bitmap(0x2000);
    assert_eq!(ui.insert(2, h2, k2), Ok(()));
    let (h3, k3) = window(0x3000);
    assert_eq!(ui.insert(3, h3, k3), Ok(()));
    assert_eq!(ui.handle_of(&1), Ok(AnyHandle::HWND(0x1000)));
    assert_eq!(ui.remove(&2).map(|e| e.id), Some(2));
    assert_eq!(ui.handle_of(&1), Ok(AnyHandle::HWND(0x1000)));
    assert_eq!(ui.handle_of(&3), Ok(AnyHandle::HWND(0x3000)));
    assert_eq!(ui.len(), 2);
}

#[test]
fn handle_leads_back_to_identifier() {
    let mut ui = Ui::<u64>::new();
    let (h, k) = window(10);
    ui.insert(7, h, k).unwrap();
    let (h2, k2) = bitmap(10);
    ui.insert(8, h2, k2).unwrap();
    let found = ui.handle_of(&8).unwrap();
    assert_eq!(found, AnyHandle::HANDLE(10, HandleSpec::Bitmap));
    assert_eq!(ui.id_from_handle(&found), Ok(8));
    assert_eq!(ui.id_from_handle(&ui.handle_of(&7).unwrap()), Ok(7));
}

#[test]
fn shared_handle_leads_to_first_identifier() {
    let mut ui = Ui::<u64>::new();
    let (h, k) = bitmap(5);
    ui.insert(1, h, k).unwrap();
    ui.insert(2, h, k).unwrap();
    assert_eq!(ui.id_from_handle(&h), Ok(1));
    ui.remove(&1);
    assert_eq!(ui.id_from_handle(&h), Ok(2));
}

#[test]
fn unknown_handle_is_not_found() {
    let mut ui = Ui::<u64>::new();
    let (h, k) = window(10);
    ui.insert(7, h, k).unwrap();
    assert_eq!(ui.id_from_handle(&AnyHandle::HWND(11)), Err(Error::KeyNotFound));
    assert_eq!(
        ui.id_from_handle(&AnyHandle::HANDLE(10, HandleSpec::Bitmap)),
        Err(Error::KeyNotFound)
    );
    assert!(ui.has_handle(&AnyHandle::HWND(10)));
    assert!(!ui.has_handle(&AnyHandle::HWND(11)));
}

#[test]
fn duplicate_identifier_is_refused() {
    let mut ui = Ui::<u64>::new();
    let (h, k) = window(10);
    ui.insert(7, h, k).unwrap();
    let (h2, k2) = bitmap(20);
    assert_eq!(ui.insert(7, h2, k2), Err(Error::DuplicateId));
    assert_eq!(ui.len(), 1);
    assert_eq!(ui.handle_of(&7), Ok(AnyHandle::HWND(10)));
    assert_eq!(ui.kind_of(&7), Ok(Kind::Control(ControlType::Window)));
    assert!(!ui.has_handle(&h2));
}

#[test]
fn kind_that_does_not_fit_is_refused() {
    let mut ui = Ui::<u64>::new();
    assert_eq!(
        ui.insert(1, AnyHandle::HWND(10), Kind::Resource(HandleSpec::Bitmap)),
        Err(Error::BadResource(Some(AnyHandle::HWND(10))))
    );
    assert_eq!(
        ui.insert(1, AnyHandle::HANDLE(10, HandleSpec::Font), Kind::Resource(HandleSpec::Bitmap)),
        Err(Error::BadResource(Some(AnyHandle::HANDLE(10, HandleSpec::Font))))
    );
    assert_eq!(
        ui.insert(1, AnyHandle::HANDLE(10, HandleSpec::Icon), Kind::Control(ControlType::Button)),
        Err(Error::BadResource(Some(AnyHandle::HANDLE(10, HandleSpec::Icon))))
    );
    assert_eq!(ui.len(), 0);
    assert_eq!(
        ui.insert(1, AnyHandle::HANDLE(10, HandleSpec::Font), Kind::Resource(HandleSpec::Font)),
        Ok(())
    );
}

#[test]
fn duplicate_is_reported_before_kind() {
    let mut ui = Ui::<u64>::new();
    let (h, k) = window(10);
    ui.insert(1, h, k).unwrap();
    assert_eq!(
        ui.insert(1, AnyHandle::HWND(10), Kind::Resource(HandleSpec::Bitmap)),
        Err(Error::DuplicateId)
    );
}

#[test]
fn removed_identifier_is_not_found() {
    let mut ui = Ui::<u64>::new();
    let (h, k) = window(10);
    ui.insert(7, h, k).unwrap();
    let gone = ui.remove(&7);
    assert_eq!(gone, Some(Entry { id: 7, handle: h, kind: k }));
    assert_eq!(ui.handle_of(&7), Err(Error::KeyNotFound));
    assert_eq!(ui.kind_of(&7), Err(Error::KeyNotFound));
    assert!(!ui.has_handle(&h));
    assert_eq!(ui.len(), 0);
}

#[test]
fn removing_absent_identifier_changes_nothing() {
    let mut ui = Ui::<u64>::new();
    let (h, k) = window(10);
    ui.insert(7, h, k).unwrap();
    assert_eq!(ui.remove(&8), None);
    assert_eq!(ui.len(), 1);
    assert_eq!(ui.handle_of(&7), Ok(h));
}

#[test]
fn removed_identifier_can_be_inserted_again() {
    let mut ui = Ui::<u64>::new();
    let (h, k) = window(10);
    ui.insert(7, h, k).unwrap();
    ui.remove(&7);
    let (h2, k2) = bitmap(11);
    assert_eq!(ui.insert(7, h2, k2), Ok(()));
    assert_eq!(ui.handle_of(&7), Ok(h2));
}

#[test]
fn handle_numbers() {
    assert_eq!(AnyHandle::HWND(3).raw(), 3);
    assert_eq!(AnyHandle::HANDLE(4, HandleSpec::Icon).raw(), 4);
}

#[test]
fn identifiers_of_other_types() {
    let mut by_letter: Ui<char> = Ui::new();
    by_letter.insert('w', AnyHandle::HWND(1), Kind::Control(ControlType::Window)).unwrap();
    assert_eq!(by_letter.handle_of(&'w'), Ok(AnyHandle::HWND(1)));
    assert_eq!(by_letter.handle_of(&'x'), Err(Error::KeyNotFound));
    assert_eq!(by_letter.id_from_handle(&AnyHandle::HWND(1)), Ok('w'));
    let mut by_number: Ui<i32> = Ui::new();
    by_number.insert(-1, AnyHandle::HWND(1), Kind::Control(ControlType::Button)).unwrap();
    assert_eq!(by_number.insert(-1, AnyHandle::HWND(2), Kind::Control(ControlType::Button)), Err(Error::DuplicateId));
    assert_eq!(by_number.id_from_handle(&AnyHandle::HWND(1)), Ok(-1));
    assert!(7u32.same(&7) && !7usize.same(&8) && 7i64.duplicate() == 7);
}
