use font_kit::family_handle::FamilyHandle;
use font_kit::handle::{same_bytes, Handle};
use std::sync::Arc;

#[test]
fn new_family_is_empty() {
    let family = FamilyHandle::new();
    assert!(family.is_empty());
    assert_eq!(family.fonts().len(), 0);
}

#[test]
fn push_keeps_the_order_of_insertion() {
    let mut family = FamilyHandle::new();
    family.push(Handle::from_path("regular.ttf".to_string(), 0));
    family.push(Handle::from_path("bold.ttf".to_string(), 0));
    family.push(Handle::from_memory(Arc::new(vec![1, 2, 3]), 2));
    assert!(!family.is_empty());
    let fonts = family.fonts();
    assert_eq!(fonts.len(), 3);
    assert!(fonts[0] == Handle::from_path("regular.ttf".to_string(), 0));
    assert!(fonts[1] == Handle::from_path("bold.ttf".to_string(), 0));
    assert!(fonts[2] == Handle::from_memory(Arc::new(vec![1, 2, 3]), 2));
    assert_eq!(family.fonts.len(), 3);
}

#[test]
fn from_font_handles_keeps_the_handles_and_their_order() {
    let handles =
        vec![Handle::from_path("a.otf".to_string(), 1), Handle::from_path("b.otf".to_string(), 0)];
    let family = FamilyHandle::from_font_handles(handles.into_iter().collect::<Vec<Handle>>());
    assert_eq!(family.fonts().len(), 2);
    assert!(family.fonts()[0] == Handle::from_path("a.otf".to_string(), 1));
    assert!(family.fonts()[1] == Handle::from_path("b.otf".to_string(), 0));
    assert!(FamilyHandle::from_font_handles(Vec::new()).is_empty());
}

#[test]
fn handles_are_equal_by_value() {
    let path = Handle::from_path("fonts/timR12.pcf".to_string(), 0);
    assert!(path == Handle::from_path("fonts/timR12.pcf".to_string(), 0));
    assert!(path != Handle::from_path("fonts/timR12.pcf".to_string(), 1));
    assert!(path != Handle::from_path("fonts/timB12.pcf".to_string(), 0));

    let bytes = Arc::new(vec![0u8, 1, 0, 0, 7]);
    let memory = Handle::from_memory(bytes.clone(), 3);
    assert!(memory == Handle::from_memory(bytes.clone(), 3));
    assert!(memory == Handle::from_memory(Arc::new(vec![0u8, 1, 0, 0, 7]), 3));
    assert!(memory != Handle::from_memory(bytes.clone(), 4));
    assert!(memory != Handle::from_memory(Arc::new(vec![0u8, 1, 0, 0, 8]), 3));
    assert!(memory != Handle::from_memory(Arc::new(vec![0u8, 1, 0, 0]), 3));
    assert!(memory != path);
    assert!(Handle::from_memory(Arc::new(Vec::new()), 0) != Handle::from_path(String::new(), 0));
}

#[test]
fn handle_knows_its_font_index() {
    assert_eq!(Handle::from_path("x.ttc".to_string(), 5).font_index(), 5);
    assert_eq!(Handle::from_memory(Arc::new(Vec::new()), 9).font_index(), 9);
}

#[test]
fn cloned_handle_shares_its_bytes() {
    let bytes = Arc::new(vec![9u8, 8, 7]);
    let handle = Handle::from_memory(bytes.clone(), 1);
    let clone = handle.clone();
    assert!(clone == handle);
    match clone {
        Handle::Memory { bytes: cloned, font_index } => {
            assert!(Arc::ptr_eq(&cloned, &bytes));
            assert_eq!(font_index, 1);
        }
        Handle::Path { .. } => panic!("a handle to bytes was cloned into one to a file"),
    }
    let path = Handle::from_path("a.ttf".to_string(), 0);
    assert!(path.clone() == path);
}

#[test]
fn same_bytes_compares_contents() {
    assert!(same_bytes(&vec![], &vec![]));
    assert!(same_bytes(&vec![1, 2, 3], &vec![1, 2, 3]));
    assert!(!same_bytes(&vec![1, 2, 3], &vec![1, 2, 4]));
    assert!(!same_bytes(&vec![1, 2, 3], &vec![1, 2]));
    assert!(!same_bytes(&vec![], &vec![0]));
}
