use serial_tui::command::CommandList;

#[test]
fn test_add_and_get() {
    let mut list = CommandList::default();
    list.add("AT".into(), "AT\r\n".into());
    assert_eq!(list.len(), 1);
    assert_eq!(list.commands[0].name, "AT");
    assert_eq!(list.commands[0].data, "AT\r\n");
}

#[test]
fn test_remove() {
    let mut list = CommandList::default();
    list.add("CMD1".into(), "data1".into());
    list.add("CMD2".into(), "data2".into());
    let removed = list.remove(0).unwrap();
    assert_eq!(removed.name, "CMD1");
    assert_eq!(list.len(), 1);
    assert_eq!(list.commands[0].name, "CMD2");
}

#[test]
fn test_remove_invalid_index() {
    let mut list = CommandList::default();
    assert!(list.remove(0).is_none());
}

#[test]
fn test_update() {
    let mut list = CommandList::default();
    list.add("CMD1".into(), "old".into());
    assert!(list.update(0, "CMD1_NEW".into(), "new".into()));
    assert_eq!(list.commands[0].name, "CMD1_NEW");
    assert_eq!(list.commands[0].data, "new");
    assert!(!list.update(99, "x".into(), "y".into()));
}

#[test]
fn command_list_starts_empty() {
    let list = CommandList::default();
    assert!(list.is_empty());
    assert_eq!(list.len(), 0);
}

#[test]
fn remove_past_end_keeps_list() {
    let mut list = CommandList::default();
    list.add("A".into(), "a".into());
    assert!(list.remove(1).is_none());
    assert_eq!(list.len(), 1);
    assert!(!list.is_empty());
}

#[test]
fn add_then_remove_last_gives_it_back() {
    let mut list = CommandList::default();
    list.add("A".into(), "a".into());
    list.add("B".into(), "b".into());
    let removed = list.remove(1).unwrap();
    assert_eq!(removed.name, "B");
    assert_eq!(removed.data, "b");
    assert_eq!(list.len(), 1);
    assert_eq!(list.commands[0].name, "A");
}

#[test]
fn storage_path_under_home() {
    assert_eq!(CommandList::storage_path("/home/u"), "/home/u/.config/serial/commands.json");
    assert_eq!(CommandList::storage_dir("/home/u/"), "/home/u/.config/serial");
}
