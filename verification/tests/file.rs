use caravel::file::{File, FileState};

#[test]
fn new_file_is_present_and_bare() {
    let f = File::new("/tmp/test.txt");
    assert_eq!(f.path, "/tmp/test.txt");
    assert_eq!(f.state, FileState::Present);
    assert_eq!(f.owner, None);
    assert_eq!(f.group, None);
    assert_eq!(f.mode, None);
    assert_eq!(f.source, None);
    assert_eq!(f.content, None);
    assert_eq!(f.force, None);
    assert_eq!(f.backup, None);
}

#[test]
fn builders_chain() {
    let f = File::new("/tmp/test.txt")
        .owner("root")
        .group("wheel")
        .mode("0644")
        .content("Hello, World!");
    assert_eq!(f.path, "/tmp/test.txt");
    assert_eq!(f.state, FileState::Present);
    assert_eq!(f.owner, Some("root".to_string()));
    assert_eq!(f.group, Some("wheel".to_string()));
    assert_eq!(f.mode, Some("0644".to_string()));
    assert_eq!(f.content, Some("Hello, World!".to_string()));
    assert_eq!(f.source, None);
    assert_eq!(f.force, None);
    assert_eq!(f.backup, None);
}

#[test]
fn each_builder_sets_its_field() {
    let f = File::new("a").state(FileState::Absent);
    assert_eq!(f.state, FileState::Absent);
    assert_eq!(f.path, "a");
    let f = f.source("/srv/a").force(true).backup(".bak");
    assert_eq!(f.source, Some("/srv/a".to_string()));
    assert_eq!(f.force, Some(true));
    assert_eq!(f.backup, Some(".bak".to_string()));
    assert_eq!(f.state, FileState::Absent);
    let f = f.force(false).owner("a").owner("b").state(FileState::Present);
    assert_eq!(f.force, Some(false));
    assert_eq!(f.owner, Some("b".to_string()));
    assert_eq!(f.state, FileState::Present);
    assert_eq!(f.source, Some("/srv/a".to_string()));
}
