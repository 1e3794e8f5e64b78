use scheduled_tasks::PersonMention;

fn mention(id: i32, recipient_id: i32, comment_id: i32, read: bool) -> PersonMention {
    PersonMention { id, recipient_id, comment_id, read, published: 1000 + id as i64 }
}

#[test]
fn mark_all_as_read_changes_only_unread_of_recipient() {
    let mut table = vec![mention(1, 7, 100, false), mention(2, 8, 100, false), mention(3, 7, 101, true), mention(4, 7, 102, false)];
    let changed = PersonMention::mark_all_as_read(&mut table, 7);
    assert_eq!(changed, vec![mention(1, 7, 100, true), mention(4, 7, 102, true)]);
    assert_eq!(
        table,
        vec![mention(1, 7, 100, true), mention(2, 8, 100, false), mention(3, 7, 101, true), mention(4, 7, 102, true)]
    );
    assert!(PersonMention::mark_all_as_read(&mut table, 7).is_empty());
}

#[test]
fn read_by_comment_and_person_finds_first_match() {
    let table = vec![mention(1, 7, 100, false), mention(2, 8, 101, false), mention(3, 8, 101, true)];
    assert_eq!(PersonMention::read_by_comment_and_person(&table, 101, 8), Some(mention(2, 8, 101, false)));
    assert_eq!(PersonMention::read_by_comment_and_person(&table, 100, 8), None);
    assert_eq!(PersonMention::read_by_comment_and_person(&Vec::new(), 100, 7), None);
}
