use sequisat::selection::StatefulList;

#[test]
fn new_list_selects_first_item() {
    let l = StatefulList::new(vec![10u32, 20, 30]);
    assert_eq!(l.state.selected(), Some(0));
    assert_eq!(l.items, vec![10, 20, 30]);
}

#[test]
fn next_steps_down_and_wraps() {
    let mut l = StatefulList::new(vec!["a", "b", "c"]);
    assert_eq!(*l.next(), "b");
    assert_eq!(l.state.selected(), Some(1));
    assert_eq!(*l.next(), "c");
    assert_eq!(l.state.selected(), Some(2));
    assert_eq!(*l.next(), "a");
    assert_eq!(l.state.selected(), Some(0));
}

#[test]
fn previous_steps_up_and_wraps() {
    let mut l = StatefulList::new(vec!["a", "b", "c"]);
    assert_eq!(*l.previous(), "c");
    assert_eq!(l.state.selected(), Some(2));
    assert_eq!(*l.previous(), "b");
    assert_eq!(l.state.selected(), Some(1));
    assert_eq!(*l.previous(), "a");
    assert_eq!(l.state.selected(), Some(0));
}

#[test]
fn single_item_list_stays_on_it() {
    let mut l = StatefulList::new(vec![7u8]);
    assert_eq!(*l.next(), 7);
    assert_eq!(l.state.selected(), Some(0));
    assert_eq!(*l.previous(), 7);
    assert_eq!(l.state.selected(), Some(0));
}
