use lessons::doubly_linked::DoublyLinkList;
use lessons::singly_linked::LinkList;

#[test]
fn singly_linked_list_stacks_at_the_head() {
    let mut list = LinkList::new();

    list.add(1);
    list.add(2);
    list.add(3);
    assert_eq!(list.elements(), vec![3, 2, 1]);

    assert_eq!(list.remove().unwrap(), 3);
    assert_eq!(list.elements(), vec![2, 1]);
}

#[test]
fn singly_linked_list_empty_remove() {
    let mut list = LinkList::new();
    assert_eq!(list.remove(), None);
    assert_eq!(list.elements(), Vec::<i32>::new());
}

#[test]
fn doubly_linked_list_adds_and_removes_at_the_head() {
    let mut doubly_link_list = DoublyLinkList::new();
    assert_eq!(doubly_link_list.elements(), Vec::<i32>::new());

    doubly_link_list.add(5);
    doubly_link_list.add(14);
    doubly_link_list.add(2);
    doubly_link_list.add(9);
    assert_eq!(doubly_link_list.elements(), vec![9, 2, 14, 5]);

    assert_eq!(doubly_link_list.remove(), Some(9));
    assert_eq!(doubly_link_list.elements(), vec![2, 14, 5]);
}

#[test]
fn doubly_linked_list_drains_to_empty() {
    let mut list = DoublyLinkList::new();
    list.add(42);
    assert_eq!(list.remove(), Some(42));
    assert_eq!(list.remove(), None);
    assert_eq!(list.elements(), Vec::<i32>::new());
}
