use lessons::books::Book;
use lessons::records::{Employee, Employee_Records};

#[test]
fn employee_records_hand_out_names_in_order() {
    let emp_1 = Employee { name: String::from("John"), salary: 40000 };
    let emp_2 = Employee { name: String::from("Joseph"), salary: 30000 };
    let emp_3 = Employee { name: String::from("Jack"), salary: 25000 };

    let mut emp_recs = Employee_Records { employee_db: vec![emp_1, emp_2, emp_3] };

    assert_eq!(emp_recs.next(), Some(String::from("John")));
    assert_eq!(emp_recs.next(), Some(String::from("Joseph")));
    assert_eq!(emp_recs.next(), Some(String::from("Jack")));
    assert_eq!(emp_recs.next(), None);
}

#[test]
fn book_iterates_over_its_fields() {
    let book = Book {
        title: "Digital Image Processing".to_string(),
        author: "Gonzales".to_string(),
        genre: "Science Book".to_string(),
    };

    let mut book_iterator = book.into_iter();
    assert_eq!(book_iterator.next(), Some("Digital Image Processing".to_string()));
    assert_eq!(book_iterator.next(), Some("Gonzales".to_string()));
    assert_eq!(book_iterator.next(), Some("Science Book".to_string()));
    assert_eq!(book_iterator.next(), None);
}
