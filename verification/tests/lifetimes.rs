use lessons::lifetimes::{picking_int, return_str, return_str_2, ArrayProcessor};

#[test]
fn picking_int_returns_the_static_six() {
    let i = 5;
    let picked_value;
    {
        let j = 10;
        picked_value = picking_int(&i, &j);
    }
    assert_eq!(*picked_value, 6);
}

#[test]
fn return_str_is_identity() {
    let str_1 = "some str";
    assert_eq!(return_str(str_1), "some str");
    assert_eq!(return_str_2(str_1), "some str");
}

#[test]
fn update_data_returns_previous_slice() {
    let mut some_data = ArrayProcessor { data: &[4, 5, 6] };

    let previous_data = some_data.update_data(&[1, 2, 3]);
    assert_eq!(previous_data.to_vec(), vec![4, 5, 6]);
    assert_eq!(some_data.data.to_vec(), vec![1, 2, 3]);
}
