use storm_services::functional::{
    partial, partial_first_of_three, partial_first_two_of_three, partial_right,
    partial_right_last_of_three, partial_right_last_two_of_three,
};

fn add(a: i32, b: i32) -> i32 {
    a + b
}

fn format_name(first: String, last: String, suffix: String) -> String {
    format!("{} {}{}", first, last, suffix)
}

fn subtract(a: i32, b: i32) -> i32 {
    a - b
}

#[test]
fn left_partial_single_remaining_arg() {
    let add_10 = partial(add, 10);

    assert_eq!(add_10(5), 15);
}

#[test]
fn right_partial_single_remaining_arg() {
    let plus_10 = partial_right(add, 10);

    assert_eq!(plus_10(5), 15);
}

#[test]
fn left_partial_multi_remaining_args() {
    let with_first_name = partial_first_of_three(format_name, String::from("Ada"));

    assert_eq!(
        with_first_name(String::from("Lovelace"), String::from("!")),
        String::from("Ada Lovelace!")
    );
}

#[test]
fn left_partial_multi_initial_args() {
    let with_first_name =
        partial_first_two_of_three(format_name, String::from("Ada"), String::from("Lovelace"));

    assert_eq!(with_first_name(String::from("!")), String::from("Ada Lovelace!"));
}

#[test]
fn right_partial_multi_remaining_args() {
    let with_suffix = partial_right_last_of_three(format_name, String::from("!"));

    assert_eq!(
        with_suffix(String::from("Ada"), String::from("Lovelace")),
        String::from("Ada Lovelace!")
    );
}

#[test]
fn lib_left_partial_single_remaining_arg() {
    let add_10 = partial(add, 10);

    assert_eq!(add_10(5), 15);
}

#[test]
fn lib_right_partial_single_remaining_arg() {
    let plus_10 = partial_right(add, 10);

    assert_eq!(plus_10(5), 15);
}

#[test]
fn lib_left_partial_multi_remaining_args() {
    let with_first_name = partial_first_of_three(format_name, String::from("Ada"));

    assert_eq!(
        with_first_name(String::from("Lovelace"), String::from("!")),
        String::from("Ada Lovelace!")
    );
}

#[test]
fn lib_left_partial_multi_initial_args() {
    let with_first_name =
        partial_first_two_of_three(format_name, String::from("Ada"), String::from("Lovelace"));

    assert_eq!(with_first_name(String::from("!")), String::from("Ada Lovelace!"));
}

#[test]
fn lib_right_partial_multi_remaining_args() {
    let with_suffix = partial_right_last_of_three(format_name, String::from("!"));

    assert_eq!(
        with_suffix(String::from("Ada"), String::from("Lovelace")),
        String::from("Ada Lovelace!")
    );
}

#[test]
fn partial_binds_the_left_side_and_partial_right_the_right_side() {
    let ten_minus = partial(subtract, 10);
    let minus_ten = partial_right(subtract, 10);
    assert_eq!(ten_minus(3), 7);
    assert_eq!(minus_ten(3), -7);
}

#[test]
fn partial_closure_can_be_called_repeatedly() {
    let greet = partial_first_of_three(format_name, String::from("Grace"));
    assert_eq!(greet(String::from("Hopper"), String::from(".")), "Grace Hopper.");
    assert_eq!(greet(String::from("Kelly"), String::from("?")), "Grace Kelly?");
}

#[test]
fn partial_right_can_bind_the_last_two_of_three() {
    let lovelace = partial_right_last_two_of_three(
        format_name,
        String::from("Lovelace"),
        String::from("!"),
    );
    assert_eq!(lovelace(String::from("Ada")), "Ada Lovelace!");
}
