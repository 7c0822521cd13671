use rust_101::part01::{
    abs, compute_stuff, describe_vec, read_vec, sqr, vec_min, vec_sum, NumberOrNothing,
};

#[test]
fn vec_min_of_the_example_is_two() {
    assert_eq!(vec_min(vec![18, 5, 7, 2, 9, 27]), NumberOrNothing::Number(2));
    assert_eq!(vec_min(read_vec()), NumberOrNothing::Number(2));
}

#[test]
fn vec_min_of_the_empty_vector_is_nothing() {
    assert_eq!(vec_min(vec![]), NumberOrNothing::Nothing);
    assert_ne!(vec_min(vec![0]), NumberOrNothing::Nothing);
}

#[test]
fn vec_min_agrees_with_the_first_of_the_sorted_vector() {
    let vectors = [
        vec![4, 8, 9, 3, 2, 4],
        vec![-3, -7, 0, 12, -7, 5],
        vec![i32::MAX, 0, i32::MIN, 1],
        vec![7, 7, 7],
        vec![3, 2, 1],
    ];
    for v in vectors {
        let mut sorted = v.clone();
        sorted.sort();
        assert_eq!(vec_min(v), NumberOrNothing::Number(sorted[0]));
    }
}

#[test]
fn vec_min_does_not_depend_on_the_order() {
    assert_eq!(vec_min(vec![18, 5, 7, 2, 9, 27]), vec_min(vec![27, 9, 2, 7, 5, 18]));
    assert_eq!(vec_min(vec![2, 5, 7, 9, 18, 27]), vec_min(vec![5, 18, 27, 9, 7, 2]));
    assert_eq!(vec_min(vec![1, 1, 0]), vec_min(vec![0, 1, 1]));
}

#[test]
fn vec_min_of_one_element_is_that_element() {
    for x in [0, 5, -5, i32::MIN, i32::MAX] {
        assert_eq!(vec_min(vec![x]), NumberOrNothing::Number(x));
    }
}

#[test]
fn read_vec_gives_the_example() {
    assert_eq!(read_vec(), vec![18, 5, 7, 2, 9, 27]);
}

#[test]
fn number_or_default_unwraps_or_falls_back() {
    assert_eq!(NumberOrNothing::number_or_default(NumberOrNothing::Nothing, 7), 7);
    assert_eq!(NumberOrNothing::number_or_default(NumberOrNothing::Nothing, i32::MIN), i32::MIN);
    assert_eq!(NumberOrNothing::number_or_default(NumberOrNothing::Number(3), 7), 3);
    assert_eq!(NumberOrNothing::number_or_default(NumberOrNothing::Number(3), 3), 3);
    assert_eq!(NumberOrNothing::number_or_default(NumberOrNothing::Number(-1), 0), -1);
    assert_eq!(NumberOrNothing::number_or_default(vec_min(vec![]), 11), 11);
    assert_eq!(NumberOrNothing::number_or_default(vec_min(read_vec()), 11), 2);
}

#[test]
fn describe_shows_a_number_or_nothing() {
    assert_eq!(NumberOrNothing::Nothing.describe(), "The number is: <nothing>");
    assert_eq!(NumberOrNothing::Number(2).describe(), "This is the number: 2");
    assert_eq!(NumberOrNothing::Number(-40).describe(), "This is the number: -40");
    assert_eq!(vec_min(read_vec()).describe(), "This is the number: 2");
}

#[test]
fn vec_sum_of_the_example_is_sixty_eight() {
    assert_eq!(vec_sum(vec![18, 5, 7, 2, 9, 27]), 68);
    assert_eq!(vec_sum(read_vec()), 68i128);
}

#[test]
fn vec_sum_of_the_empty_vector_is_zero() {
    assert_eq!(vec_sum(vec![]), 0);
}

#[test]
fn vec_sum_goes_beyond_i32() {
    assert_eq!(vec_sum(vec![i32::MAX, i32::MAX, i32::MAX]), 6442450941);
    assert_eq!(vec_sum(vec![i32::MIN, i32::MIN]), -4294967296);
    assert_eq!(vec_sum(vec![i32::MIN, i32::MAX]), -1);
    assert_eq!(vec_sum(vec![-5, 5, -6]), -6);
    assert_eq!(vec_sum(vec![9]), 9);
}

#[test]
fn describe_vec_lists_the_elements() {
    assert_eq!(describe_vec(read_vec()), "The vector contains: 18 5 7 2 9 27 ");
    assert_eq!(describe_vec(vec![]), "The vector contains: ");
    assert_eq!(describe_vec(vec![-1]), "The vector contains: -1 ");
    assert_eq!(describe_vec(vec![0, i32::MIN]), "The vector contains: 0 -2147483648 ");
}

#[test]
fn sqr_multiplies_by_itself() {
    assert_eq!(sqr(0), 0);
    assert_eq!(sqr(3), 9);
    assert_eq!(sqr(-4), 16);
    assert_eq!(sqr(46340), 2147395600);
    assert_eq!(sqr(-46340), 2147395600);
}

#[test]
fn abs_drops_the_sign() {
    assert_eq!(abs(0), 0);
    assert_eq!(abs(5), 5);
    assert_eq!(abs(-5), 5);
    assert_eq!(abs(i32::MAX), i32::MAX);
    assert_eq!(abs(i32::MIN + 1), i32::MAX);
}

#[test]
fn compute_stuff_squares_twice() {
    assert_eq!(compute_stuff(0), 196);
    assert_eq!(compute_stuff(1), 225);
    assert_eq!(compute_stuff(3), 529);
    assert_eq!(compute_stuff(-3), 529);
    assert_eq!(compute_stuff(215), 2138045121);
    assert_eq!(compute_stuff(-215), 2138045121);
}
