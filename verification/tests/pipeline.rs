use tuppipe::also::{also, also_mut};
use tuppipe::on::{on0_1, on1_0, on2_1};
use tuppipe::take_if::take_if;
use tuppipe::void::{void, Exclusive, Owned, Shared, Voidable};
use tuppipe::{ignore, pipe, Pipe, PipeMut};

fn add_one(to: i32) -> i32 {
    to + 1
}

#[test]
fn test() {
    let one = also_mut((void::<i32, Exclusive>::new(), |_it: ()| ())).complete(1i32);

    assert_eq!(one, 1);
}

#[test]
fn lib_it_works() {
    assert_eq!(2, pipe(0).shr((add_one, add_one)));
}

#[test]
fn a_closure_works_as_a_pipe() {
    assert_eq!(1, pipe(0).shr(|x| x + 1));
}

#[test]
fn tuples_of_pipes_can_be_infinitely_nested() {
    assert_eq!(
        6,
        pipe(0).shr((add_one, add_one, (add_one, add_one, (add_one, add_one))))
    );
}

#[test]
fn custom_pipe_implementation() {
    struct Subtractor(i32);

    impl Pipe<i32> for Subtractor {
        type Output = i32;

        fn complete(self, value: i32) -> Self::Output {
            value - self.0
        }
    }

    assert_eq!(-2, pipe(0).shr(Subtractor(2)));
}

#[test]
fn desugared_method() {
    struct Int32(i32);

    impl Int32 {
        fn add_one(self) -> Self {
            Self(self.0 + 1)
        }
    }

    assert_eq!(1i32, pipe(Int32(0)).shr((Int32::add_one, |Int32(n)| n)));
}

#[test]
fn ignore_pipeline_result() {
    assert_eq!((), pipe(0).ignore().shr(|x: i32| x + 1));
}

#[test]
fn take_if_it_works() {
    let it = take_if((void::<(), Shared>::new(), |_x: ()| false)).complete(());

    assert_eq!(it, None);
}

#[test]
fn void_it_works() {
    let _it: () = pipe(1).shr(
        Voidable::void(Voidable::void((
            void::<i32, Owned>::new(),
            void::<(), Owned>::new(),
        ))),
    );
}

#[test]
fn single_step_equals_direct_call() {
    assert_eq!(add_one(41), pipe(41).shr(add_one));
}

#[test]
fn chains_are_associative() {
    let double = |x: i32| x * 2;
    let minus_three = |x: i32| x - 3;
    assert_eq!(-1, pipe(0).shr((add_one, double, minus_three)));
    assert_eq!(-1, pipe(0).shr((add_one, (double, minus_three))));
    assert_eq!(-1, pipe(0).shr(((add_one, double), minus_three)));
}

#[test]
fn also_returns_the_value_unchanged() {
    assert_eq!(5, pipe(5).shr(also(|_x: &i32| ())));
}

#[test]
fn also_mut_returns_what_the_effect_left() {
    struct Bump;

    impl PipeMut<i32> for Bump {
        type Output = ();

        fn complete_mut(self, value: &mut i32) -> Self::Output {
            *value += 1;
        }
    }

    assert_eq!(2, pipe(1).shr(also_mut(Bump)));
}

#[test]
fn take_if_keeps_when_the_predicate_holds() {
    assert_eq!(Some(5), pipe(5).shr(take_if(|x: &i32| *x > 0)));
    assert_eq!(None, pipe(-5).shr(take_if(|x: &i32| *x > 0)));
}

#[test]
fn void_forces_the_output_to_unit() {
    assert_eq!((), pipe(3).shr(Voidable::void(add_one)));
}

#[test]
fn on_splices_the_value_into_the_designated_position() {
    fn weigh(a: i32, b: i32, v: i32, c: i32) -> i32 {
        a * 1000 + b * 100 + v * 10 + c
    }

    assert_eq!(weigh(1, 2, 7, 3), pipe(7).shr(on2_1(weigh, 1, 2, 3)));
    assert_eq!(1273, pipe(7).shr(on2_1(weigh, 1, 2, 3)));
}

#[test]
fn on_with_only_leading_or_trailing_arguments() {
    fn subtract(a: i32, b: i32) -> i32 {
        a - b
    }

    assert_eq!(8, pipe(2).shr(on1_0(subtract, 10)));
    assert_eq!(-8, pipe(2).shr(on0_1(subtract, 10)));
}

#[test]
fn ignore_function_discards_the_result() {
    assert_eq!((), ignore(0).shr(|x: i32| x + 1));
}
