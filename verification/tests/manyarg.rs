use metafactory::error::FactoryErrorKind;
use metafactory::from_closure::FromClosure;
use metafactory::{AnyFactory, AsFactoryExt, FromClone, MetaFactory, ToMetaFactory};
use typedef::TypeDef;

fn create<A, T, S: ToMetaFactory<FromClosure<A, T>>>(source: S, args: Vec<AnyFactory>) -> AnyFactory {
    source.to_metafactory().new(args).ok().unwrap()
}

fn maybe_create<A, T, S: ToMetaFactory<FromClosure<A, T>>>(
    source: S,
    args: Vec<AnyFactory>,
) -> Result<AnyFactory, FactoryErrorKind> {
    source.to_metafactory().new(args)
}

fn arg<S: ToMetaFactory<FromClone>>(source: S) -> AnyFactory {
    source.to_metafactory().new(Vec::new()).ok().unwrap()
}

#[test]
fn should_work_with_1_arg_closure() {
    assert_eq!(
        create(|ok: bool| if ok { 5isize } else { 6isize }, vec![arg(false)])
            .as_factory_of::<isize>()
            .unwrap()
            .take(),
        6isize
    );
}

#[test]
fn should_work_with_2_arg_closure() {
    assert_eq!(
        create(|a: u8, b: u8| (a + b) as usize, vec![arg(13u8), arg(12u8)])
            .as_factory_of::<usize>()
            .unwrap()
            .take(),
        13usize + 12usize
    );
}

#[test]
fn should_return_arg_count_mismatch_for_3_arg_closure_with_2_args() {
    match maybe_create(|a: i8, b: i8, c: i8| a + b + c, vec![arg(1i8), arg(1i8)]) {
        Err(FactoryErrorKind::ArgCountMismatch(e)) => {
            assert_eq!(e.expected, 3);
            assert_eq!(e.specified, 2);
        }
        _ => panic!("Expected ArgCountMismatch error!"),
    }
}

#[test]
fn should_return_arg_type_mismatch_for_bad_arg_0() {
    match maybe_create(
        |a: i8, b: i8, c: i8| a + b + c,
        vec![arg(true), arg(1i8), arg(1i8)],
    ) {
        Err(FactoryErrorKind::ArgTypeMismatch(e)) => {
            assert_eq!(e.expected_type, TypeDef::of::<i8>());
            assert_eq!(e.argument_index, 0);
        }
        _ => panic!("Expected ArgTypeMismatch error!"),
    }
}

#[test]
fn should_return_arg_type_mismatch_for_bad_arg_1() {
    match maybe_create(
        |a: i8, b: i8, c: i8| a + b + c,
        vec![arg(1i8), arg("hello :)"), arg(1i8)],
    ) {
        Err(FactoryErrorKind::ArgTypeMismatch(e)) => {
            assert_eq!(e.expected_type, TypeDef::of::<i8>());
            assert_eq!(e.argument_index, 1);
        }
        _ => panic!("Expected ArgTypeMismatch error!"),
    }
}

#[test]
fn should_return_arg_type_mismatch_for_bad_arg_2() {
    match maybe_create(
        |a: i8, b: i8, c: i8| a + b + c,
        vec![arg(1i8), arg(1i8), arg(Box::new(23u64))],
    ) {
        Err(FactoryErrorKind::ArgTypeMismatch(e)) => {
            assert_eq!(e.expected_type, TypeDef::of::<i8>());
            assert_eq!(e.argument_index, 2);
        }
        _ => panic!("Expected ArgTypeMismatch error!"),
    }
}

#[test]
fn should_return_arg_type_mismatch_for_bad_arg_1_and_2() {
    match maybe_create(
        |a: i8, b: i8, c: i8| a + b + c,
        vec![arg(1i8), arg(false), arg(Box::new(23u64))],
    ) {
        Err(FactoryErrorKind::ArgTypeMismatch(e)) => {
            assert_eq!(e.expected_type, TypeDef::of::<i8>());
            assert_eq!(e.argument_index, 1);
        }
        _ => panic!("Expected ArgTypeMismatch error!"),
    }
}

#[test]
fn should_work_with_12_arg_closure() {
    assert_eq!(
        create(
            |a1: i16,
             a2: i16,
             a3: i16,
             a4: i16,
             a5: i16,
             a6: i16,
             a7: i16,
             a8: i16,
             a9: i16,
             a10: i16,
             a11: i16,
             a12: i16| { a1 + a2 + a3 + a4 + a5 + a6 + a7 + a8 + a9 + a10 + a11 + a12 },
            vec![
                arg(3i16),
                arg(3i16),
                arg(3i16),
                arg(3i16),
                arg(3i16),
                arg(3i16),
                arg(3i16),
                arg(3i16),
                arg(3i16),
                arg(3i16),
                arg(3i16),
                arg(3i16)
            ]
        )
        .as_factory_of::<i16>()
        .unwrap()
        .take(),
        3i16 * 12
    );
}
