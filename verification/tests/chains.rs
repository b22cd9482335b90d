use metafactory::error::{ArgCountMismatch, ArgTypeMismatch, FactoryErrorKind};
use metafactory::identity::Reflect;
use metafactory::{
    argless_as_factory, metafactory, AnyFactory, AsFactoryExt, Factory, FromClone, MetaFactory,
};
use typedef::TypeDef;

fn value<T: Clone + Reflect>(v: T) -> AnyFactory {
    argless_as_factory::<FromClone, T>(v)
}

#[test]
fn sum_of_two_cloneable_values() {
    let meta_sum = metafactory(|a: isize, b: isize| a + b);

    let sum_factory = meta_sum
        .new(vec![argless_as_factory(5isize), argless_as_factory(6isize)])
        .ok()
        .unwrap();

    let getter = sum_factory.as_factory_of::<isize>().unwrap();

    assert_eq!(getter.take(), 11);
}

#[test]
fn factory_of_a_factory() {
    let meta_sum = metafactory(|a: isize, b: isize| a + b);
    let meta_foo = metafactory(|sum: isize| (sum, sum > 10));

    let foo_factory = meta_foo
        .new(vec![meta_sum
            .new(vec![argless_as_factory(5isize), argless_as_factory(6isize)])
            .ok()
            .unwrap()])
        .ok()
        .unwrap();

    let getter = foo_factory.as_factory_of::<(isize, bool)>().unwrap();

    assert_eq!(getter.take(), (11, true));
}

#[test]
fn metafactories_of_mixed_sources() {
    let meta_arg1 = metafactory(5isize);
    let meta_arg2 = metafactory(|| 14i32);
    let meta_adder = metafactory(|a1: isize, a2: i32| a1 + a2 as isize);

    assert!(meta_arg1.get_type().is::<isize>());
    assert!(meta_arg2.get_type().is::<i32>());
    assert!(meta_adder.get_type().is::<isize>());
    assert_eq!(
        meta_adder.get_arg_types(),
        vec![TypeDef::of::<isize>(), TypeDef::of::<i32>()]
    );

    let boxany = meta_adder
        .new(vec![
            meta_arg1.new(Vec::new()).ok().unwrap(),
            meta_arg2.new(Vec::new()).ok().unwrap(),
        ])
        .ok()
        .unwrap();

    let factory = boxany.as_factory_of::<isize>().unwrap();
    assert_eq!(19, factory.take());

    let factory2 = factory.clone();
    assert_eq!(factory.take(), factory2.take());
}

#[test]
fn three_arguments_of_three_types() {
    let meta_factory = metafactory(
        |a: isize, b: bool, c: &'static str| format!("invoked with {}, {}, {}", a, b, c),
    );
    let factory = meta_factory
        .new(vec![value(3isize), value(false), value("hello")])
        .ok()
        .unwrap()
        .as_factory_of::<String>()
        .unwrap();
    assert_eq!("invoked with 3, false, hello", factory.take());
}

#[test]
fn arguments_are_handed_over_in_their_order() {
    let meta = metafactory(
        |a: u32, b: u32, c: u32, d: u32| ((a * 10 + b) * 10 + c) * 10 + d,
    );
    let unit = meta
        .new(vec![value(1u32), value(2u32), value(3u32), value(4u32)])
        .ok()
        .unwrap()
        .as_factory_of::<u32>()
        .unwrap();
    assert_eq!(unit.take(), 1234);
}

#[test]
fn every_count_but_the_right_one_is_a_count_mismatch() {
    let meta = metafactory(|a: u8, b: u8| a as u16 + b as u16);
    for k in 0..6usize {
        let mut args: Vec<AnyFactory> = Vec::new();
        for _ in 0..k {
            args.push(value(1u8));
        }
        match meta.new(args) {
            Ok(unit) => {
                assert_eq!(k, 2);
                assert_eq!(unit.as_factory_of::<u16>().unwrap().take(), 2);
            }
            Err(FactoryErrorKind::ArgCountMismatch(e)) => {
                assert!(k != 2);
                assert_eq!(e.expected, 2);
                assert_eq!(e.specified, k);
            }
            Err(FactoryErrorKind::ArgTypeMismatch(_)) => panic!("Expected ArgCountMismatch error!"),
        }
    }
}

#[test]
fn count_is_held_before_any_type() {
    let meta = metafactory(|a: u8, b: u8| a as u16 + b as u16);
    match meta.new(vec![value(true), value("x"), value(1u64)]) {
        Err(FactoryErrorKind::ArgCountMismatch(e)) => {
            assert_eq!(e.expected, 2);
            assert_eq!(e.specified, 3);
        }
        _ => panic!("Expected ArgCountMismatch error!"),
    }
}

#[test]
fn one_wrong_unit_is_reported_at_its_position() {
    for wrong in 0..5usize {
        let meta = metafactory(
            |a: u8, b: u16, c: u32, d: u64, e: i8| a as u64 + b as u64 + c as u64 + d + e as u64,
        );
        let expected_types = meta.get_arg_types();
        let mut args = vec![value(1u8), value(1u16), value(1u32), value(1u64), value(1i8)];
        args[wrong] = value("wrong");
        match meta.new(args) {
            Err(FactoryErrorKind::ArgTypeMismatch(e)) => {
                assert_eq!(e.argument_index, wrong);
                assert_eq!(e.expected_type, expected_types[wrong]);
            }
            _ => panic!("Expected ArgTypeMismatch error!"),
        }
    }
}

#[test]
fn downcast_to_another_type_yields_none() {
    let unit = value(24isize);
    assert!(unit.as_factory_clone_of::<usize>().is_none());
    assert!(unit.as_factory_clone_of::<Vec<isize>>().is_none());
    assert!(unit.as_factory_clone_of::<Option<isize>>().is_none());
    assert_eq!(unit.as_factory_clone_of::<isize>().unwrap().take(), 24);
    assert!(unit.as_factory_of::<String>().is_none());
}

#[test]
fn built_unit_downcasts_to_the_result_type_only() {
    let meta = metafactory(|a: u8| a as u64);
    let unit = meta.new(vec![value(7u8)]).ok().unwrap();
    assert!(unit.as_factory_clone_of::<u8>().is_none());
    assert_eq!(unit.as_factory_clone_of::<u64>().unwrap().take(), 7u64);
    assert_eq!(unit.as_factory_of::<u64>().unwrap().get(), 7u64);
}

#[test]
fn factory_from_any_gives_the_factory_back() {
    let unit = value(9u16);
    let factory = Factory::<u16>::from_any(unit).unwrap();
    assert_eq!(factory.take(), 9);
    assert!(Factory::<u32>::from_any(value(9u16)).is_none());
}

#[test]
fn clone_of_a_unit_produces_what_the_unit_produces() {
    let meta = metafactory(|a: String, b: usize| a.repeat(b));
    let unit = meta
        .new(vec![value("ab".to_string()), value(3usize)])
        .ok()
        .unwrap()
        .as_factory_of::<String>()
        .unwrap();
    let copy = unit.clone();
    assert_eq!(unit.take(), "ababab");
    assert_eq!(copy.take(), "ababab");
    assert_eq!(copy.clone().take(), unit.take());
}

#[test]
fn argument_units_are_invoked_at_every_call() {
    let calls = std::rc::Rc::new(std::cell::Cell::new(0u32));
    let seen = calls.clone();
    let counting = metafactory(move || {
        seen.set(seen.get() + 1);
        seen.get()
    });
    let doubled = metafactory(|n: u32| n * 2);
    let unit = doubled
        .new(vec![counting.new(Vec::new()).ok().unwrap()])
        .ok()
        .unwrap()
        .as_factory_of::<u32>()
        .unwrap();
    assert_eq!(unit.take(), 2);
    assert_eq!(unit.take(), 4);
    assert_eq!(unit.clone().take(), 6);
    assert_eq!(calls.get(), 3);
}

#[test]
fn error_records_hold_what_they_were_made_of() {
    let count = ArgCountMismatch::new(3, 2);
    assert_eq!(count.expected, 3);
    assert_eq!(count.specified, 2);
    let kind = ArgTypeMismatch::new(TypeDef::of::<i8>(), 4);
    assert_eq!(kind.expected_type, TypeDef::of::<i8>());
    assert_eq!(kind.argument_index, 4);
    let copy = kind;
    assert_eq!(copy.argument_index, kind.argument_index);
    match FactoryErrorKind::ArgTypeMismatch(kind) {
        FactoryErrorKind::ArgTypeMismatch(e) => assert!(e.expected_type.is::<i8>()),
        FactoryErrorKind::ArgCountMismatch(_) => panic!("Expected ArgTypeMismatch error!"),
    }
}

#[test]
fn metafactories_of_different_sources_behind_one_interface() {
    let metas: Vec<Box<dyn MetaFactory>> = vec![
        Box::new(metafactory(5isize)),
        Box::new(metafactory(|| 6isize)),
        Box::new(metafactory(|a: bool| if a { 1isize } else { 0isize })),
    ];
    let arities: Vec<usize> = metas.iter().map(|m| m.get_arg_types().len()).collect();
    assert_eq!(arities, vec![0, 0, 1]);
    for meta in metas.iter() {
        assert_eq!(meta.get_type(), TypeDef::of::<isize>());
    }
    let five = metas[0].new(Vec::new()).ok().unwrap();
    let six = metas[1].new(Vec::new()).ok().unwrap();
    assert_eq!(five.as_factory_of::<isize>().unwrap().take(), 5);
    assert_eq!(six.as_factory_of::<isize>().unwrap().take(), 6);
    let one = metas[2].new(vec![value(true)]).ok().unwrap();
    assert_eq!(one.as_factory_of::<isize>().unwrap().take(), 1);
}

#[test]
fn twelve_argument_types_are_told_in_order() {
    let meta = metafactory(
        |a1: u8,
         a2: u16,
         a3: u32,
         a4: u64,
         a5: i8,
         a6: i16,
         a7: i32,
         a8: i64,
         a9: bool,
         a10: char,
         a11: usize,
         a12: isize| {
            format!(
                "{} {} {} {} {} {} {} {} {} {} {} {}",
                a1, a2, a3, a4, a5, a6, a7, a8, a9, a10, a11, a12
            )
        },
    );
    assert_eq!(
        meta.get_arg_types(),
        vec![
            TypeDef::of::<u8>(),
            TypeDef::of::<u16>(),
            TypeDef::of::<u32>(),
            TypeDef::of::<u64>(),
            TypeDef::of::<i8>(),
            TypeDef::of::<i16>(),
            TypeDef::of::<i32>(),
            TypeDef::of::<i64>(),
            TypeDef::of::<bool>(),
            TypeDef::of::<char>(),
            TypeDef::of::<usize>(),
            TypeDef::of::<isize>(),
        ]
    );
    assert!(meta.get_type().is::<String>());
    let unit = meta
        .new(vec![
            value(1u8),
            value(2u16),
            value(3u32),
            value(4u64),
            value(-5i8),
            value(-6i16),
            value(-7i32),
            value(-8i64),
            value(true),
            value('c'),
            value(11usize),
            value(-12isize),
        ])
        .ok()
        .unwrap()
        .as_factory_of::<String>()
        .unwrap();
    assert_eq!(unit.take(), "1 2 3 4 -5 -6 -7 -8 true c 11 -12");
    match meta.new(vec![
        value(1u8),
        value(2u16),
        value(3u32),
        value(4u64),
        value(-5i8),
        value(-6i16),
        value(-7i32),
        value(-8i64),
        value(true),
        value('c'),
        value(11usize),
        value(12usize),
    ]) {
        Err(FactoryErrorKind::ArgTypeMismatch(e)) => {
            assert_eq!(e.argument_index, 11);
            assert_eq!(e.expected_type, TypeDef::of::<isize>());
        }
        _ => panic!("Expected ArgTypeMismatch error!"),
    }
}
