use metafactory::aggregate::{Aggregate, AggregateGetter};
use metafactory::error::FactoryErrorKind;
use metafactory::identity::Reflect;
use metafactory::{
    argless_as_factory, metafactory, AnyFactory, AsFactoryExt, Factory, FromClone, Getter,
    MetaFactory,
};
use typedef::TypeDef;

fn value<T: Clone + Reflect>(v: T) -> AnyFactory {
    argless_as_factory::<FromClone, T>(v)
}

#[test]
fn should_be_usable_as_vec_of_types() {
    let container = Aggregate::new::<isize>();

    let parent_metafactory = metafactory(|items: Vec<isize>| {
        items
            .into_iter()
            .map(|i| format!("{}", i))
            .collect::<Vec<String>>()
            .join(", ")
    });

    let parent_getter = parent_metafactory
        .new(vec![container
            .new_factory(vec![argless_as_factory(5isize), argless_as_factory(13isize)])
            .ok()
            .unwrap()])
        .ok()
        .unwrap()
        .as_factory_of::<String>()
        .unwrap();

    assert_eq!(parent_getter.take(), "5, 13");
}

#[test]
fn aggregate_yields_children_in_push_order() {
    let mut aggregate = Aggregate::new::<isize>();
    assert!(aggregate.push(vec![value(5isize)]).is_ok());
    assert!(aggregate.push(vec![value(13isize)]).is_ok());
    let unit = aggregate.finalize().as_factory_of::<Vec<isize>>().unwrap();
    assert_eq!(unit.take(), vec![5isize, 13isize]);
    assert_eq!(unit.take(), vec![5isize, 13isize]);
}

#[test]
fn aggregate_without_children_yields_empty_sequence() {
    let aggregate = Aggregate::new::<isize>();
    let unit = aggregate.finalize().as_factory_of::<Vec<isize>>().unwrap();
    assert_eq!(unit.take(), Vec::<isize>::new());
    let again = aggregate
        .new_factory(Vec::new())
        .ok()
        .unwrap()
        .as_factory_of::<Vec<isize>>()
        .unwrap();
    assert_eq!(again.take(), Vec::<isize>::new());
}

#[test]
fn aggregate_takes_more_children_after_finalize() {
    let mut aggregate = Aggregate::new::<u8>();
    assert!(aggregate.push(vec![value(1u8), value(2u8)]).is_ok());
    let first = aggregate.finalize().as_factory_of::<Vec<u8>>().unwrap();
    assert!(aggregate.push(vec![value(3u8)]).is_ok());
    let second = aggregate.finalize().as_factory_of::<Vec<u8>>().unwrap();
    assert_eq!(first.take(), vec![1u8, 2u8]);
    assert_eq!(second.take(), vec![1u8, 2u8, 3u8]);
}

#[test]
fn aggregate_new_factory_puts_items_behind_children() {
    let mut aggregate = Aggregate::new::<u8>();
    assert!(aggregate.push(vec![value(1u8)]).is_ok());
    let unit = aggregate
        .new_factory(vec![value(2u8), value(3u8)])
        .ok()
        .unwrap()
        .as_factory_of::<Vec<u8>>()
        .unwrap();
    assert_eq!(unit.take(), vec![1u8, 2u8, 3u8]);
    let children_only = aggregate.finalize().as_factory_of::<Vec<u8>>().unwrap();
    assert_eq!(children_only.take(), vec![1u8]);
}

#[test]
fn aggregate_push_reports_first_child_of_another_type() {
    let mut aggregate = Aggregate::new::<u8>();
    assert!(aggregate.push(vec![value(1u8)]).is_ok());
    match aggregate.push(vec![value(2u8), value(true), value("x"), value(3u8)]) {
        Err(FactoryErrorKind::ArgTypeMismatch(e)) => {
            assert_eq!(e.expected_type, TypeDef::of::<u8>());
            assert_eq!(e.argument_index, 1);
        }
        _ => panic!("Expected ArgTypeMismatch error!"),
    }
    let unit = aggregate.finalize().as_factory_of::<Vec<u8>>().unwrap();
    assert_eq!(unit.take(), vec![1u8]);
}

#[test]
fn aggregate_new_factory_reports_first_item_of_another_type() {
    let aggregate = Aggregate::new::<bool>();
    match aggregate.new_factory(vec![value(5isize), value(true)]) {
        Err(FactoryErrorKind::ArgTypeMismatch(e)) => {
            assert_eq!(e.expected_type, TypeDef::of::<bool>());
            assert_eq!(e.argument_index, 0);
        }
        _ => panic!("Expected ArgTypeMismatch error!"),
    }
}

#[test]
fn aggregate_knows_its_types() {
    let aggregate = Aggregate::new::<bool>();
    assert_eq!(aggregate.get_arg_type(), TypeDef::of::<bool>());
    assert_eq!(aggregate.get_container_type(), TypeDef::of::<Vec<bool>>());
    assert!(aggregate.get_arg_type() != aggregate.get_container_type());
    let unit = aggregate.finalize();
    assert!(unit.as_factory_clone_of::<bool>().is_none());
    assert!(unit.as_factory_clone_of::<Vec<bool>>().is_some());
}

#[test]
fn aggregate_of_a_metafactory_collects_its_units() {
    let true_metafactory = metafactory(|| true);
    let false_metafactory = metafactory(|| false);

    let aggregate = false_metafactory.new_aggregate();
    let true_and_false = aggregate
        .new_factory(vec![
            true_metafactory.new(Vec::new()).ok().unwrap(),
            false_metafactory.new(Vec::new()).ok().unwrap(),
        ])
        .ok()
        .unwrap()
        .as_factory_of::<Vec<bool>>()
        .unwrap();

    assert_eq!(vec![true, false], true_and_false.take());
}

#[test]
fn aggregate_unit_is_an_argument_for_other_factories() {
    let aggregate = Aggregate::new::<bool>();
    let bool_array_factory = aggregate
        .new_factory(vec![
            argless_as_factory(|| true),
            argless_as_factory(true),
            argless_as_factory(|| 4 == 8),
        ])
        .ok()
        .unwrap()
        .as_factory_of::<Vec<bool>>()
        .unwrap();
    assert_eq!(bool_array_factory.take(), vec![true, true, false]);

    let metafactory_all_true = metafactory(|values: Vec<bool>| {
        values.iter().fold(true, |a, &i| a & i)
    });
    let factory_all_true = metafactory_all_true
        .new(vec![AnyFactory::new(bool_array_factory.clone())])
        .ok()
        .unwrap()
        .as_factory_of::<bool>()
        .unwrap();
    assert_eq!(factory_all_true.take(), false);
}

struct Counter {
    start: u32,
}

impl Getter<u32> for Counter {
    fn take(&self) -> u32 {
        self.start + 1
    }
}

#[test]
fn aggregate_getter_asks_each_factory_in_turn() {
    let factories: Vec<Factory<u32>> = vec![
        Factory::new(Box::new(Counter { start: 10 })),
        Factory::new(Box::new(Counter { start: 20 })),
        Factory::new(Box::new(Counter { start: 30 })),
    ];
    let getter = AggregateGetter::new(factories);
    assert_eq!(getter.take(), vec![11u32, 21u32, 31u32]);
    assert_eq!(getter.clone().take(), vec![11u32, 21u32, 31u32]);
    let factory = Factory::new(Box::new(getter));
    assert_eq!(factory.take(), vec![11u32, 21u32, 31u32]);
}
