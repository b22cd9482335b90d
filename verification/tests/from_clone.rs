use metafactory::{AnyFactory, AsFactoryExt, FromClone, MetaFactory, ToMetaFactory};
use typedef::TypeDef;

fn create<T: ToMetaFactory<FromClone>>(source: T) -> T::Meta {
    source.to_metafactory()
}

#[test]
fn mod_should_return_correct_type() {
    assert_eq!(create(24isize).get_type(), TypeDef::of::<isize>());
    assert_eq!(create(1u32).get_type(), TypeDef::of::<u32>());
    assert_eq!(create("aaa".to_string()).get_type(), TypeDef::of::<String>());
    assert_eq!(
        create(Box::new("aaa".to_string())).get_type(),
        TypeDef::of::<Box<String>>()
    );
}

#[test]
fn mod_should_require_no_arguments() {
    assert_eq!(create(24isize).get_arg_types().len(), 0);
}

#[test]
fn mod_should_build_usable_factory() {
    assert_eq!(
        create(24isize)
            .new(Vec::new())
            .ok()
            .unwrap()
            .as_factory_of::<isize>()
            .unwrap()
            .take(),
        24isize
    );
}

#[test]
fn mod_factory_clone_should_return_same_value() {
    let factory = create(24isize)
        .new(Vec::new())
        .ok()
        .unwrap()
        .as_factory_of::<isize>()
        .unwrap();
    assert_eq!(factory.take(), factory.clone().take());
}

#[test]
fn cloneable_value_is_produced_at_every_call() {
    let factory = create("hello")
        .new(Vec::new())
        .ok()
        .unwrap()
        .as_factory_of::<&str>()
        .unwrap();
    assert_eq!(factory.take(), "hello");
    assert_eq!(factory.take(), "hello");
    assert_eq!(factory.get(), "hello");
}

#[test]
fn cloneable_value_is_built_whatever_the_arguments() {
    let extra: Vec<AnyFactory> = vec![create(1u8).new(Vec::new()).ok().unwrap()];
    let unit = create(7u32).new(extra);
    assert!(unit.is_ok());
    assert_eq!(unit.ok().unwrap().as_factory_of::<u32>().unwrap().take(), 7u32);
}

#[test]
fn cloneable_metafactory_makes_an_aggregate_of_its_type() {
    let aggregate = create(24isize).new_aggregate();
    assert_eq!(aggregate.get_arg_type(), TypeDef::of::<isize>());
    assert_eq!(aggregate.get_container_type(), TypeDef::of::<Vec<isize>>());
}
