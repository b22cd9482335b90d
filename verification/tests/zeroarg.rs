use metafactory::error::FactoryErrorKind;
use metafactory::from_closure::FromClosure;
use metafactory::{
    argless_as_factory, metafactory, AnyFactory, AsFactoryExt, MetaFactory,
    ToMetaFactory,
};
use typedef::TypeDef;

fn create<T, S: ToMetaFactory<FromClosure<(), T>>>(source: S) -> S::Meta {
    source.to_metafactory()
}

#[test]
fn zeroarg_should_return_correct_type() {
    assert_eq!(create(|| 24isize).get_type(), TypeDef::of::<isize>());
    assert_eq!(create(|| 1u32).get_type(), TypeDef::of::<u32>());
    assert_eq!(create(|| "aaa".to_string()).get_type(), TypeDef::of::<String>());
    assert_eq!(
        create(|| Box::new("aaa".to_string())).get_type(),
        TypeDef::of::<Box<String>>()
    );
}

#[test]
fn zeroarg_should_require_no_arguments() {
    assert_eq!(create(|| 24isize).get_arg_types().len(), 0);
}

#[test]
fn zeroarg_should_build_usable_factory() {
    assert_eq!(
        create(|| 24isize)
            .new(Vec::new())
            .ok()
            .unwrap()
            .as_factory_of::<isize>()
            .unwrap()
            .take(),
        24isize
    );
}

#[test]
fn zeroarg_factory_clone_should_return_same_value() {
    let factory = create(|| 24isize)
        .new(Vec::new())
        .ok()
        .unwrap()
        .as_factory_of::<isize>()
        .unwrap();
    assert_eq!(factory.take(), factory.clone().take());
}

#[test]
fn zeroarg_closure_takes_no_argument() {
    let extra: Vec<AnyFactory> = vec![argless_as_factory(1u8)];
    match create(|| true).new(extra) {
        Err(FactoryErrorKind::ArgCountMismatch(e)) => {
            assert_eq!(e.expected, 0);
            assert_eq!(e.specified, 1);
        }
        _ => panic!("Expected ArgCountMismatch error!"),
    }
}

#[test]
fn zeroarg_units_of_one_metafactory_share_the_closure() {
    let meta = metafactory(|| 14u16);
    let first = meta.new(Vec::new()).ok().unwrap().as_factory_of::<u16>().unwrap();
    let second = meta.new(Vec::new()).ok().unwrap().as_factory_of::<u16>().unwrap();
    assert_eq!(first.take(), 14);
    assert_eq!(second.take(), 14);
    assert_eq!(first.take(), 14);
}

#[test]
fn zeroarg_closure_as_argless_factory() {
    let unit = argless_as_factory(|| 4 == 8);
    assert_eq!(unit.as_factory_of::<bool>().unwrap().take(), false);
}
