use metafactory::{AnyFactory, AsFactoryExt, Factory, Getter};

struct ValContainer {
    val: String,
}

impl Getter<String> for ValContainer {
    fn take(&self) -> String {
        self.val.clone()
    }
}

fn create_with_val(val: &str) -> Factory<String> {
    Factory::new(Box::new(ValContainer { val: val.to_string() }))
}

#[test]
fn mod_should_get_correct_value() {
    let factory = create_with_val("HAI");

    assert_eq!(factory.take(), "HAI");
}

#[test]
fn mod_cloned_factory_should_get_the_same_value() {
    let factory = create_with_val("HAI");

    assert_eq!(factory.clone().take(), factory.take());
}

#[test]
fn mod_should_be_able_to_downcast_from_any() {
    let boxany = AnyFactory::new(create_with_val("HAI"));
    let downcasted = boxany.as_factory_of::<String>().unwrap();

    assert_eq!(downcasted.take(), "HAI");
}
