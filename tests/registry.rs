use extension::error::RegistryError;
use extension::functions::NativeFunction;
use extension::registry::Registry;

#[test]
fn empty_registry_finds_nothing() {
    let r = Registry::new();
    assert_eq!(r.lookup(&"is_arma3".to_string()), None);
}

#[test]
fn registered_name_is_found() {
    let mut r = Registry::new();
    assert_eq!(r.register("is_arma3".to_string(), NativeFunction::IsArma3), Ok(()));
    assert_eq!(r.lookup(&"is_arma3".to_string()), Some(NativeFunction::IsArma3));
    assert_eq!(r.lookup(&"is_arma".to_string()), None);
    assert_eq!(r.lookup(&"Is_Arma3".to_string()), None);
}

#[test]
fn second_registration_is_refused() {
    let mut r = Registry::new();
    assert_eq!(r.register("check".to_string(), NativeFunction::IsArma3), Ok(()));
    assert_eq!(
        r.register("check".to_string(), NativeFunction::IsArma3),
        Err(RegistryError::DuplicateName)
    );
    assert_eq!(r.lookup(&"check".to_string()), Some(NativeFunction::IsArma3));
}

#[test]
fn several_names_each_found() {
    let mut r = Registry::new();
    assert_eq!(r.register("a".to_string(), NativeFunction::IsArma3), Ok(()));
    assert_eq!(r.register("b".to_string(), NativeFunction::IsArma3), Ok(()));
    assert_eq!(r.register("".to_string(), NativeFunction::IsArma3), Ok(()));
    assert_eq!(r.lookup(&"a".to_string()), Some(NativeFunction::IsArma3));
    assert_eq!(r.lookup(&"b".to_string()), Some(NativeFunction::IsArma3));
    assert_eq!(r.lookup(&"".to_string()), Some(NativeFunction::IsArma3));
    assert_eq!(r.lookup(&"c".to_string()), None);
}
