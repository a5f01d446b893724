use unityrust_native::delegates::{DelegateRegistry, HostCall};
use unityrust_native::gameobject::{with_gameobject, GameObject};
use unityrust_native::test_run_method;

fn destroy_count(reg: &DelegateRegistry, id: u32) -> usize {
    reg.calls()
        .iter()
        .filter(|c| **c == HostCall::Destroy(id))
        .count()
}

#[test]
fn construct_wraps_the_issued_identifier() {
    let mut reg = DelegateRegistry::new();
    reg.bind_constructor(7);
    reg.bind_destructor();
    let go = GameObject::new(&mut reg);
    assert_eq!(go.object_id(), 7);
    assert_eq!(reg.calls().as_slice(), &[HostCall::Construct(7)]);
    go.destroy(&mut reg);
}

#[test]
fn set_active_forwards_identifier_and_flag() {
    let mut reg = DelegateRegistry::new();
    reg.bind_constructor(5);
    reg.bind_destructor();
    reg.bind_set_active();
    let mut go = GameObject::new(&mut reg);
    go.set_active(&mut reg, false);
    assert_eq!(reg.calls()[1], HostCall::SetActive(5, false));
    go.destroy(&mut reg);
    assert_eq!(
        reg.calls().as_slice(),
        &[
            HostCall::Construct(5),
            HostCall::SetActive(5, false),
            HostCall::Destroy(5),
        ]
    );
}

#[test]
fn scoped_handle_records_destruction_with_identifier_seven() {
    let mut reg = DelegateRegistry::new();
    reg.bind_constructor(7);
    reg.bind_destructor();
    let seen = with_gameobject(&mut reg, |id| id);
    assert_eq!(seen, 7);
    assert_eq!(destroy_count(&reg, 7), 1);
    assert_eq!(
        reg.calls().as_slice(),
        &[HostCall::Construct(7), HostCall::Destroy(7)]
    );
}

#[test]
fn destructor_fires_exactly_once_even_on_early_error() {
    let mut reg = DelegateRegistry::new();
    reg.bind_constructor(7);
    reg.bind_destructor();
    let r: Result<u32, String> = with_gameobject(&mut reg, |_id| Err(String::from("early exit")));
    assert_eq!(r, Err(String::from("early exit")));
    assert_eq!(destroy_count(&reg, 7), 1);
    assert_eq!(
        reg.calls().as_slice(),
        &[HostCall::Construct(7), HostCall::Destroy(7)]
    );
}

#[test]
fn run_method_greets_builds_deactivates_and_releases() {
    let mut reg = DelegateRegistry::new();
    reg.bind_log();
    reg.bind_constructor(3);
    reg.bind_destructor();
    reg.bind_set_active();
    let r = test_run_method(&mut reg, 41);
    assert_eq!(r, 42);
    assert_eq!(
        reg.calls().as_slice(),
        &[
            HostCall::Log(String::from("hello, i am from rust")),
            HostCall::Construct(3),
            HostCall::SetActive(3, false),
            HostCall::Destroy(3),
        ]
    );
}
