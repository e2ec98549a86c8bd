use std::str::FromStr;
use venom::aggregate::EventSourcedAggregate;
use venom::component::{Component, ComponentError, ComponentEvent, ExecutionContext};
use venom::component_id::ComponentId;
use venom::sbom::Sbom;

fn dummy_id() -> ComponentId {
    ComponentId::from_str("registry.test/namespace/image:v0").unwrap()
}

fn dummy_sbom() -> Sbom {
    Sbom::from_url_str("https://example.com/sbom.json").unwrap()
}

fn dummy_context() -> ExecutionContext {
    ExecutionContext::new(String::new())
}

#[test]
fn register_and_apply_should_build_component_correctly() {
    let id = dummy_id();
    let event = Component::register(id.clone());
    let component = Component::from_initial_event(&event).unwrap();

    assert_eq!(component.id(), &id);
    assert!(!component.is_deprecated());
    assert!(component.sbom().is_none());
    assert!(component.context().is_none());
}

#[test]
fn apply_sbom_assignment() {
    let id = dummy_id();
    let register = Component::register(id.clone());
    let mut component = Component::from_initial_event(&register).unwrap();

    let sbom = dummy_sbom();
    let assign_event = component.assign_sbom(sbom.clone()).unwrap();
    component.apply(&assign_event).unwrap();

    assert_eq!(component.sbom(), Some(&sbom));
}

#[test]
fn assign_sbom_twice_should_fail() {
    let id = dummy_id();
    let register = Component::register(id.clone());
    let mut component = Component::from_initial_event(&register).unwrap();

    let sbom = dummy_sbom();
    let event = component.assign_sbom(sbom.clone()).unwrap();
    component.apply(&event).unwrap();

    let err = component.assign_sbom(sbom.clone()).unwrap_err();
    assert!(matches!(err, ComponentError::SbomAlreadyAssigned(_)));
    assert_eq!(component.sbom(), Some(&sbom));
}

#[test]
fn assign_and_replace_execution_context() {
    let id = dummy_id();
    let register = Component::register(id.clone());
    let mut component = Component::from_initial_event(&register).unwrap();

    let ctx1 = dummy_context();
    let event1 = component.assign_execution_context(ctx1.clone()).unwrap();
    component.apply(&event1).unwrap();

    assert_eq!(component.context(), Some(&ctx1));

    let ctx2 = dummy_context();
    let event2 = component.replace_execution_context(ctx2.clone()).unwrap();
    component.apply(&event2).unwrap();

    assert_eq!(component.context(), Some(&ctx2));
}

#[test]
fn assign_context_twice_should_fail() {
    let id = dummy_id();
    let register = Component::register(id.clone());
    let mut component = Component::from_initial_event(&register).unwrap();

    let ctx = dummy_context();
    let e1 = component.assign_execution_context(ctx.clone()).unwrap();
    component.apply(&e1).unwrap();

    let err = component.assign_execution_context(ctx).unwrap_err();
    assert!(matches!(err, ComponentError::ExecutionContextAlreadyAssigned(_)));
}

#[test]
fn apply_registered_event_should_fail_on_existing_aggregate() {
    let id = dummy_id();
    let event = Component::register(id.clone());
    let mut component = Component::from_initial_event(&event).unwrap();

    let result = component.apply(&event);
    assert_eq!(result.unwrap_err(), ComponentError::RegisteredEventNotAllowed);
}

#[test]
fn deprecate_should_work_and_fail_on_second_attempt() {
    let id = dummy_id();
    let event = Component::register(id.clone());
    let mut component = Component::from_initial_event(&event).unwrap();

    let deprecate_event = component.deprecate().unwrap();
    component.apply(&deprecate_event).unwrap();
    assert!(component.is_deprecated());

    let err = component.deprecate().unwrap_err();
    assert_eq!(err, ComponentError::AlreadyDeprecated(id));
}

#[test]
fn rehydrate_should_rebuild_complete_component_state() {
    let id = dummy_id();
    let sbom = dummy_sbom();
    let ctx = dummy_context();

    let events = vec![
        ComponentEvent::ComponentRegistered { component_id: id.clone() },
        ComponentEvent::SbomAssigned { component_id: id.clone(), sbom: sbom.clone() },
        ComponentEvent::ExecutionContextAssigned { component_id: id.clone(), context: ctx.clone() },
        ComponentEvent::ComponentDeprecated { component_id: id.clone() },
    ];

    let component = Component::rehydrate(&events).unwrap();

    assert_eq!(component.id(), &id);
    assert_eq!(component.sbom(), Some(&sbom));
    assert_eq!(component.context(), Some(&ctx));
    assert!(component.is_deprecated());
}

#[test]
fn rehydrate_of_an_empty_component_history_fails() {
    let result = Component::rehydrate(&Vec::new());
    assert!(matches!(result, Err(ComponentError::InvalidInitialEvent)));
}

#[test]
fn replace_context_before_assignment_should_fail() {
    let id = dummy_id();
    let event = Component::register(id.clone());
    let component = Component::from_initial_event(&event).unwrap();

    let err = component.replace_execution_context(dummy_context()).unwrap_err();
    assert!(matches!(err, ComponentError::ExecutionContextNotAssigned(_)));
}

#[test]
fn only_registration_initializes_a_component() {
    let id = dummy_id();
    let event = ComponentEvent::ComponentDeprecated { component_id: id };
    let result = Component::try_from(&event);
    assert!(matches!(result, Err(ComponentError::InvalidInitialEvent)));
}

#[test]
fn rehydrate_stops_at_the_first_failing_event() {
    let id = dummy_id();
    let events = vec![
        ComponentEvent::ComponentRegistered { component_id: id.clone() },
        ComponentEvent::ComponentRegistered { component_id: id },
    ];
    let result = Component::rehydrate(&events);
    assert!(matches!(result, Err(ComponentError::RegisteredEventNotAllowed)));
}
