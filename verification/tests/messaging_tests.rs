use venom::collection::CollectionEvent;
use venom::collection::CollectionId;
use venom::command_bus::{CommandBus, CommandBusError, FnHandler, HandlesCommand};
use venom::component_id::ComponentId;
use venom::event_bus::InMemoryEventBus;
use venom::generator::SyftSbomGenerator;
use venom::request::{component_ids_of, CollectionInput};
use venom::saga::{collection_sbom_reaction, sbom_generation_reaction, SbomGeneratorError};
use venom::sbom::Sbom;
use venom::supervisor::{
    ComponentActor, ComponentCommand, ComponentCommandKind, ComponentSupervisor,
    SupervisorOutcome, SupervisorRegistration, COMPONENT_COMMAND_KEY,
};
use venom::component::{Component, ComponentError, ComponentEvent};

fn id(s: &str) -> ComponentId {
    ComponentId::parse(s).unwrap()
}

fn sbom(s: &str) -> Sbom {
    Sbom::from_url_str(s).unwrap()
}

#[test]
fn dispatch_without_handler_is_a_routing_error() {
    let bus = CommandBus::new();
    let cmd = ComponentCommand { id: id("nginx"), kind: ComponentCommandKind::Register };
    let err = bus.dispatch(&cmd).unwrap_err();
    assert_eq!(err, CommandBusError::NoHandler(COMPONENT_COMMAND_KEY));
}

#[test]
fn dispatch_with_handler_returns_the_route_without_running_it() {
    let mut bus = CommandBus::new();
    bus.register(SupervisorRegistration { handler: 7 });
    let cmd = ComponentCommand { id: id("nginx"), kind: ComponentCommandKind::Register };
    assert_eq!(bus.dispatch(&cmd).unwrap(), 7);
}

#[test]
fn later_registration_replaces_the_earlier_one() {
    let mut bus = CommandBus::new();
    bus.register_handler::<ComponentCommand>(1);
    bus.register_handler::<ComponentCommand>(2);
    let cmd = ComponentCommand { id: id("nginx"), kind: ComponentCommandKind::Register };
    assert_eq!(bus.dispatch(&cmd).unwrap(), 2);
}

#[test]
fn fn_handler_runs_the_wrapped_function() {
    let handler = FnHandler::new(|cmd: ComponentCommand| {
        if matches!(cmd.kind, ComponentCommandKind::Register) {
            Ok(())
        } else {
            Err("not a registration".to_string())
        }
    });
    let register = ComponentCommand { id: id("nginx"), kind: ComponentCommandKind::Register };
    assert!(handler.handle(register).is_ok());
    let assign = ComponentCommand {
        id: id("nginx"),
        kind: ComponentCommandKind::AssignSbom(sbom("https://example.com/s.json")),
    };
    assert_eq!(handler.handle(assign).unwrap_err(), "not a registration");
}

#[test]
fn publish_without_subscribers_is_a_quiet_no_op() {
    let bus = InMemoryEventBus::new();
    let event = Component::register(id("nginx"));
    let listeners = bus.publish(&event);
    assert!(listeners.is_empty());
}

#[test]
fn publish_lists_every_subscriber_in_order() {
    let mut bus = InMemoryEventBus::new();
    bus.subscribe::<ComponentEvent>(11);
    bus.subscribe::<ComponentEvent>(12);
    bus.subscribe::<ComponentEvent>(13);
    let event = Component::register(id("nginx"));
    let listeners = bus.publish(&event);
    assert_eq!(listeners, vec![11, 12, 13]);
}

#[test]
fn subscriptions_are_kept_apart_by_event_type() {
    let mut bus = InMemoryEventBus::new();
    bus.subscribe::<ComponentEvent>(11);
    bus.subscribe::<CollectionEvent>(21);
    let event = Component::register(id("nginx"));
    assert_eq!(bus.publish(&event), vec![11]);
}

#[test]
fn one_failing_listener_does_not_keep_others_from_being_invoked() {
    let mut bus = InMemoryEventBus::new();
    bus.subscribe::<ComponentEvent>(0);
    bus.subscribe::<ComponentEvent>(1);
    bus.subscribe::<ComponentEvent>(2);

    // Each listed listener is run as its own unit of work; the middle one
    // fails, the others must still run.
    let event = Component::register(id("nginx"));
    let mut ran = vec![false, false, false];
    let mut failures = 0;
    for l in bus.publish(&event) {
        let outcome: Result<(), ()> = if l == 1 { Err(()) } else { Ok(()) };
        ran[l as usize] = true;
        if outcome.is_err() {
            failures += 1;
        }
    }
    assert_eq!(ran, vec![true, true, true]);
    assert_eq!(failures, 1);
}

#[test]
fn registering_the_same_component_twice_fails() {
    let mut supervisor = ComponentSupervisor::new();
    let cmd = ComponentCommand { id: id("nginx"), kind: ComponentCommandKind::Register };
    assert!(supervisor.handle(&cmd).is_ok());
    let err = supervisor.handle(&cmd).unwrap_err();
    assert!(matches!(err, ComponentError::AlreadyRegistered(_)));
}

#[test]
fn a_command_for_an_unregistered_component_fails_fast() {
    let mut supervisor = ComponentSupervisor::new();
    let cmd = ComponentCommand {
        id: id("nginx"),
        kind: ComponentCommandKind::AssignSbom(sbom("https://example.com/s.json")),
    };
    let err = supervisor.handle(&cmd).unwrap_err();
    assert!(matches!(err, ComponentError::NotRegistered(_)));
}

#[test]
fn an_actor_refuses_a_command_for_another_identity() {
    let mut actor = ComponentActor::new(Component::new(id("nginx")));
    let cmd = ComponentCommand {
        id: id("redis"),
        kind: ComponentCommandKind::AssignSbom(sbom("https://example.com/s.json")),
    };
    let err = actor.handle(&cmd).unwrap_err();
    match err {
        ComponentError::InconsistentIds(a, b) => {
            assert_eq!(a, "docker.io/redis:latest");
            assert_eq!(b, "docker.io/nginx:latest");
        }
        _ => panic!("Expected inconsistent ids"),
    }
}

#[test]
fn saga_reacts_to_registration_with_an_assignment_command() {
    let event = Component::register(id("docker.io/library/nginx:1.21"));
    let generated = sbom("https://example.com/nginx.json");
    let cmd = sbom_generation_reaction(&event, Ok(generated.clone())).unwrap();
    assert_eq!(cmd.id, id("docker.io/library/nginx:1.21"));
    match cmd.kind {
        ComponentCommandKind::AssignSbom(s) => assert_eq!(s, generated),
        ComponentCommandKind::Register => panic!("Expected an assignment command"),
    }
}

#[test]
fn saga_stays_quiet_on_generator_failure() {
    let event = Component::register(id("docker.io/library/nginx:1.21"));
    let outcome = Err(SbomGeneratorError::GenerationFailed(
        "docker.io/library/nginx:1.21".to_string(),
        "scanner exited with status 1".to_string(),
    ));
    assert!(sbom_generation_reaction(&event, outcome).is_none());
}

#[test]
fn saga_ignores_other_events() {
    let component = Component::new(id("nginx"));
    let event = component.deprecate().unwrap();
    let outcome = Ok(sbom("https://example.com/nginx.json"));
    assert!(sbom_generation_reaction(&event, outcome).is_none());
}

#[test]
fn collection_saga_schedules_generation_for_added_components() {
    let collection_id = CollectionId::new("prod").unwrap();
    let added = CollectionEvent::ComponentAdded {
        collection_id: collection_id.clone(),
        component_id: id("nginx"),
    };
    assert_eq!(collection_sbom_reaction(&added).unwrap(), id("nginx"));

    let dropped = CollectionEvent::ComponentDropped {
        collection_id,
        component_id: id("nginx"),
    };
    assert!(collection_sbom_reaction(&dropped).is_none());
}

#[test]
fn registration_to_assignment_end_to_end() {
    let mut supervisor = ComponentSupervisor::new();
    let mut bus = CommandBus::new();
    bus.register(SupervisorRegistration { handler: 7 });

    let nginx = id("docker.io/library/nginx:1.21");
    let register = ComponentCommand { id: nginx.clone(), kind: ComponentCommandKind::Register };
    assert_eq!(bus.dispatch(&register).unwrap(), 7);

    let outcome = supervisor.handle(&register).unwrap();
    let event = match outcome {
        SupervisorOutcome::Registered { ack, event } => {
            assert_eq!(ack.id, nginx);
            event
        }
        SupervisorOutcome::Applied { .. } => panic!("Expected a registration"),
    };
    assert!(matches!(event, ComponentEvent::ComponentRegistered { .. }));

    // The saga sees the published registration event and, with a generated
    // SBOM in hand, issues the follow-up command.
    let generated = sbom("https://example.com/nginx.json");
    let follow_up = sbom_generation_reaction(&event, Ok(generated)).unwrap();
    assert_eq!(bus.dispatch(&follow_up).unwrap(), 7);
    supervisor.handle(&follow_up).unwrap();

    let component = supervisor.component(&nginx).unwrap();
    assert!(component.sbom().is_some());
}

#[test]
fn registration_with_failed_generation_leaves_component_without_sbom() {
    let mut supervisor = ComponentSupervisor::new();
    let redis = id("docker.io/library/redis:7.2");
    let register = ComponentCommand { id: redis.clone(), kind: ComponentCommandKind::Register };
    let outcome = supervisor.handle(&register).unwrap();
    let event = match outcome {
        SupervisorOutcome::Registered { event, .. } => event,
        SupervisorOutcome::Applied { .. } => panic!("Expected a registration"),
    };

    let failure = Err(SbomGeneratorError::ToolUnavailable(
        "syft".to_string(),
        "not found".to_string(),
    ));
    assert!(sbom_generation_reaction(&event, failure).is_none());

    let component = supervisor.component(&redis).unwrap();
    assert!(component.sbom().is_none());
    assert!(supervisor.component(&id("docker.io/library/nginx:1.21")).is_none());
}

#[test]
fn assigning_an_sbom_twice_through_the_supervisor_fails() {
    let mut supervisor = ComponentSupervisor::new();
    let nginx = id("nginx");
    supervisor
        .handle(&ComponentCommand { id: nginx.clone(), kind: ComponentCommandKind::Register })
        .unwrap();
    let assign = ComponentCommand {
        id: nginx.clone(),
        kind: ComponentCommandKind::AssignSbom(sbom("https://example.com/a.json")),
    };
    supervisor.handle(&assign).unwrap();
    let err = supervisor.handle(&assign).unwrap_err();
    assert!(matches!(err, ComponentError::SbomAlreadyAssigned(_)));
}

#[test]
fn generator_paths_are_computed_from_the_identity() {
    let generator = SyftSbomGenerator::new("/var/lib/sboms".to_string());
    let ghcr = id("ghcr.io/team/app:v2");
    assert_eq!(generator.sbom_file_path(&ghcr), "/var/lib/sboms/ghcr.io/team/app_v2_sbom.json");
    assert_eq!(SyftSbomGenerator::syft_target(&ghcr), "registry:ghcr.io/team/app:v2");

    let bare = id("nginx");
    assert_eq!(generator.sbom_file_path(&bare), "/var/lib/sboms/docker.io/nginx_latest_sbom.json");
    assert_eq!(generator.base_path(), "/var/lib/sboms");
}

#[test]
fn request_translation_keeps_the_references_that_parse() {
    let input = CollectionInput {
        name: "prod".to_string(),
        components: vec![
            "docker.io/library/nginx:1.21".to_string(),
            "  ".to_string(),
            "redis:7.2".to_string(),
        ],
    };
    let ids = component_ids_of(&input);
    assert_eq!(ids.len(), 2);
    assert_eq!(ids[0], id("docker.io/library/nginx:1.21"));
    assert_eq!(ids[1], id("redis:7.2"));
}
