use std::str::FromStr;
use venom::aggregate::EventSourcedAggregate;
use venom::collection::{
    Collection, CollectionError, CollectionEvent, CollectionId, CollectionIdError,
};
use venom::component_id::ComponentId;

fn dummy_id() -> CollectionId {
    CollectionId::new("test-collection").unwrap()
}

fn comp(id: &str) -> ComponentId {
    ComponentId::from_str(format!("registry.test/namespace/{id}:v0").as_str()).unwrap()
}

fn initial_components() -> Vec<ComponentId> {
    vec![comp("a"), comp("b"), comp("c")]
}

#[test]
fn create_should_emit_event_with_initial_components() {
    let id = dummy_id();
    let components = initial_components();
    let event = Collection::create(id.clone(), components.clone()).unwrap();

    match event {
        CollectionEvent::CollectionCreated { collection_id, initial_components } => {
            assert_eq!(collection_id, id);
            assert_eq!(initial_components.len(), 3);
        }
        _ => panic!("Expected CollectionCreated"),
    }
}

#[test]
fn create_should_fail_with_empty_set() {
    let id = dummy_id();
    let result = Collection::create(id, Vec::new());
    assert!(matches!(result, Err(CollectionError::Empty)));
}

#[test]
fn try_from_collection_created_should_create_instance() {
    let id = dummy_id();
    let comps = initial_components();
    let event = CollectionEvent::CollectionCreated {
        collection_id: id.clone(),
        initial_components: comps,
    };

    let collection = Collection::try_from(&event).unwrap();
    assert_eq!(collection.id(), &id);
    assert_eq!(collection.components().len(), 3);
}

#[test]
fn try_from_non_initial_event_should_fail() {
    let id = dummy_id();
    let event = CollectionEvent::ComponentAdded {
        collection_id: id.clone(),
        component_id: comp("z"),
    };

    let result = Collection::try_from(&event);
    assert!(matches!(result, Err(CollectionError::InvalidInitialEvent)));
}

#[test]
fn replace_components_should_emit_added_and_dropped_events() {
    let id = dummy_id();
    let initial: Vec<ComponentId> = vec![comp("a"), comp("b")];
    let created = CollectionEvent::CollectionCreated {
        collection_id: id.clone(),
        initial_components: initial,
    };

    let collection = Collection::from_initial_event(&created).unwrap();
    let new_comps: Vec<ComponentId> = vec![comp("b"), comp("c")];

    let events = collection.replace_components(&new_comps).unwrap();
    assert_eq!(events.len(), 2);

    assert!(events.iter().any(|e| matches!(
        e,
        CollectionEvent::ComponentDropped { component_id, .. } if component_id.name() == "a"
    )));
    assert!(events.iter().any(|e| matches!(
        e,
        CollectionEvent::ComponentAdded { component_id, .. } if component_id.name() == "c"
    )));
}

#[test]
fn apply_component_added_and_dropped_should_mutate_state() {
    let id = dummy_id();
    let comps = initial_components();
    let created = CollectionEvent::CollectionCreated {
        collection_id: id.clone(),
        initial_components: comps,
    };

    let mut collection = Collection::from_initial_event(&created).unwrap();
    let add = CollectionEvent::ComponentAdded {
        collection_id: id.clone(),
        component_id: comp("z"),
    };
    let drop = CollectionEvent::ComponentDropped {
        collection_id: id.clone(),
        component_id: comp("a"),
    };

    collection.apply(&add).unwrap();
    collection.apply(&drop).unwrap();

    assert!(collection.components().contains(&comp("z")));
    assert!(!collection.components().contains(&comp("a")));
}

#[test]
fn apply_collection_created_should_fail_on_existing_state() {
    let id = dummy_id();
    let comps = initial_components();
    let event = CollectionEvent::CollectionCreated {
        collection_id: id,
        initial_components: comps,
    };

    let mut collection = Collection::from_initial_event(&event).unwrap();
    let result = collection.apply(&event);
    assert!(matches!(result, Err(CollectionError::CreatedEventNotAllowed)));
}

#[test]
fn rehydrate_should_rebuild_full_state() {
    let id = dummy_id();

    let e1 = CollectionEvent::CollectionCreated {
        collection_id: id.clone(),
        initial_components: vec![comp("a"), comp("b")],
    };

    let e2 = CollectionEvent::ComponentAdded {
        collection_id: id.clone(),
        component_id: comp("c"),
    };

    let e3 = CollectionEvent::ComponentDropped {
        collection_id: id.clone(),
        component_id: comp("a"),
    };

    let collection = Collection::rehydrate(&vec![e1, e2, e3]).unwrap();

    assert_eq!(collection.components().len(), 2);
    assert!(collection.components().contains(&comp("b")));
    assert!(collection.components().contains(&comp("c")));
    assert!(!collection.components().contains(&comp("a")));
}

#[test]
fn rehydrate_of_an_empty_collection_history_fails() {
    let result = Collection::rehydrate(&Vec::new());
    assert!(matches!(result, Err(CollectionError::InvalidInitialEvent)));
}

#[test]
fn replace_with_empty_set_fails_and_changes_nothing() {
    let id = dummy_id();
    let created = CollectionEvent::CollectionCreated {
        collection_id: id,
        initial_components: vec![comp("a"), comp("b")],
    };
    let collection = Collection::from_initial_event(&created).unwrap();

    let result = collection.replace_components(&Vec::new());
    assert!(matches!(result, Err(CollectionError::Empty)));
    assert_eq!(collection.components().len(), 2);
}

#[test]
fn replace_emits_nothing_for_unchanged_ids() {
    let id = dummy_id();
    let created = CollectionEvent::CollectionCreated {
        collection_id: id,
        initial_components: vec![comp("a"), comp("b")],
    };
    let collection = Collection::from_initial_event(&created).unwrap();

    let events = collection.replace_components(&vec![comp("b"), comp("a")]).unwrap();
    assert!(events.is_empty());
}

#[test]
fn replace_counts_a_repeated_new_id_once() {
    let id = dummy_id();
    let created = CollectionEvent::CollectionCreated {
        collection_id: id,
        initial_components: vec![comp("a")],
    };
    let collection = Collection::from_initial_event(&created).unwrap();

    let events = collection
        .replace_components(&vec![comp("a"), comp("b"), comp("b")])
        .unwrap();
    assert_eq!(events.len(), 1);
    assert!(matches!(
        &events[0],
        CollectionEvent::ComponentAdded { component_id, .. } if component_id.name() == "b"
    ));
}

#[test]
fn creation_deduplicates_the_initial_set() {
    let id = dummy_id();
    let created = CollectionEvent::CollectionCreated {
        collection_id: id,
        initial_components: vec![comp("a"), comp("b"), comp("a")],
    };
    let collection = Collection::from_initial_event(&created).unwrap();
    assert_eq!(collection.components().len(), 2);
}

#[test]
fn blank_collection_id_is_refused() {
    let result = CollectionId::new("  ");
    assert!(matches!(result, Err(CollectionIdError::Empty)));
    let ok = CollectionId::new("prod").unwrap();
    assert_eq!(ok.as_str(), "prod");
}
