//! The SBOM-generation saga's decision core: the reaction to a published
//! component event, as a pure function of the event and the external
//! generator's outcome.
//!
//! The embedding program listens on the event bus, runs the slow external
//! generator off the delivery path, and dispatches whatever command this
//! reaction returns.  A generator failure produces no command: the
//! component stays registered without an SBOM, an accepted terminal state
//! that is retried only out of band.

use vstd::prelude::*;

verus! {

use crate::collection::{CollectionEvent, CollectionEventView};
use crate::component::{ComponentEvent, ComponentEventView};
use crate::component_id::ComponentId;
use crate::sbom::Sbom;
use crate::supervisor::{ComponentCommand, ComponentCommandKind, ComponentCommandKindView,
    ComponentCommandView};

/// Errors of the external SBOM generator collaborator.
#[derive(Debug)]
pub enum SbomGeneratorError {
    /// The required tool is not available; carries the tool and the reason.
    ToolUnavailable(String, String),
    /// The destination could not be created; carries it and the reason.
    DestinationUnavailable(String, String),
    /// Generation ran and failed; carries the component and the reason.
    GenerationFailed(String, String),
    /// The destination already exists.
    DestinationAlreadyExists(String),
}

/// The saga's reaction: a registration event together with a successfully
/// generated SBOM becomes the command assigning that SBOM to the registered
/// component; every other combination — another event, or a failed
/// generation — produces no command.
pub fn sbom_generation_reaction(event: &ComponentEvent, outcome: Result<
    Sbom,
    SbomGeneratorError,
>) -> (r: Option<ComponentCommand>)
    ensures
        (event@ is ComponentRegistered && outcome is Ok) <==> r is Some,
        match r {
            Some(cmd) => event@ matches ComponentEventView::ComponentRegistered { component_id }
                && outcome matches Ok(sbom) && cmd@ == (ComponentCommandView {
                id: component_id,
                kind: ComponentCommandKindView::AssignSbom(sbom@),
            }),
            None => true,
        },
{
    match event {
        ComponentEvent::ComponentRegistered { component_id } => match outcome {
            Ok(sbom) => Some(
                ComponentCommand {
                    id: component_id.clone(),
                    kind: ComponentCommandKind::AssignSbom(sbom),
                },
            ),
            Err(_) => None,
        },
        _ => None,
    }
}

/// The collection-side reaction: a component newly added to a collection is
/// scheduled for SBOM generation; any other collection event asks for
/// nothing.
pub fn collection_sbom_reaction(event: &CollectionEvent) -> (r: Option<ComponentId>)
    ensures
        event@ is ComponentAdded <==> r is Some,
        match r {
            Some(id) => event@ matches CollectionEventView::ComponentAdded { component_id, .. }
                && id@ == component_id,
            None => true,
        },
{
    match event {
        CollectionEvent::ComponentAdded { component_id, .. } => Some(component_id.clone()),
        _ => None,
    }
}

} // verus!
