//! The Component aggregate: a registered container image, with an SBOM
//! assigned at most once, an execution context assigned once and then
//! replaceable, and a one-way deprecation flag.
//!
//! Command methods validate against current state and emit events; `apply`
//! trusts the event and mutates.  The first event of a history must be the
//! registration event and no later event may be a registration.

use vstd::prelude::*;

verus! {

use crate::aggregate::{EventSourcedAggregate, replay, views_of};
use crate::component_id::{ComponentId, ComponentIdView};
use crate::sbom::{Sbom, SbomLocationView};

/// Runtime environment a component was classified under.
#[derive(Debug)]
pub struct ExecutionContext {
    label: String,
}

impl View for ExecutionContext {
    type V = Seq<char>;

    closed spec fn view(&self) -> Seq<char> {
        self.label@
    }
}

impl Clone for ExecutionContext {
    fn clone(&self) -> (r: Self)
        ensures
            r == *self,
    {
        ExecutionContext { label: self.label.clone() }
    }
}

impl PartialEq for ExecutionContext {
    fn eq(&self, other: &Self) -> (r: bool) {
        self.label.eq(&other.label)
    }
}

impl vstd::std_specs::cmp::PartialEqSpecImpl for ExecutionContext {
    open spec fn obeys_eq_spec() -> bool {
        true
    }

    open spec fn eq_spec(&self, other: &Self) -> bool {
        self@ == other@
    }
}

impl ExecutionContext {
    /// A context with the given label.
    pub fn new(label: String) -> (r: Self)
        ensures
            r@ == label@,
    {
        ExecutionContext { label }
    }

    /// The label of this context.
    pub fn label(&self) -> (r: &str)
        ensures
            r@ == self@,
    {
        self.label.as_str()
    }
}

/// Domain events emitted by the Component aggregate.
#[derive(Debug)]
pub enum ComponentEvent {
    /// A new component has been registered with the given identifier.
    ComponentRegistered { component_id: ComponentId },
    /// The component has been deprecated and will no longer be used.
    ComponentDeprecated { component_id: ComponentId },
    /// An SBOM has been assigned to the component; emitted once per
    /// component.
    SbomAssigned { component_id: ComponentId, sbom: Sbom },
    /// An execution context has been assigned for the first time.
    ExecutionContextAssigned { component_id: ComponentId, context: ExecutionContext },
    /// The execution context has been replaced by a new one.
    ExecutionContextReplaced { component_id: ComponentId, context: ExecutionContext },
}

/// View of a component event.
pub enum ComponentEventView {
    ComponentRegistered { component_id: ComponentIdView },
    ComponentDeprecated { component_id: ComponentIdView },
    SbomAssigned { component_id: ComponentIdView, sbom: SbomLocationView },
    ExecutionContextAssigned { component_id: ComponentIdView, context: Seq<char> },
    ExecutionContextReplaced { component_id: ComponentIdView, context: Seq<char> },
}

impl View for ComponentEvent {
    type V = ComponentEventView;

    open spec fn view(&self) -> ComponentEventView {
        match self {
            ComponentEvent::ComponentRegistered { component_id } => {
                ComponentEventView::ComponentRegistered { component_id: component_id@ }
            },
            ComponentEvent::ComponentDeprecated { component_id } => {
                ComponentEventView::ComponentDeprecated { component_id: component_id@ }
            },
            ComponentEvent::SbomAssigned { component_id, sbom } => {
                ComponentEventView::SbomAssigned { component_id: component_id@, sbom: sbom@ }
            },
            ComponentEvent::ExecutionContextAssigned { component_id, context } => {
                ComponentEventView::ExecutionContextAssigned {
                    component_id: component_id@,
                    context: context@,
                }
            },
            ComponentEvent::ExecutionContextReplaced { component_id, context } => {
                ComponentEventView::ExecutionContextReplaced {
                    component_id: component_id@,
                    context: context@,
                }
            },
        }
    }
}

impl Clone for ComponentEvent {
    fn clone(&self) -> (r: Self)
        ensures
            r == *self,
    {
        match self {
            ComponentEvent::ComponentRegistered { component_id } => {
                ComponentEvent::ComponentRegistered { component_id: component_id.clone() }
            },
            ComponentEvent::ComponentDeprecated { component_id } => {
                ComponentEvent::ComponentDeprecated { component_id: component_id.clone() }
            },
            ComponentEvent::SbomAssigned { component_id, sbom } => {
                ComponentEvent::SbomAssigned {
                    component_id: component_id.clone(),
                    sbom: sbom.clone(),
                }
            },
            ComponentEvent::ExecutionContextAssigned { component_id, context } => {
                ComponentEvent::ExecutionContextAssigned {
                    component_id: component_id.clone(),
                    context: context.clone(),
                }
            },
            ComponentEvent::ExecutionContextReplaced { component_id, context } => {
                ComponentEvent::ExecutionContextReplaced {
                    component_id: component_id.clone(),
                    context: context.clone(),
                }
            },
        }
    }
}

/// Failures of the Component aggregate's validating operations.
#[derive(Debug)]
pub enum ComponentError {
    /// The component is already registered.
    AlreadyRegistered(ComponentId),
    /// The component is already deprecated.
    AlreadyDeprecated(ComponentId),
    /// The component already has an SBOM assigned.
    SbomAlreadyAssigned(ComponentId),
    /// The component has no execution context assigned yet.
    ExecutionContextNotAssigned(ComponentId),
    /// The component already has an execution context assigned.
    ExecutionContextAlreadyAssigned(ComponentId),
    /// A registration event cannot be applied to an existing aggregate.
    RegisteredEventNotAllowed,
    /// Only a registration event can initialize a component.
    InvalidInitialEvent,
    /// The command and the aggregate name different identities; carries
    /// both, in canonical form.
    InconsistentIds(String, String),
    /// A command addressed an identity that was never registered.
    NotRegistered(ComponentId),
}

/// View of a component error.
pub enum ComponentErrorView {
    AlreadyRegistered(ComponentIdView),
    AlreadyDeprecated(ComponentIdView),
    SbomAlreadyAssigned(ComponentIdView),
    ExecutionContextNotAssigned(ComponentIdView),
    ExecutionContextAlreadyAssigned(ComponentIdView),
    RegisteredEventNotAllowed,
    InvalidInitialEvent,
    InconsistentIds(Seq<char>, Seq<char>),
    NotRegistered(ComponentIdView),
}

impl View for ComponentError {
    type V = ComponentErrorView;

    open spec fn view(&self) -> ComponentErrorView {
        match self {
            ComponentError::AlreadyRegistered(id) => ComponentErrorView::AlreadyRegistered(id@),
            ComponentError::AlreadyDeprecated(id) => ComponentErrorView::AlreadyDeprecated(id@),
            ComponentError::SbomAlreadyAssigned(id) => ComponentErrorView::SbomAlreadyAssigned(
                id@,
            ),
            ComponentError::ExecutionContextNotAssigned(id) => {
                ComponentErrorView::ExecutionContextNotAssigned(id@)
            },
            ComponentError::ExecutionContextAlreadyAssigned(id) => {
                ComponentErrorView::ExecutionContextAlreadyAssigned(id@)
            },
            ComponentError::RegisteredEventNotAllowed => {
                ComponentErrorView::RegisteredEventNotAllowed
            },
            ComponentError::InvalidInitialEvent => ComponentErrorView::InvalidInitialEvent,
            ComponentError::InconsistentIds(a, b) => ComponentErrorView::InconsistentIds(a@, b@),
            ComponentError::NotRegistered(id) => ComponentErrorView::NotRegistered(id@),
        }
    }
}

impl PartialEq for ComponentError {
    fn eq(&self, other: &Self) -> (r: bool) {
        let r = match (self, other) {
            (ComponentError::AlreadyRegistered(a), ComponentError::AlreadyRegistered(b)) => a.eq(
                b,
            ),
            (ComponentError::AlreadyDeprecated(a), ComponentError::AlreadyDeprecated(b)) => a.eq(
                b,
            ),
            (ComponentError::SbomAlreadyAssigned(a), ComponentError::SbomAlreadyAssigned(b)) => {
                a.eq(b)
            },
            (
                ComponentError::ExecutionContextNotAssigned(a),
                ComponentError::ExecutionContextNotAssigned(b),
            ) => a.eq(b),
            (
                ComponentError::ExecutionContextAlreadyAssigned(a),
                ComponentError::ExecutionContextAlreadyAssigned(b),
            ) => a.eq(b),
            (
                ComponentError::RegisteredEventNotAllowed,
                ComponentError::RegisteredEventNotAllowed,
            ) => true,
            (ComponentError::InvalidInitialEvent, ComponentError::InvalidInitialEvent) => true,
            (ComponentError::InconsistentIds(a1, a2), ComponentError::InconsistentIds(b1, b2)) => {
                a1.eq(b1) && a2.eq(b2)
            },
            (ComponentError::NotRegistered(a), ComponentError::NotRegistered(b)) => a.eq(b),
            _ => false,
        };
        proof {
            if r {
                assert(self@ == other@);
            } else {
                assert(self@ != other@);
            }
        }
        r
    }
}

impl vstd::std_specs::cmp::PartialEqSpecImpl for ComponentError {
    open spec fn obeys_eq_spec() -> bool {
        true
    }

    open spec fn eq_spec(&self, other: &Self) -> bool {
        self@ == other@
    }
}

/// View of a component: its identity and lifecycle attributes.
pub struct ComponentView {
    pub id: ComponentIdView,
    pub sbom: Option<SbomLocationView>,
    pub context: Option<Seq<char>>,
    pub deprecated: bool,
}

/// The state a registration event creates.
pub open spec fn component_fresh(id: ComponentIdView) -> ComponentView {
    ComponentView { id, sbom: None, context: None, deprecated: false }
}

/// Whether an event may initialize a component: only a registration event.
pub open spec fn component_init_ok(e: ComponentEventView) -> bool {
    e is ComponentRegistered
}

/// The component a valid initial event creates.
pub open spec fn component_init_view(e: ComponentEventView) -> ComponentView {
    match e {
        ComponentEventView::ComponentRegistered { component_id } => component_fresh(component_id),
        _ => vstd::pervasive::arbitrary(),
    }
}

/// Whether a state accepts an event: every event but a registration.
pub open spec fn component_accepts(pre: ComponentView, e: ComponentEventView) -> bool {
    !(e is ComponentRegistered)
}

/// The state after an accepted event; `apply` never validates.
pub open spec fn component_step(pre: ComponentView, e: ComponentEventView) -> ComponentView {
    match e {
        ComponentEventView::ComponentRegistered { .. } => pre,
        ComponentEventView::ComponentDeprecated { .. } => ComponentView {
            id: pre.id,
            sbom: pre.sbom,
            context: pre.context,
            deprecated: true,
        },
        ComponentEventView::SbomAssigned { sbom, .. } => ComponentView {
            id: pre.id,
            sbom: Some(sbom),
            context: pre.context,
            deprecated: pre.deprecated,
        },
        ComponentEventView::ExecutionContextAssigned { context, .. } => ComponentView {
            id: pre.id,
            sbom: pre.sbom,
            context: Some(context),
            deprecated: pre.deprecated,
        },
        ComponentEventView::ExecutionContextReplaced { context, .. } => ComponentView {
            id: pre.id,
            sbom: pre.sbom,
            context: Some(context),
            deprecated: pre.deprecated,
        },
    }
}

/// Whether the state may still take its first SBOM.
pub open spec fn component_may_assign_sbom(v: ComponentView) -> bool {
    v.sbom is None
}

/// A registered container-image component.
#[derive(Debug)]
pub struct Component {
    id: ComponentId,
    sbom: Option<Sbom>,
    context: Option<ExecutionContext>,
    deprecated: bool,
}

impl View for Component {
    type V = ComponentView;

    closed spec fn view(&self) -> ComponentView {
        ComponentView {
            id: self.id@,
            sbom: match self.sbom {
                Some(b) => Some(b@),
                None => None,
            },
            context: match self.context {
                Some(c) => Some(c@),
                None => None,
            },
            deprecated: self.deprecated,
        }
    }
}

impl Clone for Component {
    fn clone(&self) -> (r: Self)
        ensures
            r == *self,
    {
        Component {
            id: self.id.clone(),
            sbom: match &self.sbom {
                Some(b) => Some(b.clone()),
                None => None,
            },
            context: match &self.context {
                Some(c) => Some(c.clone()),
                None => None,
            },
            deprecated: self.deprecated,
        }
    }
}

impl Component {
    /// A freshly registered component: no SBOM, no context, not deprecated.
    pub fn new(id: ComponentId) -> (r: Self)
        ensures
            r@ == component_fresh(id@),
    {
        Component { id, sbom: None, context: None, deprecated: false }
    }

    /// Emits the registration event for a new component.
    pub fn register(id: ComponentId) -> (r: ComponentEvent)
        ensures
            r == (ComponentEvent::ComponentRegistered { component_id: id }),
    {
        ComponentEvent::ComponentRegistered { component_id: id }
    }

    /// Emits a deprecation event; deprecation is one-way, so a deprecated
    /// component refuses a second one.
    pub fn deprecate(&self) -> (r: Result<ComponentEvent, ComponentError>)
        ensures
            r is Ok <==> !self@.deprecated,
            match r {
                Ok(e) => e@ == (ComponentEventView::ComponentDeprecated {
                    component_id: self@.id,
                }),
                Err(e) => e@ == ComponentErrorView::AlreadyDeprecated(self@.id),
            },
    {
        if self.deprecated {
            Err(ComponentError::AlreadyDeprecated(self.id.clone()))
        } else {
            Ok(ComponentEvent::ComponentDeprecated { component_id: self.id.clone() })
        }
    }

    /// Emits the SBOM-assignment event; an SBOM is assigned at most once.
    pub fn assign_sbom(&self, sbom: Sbom) -> (r: Result<ComponentEvent, ComponentError>)
        ensures
            r is Ok <==> component_may_assign_sbom(self@),
            match r {
                Ok(e) => e@ == (ComponentEventView::SbomAssigned {
                    component_id: self@.id,
                    sbom: sbom@,
                }),
                Err(e) => e@ == ComponentErrorView::SbomAlreadyAssigned(self@.id),
            },
    {
        if self.sbom.is_some() {
            Err(ComponentError::SbomAlreadyAssigned(self.id.clone()))
        } else {
            Ok(ComponentEvent::SbomAssigned { component_id: self.id.clone(), sbom })
        }
    }

    /// Emits the first context assignment; fails when a context is already
    /// present.
    pub fn assign_execution_context(&self, context: ExecutionContext) -> (r: Result<
        ComponentEvent,
        ComponentError,
    >)
        ensures
            r is Ok <==> self@.context is None,
            match r {
                Ok(e) => e@ == (ComponentEventView::ExecutionContextAssigned {
                    component_id: self@.id,
                    context: context@,
                }),
                Err(e) => e@ == ComponentErrorView::ExecutionContextAlreadyAssigned(self@.id),
            },
    {
        if self.context.is_some() {
            Err(ComponentError::ExecutionContextAlreadyAssigned(self.id.clone()))
        } else {
            Ok(ComponentEvent::ExecutionContextAssigned {
                component_id: self.id.clone(),
                context,
            })
        }
    }

    /// Emits a context replacement; requires a context already present.
    pub fn replace_execution_context(&self, context: ExecutionContext) -> (r: Result<
        ComponentEvent,
        ComponentError,
    >)
        ensures
            r is Ok <==> self@.context is Some,
            match r {
                Ok(e) => e@ == (ComponentEventView::ExecutionContextReplaced {
                    component_id: self@.id,
                    context: context@,
                }),
                Err(e) => e@ == ComponentErrorView::ExecutionContextNotAssigned(self@.id),
            },
    {
        if self.context.is_none() {
            Err(ComponentError::ExecutionContextNotAssigned(self.id.clone()))
        } else {
            Ok(ComponentEvent::ExecutionContextReplaced {
                component_id: self.id.clone(),
                context,
            })
        }
    }

    /// The component's identity.
    pub fn id(&self) -> (r: &ComponentId)
        ensures
            r@ == self@.id,
    {
        &self.id
    }

    /// The assigned SBOM, if any.
    pub fn sbom(&self) -> (r: Option<&Sbom>)
        ensures
            match r {
                Some(b) => self@.sbom == Some(b@),
                None => self@.sbom is None,
            },
    {
        self.sbom.as_ref()
    }

    /// The assigned execution context, if any.
    pub fn context(&self) -> (r: Option<&ExecutionContext>)
        ensures
            match r {
                Some(c) => self@.context == Some(c@),
                None => self@.context is None,
            },
    {
        self.context.as_ref()
    }

    /// Whether the component has been deprecated.
    pub fn is_deprecated(&self) -> (r: bool)
        ensures
            r == self@.deprecated,
    {
        self.deprecated
    }

    /// Constructs a component from its genesis event; any other event is an
    /// invalid initializer.
    pub fn try_from(event: &ComponentEvent) -> (r: Result<Component, ComponentError>)
        ensures
            match r {
                Ok(a) => component_init_ok(event@) && a@ == component_init_view(event@),
                Err(e) => !component_init_ok(event@) && e@
                    == ComponentErrorView::InvalidInitialEvent,
            },
    {
        match event {
            ComponentEvent::ComponentRegistered { component_id } => {
                Ok(Component::new(component_id.clone()))
            },
            _ => Err(ComponentError::InvalidInitialEvent),
        }
    }

    /// Rebuilds a component by replaying its event history.
    pub fn rehydrate(events: &Vec<ComponentEvent>) -> (r: Result<Component, ComponentError>)
        ensures
            match r {
                Ok(a) => replay::<ComponentEvent, ComponentError, Component>(views_of(events@))
                    == Ok::<ComponentView, ComponentErrorView>(a@),
                Err(e) => replay::<ComponentEvent, ComponentError, Component>(views_of(events@))
                    == Err::<ComponentView, ComponentErrorView>(e@),
            },
    {
        crate::aggregate::rehydrate(events)
    }
}

impl EventSourcedAggregate<ComponentEvent, ComponentError> for Component {
    open spec fn init_ok(e: ComponentEventView) -> bool {
        component_init_ok(e)
    }

    open spec fn init_view(e: ComponentEventView) -> ComponentView {
        component_init_view(e)
    }

    open spec fn invalid_initial_view() -> ComponentErrorView {
        ComponentErrorView::InvalidInitialEvent
    }

    open spec fn accepts(pre: ComponentView, e: ComponentEventView) -> bool {
        component_accepts(pre, e)
    }

    open spec fn step(pre: ComponentView, e: ComponentEventView) -> ComponentView {
        component_step(pre, e)
    }

    open spec fn step_err(pre: ComponentView, e: ComponentEventView) -> ComponentErrorView {
        ComponentErrorView::RegisteredEventNotAllowed
    }

    open spec fn view_inv(v: ComponentView) -> bool {
        true
    }

    fn from_initial_event(event: &ComponentEvent) -> (r: Result<Component, ComponentError>) {
        Component::try_from(event)
    }

    fn apply(&mut self, event: &ComponentEvent) -> (r: Result<(), ComponentError>) {
        match event {
            ComponentEvent::ComponentRegistered { .. } => {
                Err(ComponentError::RegisteredEventNotAllowed)
            },
            ComponentEvent::ComponentDeprecated { .. } => {
                self.deprecated = true;
                Ok(())
            },
            ComponentEvent::SbomAssigned { sbom, .. } => {
                self.sbom = Some(sbom.clone());
                Ok(())
            },
            ComponentEvent::ExecutionContextAssigned { context, .. } => {
                self.context = Some(context.clone());
                Ok(())
            },
            ComponentEvent::ExecutionContextReplaced { context, .. } => {
                self.context = Some(context.clone());
                Ok(())
            },
        }
    }

    fn invalid_initial_event() -> (r: ComponentError) {
        ComponentError::InvalidInitialEvent
    }
}

/// An SBOM is assigned exactly once: from the unassigned state, the
/// assignment event lands the value, and the resulting state refuses a
/// second emission, keeping the first value.
pub proof fn lemma_sbom_assigned_once(c: ComponentView, s1: SbomLocationView)
    requires
        component_may_assign_sbom(c),
    ensures
        ({
            let c1 = component_step(
                c,
                ComponentEventView::SbomAssigned { component_id: c.id, sbom: s1 },
            );
            &&& c1.sbom == Some(s1)
            &&& !component_may_assign_sbom(c1)
        }),
{
}

/// A registration event is never applicable to an existing component: it is
/// refused with the dedicated error, and `apply`'s contract guarantees a
/// refused event mutates nothing.
pub proof fn lemma_registered_event_not_reapplicable(c: ComponentView, e: ComponentEventView)
    requires
        e is ComponentRegistered,
    ensures
        !component_accepts(c, e),
        <Component as EventSourcedAggregate<ComponentEvent, ComponentError>>::step_err(c, e)
            == ComponentErrorView::RegisteredEventNotAllowed,
{
}

} // verus!
