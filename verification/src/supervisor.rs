//! Per-identity supervision of Component aggregates: the supervisor owns
//! the only live instance of each component, creates it on registration,
//! refuses a second registration of the same identity, and forwards other
//! commands to the owned instance, which validates, emits and applies.
//!
//! A command addressed to an identity that was never registered fails fast
//! with a dedicated error; no state is created implicitly.  The caller
//! publishes the returned events; per-identity serialization is the
//! embedding program's mailbox around `&mut self`.

use vstd::prelude::*;

verus! {

use crate::aggregate::EventSourcedAggregate;
use crate::command_bus::{AppCommand, CommandBus, RegistersCommands, insert_routes};
use crate::component::{
    Component,
    ComponentError,
    ComponentErrorView,
    ComponentEvent,
    ComponentEventView,
    ComponentView,
    component_fresh,
    component_step,
};
use crate::component_id::{ComponentId, ComponentIdView, canonical_seq};
use crate::sbom::{Sbom, SbomLocationView};

/// Stable type key of `ComponentCommand` on the command bus.
pub const COMPONENT_COMMAND_KEY: u64 = 1;

/// Stable type key of `RegisterComponent` on the command bus.
pub const REGISTER_COMPONENT_KEY: u64 = 2;

/// Stable type key of `AssignSbomToComponent` on the command bus.
pub const ASSIGN_SBOM_TO_COMPONENT_KEY: u64 = 3;

/// What a component command asks for.
#[derive(Debug)]
pub enum ComponentCommandKind {
    /// Bring the component into existence.
    Register,
    /// Hand the component its generated SBOM.
    AssignSbom(Sbom),
}

/// View of a command kind.
pub enum ComponentCommandKindView {
    Register,
    AssignSbom(SbomLocationView),
}

impl View for ComponentCommandKind {
    type V = ComponentCommandKindView;

    open spec fn view(&self) -> ComponentCommandKindView {
        match self {
            ComponentCommandKind::Register => ComponentCommandKindView::Register,
            ComponentCommandKind::AssignSbom(sbom) => ComponentCommandKindView::AssignSbom(sbom@),
        }
    }
}

/// A command addressed to one component identity.
#[derive(Debug)]
pub struct ComponentCommand {
    pub id: ComponentId,
    pub kind: ComponentCommandKind,
}

/// View of a component command.
pub struct ComponentCommandView {
    pub id: ComponentIdView,
    pub kind: ComponentCommandKindView,
}

impl View for ComponentCommand {
    type V = ComponentCommandView;

    open spec fn view(&self) -> ComponentCommandView {
        ComponentCommandView { id: self.id@, kind: self.kind@ }
    }
}

impl Clone for ComponentCommand {
    fn clone(&self) -> (r: Self)
        ensures
            r == *self,
    {
        ComponentCommand {
            id: self.id.clone(),
            kind: match &self.kind {
                ComponentCommandKind::Register => ComponentCommandKind::Register,
                ComponentCommandKind::AssignSbom(sbom) => ComponentCommandKind::AssignSbom(
                    sbom.clone(),
                ),
            },
        }
    }
}

impl AppCommand for ComponentCommand {
    open spec fn spec_type_key() -> u64 {
        COMPONENT_COMMAND_KEY
    }

    fn type_key() -> u64 {
        COMPONENT_COMMAND_KEY
    }
}

/// Stand-alone registration command, for wirings that route it as its own
/// type.
#[derive(Debug)]
pub struct RegisterComponent {
    pub id: ComponentId,
}

impl AppCommand for RegisterComponent {
    open spec fn spec_type_key() -> u64 {
        REGISTER_COMPONENT_KEY
    }

    fn type_key() -> u64 {
        REGISTER_COMPONENT_KEY
    }
}

/// Stand-alone SBOM assignment command, for wirings that route it as its
/// own type.
#[derive(Debug)]
pub struct AssignSbomToComponent {
    pub id: ComponentId,
    pub sbom: Sbom,
}

impl AppCommand for AssignSbomToComponent {
    open spec fn spec_type_key() -> u64 {
        ASSIGN_SBOM_TO_COMPONENT_KEY
    }

    fn type_key() -> u64 {
        ASSIGN_SBOM_TO_COMPONENT_KEY
    }
}

/// Acknowledgement that a registration was accepted, carrying the identity.
#[derive(Debug)]
pub struct ComponentRegisteredAck {
    pub id: ComponentId,
}

/// The serialized execution unit owning one component instance.
#[derive(Debug)]
pub struct ComponentActor {
    pub state: Component,
}

impl Clone for ComponentActor {
    fn clone(&self) -> (r: Self)
        ensures
            r == *self,
    {
        ComponentActor { state: self.state.clone() }
    }
}

impl ComponentActor {
    /// Wraps an owned component.
    pub fn new(state: Component) -> (r: Self)
        ensures
            r.state == state,
    {
        ComponentActor { state }
    }

    /// Handles one command against the owned component: checks that the
    /// command addresses this component, validates it against current
    /// state, and emits then applies the resulting event.  A refused
    /// command leaves the state untouched.
    pub fn handle(&mut self, cmd: &ComponentCommand) -> (r: Result<ComponentEvent, ComponentError>)
        ensures
            ({
                let pre = old(self).state@;
                if cmd.id@ != pre.id {
                    &&& r matches Err(e) && e@ == ComponentErrorView::InconsistentIds(
                        canonical_seq(cmd.id@),
                        canonical_seq(pre.id),
                    )
                    &&& *final(self) == *old(self)
                } else {
                    match cmd.kind {
                        ComponentCommandKind::Register => {
                            &&& r matches Err(e) && e@ == ComponentErrorView::AlreadyRegistered(
                                cmd.id@,
                            )
                            &&& *final(self) == *old(self)
                        },
                        ComponentCommandKind::AssignSbom(sbom) => {
                            if pre.sbom is Some {
                                &&& r matches Err(e) && e@
                                    == ComponentErrorView::SbomAlreadyAssigned(cmd.id@)
                                &&& *final(self) == *old(self)
                            } else {
                                &&& r matches Ok(e) && e@ == (ComponentEventView::SbomAssigned {
                                    component_id: pre.id,
                                    sbom: sbom@,
                                })
                                &&& final(self).state@ == component_step(
                                    pre,
                                    ComponentEventView::SbomAssigned {
                                        component_id: pre.id,
                                        sbom: sbom@,
                                    },
                                )
                            }
                        },
                    }
                }
            }),
    {
        if !self.state.id().eq(&cmd.id) {
            return Err(
                ComponentError::InconsistentIds(
                    cmd.id.canonical_string(),
                    self.state.id().canonical_string(),
                ),
            );
        }
        let emitted = match &cmd.kind {
            ComponentCommandKind::AssignSbom(sbom) => self.state.assign_sbom(sbom.clone()),
            ComponentCommandKind::Register => Err(
                ComponentError::AlreadyRegistered(cmd.id.clone()),
            ),
        };
        let event = match emitted {
            Ok(e) => e,
            Err(er) => {
                return Err(er);
            },
        };
        match self.state.apply(&event) {
            Ok(()) => Ok(event),
            Err(er) => Err(er),
        }
    }
}

/// Whether some component in the list has the given identity.
pub open spec fn sup_has(s: Seq<ComponentView>, k: ComponentIdView) -> bool {
    exists|i: int| 0 <= i < s.len() && s[i].id == k
}

/// The identities in the list are pairwise distinct.
pub open spec fn sup_distinct(s: Seq<ComponentView>) -> bool {
    forall|i: int, j: int| 0 <= i < j < s.len() ==> s[i].id != s[j].id
}

/// The index of the component with the given identity; meaningful when
/// `sup_has` holds and the identities are distinct.
pub open spec fn sup_index(s: Seq<ComponentView>, k: ComponentIdView) -> int {
    choose|i: int| 0 <= i < s.len() && s[i].id == k
}

/// The single authority over which component instances exist: one owned,
/// serialized execution unit per identity.
#[derive(Debug)]
pub struct ComponentSupervisor {
    children: Vec<ComponentActor>,
}

impl View for ComponentSupervisor {
    type V = Seq<ComponentView>;

    closed spec fn view(&self) -> Seq<ComponentView> {
        Seq::new(self.children@.len(), |i: int| self.children@[i].state@)
    }
}

/// What handling a command produced.
#[derive(Debug)]
pub enum SupervisorOutcome {
    /// A registration was accepted: the acknowledgement for the caller and
    /// the registration event to publish.
    Registered { ack: ComponentRegisteredAck, event: ComponentEvent },
    /// Another command was applied: the emitted event.
    Applied { event: ComponentEvent },
}

impl ComponentSupervisor {
    /// The supervisor never holds two instances of one identity.
    pub open spec fn sup_inv(&self) -> bool {
        sup_distinct(self@)
    }

    /// A supervisor with no live instances.
    pub fn new() -> (r: Self)
        ensures
            r@ == Seq::<ComponentView>::empty(),
            r.sup_inv(),
    {
        let r = ComponentSupervisor { children: Vec::new() };
        proof {
            assert(r@ =~= Seq::<ComponentView>::empty());
        }
        r
    }

    /// The index of the child owning `id`, if any.
    fn find_child(&self, id: &ComponentId) -> (r: Option<usize>)
        ensures
            match r {
                Some(i) => i < self@.len() && self@[i as int].id == id@,
                None => !sup_has(self@, id@),
            },
    {
        let mut i: usize = 0;
        while i < self.children.len()
            invariant
                i <= self.children@.len(),
                self@.len() == self.children@.len(),
                forall|j: int| 0 <= j < i ==> self@[j].id != id@,
            decreases self.children@.len() - i,
        {
            if self.children[i].state.id().eq(id) {
                proof {
                    assert(self@[i as int].id == id@);
                }
                return Some(i);
            }
            proof {
                assert(self@[i as int].id != id@);
            }
            i = i + 1;
        }
        None
    }

    /// The live component with the given identity, if one exists.
    pub fn component(&self, id: &ComponentId) -> (r: Option<&Component>)
        ensures
            r is Some <==> sup_has(self@, id@),
            match r {
                Some(c) => self.sup_inv() ==> c@ == self@[sup_index(self@, id@)],
                None => !sup_has(self@, id@),
            },
    {
        match self.find_child(id) {
            Some(i) => {
                proof {
                    assert(sup_has(self@, id@));
                    if self.sup_inv() {
                        let j = sup_index(self@, id@);
                        if j != i as int {
                            assert(self@[j].id == self@[i as int].id);
                            assert(false);
                        }
                    }
                }
                Some(&self.children[i].state)
            },
            None => None,
        }
    }

    /// Handles one command.  A registration of a new identity creates the
    /// instance and returns the acknowledgement and the registration event
    /// to publish; registering an existing identity fails.  Any other
    /// command is forwarded to the owned instance when one exists and
    /// fails fast when none does.
    pub fn handle(&mut self, cmd: &ComponentCommand) -> (r: Result<
        SupervisorOutcome,
        ComponentError,
    >)
        requires
            old(self).sup_inv(),
        ensures
            final(self).sup_inv(),
            ({
                let pre = old(self)@;
                match cmd.kind {
                    ComponentCommandKind::Register => {
                        if sup_has(pre, cmd.id@) {
                            &&& r matches Err(e) && e@ == ComponentErrorView::AlreadyRegistered(
                                cmd.id@,
                            )
                            &&& final(self)@ == pre
                        } else {
                            &&& r matches Ok(o) && o matches SupervisorOutcome::Registered {
                                ack,
                                event,
                            } && ack.id@ == cmd.id@ && event@
                                == (ComponentEventView::ComponentRegistered {
                                component_id: cmd.id@,
                            })
                            &&& final(self)@ == pre.push(component_fresh(cmd.id@))
                        }
                    },
                    ComponentCommandKind::AssignSbom(sbom) => {
                        if !sup_has(pre, cmd.id@) {
                            &&& r matches Err(e) && e@ == ComponentErrorView::NotRegistered(
                                cmd.id@,
                            )
                            &&& final(self)@ == pre
                        } else {
                            let i = sup_index(pre, cmd.id@);
                            let st = pre[i];
                            if st.sbom is Some {
                                &&& r matches Err(e) && e@
                                    == ComponentErrorView::SbomAlreadyAssigned(cmd.id@)
                                &&& final(self)@ == pre
                            } else {
                                &&& r matches Ok(o) && o matches SupervisorOutcome::Applied {
                                    event,
                                } && event@ == (ComponentEventView::SbomAssigned {
                                    component_id: cmd.id@,
                                    sbom: sbom@,
                                })
                                &&& final(self)@ == pre.update(
                                    i,
                                    component_step(
                                        st,
                                        ComponentEventView::SbomAssigned {
                                            component_id: cmd.id@,
                                            sbom: sbom@,
                                        },
                                    ),
                                )
                            }
                        }
                    },
                }
            }),
    {
        let found = self.find_child(&cmd.id);
        match found {
            Some(i) => {
                proof {
                    assert(sup_has(self@, cmd.id@));
                    let j = sup_index(self@, cmd.id@);
                    if j != i as int {
                        assert(self@[j].id == self@[i as int].id);
                        assert(false);
                    }
                }
                match &cmd.kind {
                    ComponentCommandKind::Register => {
                        Err(ComponentError::AlreadyRegistered(cmd.id.clone()))
                    },
                    ComponentCommandKind::AssignSbom(_) => {
                        let mut actor = self.children[i].clone();
                        let res = actor.handle(cmd);
                        match res {
                            Ok(event) => {
                                self.children[i] = actor;
                                proof {
                                    assert(self@ =~= old(self)@.update(
                                        i as int,
                                        self@[i as int],
                                    ));
                                    assert forall|a: int, b: int|
                                        0 <= a < b < self@.len() implies self@[a].id
                                        != self@[b].id by {
                                        assert(old(self)@[a].id != old(self)@[b].id);
                                    }
                                }
                                Ok(SupervisorOutcome::Applied { event })
                            },
                            Err(e) => Err(e),
                        }
                    },
                }
            },
            None => {
                match &cmd.kind {
                    ComponentCommandKind::Register => {
                        let event = Component::register(cmd.id.clone());
                        let component = match Component::from_initial_event(&event) {
                            Ok(c) => c,
                            Err(e) => {
                                return Err(e);
                            },
                        };
                        self.children.push(ComponentActor::new(component));
                        proof {
                            assert(self@ =~= old(self)@.push(component_fresh(cmd.id@)));
                            assert forall|a: int, b: int|
                                0 <= a < b < self@.len() implies self@[a].id != self@[b].id by {
                                if b < self@.len() - 1 {
                                    assert(old(self)@[a].id != old(self)@[b].id);
                                } else {
                                    assert(old(self)@[a].id != cmd.id@);
                                }
                            }
                        }
                        Ok(
                            SupervisorOutcome::Registered {
                                ack: ComponentRegisteredAck { id: cmd.id.clone() },
                                event,
                            },
                        )
                    },
                    ComponentCommandKind::AssignSbom(_) => {
                        Err(ComponentError::NotRegistered(cmd.id.clone()))
                    },
                }
            },
        }
    }
}

/// Registers the supervisor's handler for `ComponentCommand` with the
/// command bus, under the handler id the embedding program gave it.
pub struct SupervisorRegistration {
    pub handler: u64,
}

impl RegistersCommands for SupervisorRegistration {
    open spec fn routes_of(&self) -> Seq<(u64, u64)> {
        seq![(COMPONENT_COMMAND_KEY, self.handler)]
    }

    fn register_with(self, bus: &mut CommandBus) {
        bus.register_handler::<ComponentCommand>(self.handler);
        proof {
            assert(self.routes_of().len() == 1);
            assert(self.routes_of().last() == (COMPONENT_COMMAND_KEY, self.handler));
            assert(self.routes_of().drop_last() =~= Seq::<(u64, u64)>::empty());
            assert(insert_routes(old(bus)@, Seq::<(u64, u64)>::empty()) == old(bus)@);
            assert(insert_routes(old(bus)@, self.routes_of()) == old(bus)@.insert(
                COMPONENT_COMMAND_KEY,
                self.handler,
            ));
        }
    }
}

} // verus!
