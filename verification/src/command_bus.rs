//! Type-keyed command routing: every command type carries a stable key, and
//! the bus maps each key to exactly one registered handler.
//!
//! Handlers are named by opaque ids; the embedding program owns the handler
//! bodies and schedules them after the bus has found a route, so dispatch
//! answers only whether a route exists and which handler serves it — it
//! never waits on a handler's own work.

use vstd::prelude::*;

verus! {

use std::collections::HashMap;

broadcast use vstd::std_specs::hash::group_hash_axioms;

/// An intent to change state, routed to exactly one handler by the stable
/// key of its type.
pub trait AppCommand {
    /// The stable key identifying this command type.
    spec fn spec_type_key() -> u64;

    /// The key of this command type, for routing.
    fn type_key() -> (r: u64)
        ensures
            r == Self::spec_type_key(),
    ;
}

/// Routing failure: no handler is registered for the command type whose key
/// is carried.
#[derive(Debug, PartialEq, Eq, Structural)]
pub enum CommandBusError {
    NoHandler(u64),
}

/// The routing table after registering each route in turn: a later route
/// for the same key replaces the earlier one.
pub open spec fn insert_routes(m: Map<u64, u64>, rs: Seq<(u64, u64)>) -> Map<u64, u64>
    decreases rs.len(),
{
    if rs.len() == 0 {
        m
    } else {
        insert_routes(m, rs.drop_last()).insert(rs.last().0, rs.last().1)
    }
}

/// Central bus dispatching commands to their registered handlers.
pub struct CommandBus {
    routes: HashMap<u64, u64>,
}

impl View for CommandBus {
    type V = Map<u64, u64>;

    closed spec fn view(&self) -> Map<u64, u64> {
        self.routes@
    }
}

impl Default for CommandBus {
    fn default() -> (r: Self)
        ensures
            r@ == Map::<u64, u64>::empty(),
    {
        CommandBus::new()
    }
}

impl CommandBus {
    /// A bus with no routes.
    pub fn new() -> (r: Self)
        ensures
            r@ == Map::<u64, u64>::empty(),
    {
        CommandBus { routes: HashMap::new() }
    }

    /// Associates the handler with command type `C`; a later registration
    /// for the same type replaces the earlier one.
    pub fn register_handler<C: AppCommand>(&mut self, handler: u64)
        ensures
            final(self)@ == old(self)@.insert(C::spec_type_key(), handler),
    {
        let key = C::type_key();
        self.routes.insert(key, handler);
    }

    /// Registers every route a registrant declares, in its order.
    pub fn register<T: RegistersCommands>(&mut self, actor: T)
        ensures
            final(self)@ == insert_routes(old(self)@, actor.routes_of()),
    {
        actor.register_with(self);
    }

    /// Routes a command: the handler registered for the command's type when
    /// one exists — the caller schedules it and does not wait on its work —
    /// and a routing error naming the key when none is registered.  Nothing
    /// is mutated either way.
    pub fn dispatch<C: AppCommand>(&self, cmd: &C) -> (r: Result<u64, CommandBusError>)
        ensures
            r is Ok <==> self@.contains_key(C::spec_type_key()),
            match r {
                Ok(h) => self@.contains_key(C::spec_type_key()) && h == self@[C::spec_type_key()],
                Err(e) => e == CommandBusError::NoHandler(C::spec_type_key()),
            },
    {
        let key = C::type_key();
        match self.routes.get(&key) {
            Some(h) => Ok(*h),
            None => Err(CommandBusError::NoHandler(key)),
        }
    }
}

/// A handler of commands of type `C`.
pub trait HandlesCommand<C> {
    /// Whether the handler accepts this command.
    spec fn ready(&self, cmd: C) -> bool;

    /// What the handler's answer means: the relation its result is
    /// guaranteed to satisfy.
    spec fn post(&self, cmd: C, r: Result<(), String>) -> bool;

    /// Handles one command; the error text is the handler's own report.
    fn handle(&self, cmd: C) -> (r: Result<(), String>)
        requires
            self.ready(cmd),
        ensures
            self.post(cmd, r),
    ;
}

/// Adapts a plain function into a command handler.
pub struct FnHandler<C, F> where F: Fn(C) -> Result<(), String> {
    handler: F,
    _marker: core::marker::PhantomData<C>,
}

impl<C, F> FnHandler<C, F> where F: Fn(C) -> Result<(), String> {
    /// The wrapped function.
    pub closed spec fn func(&self) -> F {
        self.handler
    }

    /// Wraps the function.
    pub fn new(f: F) -> (r: Self)
        ensures
            r.func() == f,
    {
        FnHandler { handler: f, _marker: core::marker::PhantomData }
    }
}

impl<C, F> HandlesCommand<C> for FnHandler<C, F> where F: Fn(C) -> Result<(), String> {
    open spec fn ready(&self, cmd: C) -> bool {
        call_requires(self.func(), (cmd,))
    }

    open spec fn post(&self, cmd: C, r: Result<(), String>) -> bool {
        call_ensures(self.func(), (cmd,), r)
    }

    fn handle(&self, cmd: C) -> Result<(), String> {
        (self.handler)(cmd)
    }
}

/// Grouped registration: a component that serves several command types
/// declares its routes and registers them all at once.
pub trait RegistersCommands: Sized {
    /// The (command type key, handler id) routes this registrant adds.
    spec fn routes_of(&self) -> Seq<(u64, u64)>;

    /// Registers every declared route with the bus, in order.
    fn register_with(self, bus: &mut CommandBus)
        ensures
            final(bus)@ == insert_routes(old(bus)@, self.routes_of()),
    ;
}

} // verus!
