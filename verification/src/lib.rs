//! Event-sourced tracking of container-image components and collections,
//! with a verified command/event messaging core.
//!
//! The crate models components (identified by an image reference) and
//! collections of components as event-sourced aggregates, routes commands to
//! handlers through a type-keyed command bus, fans events out to listeners
//! through an event bus, supervises one live aggregate instance per identity,
//! and reacts to registration events with a saga that assigns a generated
//! SBOM back to the component.

pub mod aggregate;
pub mod collection;
pub mod command_bus;
pub mod component;
pub mod component_id;
pub mod config;
pub mod event_bus;
pub mod generator;
pub mod request;
pub mod saga;
pub mod sbom;
pub mod scan;
pub mod supervisor;
