//! Decision core of the Nuggies chat bot: command routing, the nugget
//! economy and reaction-driven role membership.

pub mod calendar;
pub mod chance;
pub mod chat;
pub mod daily;
pub mod economy;
pub mod ledger;
pub mod persona;
pub mod replies;
pub mod roles;
pub mod router;
pub mod services;
pub mod setup;
pub mod slots;
pub mod text;
