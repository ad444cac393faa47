use vstd::prelude::*;

verus! {

use crate::client::user::User;

/// The data of the Ready event: the gateway version and the bot's user.
#[derive(Debug)]
pub struct Ready<'a> {
    pub v: u32,
    pub user: User<'a>,
}

/// The events the gateway dispatches.
#[derive(Debug)]
pub enum Event<'a> {
    Ready(Ready<'a>),
    Resumed(),
}

} // verus!
