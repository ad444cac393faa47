use vstd::prelude::*;

verus! {

/// A Discord user, borrowing its strings from the payload it was read from.
#[derive(Debug)]
pub struct User<'a> {
    pub id: &'a str,
    pub username: &'a str,
    pub discriminator: &'a str,
    pub bot: bool,
    pub avatar: Option<&'a str>,
    pub flags: u32,
}

} // verus!
