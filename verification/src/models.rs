use vstd::prelude::*;

verus! {

/// One upstream notification, as the relay core reads it: the
/// monotonically increasing identifier assigned by the source, the
/// producing application, the text content and the numeric priority.
#[derive(Debug)]
pub struct GotifyMessage {
    pub appid: i64,
    pub id: i64,
    pub message: String,
    pub priority: u8,
    pub title: Option<String>,
}

/// One entry of the source's application lookup table.
#[derive(Debug)]
pub struct Application {
    pub id: i64,
    pub name: String,
}

} // verus!
