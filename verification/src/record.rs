use vstd::prelude::*;

use crate::alert::Alert;
use crate::handshake::ServerHandshake;

verus! {

/// Decrypted application data: the bytes, and the index in the receive
/// buffer at which they start.
#[derive(Debug)]
pub struct ApplicationData<'a> {
    pub data: &'a [u8],
    pub position: usize,
}

/// A ChangeCipherSpec record.
#[derive(Debug, Clone, Copy)]
pub struct ChangeCipherSpec;

/// A record received from the server, after decryption.
#[derive(Debug)]
pub enum ServerRecord<'a> {
    Handshake(ServerHandshake<'a>),
    ChangeCipherSpec(ChangeCipherSpec),
    Alert(Alert),
    ApplicationData(ApplicationData<'a>),
}

} // verus!
