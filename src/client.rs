//! The client session: one frame exchange per chunk, each on its own
//! connection to the server's address.
use crate::envelope::{encrypt, encrypt_with_iv, envelope_of, padded_len, sealed_by, CIPHER_KEY_SIZE, IV_SIZE, TAG_SIZE};
use crate::error::FileTransferError;
use crate::frame::{frame_of, AckStage, ClientExchange};
use vstd::prelude::*;

verus! {

/// A client of one server.
pub struct Client {
    pub server_address: String,
}

impl Client {
    /// A client that sends to `addr`.
    pub fn new(addr: &str) -> (r: Self)
        ensures
            r.server_address@ == addr@,
    {
        Client { server_address: addr.to_owned() }
    }

    /// The exchange that carries the envelope `data` to the server: the frame
    /// to write, then the acknowledgement it waits for.
    pub fn send(&self, data: &[u8]) -> (r: ClientExchange)
        ensures
            r.frame@ == frame_of(data@),
            r.sent_len == data@.len(),
            r.stage == AckStage::AwaitHeader,
    {
        ClientExchange::new(data)
    }

    /// Seals `data` under `password` with the IV `iv` and starts the exchange
    /// that carries the envelope.
    pub fn send_full_with_iv(&self, data: &[u8], password: &[u8], iv: &[u8]) -> (r: Result<ClientExchange, FileTransferError>)
        ensures
            r is Ok <==> (password@.len() >= CIPHER_KEY_SIZE && iv@.len() == IV_SIZE),
            r is Err ==> r->Err_0 == FileTransferError::KeyIvError,
            r is Ok ==> {
                let e = envelope_of(password@, iv@, data@);
                &&& r->Ok_0.frame@ == frame_of(e)
                &&& r->Ok_0.sent_len == e.len()
                &&& r->Ok_0.stage == AckStage::AwaitHeader
            },
    {
        let cipher = encrypt_with_iv(data, password, iv)?;
        Ok(self.send(cipher.as_slice()))
    }

    /// Seals `data` under `password` with a fresh random IV and starts the
    /// exchange that carries the envelope.
    pub fn send_full(&self, data: &[u8], password: &[u8]) -> (r: Result<ClientExchange, FileTransferError>)
        ensures
            r is Ok <==> password@.len() >= CIPHER_KEY_SIZE,
            r is Err ==> r->Err_0 == FileTransferError::KeyIvError,
            r is Ok ==> exists|e: Seq<u8>| {
                &&& sealed_by(e, password@, data@)
                &&& e.len() == IV_SIZE + padded_len(data@.len()) + TAG_SIZE
                &&& r->Ok_0.frame@ == frame_of(e)
                &&& r->Ok_0.sent_len == e.len()
                &&& r->Ok_0.stage == AckStage::AwaitHeader
            },
    {
        let cipher = encrypt(data, password)?;
        Ok(self.send(cipher.as_slice()))
    }
}

} // verus!
