use vstd::prelude::*;

use core::ops::Range;

use crate::alert::AlertDescription;
use crate::common::decrypted_buffer_info::DecryptedBufferInfo;
use crate::error::TlsError;
use crate::handshake::ServerHandshake;
use crate::record::ServerRecord;

verus! {

/// Handles the records that arrive while the application reads.
pub struct DecryptedReadHandler<'a> {
    pub source_buffer: Range<usize>,
    pub buffer_info: &'a mut DecryptedBufferInfo,
    pub is_open: &'a mut bool,
}

impl DecryptedReadHandler<'_> {
    /// Application data is made the data to read; a close_notify alert closes
    /// the connection; a NewSessionTicket is accepted and ignored; anything
    /// else is an error.
    pub fn handle(&mut self, record: ServerRecord<'_>) -> (r: Result<(), TlsError>)
        requires
            record matches ServerRecord::ApplicationData(d) ==> {
                &&& old(self).source_buffer.start <= d.position < old(self).source_buffer.end
                &&& old(self).source_buffer.start <= d.position + d.data@.len()
                    < old(self).source_buffer.end
            },
        ensures
            final(self).source_buffer == old(self).source_buffer,
            *final(self).is_open == (*old(self).is_open && !(record matches ServerRecord::Alert(a)
                && a.description is CloseNotify)),
            !(record is ApplicationData) ==> *final(self).buffer_info == *old(self).buffer_info,
            match record {
                ServerRecord::ApplicationData(d) => {
                    &&& r is Ok
                    &&& *final(self).buffer_info == DecryptedBufferInfo {
                        offset: (d.position - old(self).source_buffer.start) as usize,
                        len: d.data@.len() as usize,
                        consumed: 0,
                    }
                    &&& final(self).buffer_info.offset + final(self).buffer_info.len
                        < old(self).source_buffer.end - old(self).source_buffer.start
                    &&& *final(self).is_open == *old(self).is_open
                },
                ServerRecord::Alert(a) => {
                    &&& *final(self).buffer_info == *old(self).buffer_info
                    &&& a.description is CloseNotify ==> !*final(self).is_open && r == Err::<
                        (),
                        TlsError,
                    >(TlsError::ConnectionClosed)
                    &&& !(a.description is CloseNotify) ==> *final(self).is_open
                        == *old(self).is_open && r == Err::<(), TlsError>(
                        TlsError::InternalError,
                    )
                },
                ServerRecord::ChangeCipherSpec(_) => {
                    &&& *final(self).buffer_info == *old(self).buffer_info
                    &&& *final(self).is_open == *old(self).is_open
                    &&& r == Err::<(), TlsError>(TlsError::InternalError)
                },
                ServerRecord::Handshake(h) => {
                    &&& *final(self).buffer_info == *old(self).buffer_info
                    &&& *final(self).is_open == *old(self).is_open
                    &&& h is NewSessionTicket ==> r is Ok
                    &&& !(h is NewSessionTicket) ==> r == Err::<(), TlsError>(
                        TlsError::InvalidHandshake,
                    )
                },
            },
    {
        match record {
            ServerRecord::ApplicationData(data) => {
                let offset = data.position - self.source_buffer.start;
                self.buffer_info.offset = offset;
                self.buffer_info.len = data.data.len();
                self.buffer_info.consumed = 0;
                Ok(())
            },
            ServerRecord::Alert(alert) => {
                if let AlertDescription::CloseNotify = alert.description {
                    *self.is_open = false;
                    Err(TlsError::ConnectionClosed)
                } else {
                    Err(TlsError::InternalError)
                }
            },
            ServerRecord::ChangeCipherSpec(_) => Err(TlsError::InternalError),
            ServerRecord::Handshake(ServerHandshake::NewSessionTicket(_)) => Ok(()),
            ServerRecord::Handshake(_) => Err(TlsError::InvalidHandshake),
        }
    }
}

} // verus!
