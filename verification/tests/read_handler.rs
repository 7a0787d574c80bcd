use embedded_tls::alert::{Alert, AlertDescription, AlertLevel};
use embedded_tls::common::decrypted_buffer_info::DecryptedBufferInfo;
use embedded_tls::common::decrypted_read_handler::DecryptedReadHandler;
use embedded_tls::error::TlsError;
use embedded_tls::handshake::finished::Finished;
use embedded_tls::handshake::new_session_ticket::NewSessionTicket;
use embedded_tls::handshake::ServerHandshake;
use embedded_tls::record::{ApplicationData, ChangeCipherSpec, ServerRecord};

#[test]
fn application_data_sets_buffer_info() {
    let data = [1u8, 2, 3];
    let mut info = DecryptedBufferInfo { offset: 9, len: 9, consumed: 9 };
    let mut open = true;
    let mut h = DecryptedReadHandler {
        source_buffer: 100..200,
        buffer_info: &mut info,
        is_open: &mut open,
    };
    let r = h.handle(ServerRecord::ApplicationData(ApplicationData { data: &data, position: 105 }));
    assert_eq!(r, Ok(()));
    assert_eq!(info, DecryptedBufferInfo { offset: 5, len: 3, consumed: 0 });
    assert!(open);
}

#[test]
fn close_notify_closes() {
    let mut info = DecryptedBufferInfo::new();
    let mut open = true;
    let mut h = DecryptedReadHandler { source_buffer: 0..10, buffer_info: &mut info, is_open: &mut open };
    let r = h.handle(ServerRecord::Alert(Alert::new(AlertLevel::Warning, AlertDescription::CloseNotify)));
    assert_eq!(r, Err(TlsError::ConnectionClosed));
    assert!(!open);
}

#[test]
fn other_alert_is_internal_error() {
    let mut info = DecryptedBufferInfo::new();
    let mut open = true;
    let mut h = DecryptedReadHandler { source_buffer: 0..10, buffer_info: &mut info, is_open: &mut open };
    let r = h.handle(ServerRecord::Alert(Alert::new(AlertLevel::Fatal, AlertDescription::DecodeError)));
    assert_eq!(r, Err(TlsError::InternalError));
    assert!(open);
}

#[test]
fn change_cipher_spec_is_internal_error() {
    let mut info = DecryptedBufferInfo::new();
    let mut open = true;
    let mut h = DecryptedReadHandler { source_buffer: 0..10, buffer_info: &mut info, is_open: &mut open };
    assert_eq!(h.handle(ServerRecord::ChangeCipherSpec(ChangeCipherSpec)), Err(TlsError::InternalError));
    assert_eq!(info, DecryptedBufferInfo::new());
}

#[test]
fn new_session_ticket_is_ignored() {
    let body = [1u8];
    let mut info = DecryptedBufferInfo::new();
    let mut open = true;
    let mut h = DecryptedReadHandler { source_buffer: 0..10, buffer_info: &mut info, is_open: &mut open };
    let rec = ServerRecord::Handshake(ServerHandshake::NewSessionTicket(NewSessionTicket { body: &body }));
    assert_eq!(h.handle(rec), Ok(()));
    assert_eq!(info, DecryptedBufferInfo::new());
    assert!(open);
}

#[test]
fn other_handshake_is_invalid() {
    let mut info = DecryptedBufferInfo::new();
    let mut open = true;
    let mut h = DecryptedReadHandler { source_buffer: 0..10, buffer_info: &mut info, is_open: &mut open };
    let rec = ServerRecord::Handshake(ServerHandshake::Finished(Finished::new(vec![1])));
    assert_eq!(h.handle(rec), Err(TlsError::InvalidHandshake));
}

#[test]
fn closed_connection_stays_closed() {
    let data = [1u8];
    let mut info = DecryptedBufferInfo::new();
    let mut open = false;
    let mut h = DecryptedReadHandler { source_buffer: 0..10, buffer_info: &mut info, is_open: &mut open };
    assert_eq!(h.handle(ServerRecord::ApplicationData(ApplicationData { data: &data, position: 2 })), Ok(()));
    assert_eq!(h.handle(ServerRecord::ChangeCipherSpec(ChangeCipherSpec)), Err(TlsError::InternalError));
    assert!(!open);
    assert_eq!(info, DecryptedBufferInfo { offset: 2, len: 1, consumed: 0 });
}
