pub mod decrypted_buffer_info;
pub mod decrypted_read_handler;
