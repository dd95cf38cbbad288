//! Plain values that the network side of the device shares with the
//! pipeline: its settings, its request buffers, and a sensor reading as
//! served to clients.

use vstd::prelude::*;

verus! {

/// Size of each network buffer in bytes.
pub const HTTP_BUFFER_LEN: usize = 8192;

/// Network settings fixed at build time.
#[derive(Debug, Clone, Copy)]
pub struct EnvironmentVariables {
    pub wifi_ssid: &'static str,
    pub wifi_password: &'static str,
    pub supabase_url: &'static str,
    pub supabase_key: &'static str,
}

/// A temperature and humidity pair as served to web clients.
pub struct DHT22ReadingResponse<T> {
    pub temperature: T,
    pub humidity: T,
}

/// Receive and TLS buffers for one HTTP exchange.
pub struct HttpBuffers {
    pub rx_buffer: [u8; HTTP_BUFFER_LEN],
    pub tls_read_buffer: [u8; HTTP_BUFFER_LEN],
    pub tls_write_buffer: [u8; HTTP_BUFFER_LEN],
}

/// Whether every byte of `a` is zero.
pub open spec fn all_zero(a: Seq<u8>) -> bool {
    forall|i: int| 0 <= i < a.len() ==> a[i] == 0
}

impl HttpBuffers {
    /// Three zeroed buffers.
    pub fn new() -> (r: HttpBuffers)
        ensures
            all_zero(r.rx_buffer@),
            all_zero(r.tls_read_buffer@),
            all_zero(r.tls_write_buffer@),
    {
        HttpBuffers {
            rx_buffer: [0u8; HTTP_BUFFER_LEN],
            tls_read_buffer: [0u8; HTTP_BUFFER_LEN],
            tls_write_buffer: [0u8; HTTP_BUFFER_LEN],
        }
    }
}

impl Default for HttpBuffers {
    fn default() -> (r: HttpBuffers)
        ensures
            all_zero(r.rx_buffer@),
            all_zero(r.tls_read_buffer@),
            all_zero(r.tls_write_buffer@),
    {
        HttpBuffers::new()
    }
}

} // verus!
