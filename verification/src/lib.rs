//! The rules of two clients that send live speech to a service and show what comes back.
//!
//! The speech client streams the microphone to a recognition service: [`settings`] reads its
//! environment, [`request`] builds what it sends, [`stream`] decides what it does next, and
//! [`transcript`] shows the results. The realtime client holds a session over a websocket:
//! [`handshake`] sets it up, [`messages`] writes what is sent, [`events`] says what an event
//! of the service does, [`session`] when a turn of speech is over, and [`client`] puts these in
//! order. [`audio`] and [`capture`] serve both.
pub mod audio;
pub mod capture;
pub mod client;
pub mod client_laws;
pub mod encoding;
pub mod events;
pub mod handshake;
pub mod json;
pub mod messages;
pub mod request;
pub mod session;
pub mod session_laws;
pub mod settings;
pub mod stream;
pub mod text;
pub mod transcript;
