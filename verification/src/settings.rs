use vstd::prelude::*;
use std::time::Duration;

verus! {

/// The duration of `secs` whole seconds, as `Duration::from_secs` builds it.
pub uninterp spec fn duration_of_secs(secs: u64) -> Duration;

/// `Duration::from_secs`: its result is the duration of that many seconds,
/// a function of the argument alone.
pub assume_specification[ core::time::Duration::from_secs ](secs: u64) -> (d: Duration)
    ensures
        d == duration_of_secs(secs),
;

/// These settings tell the reconnection process how to behave.
///
/// Default is implemented for this type, with fairly sensible settings.
#[derive(Copy, Clone, Debug, Eq, PartialEq)]
pub enum ReconnectionSettings {
    /// Don't try to reconnect after failure.
    DoNotReconnect,
    /// Reconnect
    Reconnect {
        /// After trying this amount of times, it will stop trying.
        ///
        /// A value of 0 means infinite attempts.
        max_attempts: u32,
        /// Wait time between two attempts to reconnect.
        delay_between_attempts: Duration,
        /// Wait time after disconnection, before trying to reconnect.
        delay_after_disconnect: Duration,
    },
}

/// The default settings: ten attempts, five seconds apart, the first one
/// a minute after the disconnection.
pub open spec fn default_reconnection() -> ReconnectionSettings {
    ReconnectionSettings::Reconnect {
        max_attempts: 10,
        delay_between_attempts: duration_of_secs(5),
        delay_after_disconnect: duration_of_secs(60),
    }
}

impl Default for ReconnectionSettings {
    /// `max_attempts` = 10, `delay_between_attempts` = 5 seconds,
    /// `delay_after_disconnect` = 60 seconds.
    fn default() -> (s: ReconnectionSettings)
        ensures
            s == default_reconnection(),
    {
        ReconnectionSettings::Reconnect {
            max_attempts: 10,
            delay_between_attempts: Duration::from_secs(5),
            delay_after_disconnect: Duration::from_secs(60),
        }
    }
}

/// The port used when none is set.
pub const DEFAULT_PORT: u16 = 6667;

/// A builder to construct connection.
///
/// `E` is the text codec handle of the application. An encoding of `None`
/// stands for the default codec, UTF-8.
pub struct ConnectionBuilder<E> {
    address: String,
    port: u16,
    reco_settings: ReconnectionSettings,
    encoding: Option<E>,
    use_tls: bool,
}

impl<E> ConnectionBuilder<E> {
    /// The server's address.
    pub closed spec fn spec_address(&self) -> Seq<char> {
        self.address@
    }

    /// The server's port.
    pub closed spec fn spec_port(&self) -> u16 {
        self.port
    }

    /// The reconnection settings.
    pub closed spec fn spec_reconnect(&self) -> ReconnectionSettings {
        self.reco_settings
    }

    /// The codec chosen, `None` for the default one.
    pub closed spec fn spec_encoding(&self) -> Option<E> {
        self.encoding
    }

    /// Whether TLS is used.
    pub closed spec fn spec_use_tls(&self) -> bool {
        self.use_tls
    }

    /// Create a new builder with default settings: port 6667, the default
    /// reconnection settings, the default codec and no TLS.
    pub fn new(address: &str) -> (b: Self)
        ensures
            b.spec_address() == address@,
            b.spec_port() == DEFAULT_PORT,
            b.spec_reconnect() == default_reconnection(),
            b.spec_encoding() is None,
            !b.spec_use_tls(),
    {
        ConnectionBuilder {
            address: address.to_string(),
            port: DEFAULT_PORT,
            reco_settings: ReconnectionSettings::default(),
            encoding: None,
            use_tls: false,
        }
    }

    /// Set port
    pub fn port(self, port: u16) -> (b: Self)
        ensures
            b.spec_port() == port,
            b.spec_address() == self.spec_address(),
            b.spec_reconnect() == self.spec_reconnect(),
            b.spec_encoding() == self.spec_encoding(),
            b.spec_use_tls() == self.spec_use_tls(),
    {
        ConnectionBuilder { port, ..self }
    }

    /// Set reconnection settings
    pub fn reconnect(self, reco_settings: ReconnectionSettings) -> (b: Self)
        ensures
            b.spec_reconnect() == reco_settings,
            b.spec_address() == self.spec_address(),
            b.spec_port() == self.spec_port(),
            b.spec_encoding() == self.spec_encoding(),
            b.spec_use_tls() == self.spec_use_tls(),
    {
        ConnectionBuilder { reco_settings, ..self }
    }

    /// Set encoding
    pub fn encoding(self, encoding: E) -> (b: Self)
        ensures
            b.spec_encoding() == Some(encoding),
            b.spec_address() == self.spec_address(),
            b.spec_port() == self.spec_port(),
            b.spec_reconnect() == self.spec_reconnect(),
            b.spec_use_tls() == self.spec_use_tls(),
    {
        ConnectionBuilder { encoding: Some(encoding), ..self }
    }

    /// Set use of tls
    pub fn use_tls(self, use_tls: bool) -> (b: Self)
        ensures
            b.spec_use_tls() == use_tls,
            b.spec_address() == self.spec_address(),
            b.spec_port() == self.spec_port(),
            b.spec_reconnect() == self.spec_reconnect(),
            b.spec_encoding() == self.spec_encoding(),
    {
        ConnectionBuilder { use_tls, ..self }
    }

    /// The server's address.
    pub fn get_address(&self) -> (a: &str)
        ensures
            a@ == self.spec_address(),
    {
        self.address.as_str()
    }

    /// The server's port.
    pub fn get_port(&self) -> (p: u16)
        ensures
            p == self.spec_port(),
    {
        self.port
    }

    /// The reconnection settings.
    pub fn get_reconnect(&self) -> (r: ReconnectionSettings)
        ensures
            r == self.spec_reconnect(),
    {
        self.reco_settings
    }

    /// The codec chosen, `None` for the default one.
    pub fn get_encoding(&self) -> (e: &Option<E>)
        ensures
            *e == self.spec_encoding(),
    {
        &self.encoding
    }

    /// Whether TLS is used.
    pub fn get_use_tls(&self) -> (t: bool)
        ensures
            t == self.spec_use_tls(),
    {
        self.use_tls
    }
}

} // verus!
