use vstd::prelude::*;

verus! {

/// Largest value a QUIC variable-length integer can hold.
pub const VARINT_MAX: u64 = 0x3fff_ffff_ffff_ffff;

/// Configures an HTTP/3 server connection.
#[derive(Clone, Copy, Debug)]
pub struct Config {
    /// Whether a grease frame is sent once to exercise the peer's tolerance.
    pub send_grease: bool,
    /// Largest header block, in bytes, that this side accepts.
    pub max_field_section_size: u64,
    /// Announces WebTransport support.
    pub enable_webtransport: bool,
    /// Announces support for the extended CONNECT method.
    pub enable_connect: bool,
    /// Announces support for HTTP/3 datagrams.
    pub enable_datagram: bool,
    /// Largest number of WebTransport sessions announced to the peer.
    pub max_webtransport_sessions: u64,
}

impl Config {
    pub open spec fn spec_default() -> Config {
        Config {
            send_grease: true,
            max_field_section_size: VARINT_MAX,
            enable_webtransport: false,
            enable_connect: false,
            enable_datagram: false,
            max_webtransport_sessions: 0,
        }
    }

    /// Creates a configuration with the default settings.
    pub fn new() -> (r: Config)
        ensures
            r == Config::spec_default(),
    {
        Config {
            send_grease: true,
            max_field_section_size: VARINT_MAX,
            enable_webtransport: false,
            enable_connect: false,
            enable_datagram: false,
            max_webtransport_sessions: 0,
        }
    }

    /// Sets the largest header block this side is willing to accept.
    pub fn max_field_section_size(&mut self, value: u64)
        ensures
            *final(self) == (Config { max_field_section_size: value, ..*old(self) }),
    {
        self.max_field_section_size = value;
    }

    /// Chooses whether grease values are sent to the peer.
    pub fn send_grease(&mut self, value: bool)
        ensures
            *final(self) == (Config { send_grease: value, ..*old(self) }),
    {
        self.send_grease = value;
    }

    /// Chooses whether WebTransport support is announced to the peer.
    pub fn enable_webtransport(&mut self, value: bool)
        ensures
            *final(self) == (Config { enable_webtransport: value, ..*old(self) }),
    {
        self.enable_webtransport = value;
    }

    /// Chooses whether the extended CONNECT method is announced to the peer.
    pub fn enable_connect(&mut self, value: bool)
        ensures
            *final(self) == (Config { enable_connect: value, ..*old(self) }),
    {
        self.enable_connect = value;
    }

    /// Sets the number of WebTransport sessions announced to the peer.
    pub fn max_webtransport_sessions(&mut self, value: u64)
        ensures
            *final(self) == (Config { max_webtransport_sessions: value, ..*old(self) }),
    {
        self.max_webtransport_sessions = value;
    }

    /// Chooses whether HTTP/3 datagram support is announced to the peer.
    pub fn enable_datagram(&mut self, value: bool)
        ensures
            *final(self) == (Config { enable_datagram: value, ..*old(self) }),
    {
        self.enable_datagram = value;
    }
}

impl Default for Config {
    fn default() -> (r: Config)
        ensures
            r == Config::spec_default(),
    {
        Config::new()
    }
}

/// Carries the settings shared by the server connections it builds.
#[derive(Clone, Copy, Debug)]
pub struct Builder {
    pub config: Config,
}

/// Creates a builder of server connections with the default settings.
pub fn builder() -> (r: Builder)
    ensures
        r.config == Config::spec_default(),
{
    Builder::new()
}

impl Builder {
    /// Creates a builder with the default settings.
    pub fn new() -> (r: Builder)
        ensures
            r.config == Config::spec_default(),
    {
        Builder { config: Config::new() }
    }

    /// Sets the largest header block the built connections accept.
    pub fn max_field_section_size(&mut self, value: u64) -> (r: &mut Builder)
        ensures
            r.config == (Config { max_field_section_size: value, ..old(self).config }),
            *final(self) == *final(r),
    {
        self.config.max_field_section_size(value);
        self
    }

    /// Chooses whether the built connections send grease values.
    pub fn send_grease(&mut self, value: bool) -> (r: &mut Builder)
        ensures
            r.config == (Config { send_grease: value, ..old(self).config }),
            *final(self) == *final(r),
    {
        self.config.send_grease(value);
        self
    }

    /// Chooses whether the built connections announce WebTransport support.
    pub fn enable_webtransport(&mut self, value: bool) -> (r: &mut Builder)
        ensures
            r.config == (Config { enable_webtransport: value, ..old(self).config }),
            *final(self) == *final(r),
    {
        self.config.enable_webtransport(value);
        self
    }
}

} // verus!
