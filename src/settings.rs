use vstd::prelude::*;

use crate::config::{Config, VARINT_MAX};
use crate::error::{H3_FRAME_ERROR, H3_SETTINGS_ERROR};
use crate::varint::{
    decode_varint, encode_varint, lemma_varint_parse_len, lemma_varint_round_trip,
    spec_varint_bytes, spec_varint_parse,
};

verus! {

/// Largest header block the sender accepts.
pub const SETTINGS_MAX_FIELD_SECTION_SIZE: u64 = 0x6;

/// Support for the extended CONNECT method.
pub const SETTINGS_ENABLE_CONNECT_PROTOCOL: u64 = 0x8;

/// Support for HTTP/3 datagrams.
pub const SETTINGS_H3_DATAGRAM: u64 = 0x33;

/// Support for WebTransport.
pub const SETTINGS_ENABLE_WEBTRANSPORT: u64 = 0x2b60_3742;

/// Largest number of WebTransport sessions the sender accepts.
pub const SETTINGS_WEBTRANSPORT_MAX_SESSIONS: u64 = 0x2b60_3743;

/// The recognized settings of a settings frame; `None` where the frame does not name one.
#[derive(Clone, Copy, Debug, PartialEq, Eq, Structural)]
pub struct Settings {
    pub max_field_section_size: Option<u64>,
    pub enable_connect_protocol: Option<u64>,
    pub h3_datagram: Option<u64>,
    pub enable_webtransport: Option<u64>,
    pub webtransport_max_sessions: Option<u64>,
}

pub open spec fn fits_varint(o: Option<u64>) -> bool {
    o matches Some(v) ==> v <= VARINT_MAX
}

pub open spec fn spec_empty_settings() -> Settings {
    Settings {
        max_field_section_size: None,
        enable_connect_protocol: None,
        h3_datagram: None,
        enable_webtransport: None,
        webtransport_max_sessions: None,
    }
}

/// `s` with setting `k` recorded as `v`; a recognized setting named twice is an error, and an
/// unrecognized one is ignored.
pub open spec fn spec_settings_with(s: Settings, k: u64, v: u64) -> Result<Settings, u64> {
    if k == SETTINGS_MAX_FIELD_SECTION_SIZE {
        if s.max_field_section_size is Some {
            Err(H3_SETTINGS_ERROR)
        } else {
            Ok(Settings { max_field_section_size: Some(v), ..s })
        }
    } else if k == SETTINGS_ENABLE_CONNECT_PROTOCOL {
        if s.enable_connect_protocol is Some {
            Err(H3_SETTINGS_ERROR)
        } else {
            Ok(Settings { enable_connect_protocol: Some(v), ..s })
        }
    } else if k == SETTINGS_H3_DATAGRAM {
        if s.h3_datagram is Some {
            Err(H3_SETTINGS_ERROR)
        } else {
            Ok(Settings { h3_datagram: Some(v), ..s })
        }
    } else if k == SETTINGS_ENABLE_WEBTRANSPORT {
        if s.enable_webtransport is Some {
            Err(H3_SETTINGS_ERROR)
        } else {
            Ok(Settings { enable_webtransport: Some(v), ..s })
        }
    } else if k == SETTINGS_WEBTRANSPORT_MAX_SESSIONS {
        if s.webtransport_max_sessions is Some {
            Err(H3_SETTINGS_ERROR)
        } else {
            Ok(Settings { webtransport_max_sessions: Some(v), ..s })
        }
    } else {
        Ok(s)
    }
}

/// The settings that the key/value pairs of `b` add to `acc`, or the error code of the first
/// fault: a pair cut short, or a recognized key named twice.
pub open spec fn spec_settings_parse(b: Seq<u8>, acc: Settings) -> Result<Settings, u64>
    decreases b.len(),
{
    if b.len() == 0 {
        Ok(acc)
    } else {
        match spec_varint_parse(b) {
            None => Err(H3_FRAME_ERROR),
            Some((k, n1)) => match spec_varint_parse(b.skip(n1 as int)) {
                None => Err(H3_FRAME_ERROR),
                Some((v, n2)) => match spec_settings_with(acc, k, v) {
                    Err(c) => Err(c),
                    Ok(a) => {
                        if 0 < n1 && n1 + n2 <= b.len() {
                            spec_settings_parse(b.skip((n1 + n2) as int), a)
                        } else {
                            Err(H3_FRAME_ERROR)
                        }
                    },
                },
            },
        }
    }
}

/// Encoding of one setting: its key then its value, or nothing when it is absent.
pub open spec fn spec_entry_bytes(k: u64, o: Option<u64>) -> Seq<u8> {
    match o {
        Some(v) => spec_varint_bytes(k) + spec_varint_bytes(v),
        None => Seq::empty(),
    }
}

/// Payload of a settings frame: the present settings, in a fixed order.
pub open spec fn spec_settings_bytes(s: Settings) -> Seq<u8> {
    spec_entry_bytes(SETTINGS_MAX_FIELD_SECTION_SIZE, s.max_field_section_size) + (
    spec_entry_bytes(SETTINGS_ENABLE_CONNECT_PROTOCOL, s.enable_connect_protocol) + (
    spec_entry_bytes(SETTINGS_H3_DATAGRAM, s.h3_datagram) + (spec_entry_bytes(
        SETTINGS_ENABLE_WEBTRANSPORT,
        s.enable_webtransport,
    ) + spec_entry_bytes(SETTINGS_WEBTRANSPORT_MAX_SESSIONS, s.webtransport_max_sessions))))
}

impl Settings {
    pub open spec fn wf(&self) -> bool {
        &&& fits_varint(self.max_field_section_size)
        &&& fits_varint(self.enable_connect_protocol)
        &&& fits_varint(self.h3_datagram)
        &&& fits_varint(self.enable_webtransport)
        &&& fits_varint(self.webtransport_max_sessions)
    }

    /// Settings that name nothing.
    pub fn empty() -> (r: Settings)
        ensures
            r == spec_empty_settings(),
    {
        Settings {
            max_field_section_size: None,
            enable_connect_protocol: None,
            h3_datagram: None,
            enable_webtransport: None,
            webtransport_max_sessions: None,
        }
    }

    /// The settings a server announces for `config`.
    pub fn from_config(config: &Config) -> (r: Settings)
        ensures
            r.max_field_section_size == Some(config.max_field_section_size),
            r.enable_connect_protocol == Some(if config.enable_connect { 1u64 } else { 0u64 }),
            r.h3_datagram == Some(if config.enable_datagram { 1u64 } else { 0u64 }),
            r.enable_webtransport == Some(if config.enable_webtransport { 1u64 } else { 0u64 }),
            r.webtransport_max_sessions == Some(config.max_webtransport_sessions),
    {
        Settings {
            max_field_section_size: Some(config.max_field_section_size),
            enable_connect_protocol: Some(if config.enable_connect { 1 } else { 0 }),
            h3_datagram: Some(if config.enable_datagram { 1 } else { 0 }),
            enable_webtransport: Some(if config.enable_webtransport { 1 } else { 0 }),
            webtransport_max_sessions: Some(config.max_webtransport_sessions),
        }
    }

    /// Records setting `k` as `v`.
    pub fn insert(&mut self, k: u64, v: u64) -> (r: Result<(), u64>)
        ensures
            match spec_settings_with(*old(self), k, v) {
                Ok(s) => r is Ok && *final(self) == s,
                Err(c) => r == Err::<(), u64>(c) && *final(self) == *old(self),
            },
    {
        let slot: &mut Option<u64> = if k == SETTINGS_MAX_FIELD_SECTION_SIZE {
            &mut self.max_field_section_size
        } else if k == SETTINGS_ENABLE_CONNECT_PROTOCOL {
            &mut self.enable_connect_protocol
        } else if k == SETTINGS_H3_DATAGRAM {
            &mut self.h3_datagram
        } else if k == SETTINGS_ENABLE_WEBTRANSPORT {
            &mut self.enable_webtransport
        } else if k == SETTINGS_WEBTRANSPORT_MAX_SESSIONS {
            &mut self.webtransport_max_sessions
        } else {
            return Ok(());
        };
        if slot.is_some() {
            return Err(H3_SETTINGS_ERROR);
        }
        *slot = Some(v);
        Ok(())
    }
}

fn encode_entry(buf: &mut Vec<u8>, k: u64, o: Option<u64>)
    requires
        k <= VARINT_MAX,
        fits_varint(o),
    ensures
        final(buf)@ == old(buf)@ + spec_entry_bytes(k, o),
{
    if let Some(v) = o {
        encode_varint(buf, k);
        encode_varint(buf, v);
        assert(final(buf)@ =~= old(buf)@ + spec_entry_bytes(k, o));
    } else {
        assert(final(buf)@ =~= old(buf)@ + spec_entry_bytes(k, o));
    }
}

/// Appends the payload of a settings frame for `s` to `buf`.
pub fn encode_settings(buf: &mut Vec<u8>, s: &Settings)
    requires
        s.wf(),
    ensures
        final(buf)@ == old(buf)@ + spec_settings_bytes(*s),
{
    let ghost b0 = buf@;
    encode_entry(buf, SETTINGS_MAX_FIELD_SECTION_SIZE, s.max_field_section_size);
    encode_entry(buf, SETTINGS_ENABLE_CONNECT_PROTOCOL, s.enable_connect_protocol);
    encode_entry(buf, SETTINGS_H3_DATAGRAM, s.h3_datagram);
    encode_entry(buf, SETTINGS_ENABLE_WEBTRANSPORT, s.enable_webtransport);
    encode_entry(buf, SETTINGS_WEBTRANSPORT_MAX_SESSIONS, s.webtransport_max_sessions);
    assert(buf@ =~= b0 + spec_settings_bytes(*s));
}

/// Reads the payload of a settings frame.
pub fn decode_settings(payload: &[u8]) -> (r: Result<Settings, u64>)
    ensures
        r == spec_settings_parse(payload@, spec_empty_settings()),
{
    let mut acc = Settings::empty();
    let mut pos: usize = 0;
    assert(payload@.skip(0) =~= payload@);
    while pos < payload.len()
        invariant
            pos <= payload@.len(),
            spec_settings_parse(payload@.skip(pos as int), acc) == spec_settings_parse(
                payload@,
                spec_empty_settings(),
            ),
        decreases payload@.len() - pos,
    {
        let ghost b = payload@.skip(pos as int);
        proof {
            lemma_varint_parse_len(b);
        }
        let (k, p1) = match decode_varint(payload, pos) {
            None => return Err(H3_FRAME_ERROR),
            Some(x) => x,
        };
        let ghost n1 = (p1 - pos) as nat;
        assert(b.skip(n1 as int) =~= payload@.skip(p1 as int));
        proof {
            lemma_varint_parse_len(b.skip(n1 as int));
        }
        let (v, p2) = match decode_varint(payload, p1) {
            None => return Err(H3_FRAME_ERROR),
            Some(x) => x,
        };
        assert(b.skip((p2 - pos) as int) =~= payload@.skip(p2 as int));
        match acc.insert(k, v) {
            Err(c) => return Err(c),
            Ok(()) => {},
        }
        pos = p2;
    }
    assert(payload@.skip(pos as int).len() == 0);
    Ok(acc)
}

proof fn lemma_entry_parse(k: u64, o: Option<u64>, rest: Seq<u8>, acc: Settings)
    requires
        k <= VARINT_MAX,
        fits_varint(o),
    ensures
        o matches Some(v) ==> spec_settings_parse(spec_entry_bytes(k, o) + rest, acc) == match spec_settings_with(acc, k, v) {
            Err(c) => Err(c),
            Ok(a) => spec_settings_parse(rest, a),
        },
        o is None ==> spec_entry_bytes(k, o) + rest == rest,
{
    if let Some(v) = o {
        let b = spec_entry_bytes(k, o) + rest;
        lemma_varint_round_trip(k, spec_varint_bytes(v) + rest);
        lemma_varint_round_trip(v, rest);
        assert(b =~= spec_varint_bytes(k) + (spec_varint_bytes(v) + rest));
        let n1 = spec_varint_bytes(k).len();
        let n2 = spec_varint_bytes(v).len();
        assert(b.skip(n1 as int) =~= spec_varint_bytes(v) + rest);
        assert(b.skip((n1 + n2) as int) =~= rest);
    } else {
        assert(spec_entry_bytes(k, o) + rest =~= rest);
    }
}

/// Reading the payload written for well-formed settings gives back the same settings.
pub proof fn lemma_settings_round_trip(s: Settings)
    requires
        s.wf(),
    ensures
        spec_settings_parse(spec_settings_bytes(s), spec_empty_settings()) == Ok::<Settings, u64>(s),
{
    let e = Seq::<u8>::empty();
    let b5 = spec_entry_bytes(SETTINGS_WEBTRANSPORT_MAX_SESSIONS, s.webtransport_max_sessions);
    let b4 = spec_entry_bytes(SETTINGS_ENABLE_WEBTRANSPORT, s.enable_webtransport) + b5;
    let b3 = spec_entry_bytes(SETTINGS_H3_DATAGRAM, s.h3_datagram) + b4;
    let b2 = spec_entry_bytes(SETTINGS_ENABLE_CONNECT_PROTOCOL, s.enable_connect_protocol) + b3;
    let a0 = spec_empty_settings();
    let a1 = Settings { max_field_section_size: s.max_field_section_size, ..a0 };
    let a2 = Settings { enable_connect_protocol: s.enable_connect_protocol, ..a1 };
    let a3 = Settings { h3_datagram: s.h3_datagram, ..a2 };
    let a4 = Settings { enable_webtransport: s.enable_webtransport, ..a3 };
    assert(b5 + e =~= b5);
    lemma_entry_parse(SETTINGS_WEBTRANSPORT_MAX_SESSIONS, s.webtransport_max_sessions, e, a4);
    lemma_entry_parse(SETTINGS_ENABLE_WEBTRANSPORT, s.enable_webtransport, b5, a3);
    lemma_entry_parse(SETTINGS_H3_DATAGRAM, s.h3_datagram, b4, a2);
    lemma_entry_parse(SETTINGS_ENABLE_CONNECT_PROTOCOL, s.enable_connect_protocol, b3, a1);
    lemma_entry_parse(SETTINGS_MAX_FIELD_SECTION_SIZE, s.max_field_section_size, b2, a0);
    assert(spec_settings_parse(e, s) == Ok::<Settings, u64>(s));
}

} // verus!
