//! The configuration file's contents, the defaults of its optional keys, and
//! the choice of the mode the program runs in.

use vstd::prelude::*;

verus! {

/// Which IP protocol version the multicast listener speaks.
#[derive(Clone, Copy, Debug, PartialEq, Eq, Structural)]
pub enum IpVersion {
    V4,
    V6,
}

/// The part of the configuration that only the server reads.
#[derive(Clone, Debug, PartialEq)]
pub struct ServerConfig {
    /// Where the file of the serial-to-id store lies.
    pub s2id: String,
}

/// The part of the configuration that only a kiosk reads; it holds nothing
/// yet.
#[derive(Clone, Copy, Debug, PartialEq, Eq, Structural)]
pub struct ClientConfig {}

/// The whole configuration file.
#[derive(Clone, Debug, PartialEq)]
pub struct ConfigurationFile {
    /// Whether the program does anything at all.
    pub enabled: bool,
    /// The IP version of the multicast listener.
    pub ip_version: IpVersion,
    /// The host to bind on, or to contact. Required.
    pub host: String,
    /// The port to bind on, or to contact.
    pub port: u16,
    /// The server's section.
    pub server: Option<ServerConfig>,
    /// The kiosk's section; it has the shape of the server's.
    pub kiosk: Option<ServerConfig>,
}

/// The default location of the serial-to-id store's file.
pub fn default_s2id() -> (s: String)
    ensures
        s@ == "/var/lib/persistant_s2id.json"@,
{
    "/var/lib/persistant_s2id.json".to_owned()
}

/// By default the program runs.
pub fn default_enabled() -> (b: bool)
    ensures
        b,
{
    true
}

/// By default the multicast listener speaks IPv4.
pub fn default_ip_version() -> (v: IpVersion)
    ensures
        v == IpVersion::V4,
{
    IpVersion::V4
}

/// The default port to bind on or to contact.
pub fn default_port() -> (p: u16)
    ensures
        p == 7645,
{
    7645
}

/// The modes the program runs in, one per subcommand.
#[derive(Clone, Copy, Debug, PartialEq, Eq, Structural)]
pub enum Mode {
    Kiosk,
    Server,
}

/// Why a mode cannot start.
#[derive(Clone, Copy, Debug, PartialEq, Eq, Structural)]
pub enum ModeError {
    /// The kiosk mode was asked for and the file has no kiosk section.
    MissingKioskSection,
    /// The server mode was asked for and the file has no server section.
    MissingServerSection,
}

/// Decides whether `mode` can start on `config`: each mode needs its own
/// section of the configuration file.
pub fn select_mode(mode: Mode, config: &ConfigurationFile) -> (res: Result<Mode, ModeError>)
    ensures
        mode == Mode::Kiosk ==> res == (if config.kiosk is Some {
            Ok::<Mode, ModeError>(Mode::Kiosk)
        } else {
            Err(ModeError::MissingKioskSection)
        }),
        mode == Mode::Server ==> res == (if config.server is Some {
            Ok::<Mode, ModeError>(Mode::Server)
        } else {
            Err(ModeError::MissingServerSection)
        }),
{
    match mode {
        Mode::Kiosk => if config.kiosk.is_none() {
            Err(ModeError::MissingKioskSection)
        } else {
            Ok(Mode::Kiosk)
        },
        Mode::Server => if config.server.is_none() {
            Err(ModeError::MissingServerSection)
        } else {
            Ok(Mode::Server)
        },
    }
}

} // verus!
