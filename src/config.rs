//! The generator's configuration, as plain values, and where it is looked
//! for.

use vstd::prelude::*;

use crate::text::push_str;

verus! {

/// Why the configuration could not be loaded.
#[derive(Clone, Debug, PartialEq, Eq)]
pub enum Error {
    /// The configuration sources could not be read or merged.
    Build(String),
    /// The merged configuration does not have the expected shape.
    Serialize(String),
    /// An environment variable could not be read: its name and the cause.
    EnvironmentVariable(String, String),
}

/// Control-plane settings.
#[derive(Clone, Debug, PartialEq, Eq)]
pub struct Sozu {
    /// Path to the control plane's configuration file.
    pub configuration: String,
    /// Listener socket address.
    pub listener: String,
}

/// The generator's configuration.
#[derive(Clone, Debug, PartialEq, Eq)]
pub struct GeneratorConfiguration {
    /// Socket address on which the metrics are exposed.
    pub listening_address: String,
    /// Control-plane settings.
    pub sozu: Sozu,
    /// How many batches to send.
    pub clusters_to_send: u64,
    /// Pause after each acknowledged command, in milliseconds.
    pub sleep_between_requests: u64,
}

/// The configuration files read when none is named, from the lowest
/// precedence to the highest, for the home directory `home`.
pub open spec fn config_sources_for(home: Seq<char>) -> Seq<Seq<char>> {
    seq![
        "/usr/share/traffic-generator/config"@,
        "/etc/traffic-generator/config"@,
        home + "/.config/traffic-generator/config"@,
        home + "/.local/share/traffic-generator/config"@,
        "config"@,
    ]
}

/// The view of each string of `v`.
pub open spec fn views(v: Seq<String>) -> Seq<Seq<char>> {
    v.map_values(|s: String| s@)
}

/// The configuration files read when none is named, from the lowest
/// precedence to the highest: system-wide ones first, then those under the
/// home directory `home`, then `config` in the working directory. All are
/// optional.
pub fn config_sources(home: &str) -> (paths: Vec<String>)
    ensures
        views(paths@) == config_sources_for(home@),
{
    let mut paths: Vec<String> = Vec::new();
    paths.push("/usr/share/traffic-generator/config".to_owned());
    paths.push("/etc/traffic-generator/config".to_owned());
    let mut user_config = home.to_owned();
    push_str(&mut user_config, "/.config/traffic-generator/config");
    paths.push(user_config);
    let mut user_share = home.to_owned();
    push_str(&mut user_share, "/.local/share/traffic-generator/config");
    paths.push(user_share);
    paths.push("config".to_owned());
    assert(views(paths@) =~= config_sources_for(home@));
    paths
}

} // verus!
