//! The container descriptor (a compose file) rendered from a configuration.
use vstd::prelude::*;
use vstd::string::StringExecFns;
use crate::config::{ConfigView, ServerConfig};
use crate::text::{decimal, lower_of, push_decimal, to_lower, to_upper, upper_of};

verus! {

/// Service header, up to the container name's value.
pub const COMPOSE_HEAD: &'static str = "services:\n  minecraft:\n    image: itzg/minecraft-server:latest\n    container_name: ";

/// Prefix of every container name.
pub const CONTAINER_PREFIX: &'static str = "mc-";

/// From the end of the container name to the host port.
pub const COMPOSE_PORTS: &'static str = "\n    stdin_open: true\n    tty: true\n    ports:\n      - ";

/// From the host port to the server type's value: the fixed container port,
/// the data volume, and the licence flag.
pub const COMPOSE_ENV: &'static str = ":25565\n    volumes:\n      - ./data:/data\n    environment:\n      - EULA=TRUE\n      - TYPE=";

/// From the server type to the version's value.
pub const COMPOSE_VERSION: &'static str = "\n      - VERSION=";

/// After the version: the release channel and the restart policy.
pub const COMPOSE_TAIL: &'static str = "\n      - PAPER_CHANNEL=EXPERIMENTAL\n    restart: unless-stopped\n";

/// The container name given to a server whose lower-cased name is `lower_name`.
pub open spec fn container_name_of(lower_name: Seq<char>) -> Seq<char> {
    CONTAINER_PREFIX@ + lower_name
}

/// The descriptor text, from the values that fill its four slots.
pub open spec fn compose_text(lower_name: Seq<char>, port: u16, upper_jar: Seq<char>, version: Seq<char>) -> Seq<char> {
    COMPOSE_HEAD@ + container_name_of(lower_name)
        + COMPOSE_PORTS@ + decimal(port as nat)
        + COMPOSE_ENV@ + upper_jar
        + COMPOSE_VERSION@ + version
        + COMPOSE_TAIL@
}

/// The descriptor of a configuration: its name lower-cased, its software
/// upper-cased, its port and version as they are.
pub open spec fn descriptor_of(c: ConfigView) -> Seq<char> {
    compose_text(lower_of(c.name), c.port, upper_of(c.jar), c.mc_version)
}

/// Renders the descriptor from already case-mapped values.
pub fn render_compose(lower_name: &str, port: u16, upper_jar: &str, version: &str) -> (r: String)
    ensures
        r@ == compose_text(lower_name@, port, upper_jar@, version@),
{
    let mut out = String::from_str(COMPOSE_HEAD);
    out.append(CONTAINER_PREFIX);
    out.append(lower_name);
    out.append(COMPOSE_PORTS);
    push_decimal(&mut out, port);
    out.append(COMPOSE_ENV);
    out.append(upper_jar);
    out.append(COMPOSE_VERSION);
    out.append(version);
    out.append(COMPOSE_TAIL);
    assert(out@ =~= compose_text(lower_name@, port, upper_jar@, version@));
    out
}

/// The descriptor text of `config`.
pub fn create_docker_compose(config: &ServerConfig) -> (r: String)
    ensures
        r@ == descriptor_of(config@),
{
    let lower_name = to_lower(config.name.as_str());
    let upper_jar = to_upper(config.jar.as_str());
    render_compose(lower_name.as_str(), config.port, upper_jar.as_str(), config.mc_version.as_str())
}

} // verus!
