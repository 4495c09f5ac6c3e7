//! The server configuration record, the arguments it is built from, and its
//! settings-file text.
use vstd::prelude::*;
use vstd::string::StringExecFns;
use crate::text::{decimal, push_decimal, toml_string, toml_string_of};

verus! {

/// Version string used when none is given.
pub const DEFAULT_MC_VERSION: &'static str = "1.21.5";

/// Server software used when none is given.
pub const DEFAULT_JAR: &'static str = "paper";

/// Host port used when none is given; also the container's own port.
pub const DEFAULT_PORT: u16 = 25565;

/// The parameters of one provisioning run.
pub struct Args {
    /// Target directory; the working directory when absent.
    pub name: Option<String>,
    pub mc_version: String,
    pub jar: String,
    pub port: u16,
}

/// The value of an `Args`.
pub struct ArgsView {
    pub name: Option<Seq<char>>,
    pub mc_version: Seq<char>,
    pub jar: Seq<char>,
    pub port: u16,
}

pub open spec fn opt_text(o: Option<String>) -> Option<Seq<char>> {
    match o {
        Some(s) => Some(s@),
        None => None,
    }
}

impl View for Args {
    type V = ArgsView;

    open spec fn view(&self) -> ArgsView {
        ArgsView {
            name: opt_text(self.name),
            mc_version: self.mc_version@,
            jar: self.jar@,
            port: self.port,
        }
    }
}

impl Args {
    /// Arguments for `name` with the default version, software and port.
    pub fn with_defaults(name: Option<String>) -> (r: Args)
        ensures
            r@ == (ArgsView {
                name: opt_text(name),
                mc_version: DEFAULT_MC_VERSION@,
                jar: DEFAULT_JAR@,
                port: DEFAULT_PORT,
            }),
    {
        Args {
            name,
            mc_version: String::from_str(DEFAULT_MC_VERSION),
            jar: String::from_str(DEFAULT_JAR),
            port: DEFAULT_PORT,
        }
    }
}

/// The configuration of one server. Every field is always set.
pub struct ServerConfig {
    /// Label of the server, taken from its directory's final path segment.
    pub name: String,
    /// Game version, passed through as given.
    pub mc_version: String,
    /// Server software variant.
    pub jar: String,
    /// Host port mapped to the container's port.
    pub port: u16,
}

/// The value of a `ServerConfig`.
pub struct ConfigView {
    pub name: Seq<char>,
    pub mc_version: Seq<char>,
    pub jar: Seq<char>,
    pub port: u16,
}

impl View for ServerConfig {
    type V = ConfigView;

    open spec fn view(&self) -> ConfigView {
        ConfigView { name: self.name@, mc_version: self.mc_version@, jar: self.jar@, port: self.port }
    }
}

/// The configuration built from a name and the user's parameters.
pub open spec fn config_of(name: Seq<char>, mc_version: Seq<char>, jar: Seq<char>, port: u16) -> ConfigView {
    ConfigView { name, mc_version, jar, port }
}

/// The settings file: a flat TOML record with the four fields in order.
pub open spec fn settings_of(c: ConfigView) -> Seq<char> {
    "name = "@ + toml_string_of(c.name)
        + "\nmc_version = "@ + toml_string_of(c.mc_version)
        + "\njar = "@ + toml_string_of(c.jar)
        + "\nport = "@ + decimal(c.port as nat)
        + "\n"@
}

/// The lines that announce a server about to be created.
pub open spec fn info_of(c: ConfigView) -> Seq<char> {
    "Creating Minecraft server: "@ + c.name
        + "\n  Version: "@ + c.mc_version
        + "\n  Jar: "@ + c.jar
        + "\n  Port: "@ + decimal(c.port as nat)
}

impl ServerConfig {
    /// A configuration is well formed when its name is not empty.
    pub open spec fn wf(&self) -> bool {
        self.name@.len() > 0
    }

    /// Builds the configuration of a server named `name`.
    pub fn build(name: String, mc_version: String, jar: String, port: u16) -> (r: ServerConfig)
        requires
            name@.len() > 0,
        ensures
            r@ == config_of(name@, mc_version@, jar@, port),
            r.wf(),
    {
        ServerConfig { name, mc_version, jar, port }
    }

    /// The text of the settings file for this configuration.
    pub fn settings_text(&self) -> (r: String)
        ensures
            r@ == settings_of(self@),
    {
        let mut out = String::from_str("name = ");
        out.append(toml_string(self.name.as_str()).as_str());
        out.append("\nmc_version = ");
        out.append(toml_string(self.mc_version.as_str()).as_str());
        out.append("\njar = ");
        out.append(toml_string(self.jar.as_str()).as_str());
        out.append("\nport = ");
        push_decimal(&mut out, self.port);
        out.append("\n");
        assert(out@ =~= settings_of(self@));
        out
    }

    /// The lines that announce this server before its files are written.
    pub fn server_info(&self) -> (r: String)
        ensures
            r@ == info_of(self@),
    {
        let mut out = String::from_str("Creating Minecraft server: ");
        out.append(self.name.as_str());
        out.append("\n  Version: ");
        out.append(self.mc_version.as_str());
        out.append("\n  Jar: ");
        out.append(self.jar.as_str());
        out.append("\n  Port: ");
        push_decimal(&mut out, self.port);
        assert(out@ =~= info_of(self@));
        out
    }
}

} // verus!
