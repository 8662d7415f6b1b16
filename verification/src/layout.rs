//! Where things are: the names of the files and directories the bootstrap
//! works with, the server's address, and the choice of the runtime
//! executable.
//!
//! The library never joins paths: it names the components, and the caller
//! joins them as its platform writes paths.

use vstd::prelude::*;
use vstd::string::*;
use crate::text::decimal;
use crate::text::decimal_text;
use crate::text::optional_text;

verus! {

/// Port on which the backend server listens.
pub const SERVER_PORT: u16 = 13210;

/// Host on which the backend server listens.
pub const SERVER_HOST: &'static str = "127.0.0.1";

/// Directory of this application below the platform's application data
/// directory.
pub const APP_DIR_NAME: &'static str = "tour-analytics-dashboard";

/// The bundled archive, below the application's resource directory.
pub const BUNDLE_FILE_NAME: &'static str = "server-bundle.zip";

/// Directory of the unpacked server tree, below the application's own data
/// directory.
pub const SERVER_DIR_NAME: &'static str = "server";

/// The server's entry point, below the server directory.
pub const ENTRY_POINT_NAME: &'static str = "server.js";

/// The version marker, below the application's own data directory.
pub const VERSION_MARKER_NAME: &'static str = ".version";

/// The bundled runtime executable, below the application's resource
/// directory.
pub const BUNDLED_RUNTIME_NAME: &'static str = "node.exe";

/// Command by which a system-wide runtime is found on the search path.
pub const SYSTEM_RUNTIME: &'static str = "node";

/// Directory used where the platform names no application data directory.
pub const FALLBACK_DATA_ROOT: &'static str = ".";

/// The directory under which the application keeps its data: the roaming
/// application data directory if the platform names one, else the local one,
/// else the current directory.
pub open spec fn data_root(roaming: Option<Seq<char>>, local: Option<Seq<char>>) -> Seq<char> {
    match roaming {
        Some(dir) => dir,
        None => match local {
            Some(dir) => dir,
            None => FALLBACK_DATA_ROOT@,
        },
    }
}

/// The runtime to launch: the bundled executable where it exists, else the
/// system-wide command.
pub open spec fn runtime_choice(bundled: Seq<char>, bundled_present: bool) -> Seq<char> {
    if bundled_present {
        bundled
    } else {
        SYSTEM_RUNTIME@
    }
}

/// The server's address as host and port.
pub open spec fn server_address_text() -> Seq<char> {
    SERVER_HOST@ + seq![':'] + decimal(SERVER_PORT as nat)
}

/// The server's base URL.
pub open spec fn server_url_text() -> Seq<char> {
    seq!['h', 't', 't', 'p', ':', '/', '/'] + server_address_text()
}

/// Picks the directory under which the application keeps its data, from the
/// values of the platform's two settings (`None` where one is not set). The
/// application's own directory is [`APP_DIR_NAME`] below the result.
pub fn app_data_root(roaming: Option<String>, local: Option<String>) -> (root: String)
    ensures
        root@ == data_root(optional_text(roaming), optional_text(local)),
{
    match roaming {
        Some(dir) => dir,
        None => match local {
            Some(dir) => dir,
            None => String::from_str(FALLBACK_DATA_ROOT),
        },
    }
}

/// Picks the runtime executable. `bundled` is the path of the bundled copy
/// ([`BUNDLED_RUNTIME_NAME`] below the resource directory) and
/// `bundled_present` says whether it exists. Never fails: without a bundled
/// copy the system-wide command is returned, and a missing runtime shows only
/// when the server is launched.
pub fn find_node_executable(bundled: &str, bundled_present: bool) -> (runtime: String)
    ensures
        runtime@ == runtime_choice(bundled@, bundled_present),
{
    if bundled_present {
        String::from_str(bundled)
    } else {
        String::from_str(SYSTEM_RUNTIME)
    }
}

/// The port as the server reads it from its environment.
pub fn server_port_text() -> (port: String)
    ensures
        port@ == decimal(SERVER_PORT as nat),
        port@ == "13210"@,
{
    proof {
        lemma_port_digits();
    }
    decimal_text(SERVER_PORT as u64)
}

/// The address that the readiness poller connects to.
pub fn server_address() -> (address: String)
    ensures
        address@ == server_address_text(),
        address@ == "127.0.0.1:13210"@,
{
    proof {
        lemma_address_literals();
    }
    let mut address = String::from_str(SERVER_HOST);
    address.append(":");
    address.append(server_port_text().as_str());
    address
}

/// The URL that the view is sent to once the server is ready.
pub fn server_url() -> (url: String)
    ensures
        url@ == server_url_text(),
        url@ == "http://127.0.0.1:13210"@,
{
    proof {
        lemma_address_literals();
    }
    let mut url = String::from_str("http://");
    url.append(server_address().as_str());
    url
}

/// The port's decimal notation, digit by digit.
pub proof fn lemma_port_digits()
    ensures
        decimal(SERVER_PORT as nat) == "13210"@,
{
    reveal_strlit("13210");
    reveal_with_fuel(decimal, 5);
    assert(decimal(13210) =~= "13210"@);
}

/// The address and the URL, written out.
pub proof fn lemma_address_literals()
    ensures
        ":"@ == seq![':'],
        "http://"@ == seq!['h', 't', 't', 'p', ':', '/', '/'],
        server_address_text() == "127.0.0.1:13210"@,
        server_url_text() == "http://127.0.0.1:13210"@,
{
    lemma_port_digits();
    reveal_strlit("13210");
    reveal_strlit(":");
    reveal_strlit("http://");
    reveal_strlit("127.0.0.1");
    reveal_strlit("127.0.0.1:13210");
    reveal_strlit("http://127.0.0.1:13210");
    assert(":"@ =~= seq![':']);
    assert("http://"@ =~= seq!['h', 't', 't', 'p', ':', '/', '/']);
    assert(server_address_text() =~= "127.0.0.1:13210"@);
    assert(server_url_text() =~= "http://127.0.0.1:13210"@);
}

} // verus!
