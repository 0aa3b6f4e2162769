use vstd::prelude::*;
use crate::error::ControllerError;

verus! {

/// The host platforms the token locator knows about.
#[derive(Debug, Clone, Copy, PartialEq, Eq)]
pub enum Platform {
    Linux,
    Windows,
    MacOs,
    Other,
}

/// The well-known location of the token file on each supported platform.
pub open spec fn default_path_of(p: Platform) -> Option<Seq<char>> {
    match p {
        Platform::Linux => Some("/var/lib/zerotier-one/authtoken.secret"@),
        Platform::Windows => Some("C:/ProgramData/ZeroTier/One/authtoken.secret"@),
        Platform::MacOs => Some("/Library/Application Support/ZeroTier/One/authtoken.secret"@),
        Platform::Other => None,
    }
}

/// The platform named by an operating-system identifier such as
/// `std::env::consts::OS` gives it.
pub open spec fn platform_named(os: Seq<char>) -> Platform {
    if os == "linux"@ {
        Platform::Linux
    } else if os == "windows"@ {
        Platform::Windows
    } else if os == "macos"@ {
        Platform::MacOs
    } else {
        Platform::Other
    }
}

/// Reads an operating-system identifier (`"linux"`, `"windows"`, `"macos"`).
pub fn platform_of(os: &str) -> (p: Platform)
    ensures
        p == platform_named(os@),
{
    let s = os.to_owned();
    if s == String::from_str("linux") {
        Platform::Linux
    } else if s == String::from_str("windows") {
        Platform::Windows
    } else if s == String::from_str("macos") {
        Platform::MacOs
    } else {
        Platform::Other
    }
}

/// The default token path of a platform; an unsupported platform is a
/// configuration error.
pub fn default_token_path(p: Platform) -> (r: Result<String, ControllerError>)
    ensures
        match default_path_of(p) {
            Some(d) => r is Ok && r->Ok_0@ == d,
            None => r is Err && r->Err_0 is Config,
        },
{
    match p {
        Platform::Linux => Ok(String::from_str("/var/lib/zerotier-one/authtoken.secret")),
        Platform::Windows => Ok(String::from_str("C:/ProgramData/ZeroTier/One/authtoken.secret")),
        Platform::MacOs => Ok(
            String::from_str("/Library/Application Support/ZeroTier/One/authtoken.secret"),
        ),
        Platform::Other => Err(
            ControllerError::Config(
                String::from_str(
                    "authtoken.secret not found; please provide a custom path to the token file",
                ),
            ),
        ),
    }
}

/// Resolves the token path: an override is returned unchanged, otherwise the
/// platform's default is used.
pub fn authtoken_path(arg: Option<String>, platform: Platform) -> (r: Result<String, ControllerError>)
    ensures
        arg is Some ==> r == Ok::<String, ControllerError>(arg->Some_0),
        arg is None ==> match default_path_of(platform) {
            Some(d) => r is Ok && r->Ok_0@ == d,
            None => r is Err && r->Err_0 is Config,
        },
{
    match arg {
        Some(path) => Ok(path),
        None => default_token_path(platform),
    }
}

} // verus!
