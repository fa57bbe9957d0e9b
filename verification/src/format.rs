//! Resolution of the runtime resource-directory value for each supported
//! package format.
//!
//! The packaged binary locates the toolkit's resources through an
//! environment variable; its correct value is a fixed convention per
//! package format:
//!
//! - `app`, `dmg`, `nsis`: `"."` — the bundle or installer places the
//!   resources next to the binary (macOS bundles resolve the actual
//!   directory at runtime through the platform bundle API).
//! - `appimage`: `"lib/" + <main binary name>` — the image runs with a
//!   simulated working directory one level above the installed binary, so
//!   the value must stay a relative path.
//! - `deb`, `pacman`: `"/usr/lib/" + <main binary name>` — the absolute
//!   directory the package manager installs resource files into.

use crate::error::Error;
use crate::text::str_eq;
use vstd::prelude::*;
use vstd::string::StringExecFns;

verus! {

/// The six package-format identifiers this crate knows.
pub open spec fn is_known_format(f: Seq<char>) -> bool {
    ||| f == "app"@
    ||| f == "dmg"@
    ||| f == "appimage"@
    ||| f == "deb"@
    ||| f == "pacman"@
    ||| f == "nsis"@
}

/// The documented resource-directory value for a known package format.
pub open spec fn package_dir_value_spec(f: Seq<char>, main_binary_name: Seq<char>) -> Seq<char>
    recommends
        is_known_format(f),
{
    if f == "appimage"@ {
        "lib/"@ + main_binary_name
    } else if f == "deb"@ || f == "pacman"@ {
        "/usr/lib/"@ + main_binary_name
    } else {
        "."@
    }
}

/// Computes the resource-directory value for `package_format`, or reports
/// an unsupported format as an error instead of aborting.
pub fn resolve(package_format: &str, main_binary_name: &str) -> (r: Result<String, Error>)
    ensures
        r is Ok <==> is_known_format(package_format@),
        r is Ok ==> r->Ok_0@ == package_dir_value_spec(package_format@, main_binary_name@),
        r is Err ==> r->Err_0 == Error::UnsupportedFormat,
{
    proof {
        reveal_strlit("app");
        reveal_strlit("dmg");
        reveal_strlit("appimage");
        reveal_strlit("deb");
        reveal_strlit("pacman");
        reveal_strlit("nsis");
        assert("app"@.len() == 3);
        assert("dmg"@.len() == 3);
        assert("appimage"@.len() == 8);
        assert("deb"@.len() == 3);
        assert("pacman"@.len() == 6);
        assert("nsis"@.len() == 4);
        assert("app"@[0] == 'a');
        assert("dmg"@[0] == 'd');
        assert("dmg"@[1] == 'm');
        assert("deb"@[0] == 'd');
        assert("deb"@[1] == 'e');
    }
    if str_eq(package_format, "app") || str_eq(package_format, "dmg") || str_eq(
        package_format,
        "nsis",
    ) {
        Ok(String::from_str("."))
    } else if str_eq(package_format, "appimage") {
        let mut out = String::from_str("lib/");
        out.append(main_binary_name);
        Ok(out)
    } else if str_eq(package_format, "deb") || str_eq(package_format, "pacman") {
        let mut out = String::from_str("/usr/lib/");
        out.append(main_binary_name);
        Ok(out)
    } else {
        Err(Error::UnsupportedFormat)
    }
}

/// Returns the value of the resource-directory environment variable that
/// must be set for the given package format; the format must be one of the
/// six known identifiers.
pub fn makepad_package_dir_value(package_format: &str, main_binary_name: &str) -> (r: String)
    requires
        is_known_format(package_format@),
    ensures
        r@ == package_dir_value_spec(package_format@, main_binary_name@),
{
    match resolve(package_format, main_binary_name) {
        Ok(value) => value,
        Err(_) => String::new(),
    }
}

} // verus!
