//! The registry's download endpoint: where an archive is asked for, and which
//! answers count as success.

use vstd::prelude::*;
use vstd::string::*;

verus! {

/// The address from which the archive of `name` in `version` is downloaded.
pub open spec fn download_url_of(base: Seq<char>, name: Seq<char>, version: Seq<char>) -> Seq<
    char,
> {
    base + "/crates/"@ + name + "/"@ + version + "/download"@
}

/// The status is one of the success class, 200 to 299.
pub open spec fn is_success_status(status: u16) -> bool {
    200 <= status < 300
}

/// Builds the address from which the archive of `name` in `version` is downloaded.
pub fn download_url(base: &str, name: &str, version: &str) -> (r: String)
    ensures
        r@ == download_url_of(base@, name@, version@),
{
    let mut r = String::from_str(base);
    r.append("/crates/");
    r.append(name);
    r.append("/");
    r.append(version);
    r.append("/download");
    r
}

/// Tells whether an HTTP status reports success.
pub fn is_success(status: u16) -> (r: bool)
    ensures
        r == is_success_status(status),
{
    200 <= status && status < 300
}

} // verus!
