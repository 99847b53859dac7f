//! What the file server tries when a file is not there.
use vstd::prelude::*;

verus! {

/// The status that says a resource was not found.
pub const NOT_FOUND: u16 = 404;

/// The address to try next after `uri` was answered with `status`: the same
/// address with `.html` behind it where nothing was found, and none
/// otherwise.
pub fn html_fallback(uri: &str, status: u16) -> (next: Option<String>)
    ensures
        next is Some <==> status == NOT_FOUND,
        next matches Some(address) ==> address@ == uri@ + ".html"@,
{
    if status == NOT_FOUND {
        let mut address = String::from_str(uri);
        address.append(".html");
        Some(address)
    } else {
        None
    }
}

} // verus!
