//! The headers by which every response names the service and its version.

use vstd::prelude::*;
use vstd::string::StringExecFns;

verus! {

/// A header of a response.
#[derive(Debug)]
pub struct Header {
    pub name: String,
    pub value: String,
}

/// The headers that every response carries: who answers, and in which version.
pub fn version_headers(version: &str) -> (headers: Vec<Header>)
    ensures
        headers@.len() == 2,
        headers@[0].name@ == "X-Powered-By"@,
        headers@[0].value@ == "WARK (https://github.com/wasm-oj/wark)"@,
        headers@[1].name@ == "X-Version"@,
        headers@[1].value@ == version@,
{
    let mut headers: Vec<Header> = Vec::new();
    headers.push(
        Header {
            name: String::from_str("X-Powered-By"),
            value: String::from_str("WARK (https://github.com/wasm-oj/wark)"),
        },
    );
    headers.push(Header { name: String::from_str("X-Version"), value: String::from_str(version) });
    headers
}

} // verus!
