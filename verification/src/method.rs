//! The registry of compression methods: a closed enumeration and the
//! two-way mapping between its variants and their 16-bit on-disk codes.

use vstd::prelude::*;

verus! {

/// Compression method of an archive entry.
#[derive(Debug, Clone, Copy, PartialEq, Eq, Structural)]
pub enum Method {
    /// No compression (code 0).
    Store,
    /// DEFLATE (code 8).
    Deflate,
    /// bzip2 (code 12).
    BZIP2,
    /// LZMA (code 14).
    LZMA,
}

/// A method code that is well formed but outside the registry.
#[derive(Debug, Clone, Copy, PartialEq, Eq, Structural)]
pub struct UnsupportedMethod {
    /// The code that was looked up.
    pub code: u16,
}

/// The on-disk code of each method.
pub open spec fn method_code(method: Method) -> u16 {
    match method {
        Method::Store => 0,
        Method::Deflate => 8,
        Method::BZIP2 => 12,
        Method::LZMA => 14,
    }
}

/// Whether `code` names a method of the registry.
pub open spec fn is_supported_code(code: u16) -> bool {
    code == 0 || code == 8 || code == 12 || code == 14
}

/// The method that `code` names, if the registry holds one.
pub open spec fn method_for_code(code: u16) -> Option<Method> {
    if code == 0 {
        Some(Method::Store)
    } else if code == 8 {
        Some(Method::Deflate)
    } else if code == 12 {
        Some(Method::BZIP2)
    } else if code == 14 {
        Some(Method::LZMA)
    } else {
        None
    }
}

/// What a lookup of `code` returns: the method, or the code handed back as
/// an error.
pub open spec fn lookup(code: u16) -> Result<Method, UnsupportedMethod> {
    match method_for_code(code) {
        Some(method) => Ok(method),
        None => Err(UnsupportedMethod { code }),
    }
}

/// Returns the 16-bit on-disk code of `method`.
pub fn code_of(method: Method) -> (code: u16)
    ensures
        code == method_code(method),
        is_supported_code(code),
        lookup(code) == Ok::<Method, UnsupportedMethod>(method),
{
    match method {
        Method::Store => 0,
        Method::Deflate => 8,
        Method::BZIP2 => 12,
        Method::LZMA => 14,
    }
}

/// Looks up the method with the on-disk code `code`.
///
/// A code outside the registry is reported, never mapped to a default.
pub fn method_of(code: u16) -> (found: Result<Method, UnsupportedMethod>)
    ensures
        found == lookup(code),
        found is Ok <==> is_supported_code(code),
        found matches Ok(method) ==> method_code(method) == code,
        found matches Err(e) ==> e.code == code,
{
    if code == 0 {
        Ok(Method::Store)
    } else if code == 8 {
        Ok(Method::Deflate)
    } else if code == 12 {
        Ok(Method::BZIP2)
    } else if code == 14 {
        Ok(Method::LZMA)
    } else {
        Err(UnsupportedMethod { code })
    }
}

/// Every method is found again under its own code.
pub proof fn lemma_code_then_lookup(method: Method)
    ensures
        is_supported_code(method_code(method)),
        lookup(method_code(method)) == Ok::<Method, UnsupportedMethod>(method),
{
}

/// Going through the registry twice changes nothing: for a supported code,
/// looking up the code of the method found gives that method again.
pub proof fn lemma_registry_round_trip(code: u16)
    requires
        is_supported_code(code),
    ensures
        lookup(code) is Ok,
        lookup(method_code(lookup(code)->Ok_0)) == lookup(code),
{
}

/// A code outside the registry is always refused, with the code in the error.
pub proof fn lemma_unsupported_code_refused(code: u16)
    requires
        !is_supported_code(code),
    ensures
        lookup(code) == Err::<Method, UnsupportedMethod>(UnsupportedMethod { code }),
{
}

} // verus!
