//! Method calls of the GNOME Shell search provider D-Bus interface
//! `org.gnome.Shell.SearchProvider2`.
//!
//! The parameters of a call arrive as a D-Bus variant; `CallParams` holds the
//! shapes of tuples the interface uses, already decoded.
use vstd::prelude::*;

use crate::text::str_eq;

verus! {

/// The name of the interface.
pub const INTERFACE_NAME: &'static str = "org.gnome.Shell.SearchProvider2";

/// The decoded parameters of a call, by the type of the parameter tuple.
#[derive(Debug)]
pub enum CallParams {
    /// `(as)`
    Strings(Vec<String>),
    /// `(asas)`
    TwoStringLists(Vec<String>, Vec<String>),
    /// `(sasu)`
    StringStringsU32(String, Vec<String>, u32),
    /// `(asu)`
    StringsU32(Vec<String>, u32),
    /// Any other type.
    Other,
}

#[derive(Debug)]
pub struct GetInitialResultSet {
    pub terms: Vec<String>,
}

#[derive(Debug)]
pub struct GetSubsearchResultSet {
    pub previous_results: Vec<String>,
    pub terms: Vec<String>,
}

#[derive(Debug)]
pub struct GetResultMetas {
    pub identifiers: Vec<String>,
}

#[derive(Debug)]
pub struct ActivateResult {
    pub identifier: String,
    pub terms: Vec<String>,
    pub timestamp: u32,
}

#[derive(Debug)]
pub struct LaunchSearch {
    pub terms: Vec<String>,
    pub timestamp: u32,
}

/// Method calls a search provider supports.
#[derive(Debug)]
pub enum MethodCall {
    GetInitialResultSet(GetInitialResultSet),
    GetSubsearchResultSet(GetSubsearchResultSet),
    GetResultMetas(GetResultMetas),
    ActivateResult(ActivateResult),
    LaunchSearch(LaunchSearch),
}

/// Why a call was refused; all of these are invalid-argument errors.
#[derive(Clone, Copy, Debug, PartialEq, Eq, Structural)]
pub enum MethodCallError {
    UnexpectedInterface,
    UnexpectedMethod,
    InvalidParameters,
}

impl MethodCallError {
    /// The message the error carries.
    pub fn message(&self) -> (r: &'static str)
        ensures
            *self == MethodCallError::UnexpectedInterface ==> r@ == "Unexpected interface"@,
            *self == MethodCallError::UnexpectedMethod ==> r@ == "Unexpected method"@,
            *self == MethodCallError::InvalidParameters ==> r@ == "Invalid parameters for method"@,
    {
        match self {
            MethodCallError::UnexpectedInterface => "Unexpected interface",
            MethodCallError::UnexpectedMethod => "Unexpected method",
            MethodCallError::InvalidParameters => "Invalid parameters for method",
        }
    }
}

/// Whether `m` names one of the methods of the interface.
pub open spec fn is_known_method(m: Seq<char>) -> bool {
    ||| m == "GetInitialResultSet"@
    ||| m == "GetSubsearchResultSet"@
    ||| m == "GetResultMetas"@
    ||| m == "ActivateResult"@
    ||| m == "LaunchSearch"@
}

impl MethodCall {
    /// Parse a call of `method` on `interface` with `params`.
    pub fn parse_call(interface: Option<&str>, method: &str, params: CallParams) -> (r: Result<
        MethodCall,
        MethodCallError,
    >)
        ensures
            !(interface matches Some(i) && i@ == INTERFACE_NAME@) ==> r == Err::<
                MethodCall,
                MethodCallError,
            >(MethodCallError::UnexpectedInterface),
            interface matches Some(i) && i@ == INTERFACE_NAME@ ==> {
                &&& !is_known_method(method@) ==> r == Err::<MethodCall, MethodCallError>(
                    MethodCallError::UnexpectedMethod,
                )
                &&& method@ == "GetInitialResultSet"@ ==> match params {
                    CallParams::Strings(terms) => r matches Ok(MethodCall::GetInitialResultSet(c))
                        && c.terms == terms,
                    _ => r == Err::<MethodCall, MethodCallError>(
                        MethodCallError::InvalidParameters,
                    ),
                }
                &&& method@ == "GetSubsearchResultSet"@ ==> match params {
                    CallParams::TwoStringLists(previous, terms) => r matches Ok(
                        MethodCall::GetSubsearchResultSet(c),
                    ) && c.previous_results == previous && c.terms == terms,
                    _ => r == Err::<MethodCall, MethodCallError>(
                        MethodCallError::InvalidParameters,
                    ),
                }
                &&& method@ == "GetResultMetas"@ ==> match params {
                    CallParams::Strings(ids) => r matches Ok(MethodCall::GetResultMetas(c))
                        && c.identifiers == ids,
                    _ => r == Err::<MethodCall, MethodCallError>(
                        MethodCallError::InvalidParameters,
                    ),
                }
                &&& method@ == "ActivateResult"@ ==> match params {
                    CallParams::StringStringsU32(id, terms, t) => r matches Ok(
                        MethodCall::ActivateResult(c),
                    ) && c.identifier == id && c.terms == terms && c.timestamp == t,
                    _ => r == Err::<MethodCall, MethodCallError>(
                        MethodCallError::InvalidParameters,
                    ),
                }
                &&& method@ == "LaunchSearch"@ ==> match params {
                    CallParams::StringsU32(terms, t) => r matches Ok(MethodCall::LaunchSearch(c))
                        && c.terms == terms && c.timestamp == t,
                    _ => r == Err::<MethodCall, MethodCallError>(
                        MethodCallError::InvalidParameters,
                    ),
                }
            },
    {
        let expected = match interface {
            Some(i) => str_eq(i, INTERFACE_NAME),
            None => false,
        };
        if !expected {
            return Err(MethodCallError::UnexpectedInterface);
        }
        proof {
            reveal_strlit("GetInitialResultSet");
            reveal_strlit("GetSubsearchResultSet");
            reveal_strlit("GetResultMetas");
            reveal_strlit("ActivateResult");
            reveal_strlit("LaunchSearch");
            assert("GetInitialResultSet"@.len() == 19);
            assert("GetSubsearchResultSet"@.len() == 21);
            assert("GetResultMetas"@.len() == 14);
            assert("ActivateResult"@.len() == 14);
            assert("LaunchSearch"@.len() == 12);
            assert("GetResultMetas"@[0] != "ActivateResult"@[0]);
        }
        if str_eq(method, "GetInitialResultSet") {
            match params {
                CallParams::Strings(terms) => Ok(
                    MethodCall::GetInitialResultSet(GetInitialResultSet { terms }),
                ),
                _ => Err(MethodCallError::InvalidParameters),
            }
        } else if str_eq(method, "GetSubsearchResultSet") {
            match params {
                CallParams::TwoStringLists(previous_results, terms) => Ok(
                    MethodCall::GetSubsearchResultSet(
                        GetSubsearchResultSet { previous_results, terms },
                    ),
                ),
                _ => Err(MethodCallError::InvalidParameters),
            }
        } else if str_eq(method, "GetResultMetas") {
            match params {
                CallParams::Strings(identifiers) => Ok(
                    MethodCall::GetResultMetas(GetResultMetas { identifiers }),
                ),
                _ => Err(MethodCallError::InvalidParameters),
            }
        } else if str_eq(method, "ActivateResult") {
            match params {
                CallParams::StringStringsU32(identifier, terms, timestamp) => Ok(
                    MethodCall::ActivateResult(ActivateResult { identifier, terms, timestamp }),
                ),
                _ => Err(MethodCallError::InvalidParameters),
            }
        } else if str_eq(method, "LaunchSearch") {
            match params {
                CallParams::StringsU32(terms, timestamp) => Ok(
                    MethodCall::LaunchSearch(LaunchSearch { terms, timestamp }),
                ),
                _ => Err(MethodCallError::InvalidParameters),
            }
        } else {
            Err(MethodCallError::UnexpectedMethod)
        }
    }
}

} // verus!
