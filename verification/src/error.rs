//! The one error type of a conversion, and the three ways a conversion fails.

use vstd::prelude::*;

verus! {

/// `serde_xml_rs::Error`, the cause that the markup parser reports. Nothing is
/// claimed of its contents: the library only carries it.
#[verifier::external_type_specification]
#[verifier::external_body]
pub struct ExXmlError(serde_xml_rs::Error);

/// `std::io::Error`, the cause that the operating system reports. Nothing is
/// claimed of its contents: the library only carries it.
#[verifier::external_type_specification]
#[verifier::external_body]
pub struct ExIoError(std::io::Error);

/// Why the compiler step failed.
#[derive(Debug)]
pub enum CompileCause {
    /// The compiler could not be run at all.
    NotStarted(std::io::Error),
    /// The compiler ran and reported failure; the exit code where there is one.
    Failed(Option<i32>),
}

/// A failed conversion. Each kind carries the cause that the failing step
/// reported.
#[derive(Debug)]
pub enum ConvertError {
    /// The markup does not fit the object model.
    SvgParseError(serde_xml_rs::Error),
    /// The compiler could not be started, or reported failure.
    TypstCompileError(CompileCause),
    /// The compiled file could not be opened or read.
    SvgReadError(std::io::Error),
}

} // verus!
