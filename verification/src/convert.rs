//! The decisions of a conversion. A conversion runs the compiler, reads the
//! file it wrote, parses the markup and maps the document; each function
//! here takes what one of these steps reported and says how the conversion
//! goes on: with the step's value, or with the error that ends it.

use crate::error::{CompileCause, ConvertError};
use crate::node::UiNode;
use crate::remap::{remap, svg_node};
use crate::svg_types::Svg;
use vstd::prelude::*;

verus! {

/// Judges the compiler step. `outcome` is the exit code of the compiler
/// process (`None` where it ended without one), or the reason why the
/// compiler could not be run at all. Only exit code 0 lets the conversion go
/// on.
pub fn after_compile(outcome: Result<Option<i32>, std::io::Error>) -> (result: Result<
    (),
    ConvertError,
>)
    ensures
        result == match outcome {
            Ok(code) => if code == Some(0i32) {
                Ok(())
            } else {
                Err(ConvertError::TypstCompileError(CompileCause::Failed(code)))
            },
            Err(cause) => Err(ConvertError::TypstCompileError(CompileCause::NotStarted(cause))),
        },
{
    match outcome {
        Ok(code) => match code {
            Some(0) => Ok(()),
            _ => Err(ConvertError::TypstCompileError(CompileCause::Failed(code))),
        },
        Err(cause) => Err(ConvertError::TypstCompileError(CompileCause::NotStarted(cause))),
    }
}

/// Judges the read step. The text of the compiled file is handed on as it
/// was read; a failure to read ends the conversion.
pub fn after_read(outcome: Result<String, std::io::Error>) -> (result: Result<
    String,
    ConvertError,
>)
    ensures
        result == match outcome {
            Ok(text) => Ok(text),
            Err(cause) => Err(ConvertError::SvgReadError(cause)),
        },
{
    match outcome {
        Ok(text) => Ok(text),
        Err(cause) => Err(ConvertError::SvgReadError(cause)),
    }
}

/// Judges the parse step and finishes the conversion: a parsed document is
/// mapped to its tree, a parse failure ends the conversion.
pub fn after_parse(outcome: Result<Svg, serde_xml_rs::Error>) -> (result: Result<
    UiNode,
    ConvertError,
>)
    ensures
        match outcome {
            Ok(svg) => result matches Ok(node) && node@ == svg_node(svg@) && node@.well_formed(),
            Err(cause) => result == Err::<UiNode, ConvertError>(ConvertError::SvgParseError(cause)),
        },
{
    match outcome {
        Ok(svg) => Ok(remap(&svg)),
        Err(cause) => Err(ConvertError::SvgParseError(cause)),
    }
}

} // verus!
