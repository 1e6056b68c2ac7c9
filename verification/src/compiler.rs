//! The whole pipeline: source text to HTML, CSS and JavaScript.

use vstd::prelude::*;
use crate::codegen::{
    CodegenError, CodegenErrorView, compile, compiled, CompilerOutput, CompilerOutputView,
};
use crate::parser::{ParseError, ParseErrorView, Parser};

verus! {

/// Why a source text did not compile.
#[derive(Debug, Clone, PartialEq)]
pub enum CompileError {
    /// The text could not be scanned or parsed.
    Parse(ParseError),
    /// The document could not be turned into code.
    Codegen(CodegenError),
}

/// What a [`CompileError`] holds.
pub ghost enum CompileErrorView {
    Parse(ParseErrorView),
    Codegen(CodegenErrorView),
}

impl View for CompileError {
    type V = CompileErrorView;

    open spec fn view(&self) -> CompileErrorView {
        match self {
            CompileError::Parse(e) => CompileErrorView::Parse(e@),
            CompileError::Codegen(e) => CompileErrorView::Codegen(e@),
        }
    }
}

impl CompileError {
    /// The message of the error, without its position.
    pub fn message(&self) -> (r: String)
        ensures
            r@ == match self@ {
                CompileErrorView::Parse(e) => e.message,
                CompileErrorView::Codegen(e) => e.message,
            },
    {
        match self {
            CompileError::Parse(e) => e.message.clone(),
            CompileError::Codegen(e) => e.message.clone(),
        }
    }

    /// The error as one line of text.
    pub fn to_string(&self) -> (r: String)
        ensures
            r@ == match self@ {
                CompileErrorView::Parse(e) => e.rendered(),
                CompileErrorView::Codegen(e) => "Codegen error: "@ + e.message,
            },
    {
        match self {
            CompileError::Parse(e) => e.to_string(),
            CompileError::Codegen(e) => e.to_string(),
        }
    }
}

/// What a source text compiles to. The outcome is a function of the text
/// alone: the first failing stage gives the error, and no stage keeps
/// anything from one text to the next.
pub open spec fn compiled_source(source: Seq<char>) -> Result<CompilerOutputView, CompileErrorView> {
    match crate::parser::grammar::parse(source) {
        Err(e) => Err(CompileErrorView::Parse(e)),
        Ok(doc) => match compiled(doc) {
            Err(e) => Err(CompileErrorView::Codegen(e)),
            Ok(out) => Ok(out),
        },
    }
}

/// Compiling is a function of the source text: two texts of the same
/// characters compile to the same output, or fail with the same error. No
/// counter and no name survives from one compilation to the next.
pub proof fn lemma_same_source_same_outcome(first: Seq<char>, second: Seq<char>)
    requires
        first == second,
    ensures
        compiled_source(first) == compiled_source(second),
{
}

/// The view of the pipeline's result.
pub open spec fn outcome_view(r: Result<CompilerOutput, CompileError>) -> Result<
    CompilerOutputView,
    CompileErrorView,
> {
    match r {
        Ok(out) => Ok(out@),
        Err(e) => Err(e@),
    }
}

/// Compiles `source`: scans and parses it, and generates the code of the
/// document.
pub fn compile_source(source: &str) -> (r: Result<CompilerOutput, CompileError>)
    ensures
        outcome_view(r) == compiled_source(source@),
{
    let doc = match Parser::parse(source) {
        Ok(doc) => doc,
        Err(e) => {
            return Err(CompileError::Parse(e));
        },
    };
    match compile(&doc) {
        Ok(out) => Ok(out),
        Err(e) => Err(CompileError::Codegen(e)),
    }
}

} // verus!
