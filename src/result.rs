//! The outcome channel of evaluation: errors, and the `break` / `return`
//! signals that travel with them.
use vstd::prelude::*;
use vstd::string::StringExecFns;

use crate::any::Dynamic;
use crate::position::Position;
use crate::text::{decimal, push_decimal, push_signed_decimal, signed_decimal};

verus! {

/// The integer type of scripts.
pub type INT = i64;

/// A grammar error: its description, and where in the script it occurred.
#[derive(Debug)]
pub struct ParseError(pub String, pub Position);

impl ParseError {
    /// The description of the error.
    pub fn desc(&self) -> (r: &str)
        ensures
            r@ == self.0@,
    {
        self.0.as_str()
    }

    /// Where the error occurred.
    pub fn position(&self) -> (r: Position)
        ensures
            r == self.1,
    {
        self.1
    }
}

/// Evaluation result.
///
/// All wrapped `Position` values represent the location in the script where
/// the error occurs.
#[derive(Debug)]
pub enum EvalAltResult {
    /// Syntax error.
    ErrorParsing(ParseError),
    /// Call to an unknown function. Wrapped value is the name of the function.
    ErrorFunctionNotFound(String, Position),
    /// Function call has incorrect number of arguments: the name of the
    /// function, the number of parameters required and the number of arguments
    /// passed.
    ErrorFunctionArgsMismatch(String, usize, usize, Position),
    /// Non-boolean operand for a boolean operator. Wrapped value is the operator.
    ErrorBooleanArgMismatch(String, Position),
    /// Non-character value where a character is required.
    ErrorCharMismatch(Position),
    /// Array access out of bounds: the number of elements and the index.
    ErrorArrayBounds(usize, INT, Position),
    /// String indexing out of bounds: the number of characters and the index.
    ErrorStringBounds(usize, INT, Position),
    /// Indexing into a type that is neither an array nor a string.
    ErrorIndexingType(String, Position),
    /// Indexing with an index that is not an integer.
    ErrorIndexExpr(Position),
    /// The guard of an `if` or `while` is not a boolean.
    ErrorLogicGuard(Position),
    /// The `for` statement meets a value that cannot be iterated.
    ErrorFor(Position),
    /// Use of an unknown variable. Wrapped value is its name.
    ErrorVariableNotFound(String, Position),
    /// Assignment to an unsupported left-hand side.
    ErrorAssignmentToUnknownLHS(Position),
    /// Assignment to a constant. Wrapped value is its name.
    ErrorAssignmentToConstant(String, Position),
    /// The result is not of the required output type. Wrapped value is the
    /// name of the type of the actual result.
    ErrorMismatchOutputType(String, Position),
    /// A script file could not be read: its path and the I/O failure.
    ErrorReadingScriptFile(String, String),
    /// Malformed member access, with its detail.
    ErrorDotExpr(String, Position),
    /// Arithmetic error. Wrapped value is the message.
    ErrorArithmetic(String, Position),
    /// The call stack went over its limit.
    ErrorStackOverflow(Position),
    /// Run-time error. Wrapped value is the message.
    ErrorRuntime(String, Position),
    /// Breaking out of loops: not an error inside a loop.
    ErrorLoopBreak(Position),
    /// Not an error: a value returned by the `return` keyword.
    Return(Dynamic, Position),
}

/// The text ` (<position>)` that closes a rendered error.
pub open spec fn at_text(pos: Position) -> Seq<char> {
    " ("@ + pos.text() + ")"@
}

fn push_at(out: &mut String, pos: &Position)
    ensures
        final(out)@ == old(out)@ + at_text(*pos),
{
    out.append(" (");
    pos.write_to(out);
    out.append(")");
    assert(final(out)@ =~= old(out)@ + at_text(*pos));
}

impl EvalAltResult {
    /// The short description of this kind of outcome.
    pub open spec fn spec_desc(&self) -> Seq<char> {
        match self {
            EvalAltResult::ErrorParsing(p) => p.0@,
            EvalAltResult::ErrorFunctionNotFound(..) => "Function not found"@,
            EvalAltResult::ErrorFunctionArgsMismatch(..) => "Function call with wrong number of arguments"@,
            EvalAltResult::ErrorBooleanArgMismatch(..) => "Boolean operator expects boolean operands"@,
            EvalAltResult::ErrorCharMismatch(..) => "Character expected"@,
            EvalAltResult::ErrorIndexExpr(..) => "Indexing into an array or string expects an integer index"@,
            EvalAltResult::ErrorIndexingType(..) => "Indexing can only be performed on an array or a string"@,
            EvalAltResult::ErrorArrayBounds(len, index, _) => {
                if index < 0 {
                    "Array access expects non-negative index"@
                } else if len == 0 {
                    "Access of empty array"@
                } else {
                    "Array index out of bounds"@
                }
            },
            EvalAltResult::ErrorStringBounds(len, index, _) => {
                if index < 0 {
                    "Indexing a string expects a non-negative index"@
                } else if len == 0 {
                    "Indexing of empty string"@
                } else {
                    "String index out of bounds"@
                }
            },
            EvalAltResult::ErrorLogicGuard(..) => "Boolean expression expected"@,
            EvalAltResult::ErrorFor(..) => "For loop expects array or range"@,
            EvalAltResult::ErrorVariableNotFound(..) => "Variable not found"@,
            EvalAltResult::ErrorAssignmentToUnknownLHS(..) => "Assignment to an unsupported left-hand side expression"@,
            EvalAltResult::ErrorAssignmentToConstant(..) => "Assignment to a constant variable"@,
            EvalAltResult::ErrorMismatchOutputType(..) => "Output type is incorrect"@,
            EvalAltResult::ErrorReadingScriptFile(..) => "Cannot read from script file"@,
            EvalAltResult::ErrorDotExpr(..) => "Malformed dot expression"@,
            EvalAltResult::ErrorArithmetic(..) => "Arithmetic error"@,
            EvalAltResult::ErrorStackOverflow(..) => "Stack overflow"@,
            EvalAltResult::ErrorRuntime(..) => "Runtime error"@,
            EvalAltResult::ErrorLoopBreak(..) => "Break statement not inside a loop"@,
            EvalAltResult::Return(..) => "[Not Error] Function returns value"@,
        }
    }

    /// The short, stable description of this kind of outcome.
    pub fn desc(&self) -> (r: &str)
        ensures
            r@ == self.spec_desc(),
    {
        match self {
            EvalAltResult::ErrorParsing(p) => p.desc(),
            EvalAltResult::ErrorFunctionNotFound(..) => "Function not found",
            EvalAltResult::ErrorFunctionArgsMismatch(..) => "Function call with wrong number of arguments",
            EvalAltResult::ErrorBooleanArgMismatch(..) => "Boolean operator expects boolean operands",
            EvalAltResult::ErrorCharMismatch(..) => "Character expected",
            EvalAltResult::ErrorIndexExpr(..) => "Indexing into an array or string expects an integer index",
            EvalAltResult::ErrorIndexingType(..) => "Indexing can only be performed on an array or a string",
            EvalAltResult::ErrorArrayBounds(len, index, _) => {
                if *index < 0 {
                    "Array access expects non-negative index"
                } else if *len == 0 {
                    "Access of empty array"
                } else {
                    "Array index out of bounds"
                }
            },
            EvalAltResult::ErrorStringBounds(len, index, _) => {
                if *index < 0 {
                    "Indexing a string expects a non-negative index"
                } else if *len == 0 {
                    "Indexing of empty string"
                } else {
                    "String index out of bounds"
                }
            },
            EvalAltResult::ErrorLogicGuard(..) => "Boolean expression expected",
            EvalAltResult::ErrorFor(..) => "For loop expects array or range",
            EvalAltResult::ErrorVariableNotFound(..) => "Variable not found",
            EvalAltResult::ErrorAssignmentToUnknownLHS(..) => "Assignment to an unsupported left-hand side expression",
            EvalAltResult::ErrorAssignmentToConstant(..) => "Assignment to a constant variable",
            EvalAltResult::ErrorMismatchOutputType(..) => "Output type is incorrect",
            EvalAltResult::ErrorReadingScriptFile(..) => "Cannot read from script file",
            EvalAltResult::ErrorDotExpr(..) => "Malformed dot expression",
            EvalAltResult::ErrorArithmetic(..) => "Arithmetic error",
            EvalAltResult::ErrorStackOverflow(..) => "Stack overflow",
            EvalAltResult::ErrorRuntime(..) => "Runtime error",
            EvalAltResult::ErrorLoopBreak(..) => "Break statement not inside a loop",
            EvalAltResult::Return(..) => "[Not Error] Function returns value",
        }
    }
}

impl EvalAltResult {
    /// The full human-readable text of this outcome, with its position.
    pub open spec fn rendered(&self) -> Seq<char> {
        let desc = self.spec_desc();
        match self {
            EvalAltResult::ErrorFunctionNotFound(s, pos) => desc + ": '"@ + s@ + "'"@ + at_text(*pos),
            EvalAltResult::ErrorVariableNotFound(s, pos) => desc + ": '"@ + s@ + "'"@ + at_text(*pos),
            EvalAltResult::ErrorAssignmentToConstant(s, pos) => desc + ": '"@ + s@ + "'"@ + at_text(*pos),
            EvalAltResult::ErrorMismatchOutputType(s, pos) => desc + ": "@ + s@ + at_text(*pos),
            EvalAltResult::ErrorIndexingType(_, pos) => desc + at_text(*pos),
            EvalAltResult::ErrorIndexExpr(pos) => desc + at_text(*pos),
            EvalAltResult::ErrorLogicGuard(pos) => desc + at_text(*pos),
            EvalAltResult::ErrorFor(pos) => desc + at_text(*pos),
            EvalAltResult::ErrorAssignmentToUnknownLHS(pos) => desc + at_text(*pos),
            EvalAltResult::ErrorStackOverflow(pos) => desc + at_text(*pos),
            EvalAltResult::ErrorLoopBreak(pos) => desc + at_text(*pos),
            EvalAltResult::Return(_, pos) => desc + at_text(*pos),
            EvalAltResult::ErrorDotExpr(s, pos) => {
                if s@.len() > 0 {
                    desc + " "@ + s@ + at_text(*pos)
                } else {
                    desc + at_text(*pos)
                }
            },
            EvalAltResult::ErrorArithmetic(s, pos) => s@ + at_text(*pos),
            EvalAltResult::ErrorRuntime(s, pos) => {
                if s@.len() > 0 {
                    s@ + at_text(*pos)
                } else {
                    desc + at_text(*pos)
                }
            },
            EvalAltResult::ErrorReadingScriptFile(path, err) => desc + " '"@ + path@ + "': "@ + err@,
            EvalAltResult::ErrorParsing(p) => "Syntax error: "@ + p.0@ + at_text(p.1),
            EvalAltResult::ErrorFunctionArgsMismatch(fun, need, n, pos) => {
                if need == 0 {
                    "Function '"@ + fun@ + "' expects no argument but "@ + decimal(n as nat)
                        + " found"@ + at_text(*pos)
                } else if need == 1 {
                    "Function '"@ + fun@ + "' expects one argument but "@ + decimal(n as nat)
                        + " found"@ + at_text(*pos)
                } else {
                    "Function '"@ + fun@ + "' expects "@ + decimal(need as nat) + " argument(s) but "@
                        + decimal(n as nat) + " found"@ + at_text(*pos)
                }
            },
            EvalAltResult::ErrorBooleanArgMismatch(op, pos) => op@ + " operator expects boolean operands"@
                + at_text(*pos),
            EvalAltResult::ErrorCharMismatch(pos) => "string indexing expects a character value"@ + at_text(
                *pos,
            ),
            EvalAltResult::ErrorArrayBounds(len, index, pos) => {
                if index < 0 {
                    desc + ": "@ + signed_decimal(index as int) + " < 0"@ + at_text(*pos)
                } else if len == 0 {
                    desc + at_text(*pos)
                } else if len == 1 {
                    "Array index "@ + signed_decimal(index as int)
                        + " is out of bounds: only one element in the array"@ + at_text(*pos)
                } else {
                    "Array index "@ + signed_decimal(index as int) + " is out of bounds: only "@
                        + decimal(len as nat) + " elements in the array"@ + at_text(*pos)
                }
            },
            EvalAltResult::ErrorStringBounds(len, index, pos) => {
                if index < 0 {
                    desc + ": "@ + signed_decimal(index as int) + " < 0"@ + at_text(*pos)
                } else if len == 0 {
                    desc + at_text(*pos)
                } else if len == 1 {
                    "String index "@ + signed_decimal(index as int)
                        + " is out of bounds: only one character in the string"@ + at_text(*pos)
                } else {
                    "String index "@ + signed_decimal(index as int) + " is out of bounds: only "@
                        + decimal(len as nat) + " characters in the string"@ + at_text(*pos)
                }
            },
        }
    }

    /// The full human-readable text of this outcome, with its position.
    pub fn render(&self) -> (r: String)
        ensures
            r@ == self.rendered(),
    {
        let desc = self.desc();
        let mut out = String::new();
        match self {
            EvalAltResult::ErrorFunctionNotFound(s, pos)
            | EvalAltResult::ErrorVariableNotFound(s, pos)
            | EvalAltResult::ErrorAssignmentToConstant(s, pos) => {
                out.append(desc);
                out.append(": '");
                out.append(s.as_str());
                out.append("'");
                push_at(&mut out, pos);
            },
            EvalAltResult::ErrorMismatchOutputType(s, pos) => {
                out.append(desc);
                out.append(": ");
                out.append(s.as_str());
                push_at(&mut out, pos);
            },
            EvalAltResult::ErrorIndexingType(_, pos)
            | EvalAltResult::ErrorIndexExpr(pos)
            | EvalAltResult::ErrorLogicGuard(pos)
            | EvalAltResult::ErrorFor(pos)
            | EvalAltResult::ErrorAssignmentToUnknownLHS(pos)
            | EvalAltResult::ErrorStackOverflow(pos)
            | EvalAltResult::ErrorLoopBreak(pos)
            | EvalAltResult::Return(_, pos) => {
                out.append(desc);
                push_at(&mut out, pos);
            },
            EvalAltResult::ErrorDotExpr(s, pos) => {
                out.append(desc);
                if !s.as_str().is_empty() {
                    out.append(" ");
                    out.append(s.as_str());
                }
                push_at(&mut out, pos);
            },
            EvalAltResult::ErrorArithmetic(s, pos) => {
                out.append(s.as_str());
                push_at(&mut out, pos);
            },
            EvalAltResult::ErrorRuntime(s, pos) => {
                if s.as_str().is_empty() {
                    out.append(desc);
                } else {
                    out.append(s.as_str());
                }
                push_at(&mut out, pos);
            },
            EvalAltResult::ErrorReadingScriptFile(path, err) => {
                out.append(desc);
                out.append(" '");
                out.append(path.as_str());
                out.append("': ");
                out.append(err.as_str());
            },
            EvalAltResult::ErrorParsing(p) => {
                out.append("Syntax error: ");
                out.append(p.desc());
                push_at(&mut out, &p.1);
            },
            EvalAltResult::ErrorFunctionArgsMismatch(fun, need, n, pos) => {
                out.append("Function '");
                out.append(fun.as_str());
                if *need == 0 {
                    out.append("' expects no argument but ");
                } else if *need == 1 {
                    out.append("' expects one argument but ");
                } else {
                    out.append("' expects ");
                    push_decimal(&mut out, *need as u64);
                    out.append(" argument(s) but ");
                }
                push_decimal(&mut out, *n as u64);
                out.append(" found");
                push_at(&mut out, pos);
            },
            EvalAltResult::ErrorBooleanArgMismatch(op, pos) => {
                out.append(op.as_str());
                out.append(" operator expects boolean operands");
                push_at(&mut out, pos);
            },
            EvalAltResult::ErrorCharMismatch(pos) => {
                out.append("string indexing expects a character value");
                push_at(&mut out, pos);
            },
            EvalAltResult::ErrorArrayBounds(len, index, pos) => {
                if *index < 0 {
                    out.append(desc);
                    out.append(": ");
                    push_signed_decimal(&mut out, *index);
                    out.append(" < 0");
                } else if *len == 0 {
                    out.append(desc);
                } else {
                    out.append("Array index ");
                    push_signed_decimal(&mut out, *index);
                    if *len == 1 {
                        out.append(" is out of bounds: only one element in the array");
                    } else {
                        out.append(" is out of bounds: only ");
                        push_decimal(&mut out, *len as u64);
                        out.append(" elements in the array");
                    }
                }
                push_at(&mut out, pos);
            },
            EvalAltResult::ErrorStringBounds(len, index, pos) => {
                if *index < 0 {
                    out.append(desc);
                    out.append(": ");
                    push_signed_decimal(&mut out, *index);
                    out.append(" < 0");
                } else if *len == 0 {
                    out.append(desc);
                } else {
                    out.append("String index ");
                    push_signed_decimal(&mut out, *index);
                    if *len == 1 {
                        out.append(" is out of bounds: only one character in the string");
                    } else {
                        out.append(" is out of bounds: only ");
                        push_decimal(&mut out, *len as u64);
                        out.append(" characters in the string");
                    }
                }
                push_at(&mut out, pos);
            },
        }
        assert(out@ =~= self.rendered());
        out
    }
}

impl EvalAltResult {
    /// The position attached to this outcome.
    pub open spec fn spec_position(&self) -> Position {
        match self {
            EvalAltResult::ErrorReadingScriptFile(..) => Position::Unknown,
            EvalAltResult::ErrorParsing(p) => p.1,
            EvalAltResult::ErrorFunctionNotFound(_, pos)
            | EvalAltResult::ErrorFunctionArgsMismatch(_, _, _, pos)
            | EvalAltResult::ErrorBooleanArgMismatch(_, pos)
            | EvalAltResult::ErrorCharMismatch(pos)
            | EvalAltResult::ErrorArrayBounds(_, _, pos)
            | EvalAltResult::ErrorStringBounds(_, _, pos)
            | EvalAltResult::ErrorIndexingType(_, pos)
            | EvalAltResult::ErrorIndexExpr(pos)
            | EvalAltResult::ErrorLogicGuard(pos)
            | EvalAltResult::ErrorFor(pos)
            | EvalAltResult::ErrorVariableNotFound(_, pos)
            | EvalAltResult::ErrorAssignmentToUnknownLHS(pos)
            | EvalAltResult::ErrorAssignmentToConstant(_, pos)
            | EvalAltResult::ErrorMismatchOutputType(_, pos)
            | EvalAltResult::ErrorDotExpr(_, pos)
            | EvalAltResult::ErrorArithmetic(_, pos)
            | EvalAltResult::ErrorStackOverflow(pos)
            | EvalAltResult::ErrorRuntime(_, pos)
            | EvalAltResult::ErrorLoopBreak(pos)
            | EvalAltResult::Return(_, pos) => *pos,
        }
    }

    /// This outcome with its position replaced by `pos`; a script file error
    /// carries no position and is returned unchanged.
    pub open spec fn with_position(self, pos: Position) -> EvalAltResult {
        match self {
            EvalAltResult::ErrorReadingScriptFile(..) => self,
            EvalAltResult::ErrorParsing(p) => EvalAltResult::ErrorParsing(ParseError(p.0, pos)),
            EvalAltResult::ErrorFunctionNotFound(s, _) => EvalAltResult::ErrorFunctionNotFound(s, pos),
            EvalAltResult::ErrorFunctionArgsMismatch(s, need, n, _) => EvalAltResult::ErrorFunctionArgsMismatch(s, need, n, pos),
            EvalAltResult::ErrorBooleanArgMismatch(s, _) => EvalAltResult::ErrorBooleanArgMismatch(s, pos),
            EvalAltResult::ErrorCharMismatch(_) => EvalAltResult::ErrorCharMismatch(pos),
            EvalAltResult::ErrorArrayBounds(len, index, _) => EvalAltResult::ErrorArrayBounds(len, index, pos),
            EvalAltResult::ErrorStringBounds(len, index, _) => EvalAltResult::ErrorStringBounds(len, index, pos),
            EvalAltResult::ErrorIndexingType(s, _) => EvalAltResult::ErrorIndexingType(s, pos),
            EvalAltResult::ErrorIndexExpr(_) => EvalAltResult::ErrorIndexExpr(pos),
            EvalAltResult::ErrorLogicGuard(_) => EvalAltResult::ErrorLogicGuard(pos),
            EvalAltResult::ErrorFor(_) => EvalAltResult::ErrorFor(pos),
            EvalAltResult::ErrorVariableNotFound(s, _) => EvalAltResult::ErrorVariableNotFound(s, pos),
            EvalAltResult::ErrorAssignmentToUnknownLHS(_) => EvalAltResult::ErrorAssignmentToUnknownLHS(pos),
            EvalAltResult::ErrorAssignmentToConstant(s, _) => EvalAltResult::ErrorAssignmentToConstant(s, pos),
            EvalAltResult::ErrorMismatchOutputType(s, _) => EvalAltResult::ErrorMismatchOutputType(s, pos),
            EvalAltResult::ErrorDotExpr(s, _) => EvalAltResult::ErrorDotExpr(s, pos),
            EvalAltResult::ErrorArithmetic(s, _) => EvalAltResult::ErrorArithmetic(s, pos),
            EvalAltResult::ErrorStackOverflow(_) => EvalAltResult::ErrorStackOverflow(pos),
            EvalAltResult::ErrorRuntime(s, _) => EvalAltResult::ErrorRuntime(s, pos),
            EvalAltResult::ErrorLoopBreak(_) => EvalAltResult::ErrorLoopBreak(pos),
            EvalAltResult::Return(v, _) => EvalAltResult::Return(v, pos),
        }
    }

    /// The position attached to this outcome; `Position::none()` for a script
    /// file error.
    pub fn position(&self) -> (r: Position)
        ensures
            r == self.spec_position(),
    {
        match self {
            EvalAltResult::ErrorReadingScriptFile(..) => Position::none(),
            EvalAltResult::ErrorParsing(p) => p.position(),
            EvalAltResult::ErrorFunctionNotFound(_, pos)
            | EvalAltResult::ErrorFunctionArgsMismatch(_, _, _, pos)
            | EvalAltResult::ErrorBooleanArgMismatch(_, pos)
            | EvalAltResult::ErrorCharMismatch(pos)
            | EvalAltResult::ErrorArrayBounds(_, _, pos)
            | EvalAltResult::ErrorStringBounds(_, _, pos)
            | EvalAltResult::ErrorIndexingType(_, pos)
            | EvalAltResult::ErrorIndexExpr(pos)
            | EvalAltResult::ErrorLogicGuard(pos)
            | EvalAltResult::ErrorFor(pos)
            | EvalAltResult::ErrorVariableNotFound(_, pos)
            | EvalAltResult::ErrorAssignmentToUnknownLHS(pos)
            | EvalAltResult::ErrorAssignmentToConstant(_, pos)
            | EvalAltResult::ErrorMismatchOutputType(_, pos)
            | EvalAltResult::ErrorDotExpr(_, pos)
            | EvalAltResult::ErrorArithmetic(_, pos)
            | EvalAltResult::ErrorStackOverflow(pos)
            | EvalAltResult::ErrorRuntime(_, pos)
            | EvalAltResult::ErrorLoopBreak(pos)
            | EvalAltResult::Return(_, pos) => *pos,
        }
    }

    /// This outcome with its position replaced, known or not.
    fn replace_position(self, new_position: Position) -> (r: EvalAltResult)
        ensures
            r == self.with_position(new_position),
    {
        match self {
            EvalAltResult::ErrorReadingScriptFile(..) => self,
            EvalAltResult::ErrorParsing(p) => EvalAltResult::ErrorParsing(ParseError(p.0, new_position)),
            EvalAltResult::ErrorFunctionNotFound(s, _) => EvalAltResult::ErrorFunctionNotFound(s, new_position),
            EvalAltResult::ErrorFunctionArgsMismatch(s, need, n, _) => EvalAltResult::ErrorFunctionArgsMismatch(s, need, n, new_position),
            EvalAltResult::ErrorBooleanArgMismatch(s, _) => EvalAltResult::ErrorBooleanArgMismatch(s, new_position),
            EvalAltResult::ErrorCharMismatch(_) => EvalAltResult::ErrorCharMismatch(new_position),
            EvalAltResult::ErrorArrayBounds(len, index, _) => EvalAltResult::ErrorArrayBounds(len, index, new_position),
            EvalAltResult::ErrorStringBounds(len, index, _) => EvalAltResult::ErrorStringBounds(len, index, new_position),
            EvalAltResult::ErrorIndexingType(s, _) => EvalAltResult::ErrorIndexingType(s, new_position),
            EvalAltResult::ErrorIndexExpr(_) => EvalAltResult::ErrorIndexExpr(new_position),
            EvalAltResult::ErrorLogicGuard(_) => EvalAltResult::ErrorLogicGuard(new_position),
            EvalAltResult::ErrorFor(_) => EvalAltResult::ErrorFor(new_position),
            EvalAltResult::ErrorVariableNotFound(s, _) => EvalAltResult::ErrorVariableNotFound(s, new_position),
            EvalAltResult::ErrorAssignmentToUnknownLHS(_) => EvalAltResult::ErrorAssignmentToUnknownLHS(new_position),
            EvalAltResult::ErrorAssignmentToConstant(s, _) => EvalAltResult::ErrorAssignmentToConstant(s, new_position),
            EvalAltResult::ErrorMismatchOutputType(s, _) => EvalAltResult::ErrorMismatchOutputType(s, new_position),
            EvalAltResult::ErrorDotExpr(s, _) => EvalAltResult::ErrorDotExpr(s, new_position),
            EvalAltResult::ErrorArithmetic(s, _) => EvalAltResult::ErrorArithmetic(s, new_position),
            EvalAltResult::ErrorStackOverflow(_) => EvalAltResult::ErrorStackOverflow(new_position),
            EvalAltResult::ErrorRuntime(s, _) => EvalAltResult::ErrorRuntime(s, new_position),
            EvalAltResult::ErrorLoopBreak(_) => EvalAltResult::ErrorLoopBreak(new_position),
            EvalAltResult::Return(v, _) => EvalAltResult::Return(v, new_position),
        }
    }

    /// This outcome once the first enclosing frame that knows the location
    /// has stamped `pos` on it: the position is set only while it is unknown.
    pub open spec fn stamped(self, pos: Position) -> EvalAltResult {
        if self.spec_position() is Unknown {
            self.with_position(pos)
        } else {
            self
        }
    }

    /// Consume this outcome and stamp `new_position` on it if its position is
    /// not known yet; an outcome with a known position is returned unchanged.
    pub fn set_position(self, new_position: Position) -> (r: EvalAltResult)
        ensures
            r == self.stamped(new_position),
    {
        if self.position().is_none() {
            self.replace_position(new_position)
        } else {
            self
        }
    }

    /// Whether this outcome is a control-flow signal (`break` or `return`)
    /// rather than a failure.
    pub fn is_signal(&self) -> (r: bool)
        ensures
            r == (self is ErrorLoopBreak || self is Return),
    {
        match self {
            EvalAltResult::ErrorLoopBreak(_) | EvalAltResult::Return(..) => true,
            _ => false,
        }
    }
}

impl From<ParseError> for EvalAltResult {
    fn from(err: ParseError) -> (r: EvalAltResult) {
        EvalAltResult::ErrorParsing(err)
    }
}

impl vstd::std_specs::convert::FromSpecImpl<ParseError> for EvalAltResult {
    open spec fn obeys_from_spec() -> bool {
        true
    }

    open spec fn from_spec(err: ParseError) -> EvalAltResult {
        EvalAltResult::ErrorParsing(err)
    }
}

impl From<String> for EvalAltResult {
    fn from(err: String) -> (r: EvalAltResult) {
        EvalAltResult::ErrorRuntime(err, Position::none())
    }
}

impl vstd::std_specs::convert::FromSpecImpl<String> for EvalAltResult {
    open spec fn obeys_from_spec() -> bool {
        true
    }

    open spec fn from_spec(err: String) -> EvalAltResult {
        EvalAltResult::ErrorRuntime(err, Position::Unknown)
    }
}

impl From<&str> for EvalAltResult {
    fn from(err: &str) -> (r: EvalAltResult)
        ensures
            r matches EvalAltResult::ErrorRuntime(m, pos) && m@ == err@ && pos is Unknown,
    {
        EvalAltResult::ErrorRuntime(String::from_str(err), Position::none())
    }
}

/// A string holding the text of `err` exists, but which one `from` builds is
/// not fixed, so the exact conversion is stated by `from`'s own `ensures`.
impl vstd::std_specs::convert::FromSpecImpl<&str> for EvalAltResult {
    open spec fn obeys_from_spec() -> bool {
        false
    }

    open spec fn from_spec(err: &str) -> EvalAltResult {
        EvalAltResult::ErrorRuntime(choose|m: String| m@ == err@, Position::Unknown)
    }
}

/// What a loop does once its body has run: `None` to go on with the next
/// iteration, or the result of the whole loop. A `break` ends the loop
/// normally with the unit value; any other error, and a `return`, leave the
/// loop unchanged.
pub fn loop_step(body: Result<Dynamic, EvalAltResult>) -> (r: Option<Result<Dynamic, EvalAltResult>>)
    ensures
        match body {
            Ok(_) => r is None,
            Err(EvalAltResult::ErrorLoopBreak(_)) => r == Some(Ok::<Dynamic, EvalAltResult>(Dynamic::Unit(()))),
            Err(e) => r == Some(Err::<Dynamic, EvalAltResult>(e)),
        },
{
    match body {
        Ok(_) => None,
        Err(EvalAltResult::ErrorLoopBreak(_)) => Some(Ok(Dynamic::Unit(()))),
        Err(e) => Some(Err(e)),
    }
}

/// The result of a function body, or of a whole script: a `return` becomes
/// the returned value; every error, including a `break` that no loop took,
/// passes on unchanged.
pub fn resolve_return(body: Result<Dynamic, EvalAltResult>) -> (r: Result<Dynamic, EvalAltResult>)
    ensures
        match body {
            Err(EvalAltResult::Return(v, _)) => r == Ok::<Dynamic, EvalAltResult>(v),
            _ => r == body,
        },
{
    match body {
        Err(EvalAltResult::Return(v, _)) => Ok(v),
        _ => body,
    }
}

/// How an array-bounds error reads: a negative index is reported as such
/// whatever the length; otherwise an empty array, a single element and
/// several elements each have their own phrasing.
pub proof fn lemma_array_bounds_text(len: usize, index: INT, pos: Position)
    ensures
        index < 0 ==> EvalAltResult::ErrorArrayBounds(len, index, pos).rendered()
            == "Array access expects non-negative index"@ + ": "@ + signed_decimal(index as int)
            + " < 0"@ + at_text(pos),
        index >= 0 && len == 0 ==> EvalAltResult::ErrorArrayBounds(len, index, pos).rendered()
            == "Access of empty array"@ + at_text(pos),
        index >= 0 && len == 1 ==> EvalAltResult::ErrorArrayBounds(len, index, pos).rendered()
            == "Array index "@ + decimal(index as nat)
            + " is out of bounds: only one element in the array"@ + at_text(pos),
        index >= 0 && len > 1 ==> EvalAltResult::ErrorArrayBounds(len, index, pos).rendered()
            == "Array index "@ + decimal(index as nat) + " is out of bounds: only "@
            + decimal(len as nat) + " elements in the array"@ + at_text(pos),
{
}

/// How a string-bounds error reads: a negative index is reported as such
/// whatever the length; otherwise an empty string, a single character and
/// several characters each have their own phrasing.
pub proof fn lemma_string_bounds_text(len: usize, index: INT, pos: Position)
    ensures
        index < 0 ==> EvalAltResult::ErrorStringBounds(len, index, pos).rendered()
            == "Indexing a string expects a non-negative index"@ + ": "@ + signed_decimal(
            index as int,
        ) + " < 0"@ + at_text(pos),
        index >= 0 && len == 0 ==> EvalAltResult::ErrorStringBounds(len, index, pos).rendered()
            == "Indexing of empty string"@ + at_text(pos),
        index >= 0 && len == 1 ==> EvalAltResult::ErrorStringBounds(len, index, pos).rendered()
            == "String index "@ + decimal(index as nat)
            + " is out of bounds: only one character in the string"@ + at_text(pos),
        index >= 0 && len > 1 ==> EvalAltResult::ErrorStringBounds(len, index, pos).rendered()
            == "String index "@ + decimal(index as nat) + " is out of bounds: only "@
            + decimal(len as nat) + " characters in the string"@ + at_text(pos),
{
}

/// How an arity error reads: "no argument" when none is expected, "one
/// argument" when one is, and "N argument(s)" otherwise.
pub proof fn lemma_arity_text(name: String, expected: usize, actual: usize, pos: Position)
    ensures
        expected == 0 ==> EvalAltResult::ErrorFunctionArgsMismatch(name, expected, actual, pos).rendered()
            == "Function '"@ + name@ + "' expects no argument but "@ + decimal(actual as nat)
            + " found"@ + at_text(pos),
        expected == 1 ==> EvalAltResult::ErrorFunctionArgsMismatch(name, expected, actual, pos).rendered()
            == "Function '"@ + name@ + "' expects one argument but "@ + decimal(actual as nat)
            + " found"@ + at_text(pos),
        expected > 1 ==> EvalAltResult::ErrorFunctionArgsMismatch(name, expected, actual, pos).rendered()
            == "Function '"@ + name@ + "' expects "@ + decimal(expected as nat)
            + " argument(s) but "@ + decimal(actual as nat) + " found"@ + at_text(pos),
{
}

/// A position is stamped at most once: once a known position `p` is set,
/// setting another position `q` changes nothing, and a known position is
/// never overwritten.
pub proof fn lemma_position_stamped_once(e: EvalAltResult, p: Position, q: Position)
    requires
        !(p is Unknown),
    ensures
        e.stamped(p).stamped(q) == e.stamped(p),
        !(e.spec_position() is Unknown) ==> e.stamped(p) == e,
        e.spec_position() is Unknown && !(e is ErrorReadingScriptFile) ==> e.stamped(p).spec_position()
            == p,
{
}

} // verus!
