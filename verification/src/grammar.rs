//! The grammar, stated as pure specification functions over a token sequence.
//!
//! Each production takes the token sequence and the cursor position and
//! yields either the node it recognises together with the position after it,
//! or the diagnostic for the first offending token.  The executable parser is
//! proved to return exactly these values.
//!
//! Termination is lexicographic in (tokens left of the cursor, grammar
//! level).  A production re-enters the grammar at the same or a higher level
//! only behind a check that the cursor moved; the branch taken when it did
//! not move is unreachable for the executable parser, whose productions
//! always consume at least one token before recursing, and yields the marker
//! [`no_progress`].

use vstd::prelude::*;
use crate::token::{Token, TokenKind, at, step, same_kind, spec_kind_name};
use crate::ast::{ExprV, LitV, StmtV};
use crate::error::{ErrorV, FailV};

verus! {

/// A diagnostic pointing at the token the cursor reads at `p`.
pub open spec fn fail_at(s: Seq<Token>, p: int, e: ErrorV) -> FailV {
    FailV {
        error: e,
        line: at(s, p).line as int,
        start: at(s, p).start as int,
        end: at(s, p).end as int,
    }
}

/// The marker for the unreachable no-progress branches of the recursion.
pub open spec fn no_progress(s: Seq<Token>, p: int) -> FailV {
    fail_at(s, p, ErrorV::Parse(Seq::empty()))
}

/// The message of an expected-versus-found mismatch.
pub open spec fn syntax_msg(expected: TokenKind, found: TokenKind) -> Seq<char> {
    "Expected: \""@ + spec_kind_name(expected) + "\" Found: \""@ + spec_kind_name(found) + "\""@
}

/// The message when an identifier was required.
pub open spec fn ident_msg(found: TokenKind) -> Seq<char> {
    "Expected: \"Identifier\" Found: \""@ + spec_kind_name(found) + "\""@
}

/// Require the current token to have the discriminant of `k` and step over
/// it; otherwise a `Syntax` diagnostic at the current token.
pub open spec fn spec_should_be(s: Seq<Token>, p: int, k: TokenKind) -> Result<int, FailV> {
    if same_kind(at(s, p).kind, k) {
        Ok(step(s, p))
    } else {
        Err(fail_at(s, p, ErrorV::Syntax(syntax_msg(k, at(s, p).kind))))
    }
}

/// Require the current token to be an identifier; yield its name.
pub open spec fn spec_get_identifier(s: Seq<Token>, p: int) -> Result<(Seq<char>, int), FailV> {
    match at(s, p).kind {
        TokenKind::Identifier(x) => Ok((x@, step(s, p))),
        k => Err(fail_at(s, p, ErrorV::Syntax(ident_msg(k)))),
    }
}

/// The operator kinds of the unary level.
pub open spec fn is_unary_op(k: TokenKind) -> bool {
    k is Minus || k is Not || k is Plus
}

/// The operator kinds of the multiplicative level.
pub open spec fn is_factor_op(k: TokenKind) -> bool {
    k is Times || k is Divide
}

/// The operator kinds of the additive/bitwise level.
pub open spec fn is_term_op(k: TokenKind) -> bool {
    k is Plus || k is Minus || k is Or || k is And || k is Xor
}

/// The operator kinds of the comparison level.
pub open spec fn is_comparison_op(k: TokenKind) -> bool {
    k is Greater || k is GreaterEqual || k is Less || k is LessEqual
}

/// The operator kinds of the equality level.
pub open spec fn is_equality_op(k: TokenKind) -> bool {
    k is Equal || k is NotEqual
}

/// The assignment and compound-assignment operator kinds.
pub open spec fn is_assign_op(k: TokenKind) -> bool {
    ||| k is Assign
    ||| k is PlusEq
    ||| k is SubEq
    ||| k is ModEq
    ||| k is DivEq
    ||| k is AndEq
    ||| k is OrEq
    ||| k is MulEq
    ||| k is XorEq
}

/// Primary expressions: literals, variables, grouping, `super` references
/// and `this`; anything else steps over the offending token and reports
/// "Expect expression." at the token after it.
pub open spec fn spec_primary(s: Seq<Token>, p: int) -> Result<(ExprV, int), FailV>
    decreases s.len() - p, 1int,
{
    match at(s, p).kind {
        TokenKind::True => Ok((ExprV::Literal(LitV::Boolean(true)), step(s, p))),
        TokenKind::False => Ok((ExprV::Literal(LitV::Boolean(false)), step(s, p))),
        TokenKind::Number(n) => Ok((ExprV::Literal(LitV::Number(n)), step(s, p))),
        TokenKind::Str(x) => Ok((ExprV::Literal(LitV::Str(x@)), step(s, p))),
        TokenKind::Identifier(x) => Ok((ExprV::Variable(x@), step(s, p))),
        TokenKind::LParen => match spec_expression(s, p + 1) {
            Ok((e, p2)) => match spec_should_be(s, p2, TokenKind::RParen) {
                Ok(p3) => Ok((ExprV::Grouping(Box::new(e)), p3)),
                Err(f) => Err(f),
            },
            Err(f) => Err(f),
        },
        TokenKind::Super => match spec_should_be(s, p + 1, TokenKind::Dot) {
            Ok(p2) => match spec_get_identifier(s, p2) {
                Ok((n, p3)) => Ok((ExprV::Super { name: n }, p3)),
                Err(f) => Err(f),
            },
            Err(f) => Err(f),
        },
        TokenKind::This => Ok((ExprV::Variable("this"@), step(s, p))),
        _ => Err(fail_at(s, step(s, p), ErrorV::Parse("Expect expression."@))),
    }
}

/// The comma-separated argument list of a call, after its `(`.  The
/// arguments are recognised and dropped; only the position after the last
/// argument is kept, and the closing `)` is left for the caller's context.
pub open spec fn spec_args_tail(s: Seq<Token>, p: int) -> Result<int, FailV>
    decreases s.len() - p, 12int,
{
    match spec_expression(s, p) {
        Ok((_e, p1)) => if p < p1 <= s.len() {
            spec_args_rest(s, p1)
        } else {
            Err(no_progress(s, p1))
        },
        Err(f) => Err(f),
    }
}

/// The arguments after one recognised argument: `, expression` repeated.
pub open spec fn spec_args_rest(s: Seq<Token>, p: int) -> Result<int, FailV>
    decreases s.len() - p, 0int,
{
    if same_kind(at(s, p).kind, TokenKind::Comma) {
        match spec_expression(s, p + 1) {
            Ok((_e, p2)) => if p < p2 <= s.len() {
                spec_args_rest(s, p2)
            } else {
                Err(no_progress(s, p2))
            },
            Err(f) => Err(f),
        }
    } else {
        Ok(p)
    }
}



/// Postfix loop after a primary: argument lists and `.name` accesses.
pub open spec fn spec_call_tail(s: Seq<Token>, p: int, e: ExprV) -> Result<(ExprV, int), FailV>
    decreases s.len() - p, 0int,
{
    match at(s, p).kind {
        TokenKind::LParen => {
            if same_kind(at(s, p + 1).kind, TokenKind::RParen) {
                spec_call_tail(s, p + 1, e)
            } else {
                match spec_args_tail(s, p + 1) {
                    Ok(p2) => if p < p2 <= s.len() {
                        spec_call_tail(s, p2, e)
                    } else {
                        Err(no_progress(s, p2))
                    },
                    Err(f) => Err(f),
                }
            }
        },
        TokenKind::Dot => match spec_get_identifier(s, p + 1) {
            Ok((n, p2)) => {
                let e2 = ExprV::Get { object: Box::new(e), name: n };
                if p < p2 <= s.len() {
                    spec_call_tail(s, p2, e2)
                } else {
                    Err(no_progress(s, p2))
                }
            },
            Err(f) => Err(f),
        },
        _ => Ok((e, p)),
    }
}

/// Call/member level: a primary followed by its postfix operations.
pub open spec fn spec_call(s: Seq<Token>, p: int) -> Result<(ExprV, int), FailV>
    decreases s.len() - p, 2int,
{
    match spec_primary(s, p) {
        Ok((e, p1)) => if p <= p1 <= s.len() {
            spec_call_tail(s, p1, e)
        } else {
            Err(no_progress(s, p1))
        },
        Err(f) => Err(f),
    }
}

/// Unary level, right-associative through self-recursion.
pub open spec fn spec_unary(s: Seq<Token>, p: int) -> Result<(ExprV, int), FailV>
    decreases s.len() - p, 3int,
{
    if is_unary_op(at(s, p).kind) {
        let op = at(s, p).kind;
        match spec_unary(s, p + 1) {
            Ok((r, p2)) => Ok((ExprV::Unary { op, right: Box::new(r) }, p2)),
            Err(f) => Err(f),
        }
    } else {
        spec_call(s, p)
    }
}

/// Left-associative fold of the multiplicative level.
pub open spec fn spec_factor_tail(s: Seq<Token>, p: int, l: ExprV) -> Result<(ExprV, int), FailV>
    decreases s.len() - p, 0int,
{
    if is_factor_op(at(s, p).kind) {
        let op = at(s, p).kind;
        match spec_unary(s, p + 1) {
            Ok((r, p2)) => {
                let l2 = ExprV::Binary { left: Box::new(l), op, right: Box::new(r) };
                if p < p2 <= s.len() {
                    spec_factor_tail(s, p2, l2)
                } else {
                    Err(no_progress(s, p2))
                }
            },
            Err(f) => Err(f),
        }
    } else {
        Ok((l, p))
    }
}

/// Multiplicative level: `*` and `/`.
pub open spec fn spec_factor(s: Seq<Token>, p: int) -> Result<(ExprV, int), FailV>
    decreases s.len() - p, 4int,
{
    match spec_unary(s, p) {
        Ok((l, p1)) => if p <= p1 <= s.len() {
            spec_factor_tail(s, p1, l)
        } else {
            Err(no_progress(s, p1))
        },
        Err(f) => Err(f),
    }
}

/// Left-associative fold of the additive/bitwise level.
pub open spec fn spec_term_tail(s: Seq<Token>, p: int, l: ExprV) -> Result<(ExprV, int), FailV>
    decreases s.len() - p, 0int,
{
    if is_term_op(at(s, p).kind) {
        let op = at(s, p).kind;
        match spec_factor(s, p + 1) {
            Ok((r, p2)) => {
                let l2 = ExprV::Binary { left: Box::new(l), op, right: Box::new(r) };
                if p < p2 <= s.len() {
                    spec_term_tail(s, p2, l2)
                } else {
                    Err(no_progress(s, p2))
                }
            },
            Err(f) => Err(f),
        }
    } else {
        Ok((l, p))
    }
}

/// Additive/bitwise level: `+ - or and xor` as arithmetic binary operators.
pub open spec fn spec_term(s: Seq<Token>, p: int) -> Result<(ExprV, int), FailV>
    decreases s.len() - p, 5int,
{
    match spec_factor(s, p) {
        Ok((l, p1)) => if p <= p1 <= s.len() {
            spec_term_tail(s, p1, l)
        } else {
            Err(no_progress(s, p1))
        },
        Err(f) => Err(f),
    }
}

/// Left-associative fold of the comparison level, producing `Logical` nodes.
pub open spec fn spec_comparison_tail(s: Seq<Token>, p: int, l: ExprV) -> Result<
    (ExprV, int),
    FailV,
>
    decreases s.len() - p, 0int,
{
    if is_comparison_op(at(s, p).kind) {
        let op = at(s, p).kind;
        match spec_term(s, p + 1) {
            Ok((r, p2)) => {
                let l2 = ExprV::Logical { left: Box::new(l), op, right: Box::new(r) };
                if p < p2 <= s.len() {
                    spec_comparison_tail(s, p2, l2)
                } else {
                    Err(no_progress(s, p2))
                }
            },
            Err(f) => Err(f),
        }
    } else {
        Ok((l, p))
    }
}

/// Comparison level: `> >= < <=`.
pub open spec fn spec_comparison(s: Seq<Token>, p: int) -> Result<(ExprV, int), FailV>
    decreases s.len() - p, 6int,
{
    match spec_term(s, p) {
        Ok((l, p1)) => if p <= p1 <= s.len() {
            spec_comparison_tail(s, p1, l)
        } else {
            Err(no_progress(s, p1))
        },
        Err(f) => Err(f),
    }
}

/// Left-associative fold of the equality level, producing `Logical` nodes.
pub open spec fn spec_equality_tail(s: Seq<Token>, p: int, l: ExprV) -> Result<(ExprV, int), FailV>
    decreases s.len() - p, 0int,
{
    if is_equality_op(at(s, p).kind) {
        let op = at(s, p).kind;
        match spec_comparison(s, p + 1) {
            Ok((r, p2)) => {
                let l2 = ExprV::Logical { left: Box::new(l), op, right: Box::new(r) };
                if p < p2 <= s.len() {
                    spec_equality_tail(s, p2, l2)
                } else {
                    Err(no_progress(s, p2))
                }
            },
            Err(f) => Err(f),
        }
    } else {
        Ok((l, p))
    }
}

/// Equality level: `==` and `!=`.
pub open spec fn spec_equality(s: Seq<Token>, p: int) -> Result<(ExprV, int), FailV>
    decreases s.len() - p, 7int,
{
    match spec_comparison(s, p) {
        Ok((l, p1)) => if p <= p1 <= s.len() {
            spec_equality_tail(s, p1, l)
        } else {
            Err(no_progress(s, p1))
        },
        Err(f) => Err(f),
    }
}

/// Left-associative fold of the logical-and level.
pub open spec fn spec_and_tail(s: Seq<Token>, p: int, l: ExprV) -> Result<(ExprV, int), FailV>
    decreases s.len() - p, 0int,
{
    if at(s, p).kind is LAnd {
        let op = at(s, p).kind;
        match spec_equality(s, p + 1) {
            Ok((r, p2)) => {
                let l2 = ExprV::Logical { left: Box::new(l), op, right: Box::new(r) };
                if p < p2 <= s.len() {
                    spec_and_tail(s, p2, l2)
                } else {
                    Err(no_progress(s, p2))
                }
            },
            Err(f) => Err(f),
        }
    } else {
        Ok((l, p))
    }
}

/// Logical-and level: `&&`.
pub open spec fn spec_and(s: Seq<Token>, p: int) -> Result<(ExprV, int), FailV>
    decreases s.len() - p, 8int,
{
    match spec_equality(s, p) {
        Ok((l, p1)) => if p <= p1 <= s.len() {
            spec_and_tail(s, p1, l)
        } else {
            Err(no_progress(s, p1))
        },
        Err(f) => Err(f),
    }
}

/// Left-associative fold of the logical-or level.  The additive level also
/// recognises `or` as one of its binary operators and runs first, so this
/// fold never actually fires; it is kept because the grammar states it.
pub open spec fn spec_or_tail(s: Seq<Token>, p: int, l: ExprV) -> Result<(ExprV, int), FailV>
    decreases s.len() - p, 0int,
{
    if at(s, p).kind is Or {
        let op = at(s, p).kind;
        match spec_and(s, p + 1) {
            Ok((r, p2)) => {
                let l2 = ExprV::Logical { left: Box::new(l), op, right: Box::new(r) };
                if p < p2 <= s.len() {
                    spec_or_tail(s, p2, l2)
                } else {
                    Err(no_progress(s, p2))
                }
            },
            Err(f) => Err(f),
        }
    } else {
        Ok((l, p))
    }
}

/// Logical-or level: `or`.
pub open spec fn spec_or(s: Seq<Token>, p: int) -> Result<(ExprV, int), FailV>
    decreases s.len() - p, 9int,
{
    match spec_and(s, p) {
        Ok((l, p1)) => if p <= p1 <= s.len() {
            spec_or_tail(s, p1, l)
        } else {
            Err(no_progress(s, p1))
        },
        Err(f) => Err(f),
    }
}

/// The right side of an assignment, after its operator: the value is parsed
/// at logical-or level, and the left side must be exactly a variable or a
/// property get — anything else is the `Parse` diagnostic
/// "Invalid assignment target", pointing at the token after the right side.
pub open spec fn spec_assign_finish(s: Seq<Token>, p: int, l: ExprV) -> Result<
    (ExprV, int),
    FailV,
>
    decreases s.len() - p, 0int,
{
    if p < s.len() {
        match spec_or(s, p + 1) {
            Ok((r, p3)) => match l {
                ExprV::Variable(name) => Ok((ExprV::Assign { name, value: Box::new(r) }, p3)),
                ExprV::Get { object, name } => Ok(
                    (ExprV::SetProp { object, name, value: Box::new(r) }, p3),
                ),
                _ => Err(fail_at(s, p3, ErrorV::Parse("Invalid assignment target"@))),
            },
            Err(f) => Err(f),
        }
    } else {
        Err(no_progress(s, p))
    }
}

/// Assignment level.  The left side is parsed at logical-or level; if an
/// assignment operator follows, the right side is parsed at logical-or level
/// too (so assignment does not chain), and the left side must be exactly a
/// variable or a property get — anything else is the `Parse` diagnostic
/// "Invalid assignment target", pointing at the token after the right side.
pub open spec fn spec_assignment(s: Seq<Token>, p: int) -> Result<(ExprV, int), FailV>
    decreases s.len() - p, 10int,
{
    match spec_or(s, p) {
        Ok((l, p1)) => if is_assign_op(at(s, p1).kind) {
            if p <= p1 {
                spec_assign_finish(s, p1, l)
            } else {
                Err(no_progress(s, p1))
            }
        } else {
            Ok((l, p1))
        },
        Err(f) => Err(f),
    }
}

/// An expression: the assignment level.
pub open spec fn spec_expression(s: Seq<Token>, p: int) -> Result<(ExprV, int), FailV>
    decreases s.len() - p, 11int,
{
    spec_assignment(s, p)
}

/// An expression followed by the statement separator.
pub open spec fn spec_expression_statement(s: Seq<Token>, p: int) -> Result<(StmtV, int), FailV>
    decreases s.len() - p, 13int,
{
    match spec_expression(s, p) {
        Ok((e, p1)) => match spec_should_be(s, p1, TokenKind::Semicolon) {
            Ok(p2) => Ok((StmtV::Expr { expr: e }, p2)),
            Err(f) => Err(f),
        },
        Err(f) => Err(f),
    }
}

/// `print` expression `;`.
pub open spec fn spec_print_statement(s: Seq<Token>, p: int) -> Result<(StmtV, int), FailV>
    decreases s.len() - p, 13int,
{
    match spec_expression(s, step(s, p)) {
        Ok((e, p1)) => match spec_should_be(s, p1, TokenKind::Semicolon) {
            Ok(p2) => Ok((StmtV::Print { expr: e }, p2)),
            Err(f) => Err(f),
        },
        Err(f) => Err(f),
    }
}

/// `return` with an optional value, then `;`.
pub open spec fn spec_return_statement(s: Seq<Token>, p: int) -> Result<(StmtV, int), FailV>
    decreases s.len() - p, 13int,
{
    let p1 = step(s, p);
    if !same_kind(at(s, p1).kind, TokenKind::Semicolon) {
        match spec_expression(s, p1) {
            Ok((e, p2)) => match spec_should_be(s, p2, TokenKind::Semicolon) {
                Ok(p3) => Ok((StmtV::Return { value: Some(e) }, p3)),
                Err(f) => Err(f),
            },
            Err(f) => Err(f),
        }
    } else {
        match spec_should_be(s, p1, TokenKind::Semicolon) {
            Ok(p2) => Ok((StmtV::Return { value: None }, p2)),
            Err(f) => Err(f),
        }
    }
}

/// `while (` condition `)` body.
pub open spec fn spec_while_statement(s: Seq<Token>, p: int) -> Result<(StmtV, int), FailV>
    decreases s.len() - p, 13int,
{
    match spec_should_be(s, step(s, p), TokenKind::LParen) {
        Ok(p2) => match spec_expression(s, p2) {
            Ok((c, p3)) => match spec_should_be(s, p3, TokenKind::RParen) {
                Ok(p4) => if p < p4 <= s.len() {
                    match spec_statement(s, p4) {
                        Ok((b, p5)) => Ok((StmtV::While { condition: c, body: Box::new(b) }, p5)),
                        Err(f) => Err(f),
                    }
                } else {
                    Err(no_progress(s, p4))
                },
                Err(f) => Err(f),
            },
            Err(f) => Err(f),
        },
        Err(f) => Err(f),
    }
}

/// `if (` condition `)` branch, optionally `else` branch.
pub open spec fn spec_if_statement(s: Seq<Token>, p: int) -> Result<(StmtV, int), FailV>
    decreases s.len() - p, 13int,
{
    match spec_should_be(s, step(s, p), TokenKind::LParen) {
        Ok(p2) => match spec_expression(s, p2) {
            Ok((c, p3)) => match spec_should_be(s, p3, TokenKind::RParen) {
                Ok(p4) => if p < p4 <= s.len() {
                    match spec_statement(s, p4) {
                        Ok((t, p5)) => if same_kind(at(s, p5).kind, TokenKind::Else) {
                            if p < p5 + 1 <= s.len() {
                                match spec_statement(s, p5 + 1) {
                                    Ok((e, p6)) => Ok(
                                        (
                                            StmtV::If {
                                                condition: c,
                                                truthy: Box::new(t),
                                                falsy: Some(Box::new(e)),
                                            },
                                            p6,
                                        ),
                                    ),
                                    Err(f) => Err(f),
                                }
                            } else {
                                Err(no_progress(s, p5))
                            }
                        } else {
                            Ok(
                                (
                                    StmtV::If { condition: c, truthy: Box::new(t), falsy: None },
                                    p5,
                                ),
                            )
                        },
                        Err(f) => Err(f),
                    }
                } else {
                    Err(no_progress(s, p4))
                },
                Err(f) => Err(f),
            },
            Err(f) => Err(f),
        },
        Err(f) => Err(f),
    }
}

/// `for (` initializer? condition? `;` increment? `)` body.  The initializer
/// is absent before a separator, a variable declaration after `let`, and an
/// expression statement otherwise; the condition is absent before the
/// separator the production then requires; the increment is absent before
/// the closing `)`.
pub open spec fn spec_for_statement(s: Seq<Token>, p: int) -> Result<(StmtV, int), FailV>
    decreases s.len() - p, 13int,
{
    match spec_should_be(s, step(s, p), TokenKind::LParen) {
        Ok(p2) => {
            let init_r: Result<(Option<Box<StmtV>>, int), FailV> = match at(s, p2).kind {
                TokenKind::Semicolon => Ok((None, p2)),
                TokenKind::Let => match spec_let_declaration(s, p2) {
                    Ok((st, p3)) => Ok((Some(Box::new(st)), p3)),
                    Err(f) => Err(f),
                },
                _ => match spec_expression_statement(s, p2) {
                    Ok((st, p3)) => Ok((Some(Box::new(st)), p3)),
                    Err(f) => Err(f),
                },
            };
            match init_r {
                Ok((init, p3)) => {
                    let cond_r: Result<(Option<Box<ExprV>>, int), FailV> = if same_kind(
                        at(s, p3).kind,
                        TokenKind::Semicolon,
                    ) {
                        Ok((None, p3))
                    } else {
                        if p <= p3 <= s.len() {
                            match spec_expression(s, p3) {
                                Ok((c, p4)) => Ok((Some(Box::new(c)), p4)),
                                Err(f) => Err(f),
                            }
                        } else {
                            Err(no_progress(s, p3))
                        }
                    };
                    match cond_r {
                        Ok((cond, p4)) => match spec_should_be(s, p4, TokenKind::Semicolon) {
                            Ok(p5) => {
                                let inc_r: Result<(Option<Box<ExprV>>, int), FailV> = if same_kind(
                                    at(s, p5).kind,
                                    TokenKind::RParen,
                                ) {
                                    Ok((None, p5))
                                } else {
                                    if p <= p5 <= s.len() {
                                        match spec_expression(s, p5) {
                                            Ok((i, p6)) => Ok((Some(Box::new(i)), p6)),
                                            Err(f) => Err(f),
                                        }
                                    } else {
                                        Err(no_progress(s, p5))
                                    }
                                };
                                match inc_r {
                                    Ok((inc, p6)) => match spec_should_be(
                                        s,
                                        p6,
                                        TokenKind::RParen,
                                    ) {
                                        Ok(p7) => if p < p7 <= s.len() {
                                            match spec_statement(s, p7) {
                                                Ok((b, p8)) => Ok(
                                                    (
                                                        StmtV::For {
                                                            initializer: init,
                                                            condition: cond,
                                                            increment: inc,
                                                            body: Box::new(b),
                                                        },
                                                        p8,
                                                    ),
                                                ),
                                                Err(f) => Err(f),
                                            }
                                        } else {
                                            Err(no_progress(s, p7))
                                        },
                                        Err(f) => Err(f),
                                    },
                                    Err(f) => Err(f),
                                }
                            },
                            Err(f) => Err(f),
                        },
                        Err(f) => Err(f),
                    }
                },
                Err(f) => Err(f),
            }
        },
        Err(f) => Err(f),
    }
}

/// The declarations of a block, folded until `}` or end-of-input, then the
/// required `}`.
pub open spec fn spec_block_tail(s: Seq<Token>, p: int, acc: Seq<StmtV>) -> Result<
    (Seq<StmtV>, int),
    FailV,
>
    decreases s.len() - p, 17int,
{
    if !same_kind(at(s, p).kind, TokenKind::RBrace) && !same_kind(at(s, p).kind, TokenKind::Eof) {
        match spec_declaration(s, p) {
            Ok((st, p1)) => if p < p1 <= s.len() {
                spec_block_tail(s, p1, acc.push(st))
            } else {
                Err(no_progress(s, p1))
            },
            Err(f) => Err(f),
        }
    } else {
        match spec_should_be(s, p, TokenKind::RBrace) {
            Ok(p1) => Ok((acc, p1)),
            Err(f) => Err(f),
        }
    }
}

/// `{` declarations `}`.
pub open spec fn spec_block_statement(s: Seq<Token>, p: int) -> Result<(StmtV, int), FailV>
    decreases s.len() - p, 13int,
{
    match spec_should_be(s, p, TokenKind::LBrace) {
        Ok(p1) => match spec_block_tail(s, p1, Seq::empty()) {
            Ok((ss, p2)) => Ok((StmtV::Block { stmt: ss }, p2)),
            Err(f) => Err(f),
        },
        Err(f) => Err(f),
    }
}

/// The parameters after the first one: `, name` repeated.
pub open spec fn spec_params_tail(s: Seq<Token>, p: int, acc: Seq<Seq<char>>) -> Result<
    (Seq<Seq<char>>, int),
    FailV,
>
    decreases s.len() - p, 0int,
{
    if same_kind(at(s, p).kind, TokenKind::Comma) {
        match spec_get_identifier(s, p + 1) {
            Ok((n, p2)) => if p < p2 <= s.len() {
                spec_params_tail(s, p2, acc.push(n))
            } else {
                Err(no_progress(s, p2))
            },
            Err(f) => Err(f),
        }
    } else {
        Ok((acc, p))
    }
}

/// The parenthesised parameter list after its `(`: empty before `)`, else
/// one identifier and then `, name` repeated.
pub open spec fn spec_params_list(s: Seq<Token>, p: int) -> Result<(Seq<Seq<char>>, int), FailV>
    decreases s.len() - p, 1int,
{
    if !same_kind(at(s, p).kind, TokenKind::RParen) {
        match spec_get_identifier(s, p) {
            Ok((n0, p3)) => if p < p3 <= s.len() {
                spec_params_tail(s, p3, seq![n0])
            } else {
                Err(no_progress(s, p3))
            },
            Err(f) => Err(f),
        }
    } else {
        Ok((Seq::empty(), p))
    }
}

/// name `(` parameters `)` block — shared by function declarations and class
/// methods; the leading keyword, where there is one, is consumed by the
/// caller.
pub open spec fn spec_function_declaration(s: Seq<Token>, p: int) -> Result<(StmtV, int), FailV>
    decreases s.len() - p, 13int,
{
    match spec_get_identifier(s, p) {
        Ok((name, p1)) => match spec_should_be(s, p1, TokenKind::LParen) {
            Ok(p2) => {
                match spec_params_list(s, p2) {
                    Ok((params, p4)) => match spec_should_be(s, p4, TokenKind::RParen) {
                        Ok(p5) => if p < p5 <= s.len() {
                            match spec_block_statement(s, p5) {
                                Ok((body, p6)) => Ok(
                                    (
                                        StmtV::Function { name, params, body: Box::new(body) },
                                        p6,
                                    ),
                                ),
                                Err(f) => Err(f),
                            }
                        } else {
                            Err(no_progress(s, p5))
                        },
                        Err(f) => Err(f),
                    },
                    Err(f) => Err(f),
                }
            },
            Err(f) => Err(f),
        },
        Err(f) => Err(f),
    }
}

/// The method declarations of a class body, folded until `}` or
/// end-of-input.
pub open spec fn spec_methods_tail(s: Seq<Token>, p: int, acc: Seq<StmtV>) -> Result<
    (Seq<StmtV>, int),
    FailV,
>
    decreases s.len() - p, 14int,
{
    if !same_kind(at(s, p).kind, TokenKind::RBrace) && !same_kind(at(s, p).kind, TokenKind::Eof) {
        match spec_function_declaration(s, p) {
            Ok((m, p1)) => if p < p1 <= s.len() {
                spec_methods_tail(s, p1, acc.push(m))
            } else {
                Err(no_progress(s, p1))
            },
            Err(f) => Err(f),
        }
    } else {
        Ok((acc, p))
    }
}

/// name, optional `<` superclass (which must differ from the name, else the
/// `Parse` diagnostic "Cannot inherit from itself"), then `{` methods `}`.
/// The leading keyword is consumed by the caller.
pub open spec fn spec_class_declaration(s: Seq<Token>, p: int) -> Result<(StmtV, int), FailV>
    decreases s.len() - p, 15int,
{
    match spec_get_identifier(s, p) {
        Ok((name, p1)) => {
            let super_r: Result<(Option<Seq<char>>, int), FailV> = if same_kind(
                at(s, p1).kind,
                TokenKind::Less,
            ) {
                match spec_get_identifier(s, p1 + 1) {
                    Ok((sup, p3)) => if name == sup {
                        Err(fail_at(s, p3, ErrorV::Parse("Cannot inherit from itself"@)))
                    } else {
                        Ok((Some(sup), p3))
                    },
                    Err(f) => Err(f),
                }
            } else {
                Ok((None, p1))
            };
            match super_r {
                Ok((sup, p4)) => match spec_should_be(s, p4, TokenKind::LBrace) {
                    Ok(p5) => if p < p5 <= s.len() {
                        match spec_methods_tail(s, p5, Seq::empty()) {
                            Ok((ms, p6)) => match spec_should_be(s, p6, TokenKind::RBrace) {
                                Ok(p7) => Ok(
                                    (
                                        StmtV::Class { name, super_class: sup, methods: ms },
                                        p7,
                                    ),
                                ),
                                Err(f) => Err(f),
                            },
                            Err(f) => Err(f),
                        }
                    } else {
                        Err(no_progress(s, p5))
                    },
                    Err(f) => Err(f),
                },
                Err(f) => Err(f),
            }
        },
        Err(f) => Err(f),
    }
}

/// `let`/`const` name, optional `=` initializer, `;`.
pub open spec fn spec_let_declaration(s: Seq<Token>, p: int) -> Result<(StmtV, int), FailV>
    decreases s.len() - p, 15int,
{
    let is_const = same_kind(at(s, p).kind, TokenKind::Const);
    match spec_get_identifier(s, step(s, p)) {
        Ok((name, p2)) => {
            let val_r: Result<(Option<ExprV>, int), FailV> = if same_kind(
                at(s, p2).kind,
                TokenKind::Assign,
            ) {
                match spec_expression(s, p2 + 1) {
                    Ok((e, p4)) => Ok((Some(e), p4)),
                    Err(f) => Err(f),
                }
            } else {
                Ok((None, p2))
            };
            match val_r {
                Ok((value, p5)) => match spec_should_be(s, p5, TokenKind::Semicolon) {
                    Ok(p6) => Ok((StmtV::Let { name, value, is_const }, p6)),
                    Err(f) => Err(f),
                },
                Err(f) => Err(f),
            }
        },
        Err(f) => Err(f),
    }
}

/// Statement-level dispatch on the current token.
pub open spec fn spec_statement(s: Seq<Token>, p: int) -> Result<(StmtV, int), FailV>
    decreases s.len() - p, 14int,
{
    match at(s, p).kind {
        TokenKind::Print => spec_print_statement(s, p),
        TokenKind::If => spec_if_statement(s, p),
        TokenKind::While => spec_while_statement(s, p),
        TokenKind::For => spec_for_statement(s, p),
        TokenKind::Return => spec_return_statement(s, p),
        TokenKind::LBrace => spec_block_statement(s, p),
        _ => spec_expression_statement(s, p),
    }
}

/// Declaration-level dispatch: variable, class and function declarations
/// (the keyword of the latter two is consumed here), else a statement.
pub open spec fn spec_declaration(s: Seq<Token>, p: int) -> Result<(StmtV, int), FailV>
    decreases s.len() - p, 16int,
{
    match at(s, p).kind {
        TokenKind::Let => spec_let_declaration(s, p),
        TokenKind::Const => spec_let_declaration(s, p),
        TokenKind::Class => spec_class_declaration(s, p + 1),
        TokenKind::Function => spec_function_declaration(s, p + 1),
        _ => spec_statement(s, p),
    }
}

/// The program: declarations folded until end-of-input.
pub open spec fn spec_program_tail(s: Seq<Token>, p: int, acc: Seq<StmtV>) -> Result<
    Seq<StmtV>,
    FailV,
>
    decreases s.len() - p, 18int,
{
    if same_kind(at(s, p).kind, TokenKind::Eof) {
        Ok(acc)
    } else {
        match spec_declaration(s, p) {
            Ok((st, p1)) => if p < p1 <= s.len() {
                spec_program_tail(s, p1, acc.push(st))
            } else {
                Err(no_progress(s, p1))
            },
            Err(f) => Err(f),
        }
    }
}

/// What parsing the whole token sequence yields: the statement sequence of
/// the program, or the diagnostic for the first offending token.
pub open spec fn spec_program(s: Seq<Token>) -> Result<Seq<StmtV>, FailV> {
    spec_program_tail(s, 0, Seq::empty())
}

} // verus!
