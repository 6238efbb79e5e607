//! The executable recursive-descent parser.
//!
//! The parser owns the token sequence and a cursor holding exactly one token
//! of lookahead; the only mutation is `advance`, which moves the cursor one
//! token forward and stops at end-of-input, where it keeps yielding the
//! end-of-input marker.  Every production is proved to return exactly what
//! the corresponding specification function of [`crate::grammar`] computes,
//! and to move the cursor to exactly the position that function names.

use vstd::prelude::*;
use crate::token::{Token, TokenKind, at, step, same_kind, eof_token, kind_eq, kind_name};
use crate::ast::{Expr, LiteralType, Stmt, ExprV, StmtV, names_view, stmts_view,
    lemma_stmts_view_push};
use crate::error::{Error, ErrorInfo, FailV};
use crate::grammar::{fail_at, is_assign_op, spec_assign_finish, spec_should_be, spec_args_rest, spec_get_identifier, spec_primary, spec_args_tail,
    spec_call_tail, spec_call, spec_unary, spec_factor_tail, spec_factor, spec_term_tail,
    spec_term, spec_comparison_tail, spec_comparison, spec_equality_tail, spec_equality,
    spec_and_tail, spec_and, spec_or_tail, spec_or, spec_assignment, spec_expression,
    spec_expression_statement, spec_print_statement, spec_return_statement, spec_while_statement,
    spec_if_statement, spec_for_statement, spec_block_tail, spec_block_statement,
    spec_params_tail, spec_params_list, spec_function_declaration, spec_methods_tail, spec_class_declaration,
    spec_let_declaration, spec_statement, spec_declaration, spec_program_tail, spec_program};

verus! {

/// The parser: the token sequence, the cursor, and the end-of-input marker
/// the cursor yields once the tokens run out.
pub struct Parser {
    toks: Vec<Token>,
    pos: usize,
    eof: Token,
}

impl Parser {
    /// The token sequence this parser reads.
    pub closed spec fn tokens(&self) -> Seq<Token> {
        self.toks@
    }

    /// The cursor: the index of the current (unconsumed) token.
    pub closed spec fn cursor(&self) -> int {
        self.pos as int
    }

    /// Well-formedness: the cursor never passes the end of the sequence, and
    /// the stored marker is the end-of-input token.
    pub closed spec fn wf(&self) -> bool {
        self.pos <= self.toks.len() && self.eof == eof_token()
    }

    /// Take ownership of a token sequence and place the cursor on its first
    /// token.
    #[verifier::rlimit(100)]
    #[verifier::spinoff_prover]
    pub fn new(tokens: Vec<Token>) -> (r: Parser)
        ensures
            r.wf(),
            r.tokens() == tokens@,
            r.cursor() == 0,
    {
        Parser {
            toks: tokens,
            pos: 0,
            eof: Token { kind: TokenKind::Eof, line: 0, start: 0, end: 0 },
        }
    }

    /// The current token: the one under the cursor, or the end-of-input
    /// marker once the cursor is past the end.
    #[verifier::rlimit(100)]
    #[verifier::spinoff_prover]
    fn peek(&self) -> (t: &Token)
        requires
            self.wf(),
        ensures
            *t == at(self.toks@, self.pos as int),
    {
        if self.pos < self.toks.len() {
            &self.toks[self.pos]
        } else {
            &self.eof
        }
    }

    /// Move the cursor one token forward; at end-of-input this is a no-op,
    /// so the cursor keeps yielding the end-of-input marker.
    #[verifier::rlimit(100)]
    #[verifier::spinoff_prover]
    fn advance(&mut self)
        requires
            old(self).wf(),
        ensures
            final(self).wf(),
            final(self).toks == old(self).toks,
            final(self).pos as int == step(old(self).toks@, old(self).pos as int),
    {
        if self.pos < self.toks.len() {
            self.pos = self.pos + 1;
        }
    }

    /// A diagnostic tagged with the span of the current token.
    #[verifier::rlimit(100)]
    #[verifier::spinoff_prover]
    fn error_here(&self, error: Error) -> (r: ErrorInfo)
        requires
            self.wf(),
        ensures
            r@ == fail_at(self.toks@, self.pos as int, error@),
    {
        let t = self.peek();
        let line = t.line;
        let start = t.start;
        let end = t.end;
        ErrorInfo { error, line, start, end }
    }

    /// If the current token has the discriminant of `kind`, consume it and
    /// hand `kind` back; otherwise a `Syntax` diagnostic naming the expected
    /// and the found token.
    #[verifier::rlimit(100)]
    #[verifier::spinoff_prover]
    fn should_be(&mut self, kind: TokenKind) -> (r: Result<TokenKind, ErrorInfo>)
        requires
            old(self).wf(),
        ensures
            final(self).wf(),
            final(self).toks == old(self).toks,
            old(self).pos <= final(self).pos,
            match r {
                Ok(_) => {
                    &&& spec_should_be(old(self).toks@, old(self).pos as int, kind)
                        == Ok::<int, FailV>(final(self).pos as int)
                    &&& !(kind is Eof) ==> old(self).pos < final(self).pos
                },
                Err(e) => spec_should_be(old(self).toks@, old(self).pos as int, kind)
                    == Err::<int, FailV>(e@),
            },
    {
        let found = kind_eq(&self.peek().kind, &kind);
        if found {
            self.advance();
            Ok(kind)
        } else {
            let mut t = String::from_str("Expected: \"");
            t.append(kind_name(&kind));
            t.append("\" Found: \"");
            t.append(kind_name(&self.peek().kind));
            t.append("\"");
            Err(self.error_here(Error::Syntax(t)))
        }
    }

    /// Require the current token to be an identifier and yield its name.
    #[verifier::rlimit(100)]
    #[verifier::spinoff_prover]
    fn get_identifier(&mut self) -> (r: Result<String, ErrorInfo>)
        requires
            old(self).wf(),
        ensures
            final(self).wf(),
            final(self).toks == old(self).toks,
            old(self).pos <= final(self).pos,
            match r {
                Ok(name) => {
                    &&& spec_get_identifier(old(self).toks@, old(self).pos as int)
                        == Ok::<(Seq<char>, int), FailV>((name@, final(self).pos as int))
                    &&& old(self).pos < final(self).pos
                },
                Err(e) => spec_get_identifier(old(self).toks@, old(self).pos as int)
                    == Err::<(Seq<char>, int), FailV>(e@),
            },
    {
        let name_opt: Option<String> = match &self.peek().kind {
            TokenKind::Identifier(x) => Some(x.clone()),
            _ => None,
        };
        match name_opt {
            Some(name) => {
                self.advance();
                Ok(name)
            },
            None => {
                let mut t = String::from_str("Expected: \"Identifier\" Found: \"");
                t.append(kind_name(&self.peek().kind));
                t.append("\"");
                Err(self.error_here(Error::Syntax(t)))
            },
        }
    }
}

impl Parser {
    /// Parse the whole program: declarations until end-of-input.
    #[verifier::rlimit(100)]
    #[verifier::spinoff_prover]
    pub fn parse_program(&mut self) -> (r: Result<Vec<Stmt>, ErrorInfo>)
        requires
            old(self).wf(),
        ensures
            final(self).wf(),
            final(self).tokens() == old(self).tokens(),
            match r {
                Ok(stmts) => spec_program_tail(old(self).tokens(), old(self).cursor(), Seq::empty())
                    == Ok::<Seq<StmtV>, FailV>(stmts_view(stmts@)),
                Err(e) => spec_program_tail(old(self).tokens(), old(self).cursor(), Seq::empty())
                    == Err::<Seq<StmtV>, FailV>(e@),
            },
            old(self).cursor() == 0 ==> match r {
                Ok(stmts) => spec_program(old(self).tokens()) == Ok::<Seq<StmtV>, FailV>(
                    stmts_view(stmts@),
                ),
                Err(e) => spec_program(old(self).tokens()) == Err::<Seq<StmtV>, FailV>(e@),
            },
    {
        let mut statements: Vec<Stmt> = Vec::new();
        assert(stmts_view(statements@) =~= Seq::<StmtV>::empty());
        match self.program_rest(&mut statements) {
            Ok(_) => Ok(statements),
            Err(e) => Err(e),
        }
    }

    /// The declarations left before end-of-input, appended to `statements`.
    #[verifier::rlimit(100)]
    #[verifier::spinoff_prover]
    fn program_rest(&mut self, statements: &mut Vec<Stmt>) -> (r: Result<(), ErrorInfo>)
        requires
            old(self).wf(),
        ensures
            final(self).wf(),
            final(self).toks == old(self).toks,
            old(self).pos <= final(self).pos,
            match r {
                Ok(_) => spec_program_tail(
                    old(self).toks@,
                    old(self).pos as int,
                    stmts_view(old(statements)@),
                ) == Ok::<Seq<StmtV>, FailV>(stmts_view(final(statements)@)),
                Err(e) => spec_program_tail(
                    old(self).toks@,
                    old(self).pos as int,
                    stmts_view(old(statements)@),
                ) == Err::<Seq<StmtV>, FailV>(e@),
            },
        decreases old(self).toks@.len() - old(self).pos, 18int,
    {
        if kind_eq(&self.peek().kind, &TokenKind::Eof) {
            return Ok(());
        }
        let st = match self.declaration() {
            Ok(st) => st,
            Err(e) => {
                return Err(e);
            },
        };
        proof {
            lemma_stmts_view_push(statements@, st);
        }
        statements.push(st);
        self.program_rest(statements)
    }

    /// Declaration-level dispatch on the current token.
    #[verifier::rlimit(100)]
    #[verifier::spinoff_prover]
    fn declaration(&mut self) -> (r: Result<Stmt, ErrorInfo>)
        requires
            old(self).wf(),
        ensures
            final(self).wf(),
            final(self).toks == old(self).toks,
            old(self).pos <= final(self).pos,
            match r {
                Ok(st) => {
                    &&& spec_declaration(old(self).toks@, old(self).pos as int)
                        == Ok::<(StmtV, int), FailV>((st@, final(self).pos as int))
                    &&& old(self).pos < final(self).pos
                },
                Err(e) => spec_declaration(old(self).toks@, old(self).pos as int)
                    == Err::<(StmtV, int), FailV>(e@),
            },
        decreases old(self).toks@.len() - old(self).pos, 16int,
    {
        let choice: u8 = match &self.peek().kind {
            TokenKind::Let => 0,
            TokenKind::Const => 0,
            TokenKind::Class => 1,
            TokenKind::Function => 2,
            _ => 3,
        };
        if choice == 0 {
            self.let_declaration()
        } else if choice == 1 {
            self.advance();
            self.class_declaration()
        } else if choice == 2 {
            self.advance();
            self.function_declaration()
        } else {
            self.statement()
        }
    }

    /// `let`/`const` name, optional `=` initializer, `;`.
    #[verifier::rlimit(100)]
    #[verifier::spinoff_prover]
    fn let_declaration(&mut self) -> (r: Result<Stmt, ErrorInfo>)
        requires
            old(self).wf(),
        ensures
            final(self).wf(),
            final(self).toks == old(self).toks,
            old(self).pos <= final(self).pos,
            match r {
                Ok(st) => {
                    &&& spec_let_declaration(old(self).toks@, old(self).pos as int)
                        == Ok::<(StmtV, int), FailV>((st@, final(self).pos as int))
                    &&& old(self).pos < final(self).pos
                },
                Err(e) => spec_let_declaration(old(self).toks@, old(self).pos as int)
                    == Err::<(StmtV, int), FailV>(e@),
            },
        decreases old(self).toks@.len() - old(self).pos, 15int,
    {
        let is_const = kind_eq(&self.peek().kind, &TokenKind::Const);
        self.advance();
        let name = match self.get_identifier() {
            Ok(n) => n,
            Err(e) => {
                return Err(e);
            },
        };
        let mut value: Option<Expr> = None;
        if kind_eq(&self.peek().kind, &TokenKind::Assign) {
            self.advance();
            let e = match self.expression() {
                Ok(e) => e,
                Err(er) => {
                    return Err(er);
                },
            };
            value = Some(e);
        }
        match self.should_be(TokenKind::Semicolon) {
            Ok(_) => {},
            Err(er) => {
                return Err(er);
            },
        }
        Ok(Stmt::Let { name, value, is_const })
    }

    /// name, optional `<` superclass, `{` methods `}`; the `class` keyword
    /// was consumed by the dispatcher.  A class may not name itself as its
    /// superclass.
    #[verifier::loop_isolation(false)]
    #[verifier::rlimit(100)]
    #[verifier::spinoff_prover]
    fn class_declaration(&mut self) -> (r: Result<Stmt, ErrorInfo>)
        requires
            old(self).wf(),
        ensures
            final(self).wf(),
            final(self).toks == old(self).toks,
            old(self).pos <= final(self).pos,
            match r {
                Ok(st) => {
                    &&& spec_class_declaration(old(self).toks@, old(self).pos as int)
                        == Ok::<(StmtV, int), FailV>((st@, final(self).pos as int))
                    &&& old(self).pos < final(self).pos
                },
                Err(e) => spec_class_declaration(old(self).toks@, old(self).pos as int)
                    == Err::<(StmtV, int), FailV>(e@),
            },
        decreases old(self).toks@.len() - old(self).pos, 15int,
    {
        let name = match self.get_identifier() {
            Ok(n) => n,
            Err(e) => {
                return Err(e);
            },
        };
        let mut super_class: Option<String> = None;
        if kind_eq(&self.peek().kind, &TokenKind::Less) {
            self.advance();
            let sup = match self.get_identifier() {
                Ok(n) => n,
                Err(e) => {
                    return Err(e);
                },
            };
            if name.eq(&sup) {
                return Err(
                    self.error_here(Error::Parse(String::from_str("Cannot inherit from itself"))),
                );
            }
            super_class = Some(sup);
        }
        match self.should_be(TokenKind::LBrace) {
            Ok(_) => {},
            Err(er) => {
                return Err(er);
            },
        }
        let ghost entry = self.pos as int;
        let mut methods: Vec<Stmt> = Vec::new();
        while !kind_eq(&self.peek().kind, &TokenKind::RBrace) && !kind_eq(
            &self.peek().kind,
            &TokenKind::Eof,
        )
            invariant
                self.wf(),
                self.toks == old(self).toks,
                old(self).pos < self.pos <= self.toks@.len(),
                spec_methods_tail(self.toks@, self.pos as int, stmts_view(methods@))
                    == spec_methods_tail(self.toks@, entry, Seq::empty()),
            decreases self.toks@.len() - self.pos,
        {
            let m = match self.function_declaration() {
                Ok(m) => m,
                Err(e) => {
                    return Err(e);
                },
            };
            proof {
                lemma_stmts_view_push(methods@, m);
            }
            methods.push(m);
        }
        match self.should_be(TokenKind::RBrace) {
            Ok(_) => {},
            Err(er) => {
                return Err(er);
            },
        }
        Ok(Stmt::Class { name, super_class, methods })
    }

    /// name `(` parameters `)` block; shared by function declarations and
    /// class methods, whose leading keyword (where there is one) was
    /// consumed by the caller.
    #[verifier::rlimit(100)]
    #[verifier::spinoff_prover]
    fn function_declaration(&mut self) -> (r: Result<Stmt, ErrorInfo>)
        requires
            old(self).wf(),
        ensures
            final(self).wf(),
            final(self).toks == old(self).toks,
            old(self).pos <= final(self).pos,
            match r {
                Ok(st) => {
                    &&& spec_function_declaration(old(self).toks@, old(self).pos as int)
                        == Ok::<(StmtV, int), FailV>((st@, final(self).pos as int))
                    &&& old(self).pos < final(self).pos
                },
                Err(e) => spec_function_declaration(old(self).toks@, old(self).pos as int)
                    == Err::<(StmtV, int), FailV>(e@),
            },
        decreases old(self).toks@.len() - old(self).pos, 13int,
    {
        let name = match self.get_identifier() {
            Ok(n) => n,
            Err(e) => {
                return Err(e);
            },
        };
        match self.should_be(TokenKind::LParen) {
            Ok(_) => {},
            Err(er) => {
                return Err(er);
            },
        }
        let params = match self.params_list() {
            Ok(ps) => ps,
            Err(e) => {
                return Err(e);
            },
        };
        match self.should_be(TokenKind::RParen) {
            Ok(_) => {},
            Err(er) => {
                return Err(er);
            },
        }
        let body = match self.block_statement() {
            Ok(b) => b,
            Err(e) => {
                return Err(e);
            },
        };
        Ok(Stmt::Function { name, params, body: Box::new(body) })
    }

    /// The parenthesised parameter list after its `(`: empty before `)`,
    /// else one identifier and then `, name` repeated.
    #[verifier::rlimit(100)]
    #[verifier::spinoff_prover]
    fn params_list(&mut self) -> (r: Result<Vec<String>, ErrorInfo>)
        requires
            old(self).wf(),
        ensures
            final(self).wf(),
            final(self).toks == old(self).toks,
            old(self).pos <= final(self).pos,
            match r {
                Ok(ps) => spec_params_list(old(self).toks@, old(self).pos as int)
                    == Ok::<(Seq<Seq<char>>, int), FailV>(
                    (names_view(ps@), final(self).pos as int),
                ),
                Err(e) => spec_params_list(old(self).toks@, old(self).pos as int)
                    == Err::<(Seq<Seq<char>>, int), FailV>(e@),
            },
        decreases old(self).toks@.len() - old(self).pos, 1int,
    {
        let mut params: Vec<String> = Vec::new();
        assert(names_view(params@) =~= Seq::<Seq<char>>::empty());
        if !kind_eq(&self.peek().kind, &TokenKind::RParen) {
            let n0 = match self.get_identifier() {
                Ok(n) => n,
                Err(e) => {
                    return Err(e);
                },
            };
            let ghost n0v = n0@;
            params.push(n0);
            assert(names_view(params@) =~= seq![n0v]);
            match self.params_rest(&mut params) {
                Ok(_) => {},
                Err(e) => {
                    return Err(e);
                },
            }
        }
        Ok(params)
    }

    /// The parameters after the first one: `, name` repeated, appended to
    /// `params`.
    #[verifier::rlimit(100)]
    #[verifier::spinoff_prover]
    fn params_rest(&mut self, params: &mut Vec<String>) -> (r: Result<(), ErrorInfo>)
        requires
            old(self).wf(),
        ensures
            final(self).wf(),
            final(self).toks == old(self).toks,
            old(self).pos <= final(self).pos,
            match r {
                Ok(_) => spec_params_tail(
                    old(self).toks@,
                    old(self).pos as int,
                    names_view(old(params)@),
                ) == Ok::<(Seq<Seq<char>>, int), FailV>(
                    (names_view(final(params)@), final(self).pos as int),
                ),
                Err(e) => spec_params_tail(
                    old(self).toks@,
                    old(self).pos as int,
                    names_view(old(params)@),
                ) == Err::<(Seq<Seq<char>>, int), FailV>(e@),
            },
        decreases old(self).toks@.len() - old(self).pos, 0int,
    {
        if !kind_eq(&self.peek().kind, &TokenKind::Comma) {
            return Ok(());
        }
        self.advance();
        let n = match self.get_identifier() {
            Ok(n) => n,
            Err(e) => {
                return Err(e);
            },
        };
        assert(names_view(params@.push(n)) =~= names_view(params@).push(n@));
        params.push(n);
        self.params_rest(params)
    }

    /// Statement-level dispatch on the current token.
    #[verifier::rlimit(100)]
    #[verifier::spinoff_prover]
    fn statement(&mut self) -> (r: Result<Stmt, ErrorInfo>)
        requires
            old(self).wf(),
        ensures
            final(self).wf(),
            final(self).toks == old(self).toks,
            old(self).pos <= final(self).pos,
            match r {
                Ok(st) => {
                    &&& spec_statement(old(self).toks@, old(self).pos as int)
                        == Ok::<(StmtV, int), FailV>((st@, final(self).pos as int))
                    &&& old(self).pos < final(self).pos
                },
                Err(e) => spec_statement(old(self).toks@, old(self).pos as int)
                    == Err::<(StmtV, int), FailV>(e@),
            },
        decreases old(self).toks@.len() - old(self).pos, 14int,
    {
        let choice: u8 = match &self.peek().kind {
            TokenKind::Print => 0,
            TokenKind::If => 1,
            TokenKind::While => 2,
            TokenKind::For => 3,
            TokenKind::Return => 4,
            TokenKind::LBrace => 5,
            _ => 6,
        };
        if choice == 0 {
            self.print_statement()
        } else if choice == 1 {
            self.if_statement()
        } else if choice == 2 {
            self.while_statement()
        } else if choice == 3 {
            self.for_statement()
        } else if choice == 4 {
            self.return_statement()
        } else if choice == 5 {
            self.block_statement()
        } else {
            self.expression_statement()
        }
    }

    /// An expression followed by the statement separator.
    #[verifier::rlimit(100)]
    #[verifier::spinoff_prover]
    fn expression_statement(&mut self) -> (r: Result<Stmt, ErrorInfo>)
        requires
            old(self).wf(),
        ensures
            final(self).wf(),
            final(self).toks == old(self).toks,
            old(self).pos <= final(self).pos,
            match r {
                Ok(st) => {
                    &&& spec_expression_statement(old(self).toks@, old(self).pos as int)
                        == Ok::<(StmtV, int), FailV>((st@, final(self).pos as int))
                    &&& old(self).pos < final(self).pos
                },
                Err(e) => spec_expression_statement(old(self).toks@, old(self).pos as int)
                    == Err::<(StmtV, int), FailV>(e@),
            },
        decreases old(self).toks@.len() - old(self).pos, 13int,
    {
        let expr = match self.expression() {
            Ok(e) => e,
            Err(er) => {
                return Err(er);
            },
        };
        match self.should_be(TokenKind::Semicolon) {
            Ok(_) => {},
            Err(er) => {
                return Err(er);
            },
        }
        Ok(Stmt::Expr { expr })
    }

    /// `print` expression `;`.
    #[verifier::rlimit(100)]
    #[verifier::spinoff_prover]
    fn print_statement(&mut self) -> (r: Result<Stmt, ErrorInfo>)
        requires
            old(self).wf(),
        ensures
            final(self).wf(),
            final(self).toks == old(self).toks,
            old(self).pos <= final(self).pos,
            match r {
                Ok(st) => {
                    &&& spec_print_statement(old(self).toks@, old(self).pos as int)
                        == Ok::<(StmtV, int), FailV>((st@, final(self).pos as int))
                    &&& old(self).pos < final(self).pos
                },
                Err(e) => spec_print_statement(old(self).toks@, old(self).pos as int)
                    == Err::<(StmtV, int), FailV>(e@),
            },
        decreases old(self).toks@.len() - old(self).pos, 13int,
    {
        self.advance();
        let expr = match self.expression() {
            Ok(e) => e,
            Err(er) => {
                return Err(er);
            },
        };
        match self.should_be(TokenKind::Semicolon) {
            Ok(_) => {},
            Err(er) => {
                return Err(er);
            },
        }
        Ok(Stmt::Print { expr })
    }

    /// `return` with an optional value, then `;`.
    #[verifier::rlimit(100)]
    #[verifier::spinoff_prover]
    fn return_statement(&mut self) -> (r: Result<Stmt, ErrorInfo>)
        requires
            old(self).wf(),
        ensures
            final(self).wf(),
            final(self).toks == old(self).toks,
            old(self).pos <= final(self).pos,
            match r {
                Ok(st) => {
                    &&& spec_return_statement(old(self).toks@, old(self).pos as int)
                        == Ok::<(StmtV, int), FailV>((st@, final(self).pos as int))
                    &&& old(self).pos < final(self).pos
                },
                Err(e) => spec_return_statement(old(self).toks@, old(self).pos as int)
                    == Err::<(StmtV, int), FailV>(e@),
            },
        decreases old(self).toks@.len() - old(self).pos, 13int,
    {
        self.advance();
        let mut value: Option<Expr> = None;
        if !kind_eq(&self.peek().kind, &TokenKind::Semicolon) {
            let e = match self.expression() {
                Ok(e) => e,
                Err(er) => {
                    return Err(er);
                },
            };
            value = Some(e);
        }
        match self.should_be(TokenKind::Semicolon) {
            Ok(_) => {},
            Err(er) => {
                return Err(er);
            },
        }
        Ok(Stmt::Return { value })
    }

    /// `while (` condition `)` body.
    #[verifier::rlimit(100)]
    #[verifier::spinoff_prover]
    fn while_statement(&mut self) -> (r: Result<Stmt, ErrorInfo>)
        requires
            old(self).wf(),
        ensures
            final(self).wf(),
            final(self).toks == old(self).toks,
            old(self).pos <= final(self).pos,
            match r {
                Ok(st) => {
                    &&& spec_while_statement(old(self).toks@, old(self).pos as int)
                        == Ok::<(StmtV, int), FailV>((st@, final(self).pos as int))
                    &&& old(self).pos < final(self).pos
                },
                Err(e) => spec_while_statement(old(self).toks@, old(self).pos as int)
                    == Err::<(StmtV, int), FailV>(e@),
            },
        decreases old(self).toks@.len() - old(self).pos, 13int,
    {
        self.advance();
        match self.should_be(TokenKind::LParen) {
            Ok(_) => {},
            Err(er) => {
                return Err(er);
            },
        }
        let condition = match self.expression() {
            Ok(e) => e,
            Err(er) => {
                return Err(er);
            },
        };
        match self.should_be(TokenKind::RParen) {
            Ok(_) => {},
            Err(er) => {
                return Err(er);
            },
        }
        let body = match self.statement() {
            Ok(b) => b,
            Err(e) => {
                return Err(e);
            },
        };
        Ok(Stmt::While { condition, body: Box::new(body) })
    }

    /// `if (` condition `)` branch, optionally `else` branch.
    #[verifier::rlimit(100)]
    #[verifier::spinoff_prover]
    fn if_statement(&mut self) -> (r: Result<Stmt, ErrorInfo>)
        requires
            old(self).wf(),
        ensures
            final(self).wf(),
            final(self).toks == old(self).toks,
            old(self).pos <= final(self).pos,
            match r {
                Ok(st) => {
                    &&& spec_if_statement(old(self).toks@, old(self).pos as int)
                        == Ok::<(StmtV, int), FailV>((st@, final(self).pos as int))
                    &&& old(self).pos < final(self).pos
                },
                Err(e) => spec_if_statement(old(self).toks@, old(self).pos as int)
                    == Err::<(StmtV, int), FailV>(e@),
            },
        decreases old(self).toks@.len() - old(self).pos, 13int,
    {
        self.advance();
        match self.should_be(TokenKind::LParen) {
            Ok(_) => {},
            Err(er) => {
                return Err(er);
            },
        }
        let condition = match self.expression() {
            Ok(e) => e,
            Err(er) => {
                return Err(er);
            },
        };
        match self.should_be(TokenKind::RParen) {
            Ok(_) => {},
            Err(er) => {
                return Err(er);
            },
        }
        let truthy = match self.statement() {
            Ok(b) => b,
            Err(e) => {
                return Err(e);
            },
        };
        let mut falsy: Option<Box<Stmt>> = None;
        if kind_eq(&self.peek().kind, &TokenKind::Else) {
            self.advance();
            let f = match self.statement() {
                Ok(b) => b,
                Err(e) => {
                    return Err(e);
                },
            };
            falsy = Some(Box::new(f));
        }
        Ok(Stmt::If { condition, truthy: Box::new(truthy), falsy })
    }

    /// `for (` initializer? condition? `;` increment? `)` body.
    #[verifier::rlimit(100)]
    #[verifier::spinoff_prover]
    fn for_statement(&mut self) -> (r: Result<Stmt, ErrorInfo>)
        requires
            old(self).wf(),
        ensures
            final(self).wf(),
            final(self).toks == old(self).toks,
            old(self).pos <= final(self).pos,
            match r {
                Ok(st) => {
                    &&& spec_for_statement(old(self).toks@, old(self).pos as int)
                        == Ok::<(StmtV, int), FailV>((st@, final(self).pos as int))
                    &&& old(self).pos < final(self).pos
                },
                Err(e) => spec_for_statement(old(self).toks@, old(self).pos as int)
                    == Err::<(StmtV, int), FailV>(e@),
            },
        decreases old(self).toks@.len() - old(self).pos, 13int,
    {
        self.advance();
        match self.should_be(TokenKind::LParen) {
            Ok(_) => {},
            Err(er) => {
                return Err(er);
            },
        }
        let init_choice: u8 = match &self.peek().kind {
            TokenKind::Semicolon => 0,
            TokenKind::Let => 1,
            _ => 2,
        };
        let initializer: Option<Box<Stmt>> = if init_choice == 0 {
            None
        } else if init_choice == 1 {
            let st = match self.let_declaration() {
                Ok(st) => st,
                Err(e) => {
                    return Err(e);
                },
            };
            Some(Box::new(st))
        } else {
            let st = match self.expression_statement() {
                Ok(st) => st,
                Err(e) => {
                    return Err(e);
                },
            };
            Some(Box::new(st))
        };
        let condition: Option<Box<Expr>> = if kind_eq(&self.peek().kind, &TokenKind::Semicolon) {
            None
        } else {
            let c = match self.expression() {
                Ok(c) => c,
                Err(e) => {
                    return Err(e);
                },
            };
            Some(Box::new(c))
        };
        match self.should_be(TokenKind::Semicolon) {
            Ok(_) => {},
            Err(er) => {
                return Err(er);
            },
        }
        let increment: Option<Box<Expr>> = if kind_eq(&self.peek().kind, &TokenKind::RParen) {
            None
        } else {
            let i = match self.expression() {
                Ok(i) => i,
                Err(e) => {
                    return Err(e);
                },
            };
            Some(Box::new(i))
        };
        match self.should_be(TokenKind::RParen) {
            Ok(_) => {},
            Err(er) => {
                return Err(er);
            },
        }
        let body = match self.statement() {
            Ok(b) => b,
            Err(e) => {
                return Err(e);
            },
        };
        Ok(Stmt::For { initializer, condition, increment, body: Box::new(body) })
    }

    /// `{` declarations `}`.  A block whose `}` is missing at end-of-input
    /// fails with the `Syntax` diagnostic of the final brace check.
    #[verifier::loop_isolation(false)]
    #[verifier::rlimit(100)]
    #[verifier::spinoff_prover]
    fn block_statement(&mut self) -> (r: Result<Stmt, ErrorInfo>)
        requires
            old(self).wf(),
        ensures
            final(self).wf(),
            final(self).toks == old(self).toks,
            old(self).pos <= final(self).pos,
            match r {
                Ok(st) => {
                    &&& spec_block_statement(old(self).toks@, old(self).pos as int)
                        == Ok::<(StmtV, int), FailV>((st@, final(self).pos as int))
                    &&& old(self).pos < final(self).pos
                },
                Err(e) => spec_block_statement(old(self).toks@, old(self).pos as int)
                    == Err::<(StmtV, int), FailV>(e@),
            },
        decreases old(self).toks@.len() - old(self).pos, 13int,
    {
        match self.should_be(TokenKind::LBrace) {
            Ok(_) => {},
            Err(er) => {
                return Err(er);
            },
        }
        let ghost entry = self.pos as int;
        let mut stmts: Vec<Stmt> = Vec::new();
        while !kind_eq(&self.peek().kind, &TokenKind::RBrace) && !kind_eq(
            &self.peek().kind,
            &TokenKind::Eof,
        )
            invariant
                self.wf(),
                self.toks == old(self).toks,
                old(self).pos < self.pos <= self.toks@.len(),
                spec_block_tail(self.toks@, self.pos as int, stmts_view(stmts@))
                    == spec_block_tail(self.toks@, entry, Seq::empty()),
            decreases self.toks@.len() - self.pos,
        {
            let st = match self.declaration() {
                Ok(st) => st,
                Err(e) => {
                    return Err(e);
                },
            };
            proof {
                lemma_stmts_view_push(stmts@, st);
            }
            stmts.push(st);
        }
        match self.should_be(TokenKind::RBrace) {
            Ok(_) => {},
            Err(er) => {
                return Err(er);
            },
        }
        Ok(Stmt::Block { stmt: stmts })
    }
}

impl Parser {
    /// An expression: the assignment level.
    #[verifier::rlimit(100)]
    #[verifier::spinoff_prover]
    fn expression(&mut self) -> (r: Result<Expr, ErrorInfo>)
        requires
            old(self).wf(),
        ensures
            final(self).wf(),
            final(self).toks == old(self).toks,
            old(self).pos <= final(self).pos,
            match r {
                Ok(e) => {
                    &&& spec_expression(old(self).toks@, old(self).pos as int)
                        == Ok::<(ExprV, int), FailV>((e@, final(self).pos as int))
                    &&& old(self).pos < final(self).pos
                },
                Err(er) => spec_expression(old(self).toks@, old(self).pos as int)
                    == Err::<(ExprV, int), FailV>(er@),
            },
        decreases old(self).toks@.len() - old(self).pos, 11int,
    {
        self.assignment()
    }

    /// Assignment level: see [`spec_assignment`] for the shape.
    #[verifier::rlimit(100)]
    #[verifier::spinoff_prover]
    fn assignment(&mut self) -> (r: Result<Expr, ErrorInfo>)
        requires
            old(self).wf(),
        ensures
            final(self).wf(),
            final(self).toks == old(self).toks,
            old(self).pos <= final(self).pos,
            match r {
                Ok(e) => {
                    &&& spec_assignment(old(self).toks@, old(self).pos as int)
                        == Ok::<(ExprV, int), FailV>((e@, final(self).pos as int))
                    &&& old(self).pos < final(self).pos
                },
                Err(er) => spec_assignment(old(self).toks@, old(self).pos as int)
                    == Err::<(ExprV, int), FailV>(er@),
            },
        decreases old(self).toks@.len() - old(self).pos, 10int,
    {
        let left = match self.or() {
            Ok(e) => e,
            Err(er) => {
                return Err(er);
            },
        };
        let op_found: bool = match &self.peek().kind {
            TokenKind::Assign => true,
            TokenKind::PlusEq => true,
            TokenKind::SubEq => true,
            TokenKind::ModEq => true,
            TokenKind::DivEq => true,
            TokenKind::AndEq => true,
            TokenKind::OrEq => true,
            TokenKind::MulEq => true,
            TokenKind::XorEq => true,
            _ => false,
        };
        if op_found {
            self.assignment_rhs(left)
        } else {
            Ok(left)
        }
    }

    /// The right side of an assignment, after its operator, combined with
    /// the already-parsed left side.
    #[verifier::rlimit(100)]
    #[verifier::spinoff_prover]
    fn assignment_rhs(&mut self, left: Expr) -> (r: Result<Expr, ErrorInfo>)
        requires
            old(self).wf(),
            is_assign_op(at(old(self).toks@, old(self).pos as int).kind),
        ensures
            final(self).wf(),
            final(self).toks == old(self).toks,
            old(self).pos <= final(self).pos,
            match r {
                Ok(e) => {
                    &&& spec_assign_finish(old(self).toks@, old(self).pos as int, left@)
                        == Ok::<(ExprV, int), FailV>((e@, final(self).pos as int))
                    &&& old(self).pos < final(self).pos
                },
                Err(er) => spec_assign_finish(old(self).toks@, old(self).pos as int, left@)
                    == Err::<(ExprV, int), FailV>(er@),
            },
        decreases old(self).toks@.len() - old(self).pos, 0int,
    {
        self.advance();
        let right = match self.or() {
            Ok(e) => e,
            Err(er) => {
                return Err(er);
            },
        };
        match left {
            Expr::Variable(name) => Ok(Expr::Assign { name, value: Box::new(right) }),
            Expr::Get { object, name } => Ok(
                Expr::SetProp { object, name, value: Box::new(right) },
            ),
            _ => {
                Err(
                    self.error_here(
                        Error::Parse(String::from_str("Invalid assignment target")),
                    ),
                )
            },
        }
    }

    /// Logical-or level.
    #[verifier::loop_isolation(false)]
    #[verifier::rlimit(100)]
    #[verifier::spinoff_prover]
    fn or(&mut self) -> (r: Result<Expr, ErrorInfo>)
        requires
            old(self).wf(),
        ensures
            final(self).wf(),
            final(self).toks == old(self).toks,
            old(self).pos <= final(self).pos,
            match r {
                Ok(e) => {
                    &&& spec_or(old(self).toks@, old(self).pos as int)
                        == Ok::<(ExprV, int), FailV>((e@, final(self).pos as int))
                    &&& old(self).pos < final(self).pos
                },
                Err(er) => spec_or(old(self).toks@, old(self).pos as int)
                    == Err::<(ExprV, int), FailV>(er@),
            },
        decreases old(self).toks@.len() - old(self).pos, 9int,
    {
        let mut left = match self.and() {
            Ok(e) => e,
            Err(er) => {
                return Err(er);
            },
        };
        loop
            invariant
                self.wf(),
                self.toks == old(self).toks,
                old(self).pos < self.pos <= self.toks@.len(),
                spec_or_tail(self.toks@, self.pos as int, left@)
                    == spec_or(old(self).toks@, old(self).pos as int),
            decreases self.toks@.len() - self.pos,
        {
            let op_opt: Option<TokenKind> = match &self.peek().kind {
                TokenKind::Or => Some(TokenKind::Or),
                _ => None,
            };
            match op_opt {
                None => {
                    return Ok(left);
                },
                Some(op) => {
                    self.advance();
                    let right = match self.and() {
                        Ok(e) => e,
                        Err(er) => {
                            return Err(er);
                        },
                    };
                    left = Expr::Logical { left: Box::new(left), op, right: Box::new(right) };
                },
            }
        }
    }

    /// Logical-and level.
    #[verifier::loop_isolation(false)]
    #[verifier::rlimit(100)]
    #[verifier::spinoff_prover]
    fn and(&mut self) -> (r: Result<Expr, ErrorInfo>)
        requires
            old(self).wf(),
        ensures
            final(self).wf(),
            final(self).toks == old(self).toks,
            old(self).pos <= final(self).pos,
            match r {
                Ok(e) => {
                    &&& spec_and(old(self).toks@, old(self).pos as int)
                        == Ok::<(ExprV, int), FailV>((e@, final(self).pos as int))
                    &&& old(self).pos < final(self).pos
                },
                Err(er) => spec_and(old(self).toks@, old(self).pos as int)
                    == Err::<(ExprV, int), FailV>(er@),
            },
        decreases old(self).toks@.len() - old(self).pos, 8int,
    {
        let mut left = match self.equality() {
            Ok(e) => e,
            Err(er) => {
                return Err(er);
            },
        };
        loop
            invariant
                self.wf(),
                self.toks == old(self).toks,
                old(self).pos < self.pos <= self.toks@.len(),
                spec_and_tail(self.toks@, self.pos as int, left@)
                    == spec_and(old(self).toks@, old(self).pos as int),
            decreases self.toks@.len() - self.pos,
        {
            let op_opt: Option<TokenKind> = match &self.peek().kind {
                TokenKind::LAnd => Some(TokenKind::LAnd),
                _ => None,
            };
            match op_opt {
                None => {
                    return Ok(left);
                },
                Some(op) => {
                    self.advance();
                    let right = match self.equality() {
                        Ok(e) => e,
                        Err(er) => {
                            return Err(er);
                        },
                    };
                    left = Expr::Logical { left: Box::new(left), op, right: Box::new(right) };
                },
            }
        }
    }

    /// Equality level: `==` and `!=`.
    #[verifier::loop_isolation(false)]
    #[verifier::rlimit(100)]
    #[verifier::spinoff_prover]
    fn equality(&mut self) -> (r: Result<Expr, ErrorInfo>)
        requires
            old(self).wf(),
        ensures
            final(self).wf(),
            final(self).toks == old(self).toks,
            old(self).pos <= final(self).pos,
            match r {
                Ok(e) => {
                    &&& spec_equality(old(self).toks@, old(self).pos as int)
                        == Ok::<(ExprV, int), FailV>((e@, final(self).pos as int))
                    &&& old(self).pos < final(self).pos
                },
                Err(er) => spec_equality(old(self).toks@, old(self).pos as int)
                    == Err::<(ExprV, int), FailV>(er@),
            },
        decreases old(self).toks@.len() - old(self).pos, 7int,
    {
        let mut left = match self.comparison() {
            Ok(e) => e,
            Err(er) => {
                return Err(er);
            },
        };
        loop
            invariant
                self.wf(),
                self.toks == old(self).toks,
                old(self).pos < self.pos <= self.toks@.len(),
                spec_equality_tail(self.toks@, self.pos as int, left@)
                    == spec_equality(old(self).toks@, old(self).pos as int),
            decreases self.toks@.len() - self.pos,
        {
            let op_opt: Option<TokenKind> = match &self.peek().kind {
                TokenKind::Equal => Some(TokenKind::Equal),
                TokenKind::NotEqual => Some(TokenKind::NotEqual),
                _ => None,
            };
            match op_opt {
                None => {
                    return Ok(left);
                },
                Some(op) => {
                    self.advance();
                    let right = match self.comparison() {
                        Ok(e) => e,
                        Err(er) => {
                            return Err(er);
                        },
                    };
                    left = Expr::Logical { left: Box::new(left), op, right: Box::new(right) };
                },
            }
        }
    }

    /// Comparison level: `> >= < <=`.
    #[verifier::loop_isolation(false)]
    #[verifier::rlimit(100)]
    #[verifier::spinoff_prover]
    fn comparison(&mut self) -> (r: Result<Expr, ErrorInfo>)
        requires
            old(self).wf(),
        ensures
            final(self).wf(),
            final(self).toks == old(self).toks,
            old(self).pos <= final(self).pos,
            match r {
                Ok(e) => {
                    &&& spec_comparison(old(self).toks@, old(self).pos as int)
                        == Ok::<(ExprV, int), FailV>((e@, final(self).pos as int))
                    &&& old(self).pos < final(self).pos
                },
                Err(er) => spec_comparison(old(self).toks@, old(self).pos as int)
                    == Err::<(ExprV, int), FailV>(er@),
            },
        decreases old(self).toks@.len() - old(self).pos, 6int,
    {
        let mut left = match self.term() {
            Ok(e) => e,
            Err(er) => {
                return Err(er);
            },
        };
        loop
            invariant
                self.wf(),
                self.toks == old(self).toks,
                old(self).pos < self.pos <= self.toks@.len(),
                spec_comparison_tail(self.toks@, self.pos as int, left@)
                    == spec_comparison(old(self).toks@, old(self).pos as int),
            decreases self.toks@.len() - self.pos,
        {
            let op_opt: Option<TokenKind> = match &self.peek().kind {
                TokenKind::Greater => Some(TokenKind::Greater),
                TokenKind::GreaterEqual => Some(TokenKind::GreaterEqual),
                TokenKind::Less => Some(TokenKind::Less),
                TokenKind::LessEqual => Some(TokenKind::LessEqual),
                _ => None,
            };
            match op_opt {
                None => {
                    return Ok(left);
                },
                Some(op) => {
                    self.advance();
                    let right = match self.term() {
                        Ok(e) => e,
                        Err(er) => {
                            return Err(er);
                        },
                    };
                    left = Expr::Logical { left: Box::new(left), op, right: Box::new(right) };
                },
            }
        }
    }

    /// Additive/bitwise level: `+ - or and xor` as binary operators.
    #[verifier::loop_isolation(false)]
    #[verifier::rlimit(100)]
    #[verifier::spinoff_prover]
    fn term(&mut self) -> (r: Result<Expr, ErrorInfo>)
        requires
            old(self).wf(),
        ensures
            final(self).wf(),
            final(self).toks == old(self).toks,
            old(self).pos <= final(self).pos,
            match r {
                Ok(e) => {
                    &&& spec_term(old(self).toks@, old(self).pos as int)
                        == Ok::<(ExprV, int), FailV>((e@, final(self).pos as int))
                    &&& old(self).pos < final(self).pos
                },
                Err(er) => spec_term(old(self).toks@, old(self).pos as int)
                    == Err::<(ExprV, int), FailV>(er@),
            },
        decreases old(self).toks@.len() - old(self).pos, 5int,
    {
        let mut left = match self.factor() {
            Ok(e) => e,
            Err(er) => {
                return Err(er);
            },
        };
        loop
            invariant
                self.wf(),
                self.toks == old(self).toks,
                old(self).pos < self.pos <= self.toks@.len(),
                spec_term_tail(self.toks@, self.pos as int, left@)
                    == spec_term(old(self).toks@, old(self).pos as int),
            decreases self.toks@.len() - self.pos,
        {
            let op_opt: Option<TokenKind> = match &self.peek().kind {
                TokenKind::Plus => Some(TokenKind::Plus),
                TokenKind::Minus => Some(TokenKind::Minus),
                TokenKind::Or => Some(TokenKind::Or),
                TokenKind::And => Some(TokenKind::And),
                TokenKind::Xor => Some(TokenKind::Xor),
                _ => None,
            };
            match op_opt {
                None => {
                    return Ok(left);
                },
                Some(op) => {
                    self.advance();
                    let right = match self.factor() {
                        Ok(e) => e,
                        Err(er) => {
                            return Err(er);
                        },
                    };
                    left = Expr::Binary { left: Box::new(left), op, right: Box::new(right) };
                },
            }
        }
    }

    /// Multiplicative level: `*` and `/`.
    #[verifier::loop_isolation(false)]
    #[verifier::rlimit(100)]
    #[verifier::spinoff_prover]
    fn factor(&mut self) -> (r: Result<Expr, ErrorInfo>)
        requires
            old(self).wf(),
        ensures
            final(self).wf(),
            final(self).toks == old(self).toks,
            old(self).pos <= final(self).pos,
            match r {
                Ok(e) => {
                    &&& spec_factor(old(self).toks@, old(self).pos as int)
                        == Ok::<(ExprV, int), FailV>((e@, final(self).pos as int))
                    &&& old(self).pos < final(self).pos
                },
                Err(er) => spec_factor(old(self).toks@, old(self).pos as int)
                    == Err::<(ExprV, int), FailV>(er@),
            },
        decreases old(self).toks@.len() - old(self).pos, 4int,
    {
        let mut left = match self.unary() {
            Ok(e) => e,
            Err(er) => {
                return Err(er);
            },
        };
        loop
            invariant
                self.wf(),
                self.toks == old(self).toks,
                old(self).pos < self.pos <= self.toks@.len(),
                spec_factor_tail(self.toks@, self.pos as int, left@)
                    == spec_factor(old(self).toks@, old(self).pos as int),
            decreases self.toks@.len() - self.pos,
        {
            let op_opt: Option<TokenKind> = match &self.peek().kind {
                TokenKind::Times => Some(TokenKind::Times),
                TokenKind::Divide => Some(TokenKind::Divide),
                _ => None,
            };
            match op_opt {
                None => {
                    return Ok(left);
                },
                Some(op) => {
                    self.advance();
                    let right = match self.unary() {
                        Ok(e) => e,
                        Err(er) => {
                            return Err(er);
                        },
                    };
                    left = Expr::Binary { left: Box::new(left), op, right: Box::new(right) };
                },
            }
        }
    }

    /// Unary level: `- + not`, right-associative through self-recursion.
    #[verifier::rlimit(100)]
    #[verifier::spinoff_prover]
    fn unary(&mut self) -> (r: Result<Expr, ErrorInfo>)
        requires
            old(self).wf(),
        ensures
            final(self).wf(),
            final(self).toks == old(self).toks,
            old(self).pos <= final(self).pos,
            match r {
                Ok(e) => {
                    &&& spec_unary(old(self).toks@, old(self).pos as int)
                        == Ok::<(ExprV, int), FailV>((e@, final(self).pos as int))
                    &&& old(self).pos < final(self).pos
                },
                Err(er) => spec_unary(old(self).toks@, old(self).pos as int)
                    == Err::<(ExprV, int), FailV>(er@),
            },
        decreases old(self).toks@.len() - old(self).pos, 3int,
    {
        let op_opt: Option<TokenKind> = match &self.peek().kind {
            TokenKind::Minus => Some(TokenKind::Minus),
            TokenKind::Not => Some(TokenKind::Not),
            TokenKind::Plus => Some(TokenKind::Plus),
            _ => None,
        };
        match op_opt {
            Some(op) => {
                self.advance();
                let right = match self.unary() {
                    Ok(e) => e,
                    Err(er) => {
                        return Err(er);
                    },
                };
                Ok(Expr::Unary { op, right: Box::new(right) })
            },
            None => self.call(),
        }
    }

    /// The comma-separated arguments of a call, after its `(`: each is
    /// recognised as an expression and dropped, mirroring
    /// [`spec_args_tail`]; the closing `)` is left in place.
    #[verifier::rlimit(100)]
    #[verifier::spinoff_prover]
    #[verifier::loop_isolation(false)]
    fn args_tail(&mut self) -> (r: Result<(), ErrorInfo>)
        requires
            old(self).wf(),
        ensures
            final(self).wf(),
            final(self).toks == old(self).toks,
            old(self).pos <= final(self).pos,
            match r {
                Ok(_) => {
                    &&& spec_args_tail(old(self).toks@, old(self).pos as int)
                        == Ok::<int, FailV>(final(self).pos as int)
                    &&& old(self).pos < final(self).pos
                },
                Err(er) => spec_args_tail(old(self).toks@, old(self).pos as int)
                    == Err::<int, FailV>(er@),
            },
        decreases old(self).toks@.len() - old(self).pos, 12int,
    {
        let _first = match self.expression() {
            Ok(e) => e,
            Err(er) => {
                return Err(er);
            },
        };
        loop
            invariant
                self.wf(),
                self.toks == old(self).toks,
                old(self).pos < self.pos <= self.toks@.len(),
                spec_args_rest(self.toks@, self.pos as int)
                    == spec_args_tail(old(self).toks@, old(self).pos as int),
            decreases self.toks@.len() - self.pos,
        {
            if !kind_eq(&self.peek().kind, &TokenKind::Comma) {
                return Ok(());
            }
            self.advance();
            let _arg = match self.expression() {
                Ok(e) => e,
                Err(er) => {
                    return Err(er);
                },
            };
        }
    }

    /// Call/member level: a primary, then postfix argument lists (whose
    /// arguments are dropped and whose `)` is left to the surrounding
    /// context) and `.name` accesses.
    #[verifier::loop_isolation(false)]
    #[verifier::rlimit(100)]
    #[verifier::spinoff_prover]
    fn call(&mut self) -> (r: Result<Expr, ErrorInfo>)
        requires
            old(self).wf(),
        ensures
            final(self).wf(),
            final(self).toks == old(self).toks,
            old(self).pos <= final(self).pos,
            match r {
                Ok(e) => {
                    &&& spec_call(old(self).toks@, old(self).pos as int)
                        == Ok::<(ExprV, int), FailV>((e@, final(self).pos as int))
                    &&& old(self).pos < final(self).pos
                },
                Err(er) => spec_call(old(self).toks@, old(self).pos as int)
                    == Err::<(ExprV, int), FailV>(er@),
            },
        decreases old(self).toks@.len() - old(self).pos, 2int,
    {
        let mut expr = match self.primary() {
            Ok(e) => e,
            Err(er) => {
                return Err(er);
            },
        };
        loop
            invariant
                self.wf(),
                self.toks == old(self).toks,
                old(self).pos < self.pos <= self.toks@.len(),
                spec_call_tail(self.toks@, self.pos as int, expr@)
                    == spec_call(old(self).toks@, old(self).pos as int),
            decreases self.toks@.len() - self.pos,
        {
            let choice: u8 = match &self.peek().kind {
                TokenKind::LParen => 0,
                TokenKind::Dot => 1,
                _ => 2,
            };
            if choice == 0 {
                self.advance();
                if !kind_eq(&self.peek().kind, &TokenKind::RParen) {
                    match self.args_tail() {
                        Ok(_) => {},
                        Err(er) => {
                            return Err(er);
                        },
                    }
                }
            } else if choice == 1 {
                self.advance();
                let name = match self.get_identifier() {
                    Ok(n) => n,
                    Err(er) => {
                        return Err(er);
                    },
                };
                expr = Expr::Get { object: Box::new(expr), name };
            } else {
                return Ok(expr);
            }
        }
    }

    /// Primary expressions: literals, variables, grouping, `super`
    /// references and `this`; anything else consumes the offending token and
    /// fails with "Expect expression." at the token after it.
    #[verifier::rlimit(100)]
    #[verifier::spinoff_prover]
    fn primary(&mut self) -> (r: Result<Expr, ErrorInfo>)
        requires
            old(self).wf(),
        ensures
            final(self).wf(),
            final(self).toks == old(self).toks,
            old(self).pos <= final(self).pos,
            match r {
                Ok(e) => {
                    &&& spec_primary(old(self).toks@, old(self).pos as int)
                        == Ok::<(ExprV, int), FailV>((e@, final(self).pos as int))
                    &&& old(self).pos < final(self).pos
                },
                Err(er) => spec_primary(old(self).toks@, old(self).pos as int)
                    == Err::<(ExprV, int), FailV>(er@),
            },
        decreases old(self).toks@.len() - old(self).pos, 1int,
    {
        let simple: Option<Expr> = match &self.peek().kind {
            TokenKind::True => Some(Expr::Literal(LiteralType::Boolean(true))),
            TokenKind::False => Some(Expr::Literal(LiteralType::Boolean(false))),
            TokenKind::Number(n) => Some(Expr::Literal(LiteralType::Number(*n))),
            TokenKind::Str(x) => Some(Expr::Literal(LiteralType::Str(x.clone()))),
            TokenKind::Identifier(x) => Some(Expr::Variable(x.clone())),
            TokenKind::This => Some(Expr::Variable(String::from_str("this"))),
            _ => None,
        };
        match simple {
            Some(e) => {
                self.advance();
                return Ok(e);
            },
            None => {},
        }
        if kind_eq(&self.peek().kind, &TokenKind::LParen) {
            self.advance();
            let e = match self.expression() {
                Ok(e) => e,
                Err(er) => {
                    return Err(er);
                },
            };
            match self.should_be(TokenKind::RParen) {
                Ok(_) => {},
                Err(er) => {
                    return Err(er);
                },
            }
            return Ok(Expr::Grouping(Box::new(e)));
        }
        if kind_eq(&self.peek().kind, &TokenKind::Super) {
            self.advance();
            match self.should_be(TokenKind::Dot) {
                Ok(_) => {},
                Err(er) => {
                    return Err(er);
                },
            }
            let name = match self.get_identifier() {
                Ok(n) => n,
                Err(er) => {
                    return Err(er);
                },
            };
            return Ok(Expr::Super { name });
        }
        self.advance();
        Err(self.error_here(Error::Parse(String::from_str("Expect expression."))))
    }
}

} // verus!
